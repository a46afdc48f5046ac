//! The values that callers hand the engine to search for deployments and
//! process definitions, and that it hands back for a BPMN model.

use vstd::prelude::*;
use crate::manager::engine::bpmn::bpmn_node::opt_view;
use crate::text::{lemma_trim_idempotent, trim, trim_str};

verus! {

/// A BPMN model as the engine reports it.
#[derive(Debug)]
pub struct BpmnResultDto {
    pub bpmn_id: String,
    pub bpmn_key: String,
    pub bpmn_name: String,
    pub xml: Option<String>,
}

/// The filters of a search for deployments; a filter that is not set is not
/// applied.
#[derive(Debug)]
pub struct DeploymentDto {
    pub id: Option<String>,
    pub name: Option<String>,
    pub key: Option<String>,
    pub company_id: Option<String>,
    pub deployer_id: Option<String>,
    pub deploy_time_from: Option<i64>,
    pub deploy_time_to: Option<i64>,
}

/// The filters of a search for process definitions; a filter that is not set
/// is not applied.
#[derive(Debug)]
pub struct ProcdefDto {
    pub id: Option<String>,
    pub name: Option<String>,
    pub key: Option<String>,
    pub deployment_id: Option<String>,
    pub deployer_id: Option<String>,
    pub deployer_name: Option<String>,
    pub company_id: Option<String>,
    pub company_name: Option<String>,
}

/// An optional text, trimmed where it is set.
pub open spec fn opt_trim(o: Option<Seq<char>>) -> Option<Seq<char>> {
    match o {
        Some(s) => Some(trim(s)),
        None => None,
    }
}

/// The filters of a search for process definitions, as texts.
pub open spec fn procdef_filters(d: ProcdefDto) -> Seq<Option<Seq<char>>> {
    seq![
        opt_view(d.id),
        opt_view(d.name),
        opt_view(d.key),
        opt_view(d.deployment_id),
        opt_view(d.deployer_id),
        opt_view(d.deployer_name),
        opt_view(d.company_id),
        opt_view(d.company_name),
    ]
}

fn trim_opt(o: &mut Option<String>)
    ensures
        opt_view(*final(o)) == opt_trim(opt_view(*old(o))),
{
    if let Some(v) = o {
        let t = trim_str(v.as_str());
        *o = Some(t);
    }
}

impl ProcdefDto {
    /// Trims every filter that is set, and leaves unset filters unset.
    pub fn trim(&mut self)
        ensures
            procdef_filters(*final(self)) == procdef_filters(*old(self)).map_values(|f: Option<Seq<char>>| opt_trim(f)),
    {
        trim_opt(&mut self.id);
        trim_opt(&mut self.name);
        trim_opt(&mut self.key);
        trim_opt(&mut self.deployment_id);
        trim_opt(&mut self.deployer_id);
        trim_opt(&mut self.deployer_name);
        trim_opt(&mut self.company_id);
        trim_opt(&mut self.company_name);
        assert(procdef_filters(*self) =~= procdef_filters(*old(self)).map_values(|f: Option<Seq<char>>| opt_trim(f)));
    }
}

/// Trimming the filters twice gives what trimming them once gives.
pub proof fn lemma_procdef_trim_idempotent(filters: Seq<Option<Seq<char>>>)
    ensures
        filters.map_values(|f: Option<Seq<char>>| opt_trim(f)).map_values(|f: Option<Seq<char>>| opt_trim(f))
            == filters.map_values(|f: Option<Seq<char>>| opt_trim(f)),
{
    let once = filters.map_values(|f: Option<Seq<char>>| opt_trim(f));
    let twice = once.map_values(|f: Option<Seq<char>>| opt_trim(f));
    assert forall|i: int| 0 <= i < filters.len() implies twice[i] == once[i] by {
        if let Some(s) = filters[i] {
            lemma_trim_idempotent(s);
        }
    }
    assert(twice =~= once);
}

} // verus!
