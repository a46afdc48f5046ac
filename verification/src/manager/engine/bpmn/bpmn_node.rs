//! The kinds of BPMN node and what every node offers.

use vstd::prelude::*;
use crate::manager::engine::bpmn::bpmn_process::{BpmnProcess, flows_from, flows_to};
use crate::manager::engine::bpmn::sequence_flow::SequenceFlow;

verus! {

/// The kinds of node that a BPMN process can hold.
#[derive(Copy, Clone, Debug, PartialEq, Eq, Structural)]
pub enum NodeType {
    StartEvent,
    EndEvent,
    UserTask,
    ServiceTask,
    ExclusiveGateway,
    ParallelGateway,
}

/// The name of each kind of node.
pub open spec fn node_type_name(t: NodeType) -> Seq<char> {
    match t {
        NodeType::StartEvent => "StartEvent"@,
        NodeType::EndEvent => "EndEvent"@,
        NodeType::UserTask => "UserTask"@,
        NodeType::ServiceTask => "ServiceTask"@,
        NodeType::ExclusiveGateway => "ExclusiveGateway"@,
        NodeType::ParallelGateway => "ParallelGateway"@,
    }
}

/// The view of an optional string.
pub open spec fn opt_view(o: Option<String>) -> Option<Seq<char>> {
    match o {
        Some(s) => Some(s@),
        None => None,
    }
}

impl NodeType {
    /// The name of this kind of node, as it is written in a BPMN document.
    pub fn name(&self) -> (r: String)
        ensures
            r@ == node_type_name(*self),
    {
        match self {
            NodeType::StartEvent => String::from_str("StartEvent"),
            NodeType::EndEvent => String::from_str("EndEvent"),
            NodeType::UserTask => String::from_str("UserTask"),
            NodeType::ServiceTask => String::from_str("ServiceTask"),
            NodeType::ExclusiveGateway => String::from_str("ExclusiveGateway"),
            NodeType::ParallelGateway => String::from_str("ParallelGateway"),
        }
    }
}

/// A copy of an optional string.
pub fn copy_opt(o: &Option<String>) -> (r: Option<String>)
    ensures
        r == *o,
{
    match o {
        Some(s) => Some(s.clone()),
        None => None,
    }
}

/// A copy of a list of strings.
pub fn copy_strings(v: &Vec<String>) -> (r: Vec<String>)
    ensures
        r@ == v@,
{
    let mut r: Vec<String> = Vec::new();
    let mut i: usize = 0;
    while i < v.len()
        invariant
            i <= v@.len(),
            r@ == v@.take(i as int),
        decreases v@.len() - i,
    {
        r.push(v[i].clone());
        assert(v@.take(i + 1) =~= v@.take(i as int).push(v@[i as int]));
        i = i + 1;
    }
    assert(v@.take(v@.len() as int) =~= v@);
    r
}

/// What every node of a BPMN process offers: its identity, kind and labels,
/// the users and groups that may act on it, and the sequence flows that leave
/// and enter it.
pub trait BpmnNode {
    spec fn view_id(&self) -> Seq<char>;

    spec fn view_node_type(&self) -> NodeType;

    spec fn view_name(&self) -> Option<Seq<char>>;

    spec fn view_from_key(&self) -> Option<Seq<char>>;

    spec fn view_description(&self) -> Option<Seq<char>>;

    spec fn view_candidate_groups(&self) -> Seq<String>;

    spec fn view_candidate_users(&self) -> Seq<String>;

    fn get_id(&self) -> (r: String)
        ensures
            r@ == self.view_id(),
    ;

    fn get_node_type(&self) -> (r: NodeType)
        ensures
            r == self.view_node_type(),
    ;

    fn get_name(&self) -> (r: Option<String>)
        ensures
            opt_view(r) == self.view_name(),
    ;

    fn get_from_key(&self) -> (r: Option<String>)
        ensures
            opt_view(r) == self.view_from_key(),
    ;

    fn get_description(&self) -> (r: Option<String>)
        ensures
            opt_view(r) == self.view_description(),
    ;

    fn candidate_groups(&self) -> (r: Vec<String>)
        ensures
            r@ == self.view_candidate_groups(),
    ;

    fn candidate_users(&self) -> (r: Vec<String>)
        ensures
            r@ == self.view_candidate_users(),
    ;

    /// The sequence flows of `process` that leave this node, in the order of
    /// the process's elements.
    fn out_flows(&self, process: &BpmnProcess) -> (r: Vec<SequenceFlow>)
        ensures
            r@ == flows_from(process.elements@, self.view_id()),
    {
        let id = self.get_id();
        process.flows_from_node(id.as_str())
    }

    /// The sequence flows of `process` that enter this node, in the order of
    /// the process's elements.
    fn in_flows(&self, process: &BpmnProcess) -> (r: Vec<SequenceFlow>)
        ensures
            r@ == flows_to(process.elements@, self.view_id()),
    {
        let id = self.get_id();
        process.flows_to_node(id.as_str())
    }
}

} // verus!
