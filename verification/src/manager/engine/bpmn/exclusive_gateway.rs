//! A gateway that takes one of its outgoing flows.

use vstd::prelude::*;
use crate::manager::engine::bpmn::bpmn_node::{BpmnNode, NodeType, copy_opt, opt_view};

verus! {

/// A gateway that takes one of its outgoing flows.
#[derive(Debug)]
pub struct ExclusiveGateway {
    pub id: String,
    pub description: Option<String>,
}

impl Clone for ExclusiveGateway {
    fn clone(&self) -> (r: Self)
        ensures
            r == *self,
    {
        ExclusiveGateway {
            id: self.id.clone(),
            description: copy_opt(&self.description),
        }
    }
}

impl ExclusiveGateway {
    pub fn new(id: String, description: Option<String>) -> (r: Self)
        ensures
            r.id == id,
            r.description == description,
    {
        ExclusiveGateway { id, description }
    }
}

impl BpmnNode for ExclusiveGateway {
    open spec fn view_id(&self) -> Seq<char> {
        self.id@
    }

    open spec fn view_node_type(&self) -> NodeType {
        NodeType::ExclusiveGateway
    }

    open spec fn view_name(&self) -> Option<Seq<char>> {
        None
    }

    open spec fn view_from_key(&self) -> Option<Seq<char>> {
        None
    }

    open spec fn view_description(&self) -> Option<Seq<char>> {
        opt_view(self.description)
    }

    open spec fn view_candidate_groups(&self) -> Seq<String> {
        Seq::empty()
    }

    open spec fn view_candidate_users(&self) -> Seq<String> {
        Seq::empty()
    }

    fn get_id(&self) -> (r: String) {
        self.id.clone()
    }

    fn get_node_type(&self) -> (r: NodeType) {
        NodeType::ExclusiveGateway
    }

    fn get_name(&self) -> (r: Option<String>) {
        None
    }

    fn get_from_key(&self) -> (r: Option<String>) {
        None
    }

    fn get_description(&self) -> (r: Option<String>) {
        copy_opt(&self.description)
    }

    fn candidate_groups(&self) -> (r: Vec<String>) {
        Vec::new()
    }

    fn candidate_users(&self) -> (r: Vec<String>) {
        Vec::new()
    }
}

} // verus!
