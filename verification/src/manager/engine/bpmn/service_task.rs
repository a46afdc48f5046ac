//! A task that the engine carries out itself.

use vstd::prelude::*;
use crate::manager::engine::bpmn::bpmn_node::{BpmnNode, NodeType, copy_opt, opt_view};

verus! {

/// A task that the engine carries out itself.
#[derive(Debug)]
pub struct ServiceTask {
    pub id: String,
    pub name: Option<String>,
    pub description: Option<String>,
}

impl Clone for ServiceTask {
    fn clone(&self) -> (r: Self)
        ensures
            r == *self,
    {
        ServiceTask {
            id: self.id.clone(),
            name: copy_opt(&self.name),
            description: copy_opt(&self.description),
        }
    }
}

impl ServiceTask {
    pub fn new(id: String, name: Option<String>, description: Option<String>) -> (r: Self)
        ensures
            r.id == id,
            r.name == name,
            r.description == description,
    {
        ServiceTask { id, name, description }
    }
}

impl BpmnNode for ServiceTask {
    open spec fn view_id(&self) -> Seq<char> {
        self.id@
    }

    open spec fn view_node_type(&self) -> NodeType {
        NodeType::ServiceTask
    }

    open spec fn view_name(&self) -> Option<Seq<char>> {
        opt_view(self.name)
    }

    open spec fn view_from_key(&self) -> Option<Seq<char>> {
        None
    }

    open spec fn view_description(&self) -> Option<Seq<char>> {
        opt_view(self.description)
    }

    open spec fn view_candidate_groups(&self) -> Seq<String> {
        Seq::empty()
    }

    open spec fn view_candidate_users(&self) -> Seq<String> {
        Seq::empty()
    }

    fn get_id(&self) -> (r: String) {
        self.id.clone()
    }

    fn get_node_type(&self) -> (r: NodeType) {
        NodeType::ServiceTask
    }

    fn get_name(&self) -> (r: Option<String>) {
        copy_opt(&self.name)
    }

    fn get_from_key(&self) -> (r: Option<String>) {
        None
    }

    fn get_description(&self) -> (r: Option<String>) {
        copy_opt(&self.description)
    }

    fn candidate_groups(&self) -> (r: Vec<String>) {
        Vec::new()
    }

    fn candidate_users(&self) -> (r: Vec<String>) {
        Vec::new()
    }
}

} // verus!
