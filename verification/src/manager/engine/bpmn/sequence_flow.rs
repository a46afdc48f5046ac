//! Sequence flows: the edges of a BPMN process.

use vstd::prelude::*;
use crate::manager::engine::bpmn::bpmn_node::{copy_opt, opt_view};
use crate::manager::engine::bpmn::bpmn_element::FlowNode;
use crate::manager::engine::bpmn::bpmn_process::{BpmnProcess, node_with_id};

verus! {

/// An edge from the node `source_ref` to the node `target_ref`, taken when its
/// condition, if any, holds.
#[derive(Debug)]
pub struct SequenceFlow {
    pub id: String,
    pub source_ref: String,
    pub target_ref: String,
    pub condition_expression: Option<String>,
}

impl Clone for SequenceFlow {
    fn clone(&self) -> (r: Self)
        ensures
            r == *self,
    {
        SequenceFlow {
            id: self.id.clone(),
            source_ref: self.source_ref.clone(),
            target_ref: self.target_ref.clone(),
            condition_expression: copy_opt(&self.condition_expression),
        }
    }
}

impl SequenceFlow {
    pub fn new(id: String, source_ref: String, target_ref: String, condition_expression: Option<String>) -> (r: Self)
        ensures
            r.id == id,
            r.source_ref == source_ref,
            r.target_ref == target_ref,
            r.condition_expression == condition_expression,
    {
        SequenceFlow { id, source_ref, target_ref, condition_expression }
    }

    pub fn get_id(&self) -> (r: String)
        ensures
            r@ == self.id@,
    {
        self.id.clone()
    }

    /// The kind of this edge.
    pub fn get_edge_type(&self) -> (r: String)
        ensures
            r@ == "SequenceFlow"@,
    {
        String::from_str("SequenceFlow")
    }

    pub fn get_source(&self) -> (r: String)
        ensures
            r@ == self.source_ref@,
    {
        self.source_ref.clone()
    }

    pub fn get_target(&self) -> (r: String)
        ensures
            r@ == self.target_ref@,
    {
        self.target_ref.clone()
    }

    pub fn get_condition_expr(&self) -> (r: Option<String>)
        ensures
            opt_view(r) == opt_view(self.condition_expression),
    {
        copy_opt(&self.condition_expression)
    }

    /// The node of `process` that this flow leaves: the element that the
    /// process finds under `source_ref`, where that element is a node.
    pub fn from_node<'a>(&self, process: &'a BpmnProcess) -> (r: Option<&'a FlowNode>)
        ensures
            match r {
                Some(n) => node_with_id(process.elements@, self.source_ref@) == Some(*n),
                None => node_with_id(process.elements@, self.source_ref@) is None,
            },
    {
        process.get_node(self.source_ref.as_str())
    }

    /// The node of `process` that this flow enters: the element that the
    /// process finds under `target_ref`, where that element is a node.
    pub fn to_node<'a>(&self, process: &'a BpmnProcess) -> (r: Option<&'a FlowNode>)
        ensures
            match r {
                Some(n) => node_with_id(process.elements@, self.target_ref@) == Some(*n),
                None => node_with_id(process.elements@, self.target_ref@) is None,
            },
    {
        process.get_node(self.target_ref.as_str())
    }
}

} // verus!
