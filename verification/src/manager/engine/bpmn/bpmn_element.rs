//! The elements of a BPMN process: nodes and the sequence flows between them.

use vstd::prelude::*;
use crate::manager::engine::bpmn::bpmn_node::{BpmnNode, NodeType, node_type_name};
use crate::manager::engine::bpmn::sequence_flow::SequenceFlow;
use crate::manager::engine::bpmn::start_event::StartEvent;
use crate::manager::engine::bpmn::end_event::EndEvent;
use crate::manager::engine::bpmn::user_task::UserTask;
use crate::manager::engine::bpmn::service_task::ServiceTask;
use crate::manager::engine::bpmn::exclusive_gateway::ExclusiveGateway;
use crate::manager::engine::bpmn::parallel_gateway::ParallelGateway;

verus! {

/// A node of a BPMN process, of one of the kinds that the engine knows.
#[derive(Debug, Clone)]
pub enum FlowNode {
    StartEvent(StartEvent),
    EndEvent(EndEvent),
    UserTask(UserTask),
    ServiceTask(ServiceTask),
    ExclusiveGateway(ExclusiveGateway),
    ParallelGateway(ParallelGateway),
}

impl BpmnNode for FlowNode {
    open spec fn view_id(&self) -> Seq<char> {
        match self {
            FlowNode::StartEvent(n) => n.view_id(),
            FlowNode::EndEvent(n) => n.view_id(),
            FlowNode::UserTask(n) => n.view_id(),
            FlowNode::ServiceTask(n) => n.view_id(),
            FlowNode::ExclusiveGateway(n) => n.view_id(),
            FlowNode::ParallelGateway(n) => n.view_id(),
        }
    }

    open spec fn view_node_type(&self) -> NodeType {
        match self {
            FlowNode::StartEvent(n) => n.view_node_type(),
            FlowNode::EndEvent(n) => n.view_node_type(),
            FlowNode::UserTask(n) => n.view_node_type(),
            FlowNode::ServiceTask(n) => n.view_node_type(),
            FlowNode::ExclusiveGateway(n) => n.view_node_type(),
            FlowNode::ParallelGateway(n) => n.view_node_type(),
        }
    }

    open spec fn view_name(&self) -> Option<Seq<char>> {
        match self {
            FlowNode::StartEvent(n) => n.view_name(),
            FlowNode::EndEvent(n) => n.view_name(),
            FlowNode::UserTask(n) => n.view_name(),
            FlowNode::ServiceTask(n) => n.view_name(),
            FlowNode::ExclusiveGateway(n) => n.view_name(),
            FlowNode::ParallelGateway(n) => n.view_name(),
        }
    }

    open spec fn view_from_key(&self) -> Option<Seq<char>> {
        match self {
            FlowNode::StartEvent(n) => n.view_from_key(),
            FlowNode::EndEvent(n) => n.view_from_key(),
            FlowNode::UserTask(n) => n.view_from_key(),
            FlowNode::ServiceTask(n) => n.view_from_key(),
            FlowNode::ExclusiveGateway(n) => n.view_from_key(),
            FlowNode::ParallelGateway(n) => n.view_from_key(),
        }
    }

    open spec fn view_description(&self) -> Option<Seq<char>> {
        match self {
            FlowNode::StartEvent(n) => n.view_description(),
            FlowNode::EndEvent(n) => n.view_description(),
            FlowNode::UserTask(n) => n.view_description(),
            FlowNode::ServiceTask(n) => n.view_description(),
            FlowNode::ExclusiveGateway(n) => n.view_description(),
            FlowNode::ParallelGateway(n) => n.view_description(),
        }
    }

    open spec fn view_candidate_groups(&self) -> Seq<String> {
        match self {
            FlowNode::StartEvent(n) => n.view_candidate_groups(),
            FlowNode::EndEvent(n) => n.view_candidate_groups(),
            FlowNode::UserTask(n) => n.view_candidate_groups(),
            FlowNode::ServiceTask(n) => n.view_candidate_groups(),
            FlowNode::ExclusiveGateway(n) => n.view_candidate_groups(),
            FlowNode::ParallelGateway(n) => n.view_candidate_groups(),
        }
    }

    open spec fn view_candidate_users(&self) -> Seq<String> {
        match self {
            FlowNode::StartEvent(n) => n.view_candidate_users(),
            FlowNode::EndEvent(n) => n.view_candidate_users(),
            FlowNode::UserTask(n) => n.view_candidate_users(),
            FlowNode::ServiceTask(n) => n.view_candidate_users(),
            FlowNode::ExclusiveGateway(n) => n.view_candidate_users(),
            FlowNode::ParallelGateway(n) => n.view_candidate_users(),
        }
    }

    fn get_id(&self) -> (r: String) {
        match self {
            FlowNode::StartEvent(n) => n.get_id(),
            FlowNode::EndEvent(n) => n.get_id(),
            FlowNode::UserTask(n) => n.get_id(),
            FlowNode::ServiceTask(n) => n.get_id(),
            FlowNode::ExclusiveGateway(n) => n.get_id(),
            FlowNode::ParallelGateway(n) => n.get_id(),
        }
    }

    fn get_node_type(&self) -> (r: NodeType) {
        match self {
            FlowNode::StartEvent(n) => n.get_node_type(),
            FlowNode::EndEvent(n) => n.get_node_type(),
            FlowNode::UserTask(n) => n.get_node_type(),
            FlowNode::ServiceTask(n) => n.get_node_type(),
            FlowNode::ExclusiveGateway(n) => n.get_node_type(),
            FlowNode::ParallelGateway(n) => n.get_node_type(),
        }
    }

    fn get_name(&self) -> (r: Option<String>) {
        match self {
            FlowNode::StartEvent(n) => n.get_name(),
            FlowNode::EndEvent(n) => n.get_name(),
            FlowNode::UserTask(n) => n.get_name(),
            FlowNode::ServiceTask(n) => n.get_name(),
            FlowNode::ExclusiveGateway(n) => n.get_name(),
            FlowNode::ParallelGateway(n) => n.get_name(),
        }
    }

    fn get_from_key(&self) -> (r: Option<String>) {
        match self {
            FlowNode::StartEvent(n) => n.get_from_key(),
            FlowNode::EndEvent(n) => n.get_from_key(),
            FlowNode::UserTask(n) => n.get_from_key(),
            FlowNode::ServiceTask(n) => n.get_from_key(),
            FlowNode::ExclusiveGateway(n) => n.get_from_key(),
            FlowNode::ParallelGateway(n) => n.get_from_key(),
        }
    }

    fn get_description(&self) -> (r: Option<String>) {
        match self {
            FlowNode::StartEvent(n) => n.get_description(),
            FlowNode::EndEvent(n) => n.get_description(),
            FlowNode::UserTask(n) => n.get_description(),
            FlowNode::ServiceTask(n) => n.get_description(),
            FlowNode::ExclusiveGateway(n) => n.get_description(),
            FlowNode::ParallelGateway(n) => n.get_description(),
        }
    }

    fn candidate_groups(&self) -> (r: Vec<String>) {
        match self {
            FlowNode::StartEvent(n) => n.candidate_groups(),
            FlowNode::EndEvent(n) => n.candidate_groups(),
            FlowNode::UserTask(n) => n.candidate_groups(),
            FlowNode::ServiceTask(n) => n.candidate_groups(),
            FlowNode::ExclusiveGateway(n) => n.candidate_groups(),
            FlowNode::ParallelGateway(n) => n.candidate_groups(),
        }
    }

    fn candidate_users(&self) -> (r: Vec<String>) {
        match self {
            FlowNode::StartEvent(n) => n.candidate_users(),
            FlowNode::EndEvent(n) => n.candidate_users(),
            FlowNode::UserTask(n) => n.candidate_users(),
            FlowNode::ServiceTask(n) => n.candidate_users(),
            FlowNode::ExclusiveGateway(n) => n.candidate_users(),
            FlowNode::ParallelGateway(n) => n.candidate_users(),
        }
    }
}

/// An element of a BPMN process: a sequence flow or a node.
#[derive(Debug, Clone)]
pub enum BpmnElement {
    Edge(SequenceFlow),
    Node(FlowNode),
}

/// The identifier of an element.
pub open spec fn element_id(e: BpmnElement) -> Seq<char> {
    match e {
        BpmnElement::Edge(f) => f.id@,
        BpmnElement::Node(n) => n.view_id(),
    }
}

/// The kind of an element: `SequenceFlow` for an edge, the node's kind otherwise.
pub open spec fn element_type(e: BpmnElement) -> Seq<char> {
    match e {
        BpmnElement::Edge(f) => "SequenceFlow"@,
        BpmnElement::Node(n) => node_type_name(n.view_node_type()),
    }
}

/// The name of an element: none for an edge.
pub open spec fn element_name(e: BpmnElement) -> Option<Seq<char>> {
    match e {
        BpmnElement::Edge(f) => None,
        BpmnElement::Node(n) => n.view_name(),
    }
}

/// The description of an element: none for an edge.
pub open spec fn element_description(e: BpmnElement) -> Option<Seq<char>> {
    match e {
        BpmnElement::Edge(f) => None,
        BpmnElement::Node(n) => n.view_description(),
    }
}

/// The form key of an element: none for an edge.
pub open spec fn element_from_key(e: BpmnElement) -> Option<Seq<char>> {
    match e {
        BpmnElement::Edge(f) => None,
        BpmnElement::Node(n) => n.view_from_key(),
    }
}

impl BpmnElement {
    pub fn get_element_id(&self) -> (r: String)
        ensures
            r@ == element_id(*self),
    {
        match self {
            BpmnElement::Edge(el) => el.get_id(),
            BpmnElement::Node(el) => el.get_id(),
        }
    }

    pub fn get_element_type(&self) -> (r: String)
        ensures
            r@ == element_type(*self),
    {
        match self {
            BpmnElement::Edge(el) => el.get_edge_type(),
            BpmnElement::Node(el) => el.get_node_type().name(),
        }
    }

    pub fn get_element_name(&self) -> (r: Option<String>)
        ensures
            crate::manager::engine::bpmn::bpmn_node::opt_view(r) == element_name(*self),
    {
        match self {
            BpmnElement::Edge(_) => None,
            BpmnElement::Node(el) => el.get_name(),
        }
    }

    pub fn get_description(&self) -> (r: Option<String>)
        ensures
            crate::manager::engine::bpmn::bpmn_node::opt_view(r) == element_description(*self),
    {
        match self {
            BpmnElement::Edge(_) => None,
            BpmnElement::Node(el) => el.get_description(),
        }
    }

    pub fn get_from_key(&self) -> (r: Option<String>)
        ensures
            crate::manager::engine::bpmn::bpmn_node::opt_view(r) == element_from_key(*self),
    {
        match self {
            BpmnElement::Edge(_) => None,
            BpmnElement::Node(el) => el.get_from_key(),
        }
    }
}

} // verus!
