//! BPMN process models: nodes, sequence flows, processes and their validation.

pub mod bpmn_node;
pub mod sequence_flow;
pub mod start_event;
pub mod end_event;
pub mod user_task;
pub mod service_task;
pub mod exclusive_gateway;
pub mod parallel_gateway;
pub mod bpmn_element;
pub mod bpmn_process;
pub mod bpmn_definitions;
