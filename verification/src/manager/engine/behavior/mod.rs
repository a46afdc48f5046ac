//! The behaviour of the elements of a running process.

pub mod base_operator;
pub mod end_event_behavior;
pub mod service_task_behavior;
pub mod operator;
pub mod operator_executor;
