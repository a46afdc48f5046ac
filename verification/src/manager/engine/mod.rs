//! The process engine: BPMN models, the behaviour of their elements while a
//! process runs, task queries and the engine's services.

pub mod bpmn;
pub mod query;
pub mod behavior;
pub mod process_engine;
pub mod deployment_builder;
