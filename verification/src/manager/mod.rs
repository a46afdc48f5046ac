//! The process engine.

pub mod engine;
