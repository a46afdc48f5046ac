//! Queries over the tasks that wait to be completed.

pub mod task_query;
