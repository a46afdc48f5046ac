//! The decisions and SQL text of the engine's data access: SQL fragments,
//! parameter lists, and what the engine concludes from what the store
//! returns.

pub mod sql_fragment;
pub mod base_dao;
pub mod checks;
pub mod apf_re_procdef_dao;
pub mod records;
