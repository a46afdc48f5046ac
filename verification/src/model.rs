//! The records that the engine keeps for deployments, process definitions,
//! running executions, tasks, identity links and variables, and their history.
//! Times are milliseconds since the Unix epoch.

use vstd::prelude::*;
use crate::error::{AppError, ErrorCode, is_error};
use crate::manager::engine::bpmn::bpmn_node::copy_opt;

verus! {

/// Whether a process definition may be started.
#[derive(Copy, Clone, Debug, PartialEq, Eq, Structural)]
#[allow(non_camel_case_types)]
pub enum SuspensionState {
    FALSE,
    TRUE,
}

/// Who an identity link names: a group or a single user.
#[derive(Copy, Clone, Debug, PartialEq, Eq, Structural)]
#[allow(non_camel_case_types)]
pub enum IdentType {
    group,
    user,
}

/// A running execution; the execution that stands for a whole process
/// instance is its own process instance.
#[derive(Debug)]
pub struct ApfRuExecution {
    pub id: String,
    pub rev: i32,
    pub proc_inst_id: Option<String>,
    pub business_key: Option<String>,
    pub parent_id: Option<String>,
    pub proc_def_id: String,
    pub root_proc_inst_id: Option<String>,
    pub element_id: Option<String>,
    pub is_active: i32,
    pub start_time: i64,
    pub start_user: Option<String>,
}

impl Clone for ApfRuExecution {
    fn clone(&self) -> (r: Self)
        ensures
            r == *self,
    {
        ApfRuExecution {
            id: self.id.clone(),
            rev: self.rev,
            proc_inst_id: copy_opt(&self.proc_inst_id),
            business_key: copy_opt(&self.business_key),
            parent_id: copy_opt(&self.parent_id),
            proc_def_id: self.proc_def_id.clone(),
            root_proc_inst_id: copy_opt(&self.root_proc_inst_id),
            element_id: copy_opt(&self.element_id),
            is_active: self.is_active,
            start_time: self.start_time,
            start_user: copy_opt(&self.start_user),
        }
    }
}

/// The message of the error for an execution without a process instance.
pub open spec fn no_proc_inst_msg() -> Seq<char> {
    "process instance id of the execution is empty"@
}

/// The message of the error for an execution that stands at no element.
pub open spec fn no_element_msg() -> Seq<char> {
    "element id of the execution is empty"@
}

impl ApfRuExecution {
    /// The process instance of this execution, or a `NotFound` error where it
    /// has none.
    pub fn proc_inst_id(&self) -> (r: Result<String, AppError>)
        ensures
            match self.proc_inst_id {
                Some(p) => r matches Ok(s) && s@ == p@,
                None => r matches Err(e) && is_error(e, ErrorCode::NotFound, no_proc_inst_msg()),
            },
    {
        match &self.proc_inst_id {
            Some(p) => Ok(p.clone()),
            None => Err(AppError::new(
                ErrorCode::NotFound,
                Some("process instance id of the execution is empty"),
                "ApfRuExecution::proc_inst_id",
                None,
            )),
        }
    }

    /// The element at which this execution stands, or a `NotFound` error where
    /// it stands at none.
    pub fn element_id(&self) -> (r: Result<String, AppError>)
        ensures
            match self.element_id {
                Some(p) => r matches Ok(s) && s@ == p@,
                None => r matches Err(e) && is_error(e, ErrorCode::NotFound, no_element_msg()),
            },
    {
        match &self.element_id {
            Some(p) => Ok(p.clone()),
            None => Err(AppError::new(
                ErrorCode::NotFound,
                Some("element id of the execution is empty"),
                "ApfRuExecution::element_id",
                None,
            )),
        }
    }
}

/// A new execution, before the store gives it an identifier.
#[derive(Debug)]
pub struct NewApfRuExecution {
    pub proc_inst_id: Option<String>,
    pub business_key: Option<String>,
    pub parent_id: Option<String>,
    pub proc_def_id: String,
    pub root_proc_inst_id: Option<String>,
    pub element_id: Option<String>,
    pub is_active: i32,
    pub start_time: i64,
    pub start_user: Option<String>,
}

/// A task waiting to be completed.
#[derive(Debug)]
pub struct ApfRuTask {
    pub id: String,
    pub rev: i32,
    pub execution_id: String,
    pub proc_inst_id: String,
    pub proc_def_id: String,
    pub element_id: Option<String>,
    pub element_name: Option<String>,
    pub element_type: Option<String>,
    pub business_key: Option<String>,
    pub description: Option<String>,
    pub start_user_id: Option<String>,
    pub create_time: i64,
    pub suspension_state: i32,
    pub form_key: Option<String>,
}

impl Clone for ApfRuTask {
    fn clone(&self) -> (r: Self)
        ensures
            r == *self,
    {
        ApfRuTask {
            id: self.id.clone(),
            rev: self.rev,
            execution_id: self.execution_id.clone(),
            proc_inst_id: self.proc_inst_id.clone(),
            proc_def_id: self.proc_def_id.clone(),
            element_id: copy_opt(&self.element_id),
            element_name: copy_opt(&self.element_name),
            element_type: copy_opt(&self.element_type),
            business_key: copy_opt(&self.business_key),
            description: copy_opt(&self.description),
            start_user_id: copy_opt(&self.start_user_id),
            create_time: self.create_time,
            suspension_state: self.suspension_state,
            form_key: copy_opt(&self.form_key),
        }
    }
}

/// The history record of a task.
#[derive(Debug)]
pub struct NewApfHiTaskinst {
    pub id: String,
    pub rev: i32,
    pub suspension_state: i32,
    pub start_time: i64,
    pub end_time: Option<i64>,
    pub duration: Option<i64>,
    pub execution_id: String,
    pub proc_inst_id: String,
    pub proc_def_id: String,
    pub element_id: Option<String>,
    pub element_name: Option<String>,
    pub element_type: Option<String>,
    pub business_key: Option<String>,
    pub description: Option<String>,
    pub start_user_id: Option<String>,
    pub form_key: Option<String>,
}

/// The history record of an element that an execution passed through.
#[derive(Debug)]
pub struct NewApfHiActinst {
    pub rev: i32,
    pub proc_def_id: String,
    pub proc_inst_id: Option<String>,
    pub execution_id: String,
    pub task_id: Option<String>,
    pub element_id: Option<String>,
    pub element_name: Option<String>,
    pub element_type: Option<String>,
    pub start_user_id: Option<String>,
    pub start_time: i64,
    pub end_time: Option<i64>,
    pub duration: Option<i64>,
}

/// A link between a task and the group or user that may complete it.
#[derive(Debug)]
pub struct ApfRuIdentitylink {
    pub id: String,
    pub rev: i32,
    pub ident_type: IdentType,
    pub group_id: Option<String>,
    pub user_id: Option<String>,
    pub task_id: Option<String>,
    pub proc_inst_id: Option<String>,
    pub proc_def_id: Option<String>,
}

/// The history record of an identity link.
#[derive(Debug)]
pub struct NewApfHiIdentitylink {
    pub id: String,
    pub ident_type: IdentType,
    pub group_id: Option<String>,
    pub user_id: Option<String>,
    pub task_id: Option<String>,
    pub proc_inst_id: Option<String>,
    pub proc_def_id: Option<String>,
}

/// A variable of a running process instance, its value held as text.
#[derive(Debug)]
pub struct ApfRuVariable {
    pub id: String,
    pub rev: i32,
    pub var_type: String,
    pub name: String,
    pub value: String,
    pub proc_inst_id: String,
    pub execution_id: Option<String>,
    pub task_id: Option<String>,
}

/// The values from which a variable is created or updated.
#[derive(Debug)]
pub struct ApfRuVariableDto {
    pub var_type: String,
    pub name: String,
    pub value: String,
    pub proc_inst_id: String,
    pub execution_id: Option<String>,
    pub task_id: Option<String>,
}

/// The history record of a variable.
#[derive(Debug)]
pub struct ApfHiVarinst {
    pub id: String,
    pub rev: i32,
    pub var_type: String,
    pub name: String,
    pub value: String,
    pub proc_inst_id: String,
    pub execution_id: Option<String>,
    pub task_id: Option<String>,
    pub create_time: i64,
    pub last_updated_time: i64,
}

/// A new history record of a variable.
#[derive(Debug)]
pub struct NewApfHiVarinst {
    pub id: String,
    pub var_type: String,
    pub name: String,
    pub value: String,
    pub proc_inst_id: String,
    pub execution_id: Option<String>,
    pub task_id: Option<String>,
    pub create_time: i64,
    pub last_updated_time: i64,
}

/// The stored bytes of a deployed document.
#[derive(Debug)]
pub struct NewApfGeBytearray {
    pub name: Option<String>,
    pub deployment_id: Option<String>,
    pub bytes: Option<Vec<u8>>,
}

impl NewApfGeBytearray {
    /// An empty byte array: no name, no deployment, no bytes.
    pub fn new() -> (r: Self)
        ensures
            r.name is None,
            r.deployment_id is None,
            r.bytes is None,
    {
        NewApfGeBytearray { name: None, deployment_id: None, bytes: None }
    }
}

/// A new deployment and the document that it deploys.
#[derive(Debug)]
pub struct NewApfReDeployment {
    pub name: Option<String>,
    pub key: Option<String>,
    pub organization: Option<String>,
    pub deployer: Option<String>,
    pub new_bytearray: NewApfGeBytearray,
}

impl NewApfReDeployment {
    /// A deployment with no name, key, organization or deployer, and an empty
    /// document.
    pub fn new() -> (r: Self)
        ensures
            r.name is None,
            r.key is None,
            r.organization is None,
            r.deployer is None,
            r.new_bytearray.name is None,
            r.new_bytearray.deployment_id is None,
            r.new_bytearray.bytes is None,
    {
        NewApfReDeployment {
            name: None,
            key: None,
            organization: None,
            deployer: None,
            new_bytearray: NewApfGeBytearray::new(),
        }
    }
}

/// A deployed process definition; its version counts the deployments of its
/// key.
#[derive(Debug)]
pub struct ApfReProcdef {
    pub id: String,
    pub rev: i32,
    pub name: String,
    pub key: String,
    pub version: i32,
    pub deployment_id: String,
    pub resource_name: Option<String>,
    pub description: Option<String>,
    pub suspension_state: SuspensionState,
    pub deployer_id: Option<String>,
    pub deployer_name: Option<String>,
    pub company_id: Option<String>,
    pub company_name: Option<String>,
    pub deploy_time: i64,
}

/// A new process definition.
#[derive(Debug)]
pub struct NewApfReProcdef {
    pub key: String,
    pub name: String,
    pub deployment_id: String,
    pub suspension_state: SuspensionState,
    pub resource_name: Option<String>,
    pub description: Option<String>,
    pub deployer_id: Option<String>,
    pub deployer_name: Option<String>,
    pub company_id: Option<String>,
    pub company_name: Option<String>,
}

} // verus!
