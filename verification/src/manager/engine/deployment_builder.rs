//! Building a deployment of a BPMN document.

use vstd::prelude::*;
use crate::error::{AppError, ErrorCode, is_error};
use crate::manager::engine::bpmn::bpmn_process::BpmnProcess;
use crate::model::{NewApfGeBytearray, NewApfReDeployment, NewApfReProcdef, SuspensionState};
use crate::manager::engine::bpmn::bpmn_node::copy_opt;
use crate::text::{decimal, push_str};

verus! {

/// The largest document that can be deployed: 2 MiB.
pub const MAX_FILE_SIZE: u64 = 2097152;

/// A deployment being built: its name and key and the document it deploys.
#[derive(Debug)]
pub struct DeploymentBuilder {
    pub new_deployment: NewApfReDeployment,
}

pub open spec fn too_large_msg(path: Seq<char>) -> Seq<char> {
    "文件大小不能超过 2M ("@ + path + ")"@
}

pub open spec fn empty_file_msg(path: Seq<char>) -> Seq<char> {
    "文件大小不能为 0 ("@ + path + ")"@
}

impl DeploymentBuilder {
    /// A builder with nothing set.
    pub fn new() -> (r: Self)
        ensures
            r.new_deployment.name is None,
            r.new_deployment.key is None,
            r.new_deployment.organization is None,
            r.new_deployment.deployer is None,
            r.new_deployment.new_bytearray.name is None,
            r.new_deployment.new_bytearray.deployment_id is None,
            r.new_deployment.new_bytearray.bytes is None,
    {
        DeploymentBuilder { new_deployment: NewApfReDeployment::new() }
    }

    /// Sets the deployment's key; always succeeds.
    pub fn key(self, key: &str) -> (r: Result<DeploymentBuilder, AppError>)
        ensures
            r matches Ok(b) && b.new_deployment.key matches Some(k) && k@ == key@ && b.new_deployment == (NewApfReDeployment {
                key: b.new_deployment.key,
                ..self.new_deployment
            }),
    {
        let mut s = self;
        s.new_deployment.key = Some(key.to_owned());
        Ok(s)
    }

    /// Sets the deployment's name; always succeeds.
    pub fn name(self, name: &str) -> (r: Result<DeploymentBuilder, AppError>)
        ensures
            r matches Ok(b) && b.new_deployment.name matches Some(n) && n@ == name@ && b.new_deployment == (NewApfReDeployment {
                name: b.new_deployment.name,
                ..self.new_deployment
            }),
    {
        let mut s = self;
        s.new_deployment.name = Some(name.to_owned());
        Ok(s)
    }

    /// Whether a document of `len` bytes at `path` may be deployed: not when it
    /// is larger than 2 MiB nor when it is empty (an `InternalError` saying so).
    pub fn check_file_size(path: &str, len: u64) -> (r: Result<(), AppError>)
        ensures
            len > MAX_FILE_SIZE ==> (r matches Err(e) && is_error(e, ErrorCode::InternalError, too_large_msg(path@))),
            len == 0 ==> (r matches Err(e) && is_error(e, ErrorCode::InternalError, empty_file_msg(path@))),
            0 < len <= MAX_FILE_SIZE ==> r is Ok,
    {
        if len > MAX_FILE_SIZE {
            let mut msg = String::from_str("文件大小不能超过 2M (");
            push_str(&mut msg, path);
            push_str(&mut msg, ")");
            return Err(AppError::new(ErrorCode::InternalError, Some(msg.as_str()), "DeploymentBuilder::add_file", None));
        } else if len == 0 {
            let mut msg = String::from_str("文件大小不能为 0 (");
            push_str(&mut msg, path);
            push_str(&mut msg, ")");
            return Err(AppError::new(ErrorCode::InternalError, Some(msg.as_str()), "DeploymentBuilder::add_file", None));
        }
        Ok(())
    }

    /// The builder after reading the document at `path` with the content
    /// `bytes`: a deployment with nothing else set (a name or key set before is
    /// dropped), whose document is named `path` and holds `bytes`.
    pub fn with_file(self, path: &str, bytes: Vec<u8>) -> (r: DeploymentBuilder)
        ensures
            r.new_deployment.name is None,
            r.new_deployment.key is None,
            r.new_deployment.organization is None,
            r.new_deployment.deployer is None,
            r.new_deployment.new_bytearray.name matches Some(n) && n@ == path@,
            r.new_deployment.new_bytearray.deployment_id is None,
            r.new_deployment.new_bytearray.bytes == Some(bytes),
    {
        let mut byte_array = NewApfGeBytearray::new();
        byte_array.bytes = Some(bytes);
        byte_array.name = Some(path.to_owned());
        let mut s = self;
        s.new_deployment = NewApfReDeployment::new();
        s.new_deployment.new_bytearray = byte_array;
        s
    }

    /// The process definition that deploying `process` in the deployment
    /// `deployment_id` records: the process's key, name and description, the
    /// document's name as its resource, not suspended, with no deployer or
    /// company.
    pub fn new_procdef(&self, process: &BpmnProcess, deployment_id: &str, resource_name: Option<String>) -> (r: NewApfReProcdef)
        ensures
            r.key == process.id,
            r.name == process.name,
            r.deployment_id@ == deployment_id@,
            r.suspension_state == SuspensionState::FALSE,
            r.resource_name == resource_name,
            r.description == process.description,
            r.deployer_id is None,
            r.deployer_name is None,
            r.company_id is None,
            r.company_name is None,
    {
        NewApfReProcdef {
            key: process.id.clone(),
            name: process.name.clone(),
            deployment_id: deployment_id.to_owned(),
            suspension_state: SuspensionState::FALSE,
            resource_name,
            description: copy_opt(&process.description),
            deployer_id: None,
            deployer_name: None,
            company_id: None,
            company_name: None,
        }
    }
}

} // verus!
