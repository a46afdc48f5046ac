//! The process engine and its services.

use vstd::prelude::*;
use crate::error::{AppError, ErrorCode, is_error};
use crate::manager::engine::behavior::operator_executor::OperateRst;
use crate::manager::engine::bpmn::bpmn_element::BpmnElement;
use crate::manager::engine::bpmn::bpmn_process::{BpmnProcess, element_with_id};
use crate::manager::engine::deployment_builder::DeploymentBuilder;
use crate::model::ApfRuExecution;

verus! {

/// Deploys process definitions and loads their models.
#[derive(Debug, Clone, Copy, PartialEq, Eq, Structural)]
pub struct RepositoryService {}

/// Starts process instances.
#[derive(Debug, Clone, Copy, PartialEq, Eq, Structural)]
pub struct RuntimeService {}

/// Gives the history of process instances.
#[derive(Debug, Clone, Copy, PartialEq, Eq, Structural)]
pub struct HistoryService {}

/// Completes tasks.
#[derive(Debug, Clone, Copy, PartialEq, Eq, Structural)]
pub struct TaskService {}

pub open spec fn no_process_instance_msg() -> Seq<char> {
    "process instance not found"@
}

impl RepositoryService {
    pub fn new() -> (r: Self) {
        RepositoryService {}
    }

    /// A builder for a new deployment, with nothing set.
    pub fn create_deployment_builder(&self) -> (r: DeploymentBuilder)
        ensures
            r.new_deployment.name is None,
            r.new_deployment.key is None,
            r.new_deployment.organization is None,
            r.new_deployment.deployer is None,
            r.new_deployment.new_bytearray.name is None,
            r.new_deployment.new_bytearray.deployment_id is None,
            r.new_deployment.new_bytearray.bytes is None,
    {
        DeploymentBuilder::new()
    }
}

impl RuntimeService {
    pub fn new() -> (r: Self) {
        RuntimeService {}
    }

    /// The process instance that starting a process produced, or a `NotFound`
    /// error where the steps produced none.
    pub fn started_process_instance(&self, rst: OperateRst) -> (r: Result<ApfRuExecution, AppError>)
        ensures
            match rst.process_instantce {
                Some(p) => r == Ok::<ApfRuExecution, AppError>(p),
                None => r matches Err(e) && is_error(e, ErrorCode::NotFound, no_process_instance_msg()),
            },
    {
        match rst.process_instantce {
            None => Err(AppError::new(ErrorCode::NotFound, Some("process instance not found"), "RuntimeService::start_process_instance_by_key", None)),
            Some(p) => Ok(p),
        }
    }
}

impl HistoryService {
    pub fn new() -> (r: Self) {
        HistoryService {}
    }
}

impl TaskService {
    pub fn new() -> (r: Self) {
        TaskService {}
    }

    /// The element of `process` at which a task with the element `element_id`
    /// waits, or a `NotFound` error with the default message where the process
    /// has no such element.
    pub fn task_element<'a>(&self, process: &'a BpmnProcess, element_id: &str) -> (r: Result<&'a BpmnElement, AppError>)
        ensures
            match r {
                Ok(e) => element_with_id(process.elements@, element_id@) == Some(*e),
                Err(e) => element_with_id(process.elements@, element_id@) is None && e.code == ErrorCode::NotFound
                    && e.msg@ == crate::error::default_message_of(ErrorCode::NotFound),
            },
    {
        match process.get_element(element_id) {
            Some(el) => Ok(el),
            None => Err(AppError::notfound_error("TaskService::complete")),
        }
    }
}

/// The engine: a name and its services.
#[derive(Debug)]
pub struct ProcessEngine {
    name: String,
    repository_service: RepositoryService,
    runtime_service: RuntimeService,
    history_service: HistoryService,
    task_service: TaskService,
}

/// The name of the default engine.
pub open spec fn default_engine_name() -> Seq<char> {
    "default"@
}

impl ProcessEngine {
    /// The name of the default engine.
    pub const DEFAULT_ENGINE: &'static str = "default";

    /// The name of this engine.
    pub closed spec fn view_name(&self) -> Seq<char> {
        self.name@
    }

    /// An engine named `name`, with its services.
    pub fn new(name: &str) -> (r: Self)
        ensures
            r.view_name() == name@,
    {
        ProcessEngine {
            name: name.to_owned(),
            repository_service: RepositoryService::new(),
            runtime_service: RuntimeService::new(),
            history_service: HistoryService::new(),
            task_service: TaskService::new(),
        }
    }

    pub fn get_name(&self) -> (r: &str)
        ensures
            r@ == self.view_name(),
    {
        self.name.as_str()
    }

    pub fn get_repository_service(&self) -> (r: RepositoryService) {
        self.repository_service
    }

    pub fn get_runtime_service(&self) -> (r: RuntimeService) {
        self.runtime_service
    }

    pub fn get_history_service(&self) -> (r: HistoryService) {
        self.history_service
    }

    pub fn get_task_service(&self) -> (r: TaskService) {
        self.task_service
    }
}

/// The engine named `default`.
pub fn get_default_process_engine() -> (r: ProcessEngine)
    ensures
        r.view_name() == default_engine_name(),
{
    ProcessEngine::new(ProcessEngine::DEFAULT_ENGINE)
}

} // verus!
