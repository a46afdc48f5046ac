//! The behaviour of an end event: the process instance ends.

use vstd::prelude::*;
use crate::error::{AppError, ErrorCode, is_error};
use crate::manager::engine::behavior::base_operator::{BaseOperator, no_execution_msg};
use crate::manager::engine::bpmn::bpmn_element::{BpmnElement, element_id};
use crate::model::{ApfRuExecution, ApfRuTask, no_element_msg, no_proc_inst_msg};

verus! {

/// The step that ends a process instance at an end event, or early at
/// `terminate_element`.
#[derive(Debug)]
pub struct EndEventBehavior {
    pub base: BaseOperator,
}

/// What ending a process instance changes in the store: the process instance
/// whose variables, execution and instance record go, the execution that is
/// deleted, the element recorded as the end of the instance, and whether the
/// end of the current element is recorded (only where the process was not
/// ended early).
#[derive(Debug)]
pub struct EndPlan {
    pub proc_inst_id: String,
    pub execution_id: String,
    pub end_element_id: String,
    pub record_element_end: bool,
}

impl EndEventBehavior {
    pub fn new(
        element: BpmnElement,
        terminate_element: Option<BpmnElement>,
        proc_inst: ApfRuExecution,
        current_exec: Option<ApfRuExecution>,
        current_task: Option<ApfRuTask>,
    ) -> (r: Self)
        ensures
            r.base.proc_inst == proc_inst,
            r.base.current_exec == current_exec,
            r.base.element == element,
            r.base.terminate_element == terminate_element,
            r.base.current_task == current_task,
    {
        EndEventBehavior { base: BaseOperator::new(proc_inst, current_exec, element, terminate_element, current_task) }
    }

    /// Whether entering the end event is recorded in the history: only where
    /// the process was not ended early.
    pub fn records_history(&self) -> (r: bool)
        ensures
            r == self.base.terminate_element is None,
    {
        self.base.terminate_element.is_none()
    }

    /// What leaving the end event does (see `EndPlan`): the current execution,
    /// its process instance, and the element at which it ends, which is the
    /// terminating element where there is one and the execution's element
    /// otherwise. The execution, its process instance and its element must be
    /// known; a `NotFound` error tells which is missing.
    pub fn leave_plan(&self) -> (r: Result<EndPlan, AppError>)
        ensures
            match self.base.current_exec {
                None => r matches Err(e) && is_error(e, ErrorCode::NotFound, no_execution_msg()),
                Some(x) => match (x.proc_inst_id, x.element_id) {
                    (None, _) => r matches Err(e) && is_error(e, ErrorCode::NotFound, no_proc_inst_msg()),
                    (Some(p), None) => r matches Err(e) && is_error(e, ErrorCode::NotFound, no_element_msg()),
                    (Some(p), Some(el)) => r matches Ok(plan) && {
                        &&& plan.proc_inst_id@ == p@
                        &&& plan.execution_id@ == x.id@
                        &&& plan.end_element_id@ == match self.base.terminate_element {
                            Some(t) => element_id(t),
                            None => el@,
                        }
                        &&& plan.record_element_end == self.base.terminate_element is None
                    },
                },
            },
    {
        let current_execution = match self.base.current_excution_ex() {
            Ok(x) => x,
            Err(e) => return Err(e),
        };
        let procinst_id = match current_execution.proc_inst_id() {
            Ok(p) => p,
            Err(e) => return Err(e),
        };
        let mut end_element_id = match current_execution.element_id() {
            Ok(el) => el,
            Err(e) => return Err(e),
        };
        if let Some(el) = &self.base.terminate_element {
            end_element_id = el.get_element_id();
        }
        Ok(EndPlan {
            proc_inst_id: procinst_id,
            execution_id: current_execution.id,
            end_element_id,
            record_element_end: self.base.terminate_element.is_none(),
        })
    }
}

} // verus!
