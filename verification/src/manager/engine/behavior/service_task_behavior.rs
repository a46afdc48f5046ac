//! The behaviour of a service task.

use vstd::prelude::*;
use crate::manager::engine::behavior::base_operator::BaseOperator;
use crate::manager::engine::bpmn::bpmn_element::BpmnElement;
use crate::model::{ApfRuExecution, ApfRuTask};

verus! {

/// The step that carries out a service task; it is never ended early.
#[derive(Debug)]
pub struct ServiceTaskBehavior {
    pub base: BaseOperator,
}

impl ServiceTaskBehavior {
    pub fn new(
        element: BpmnElement,
        proc_inst: ApfRuExecution,
        current_exec: Option<ApfRuExecution>,
        current_task: Option<ApfRuTask>,
    ) -> (r: Self)
        ensures
            r.base.proc_inst == proc_inst,
            r.base.current_exec == current_exec,
            r.base.element == element,
            r.base.terminate_element is None,
            r.base.current_task == current_task,
    {
        ServiceTaskBehavior { base: BaseOperator::new(proc_inst, current_exec, element, None, current_task) }
    }
}

} // verus!
