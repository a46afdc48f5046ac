//! The steps that the engine runs, one after another, to move a process.

use vstd::prelude::*;
use crate::manager::engine::behavior::base_operator::BaseOperator;

verus! {

/// Starting a process instance of a definition.
#[derive(Debug)]
pub struct CreateAndStartProcessInstanceCmd {
    pub proc_def_id: String,
    pub deployment_id: String,
    pub business_key: Option<String>,
}

/// A step of a running process.
#[derive(Debug)]
pub enum Operator {
    CreateAndStartProcessInstanceCmd(CreateAndStartProcessInstanceCmd),
    ContinueProcessOperator(BaseOperator),
    TakeOutgoingFlowsOperator(BaseOperator),
    CreateTaskCmd(BaseOperator),
    CompleteTaskCmd(BaseOperator),
}

} // verus!
