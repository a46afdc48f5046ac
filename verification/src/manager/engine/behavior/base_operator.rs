//! What every step of a running process works on, and the decisions that the
//! steps share.

use vstd::prelude::*;
use crate::error::{AppError, ErrorCode, is_error};
use crate::manager::engine::bpmn::bpmn_element::{BpmnElement, FlowNode, element_id, element_name, element_type};
use crate::manager::engine::bpmn::bpmn_node::{BpmnNode, NodeType, opt_view};
use crate::manager::engine::bpmn::bpmn_process::{BpmnProcess, flows_from};
use crate::manager::engine::bpmn::sequence_flow::SequenceFlow;
use crate::manager::engine::behavior::operator::Operator;
use crate::manager::engine::query::task_query::TaskQuery;
use crate::model::{ApfRuExecution, ApfRuTask, NewApfHiActinst, NewApfRuExecution};
use crate::text::push_str;

verus! {

/// A step of a running process: the process instance, the execution that the
/// step moves (if any), the element it stands at, the element that ends the
/// process early (if any) and the task being completed (if any).
#[derive(Debug)]
pub struct BaseOperator {
    pub proc_inst: ApfRuExecution,
    pub current_exec: Option<ApfRuExecution>,
    pub element: BpmnElement,
    pub terminate_element: Option<BpmnElement>,
    pub current_task: Option<ApfRuTask>,
}

pub open spec fn no_task_msg() -> Seq<char> {
    "current task not found"@
}

pub open spec fn no_execution_msg() -> Seq<char> {
    "current execution not found"@
}

pub open spec fn edge_source_msg() -> Seq<char> {
    "source bpmn node not found when taking outgoing flows"@
}

pub open spec fn exclusive_msg() -> Seq<char> {
    "ExclusiveGateway node is not supported by continue_outflow()"@
}

pub open spec fn parallel_msg() -> Seq<char> {
    "ParallelGateway is not supported by continue_outflow()"@
}

pub open spec fn no_outflow_msg() -> Seq<char> {
    "start event must have 1 outflow"@
}

/// What leaving the element `el` of the process with elements `elems` comes
/// to: the flow to take next (none after an end event), or the error, as a
/// code and a message. A start event, a task, or a service task takes its
/// first outgoing flow; it needs an execution to move and an outgoing flow.
/// Gateways are not left this way, nor are edges.
pub open spec fn outflow_decision(el: BpmnElement, has_exec: bool, elems: Seq<BpmnElement>) -> Result<
    Option<SequenceFlow>,
    (ErrorCode, Seq<char>),
> {
    match el {
        BpmnElement::Edge(_) => Err((ErrorCode::NotFound, edge_source_msg())),
        BpmnElement::Node(node) => match node.view_node_type() {
            NodeType::EndEvent => Ok(None),
            NodeType::ExclusiveGateway => Err((ErrorCode::NotSupportError, exclusive_msg())),
            NodeType::ParallelGateway => Err((ErrorCode::NotFound, parallel_msg())),
            _ => if !has_exec {
                Err((ErrorCode::NotFound, no_execution_msg()))
            } else if flows_from(elems, node.view_id()).len() == 0 {
                Err((ErrorCode::NotFound, no_outflow_msg()))
            } else {
                Ok(Some(flows_from(elems, node.view_id())[0]))
            },
        },
    }
}

/// The execution `x` moved onto the flow `f`, started by `start_user` at
/// `start_time`.
pub open spec fn moved_onto(x: ApfRuExecution, f: SequenceFlow, start_user: Option<String>, start_time: i64) -> ApfRuExecution {
    ApfRuExecution { element_id: Some(f.id), start_user, start_time, ..x }
}

/// The step that takes the flow `f` after `op` left its element: the same
/// process instance and execution, at the flow, with no terminating element
/// and no task.
pub open spec fn take_flow_step(op: BaseOperator, f: SequenceFlow) -> Operator {
    Operator::TakeOutgoingFlowsOperator(BaseOperator {
        proc_inst: op.proc_inst,
        current_exec: op.current_exec,
        element: BpmnElement::Edge(f),
        terminate_element: None,
        current_task: None,
    })
}

/// Whether a node's kind lets its candidates complete its task.
pub open spec fn has_candidates(t: NodeType) -> bool {
    t == NodeType::UserTask || t == NodeType::ServiceTask
}

/// The candidate user that the query for completing a task at `el` filters
/// on: where the node names candidate groups and a group is given, the group
/// (it is matched against the candidate users); else, where the node names
/// candidate users and a user is given, the user; else none.
pub open spec fn privilege_candidate(el: BpmnElement, user_id: Option<String>, group_id: Option<String>) -> Option<String> {
    match el {
        BpmnElement::Node(node) => {
            let t = node.view_node_type();
            if node.view_candidate_groups().len() > 0 && has_candidates(t) && group_id is Some {
                group_id
            } else if node.view_candidate_users().len() > 0 && has_candidates(t) && user_id is Some {
                user_id
            } else {
                None
            }
        },
        BpmnElement::Edge(_) => None,
    }
}

/// The message for a user who may not complete a task.
pub open spec fn not_authorized_msg(user_id: Option<String>, task_id: Seq<char>) -> Seq<char> {
    "Current user ("@ + match user_id {
        Some(u) => u@,
        None => "?"@,
    } + ") has not been authorized to complete the task ("@ + task_id + ")"@
}

/// Leaving a start event, a user task or a service task that has an
/// execution and an outgoing flow takes the first of its outgoing flows, in
/// the order of the process's elements; only an end event is left without a
/// flow, and a node without outgoing flows, or without an execution, is never
/// left by a flow.
pub proof fn lemma_outflow_takes_first_flow(el: BpmnElement, has_exec: bool, elems: Seq<BpmnElement>)
    ensures
        (el matches BpmnElement::Node(n) && (n.view_node_type() == NodeType::StartEvent
            || n.view_node_type() == NodeType::UserTask || n.view_node_type() == NodeType::ServiceTask)
            && has_exec && flows_from(elems, n.view_id()).len() > 0)
            ==> outflow_decision(el, has_exec, elems) == Ok::<Option<SequenceFlow>, (ErrorCode, Seq<char>)>(
                Some(flows_from(elems, el->Node_0.view_id())[0]),
            ),
        outflow_decision(el, has_exec, elems) == Ok::<Option<SequenceFlow>, (ErrorCode, Seq<char>)>(None)
            <==> (el matches BpmnElement::Node(n) && n.view_node_type() == NodeType::EndEvent),
        outflow_decision(el, has_exec, elems) matches Ok(Some(f)) ==> (has_exec && el is Node
            && flows_from(elems, el->Node_0.view_id()).contains(f)),
{
    if let Ok(Some(f)) = outflow_decision(el, has_exec, elems) {
        let n = el->Node_0;
        assert(flows_from(elems, n.view_id())[0] == f);
        assert(flows_from(elems, n.view_id()).contains(f));
    }
}

/// The privilege query filters on a candidate only for a user task or a
/// service task, and only on one the node offers the task to: the group
/// where the node names candidate groups and a group is given (the group
/// goes first), else the user where the node names candidate users and a user
/// is given. A node that names no candidate users is never filtered on the
/// user, and one that names neither is not filtered at all.
pub proof fn lemma_privilege_candidate(el: BpmnElement, user_id: Option<String>, group_id: Option<String>)
    ensures
        privilege_candidate(el, user_id, group_id) matches Some(c) ==> (el is Node && (
        el->Node_0.view_node_type() == NodeType::UserTask || el->Node_0.view_node_type() == NodeType::ServiceTask) && (
        (group_id == Some(c) && el->Node_0.view_candidate_groups().len() > 0) || (user_id == Some(c)
            && el->Node_0.view_candidate_users().len() > 0))),
        (el matches BpmnElement::Node(n) && n.view_candidate_users().len() == 0 && (
        n.view_candidate_groups().len() == 0 || group_id is None)) ==> privilege_candidate(el, user_id, group_id) is None,
        (el matches BpmnElement::Node(n) && (n.view_node_type() == NodeType::UserTask || n.view_node_type()
            == NodeType::ServiceTask) && n.view_candidate_groups().len() > 0 && group_id is Some)
            ==> privilege_candidate(el, user_id, group_id) == group_id,
        (el matches BpmnElement::Node(n) && (n.view_node_type() == NodeType::UserTask || n.view_node_type()
            == NodeType::ServiceTask) && (n.view_candidate_groups().len() == 0 || group_id is None)
            && n.view_candidate_users().len() > 0 && user_id is Some)
            ==> privilege_candidate(el, user_id, group_id) == user_id,
{
}

impl BaseOperator {
    pub fn new(
        proc_inst: ApfRuExecution,
        current_exec: Option<ApfRuExecution>,
        element: BpmnElement,
        terminate_element: Option<BpmnElement>,
        current_task: Option<ApfRuTask>,
    ) -> (r: Self)
        ensures
            r.proc_inst == proc_inst,
            r.current_exec == current_exec,
            r.element == element,
            r.terminate_element == terminate_element,
            r.current_task == current_task,
    {
        BaseOperator { proc_inst, current_exec, element, terminate_element, current_task }
    }

    pub fn current_exec(&self) -> (r: Option<ApfRuExecution>)
        ensures
            r == self.current_exec,
    {
        match &self.current_exec {
            Some(e) => Some(e.clone()),
            None => None,
        }
    }

    pub fn set_current_exec(&mut self, current_exec: ApfRuExecution)
        ensures
            final(self).current_exec == Some(current_exec),
            final(self).proc_inst == old(self).proc_inst,
            final(self).element == old(self).element,
            final(self).terminate_element == old(self).terminate_element,
            final(self).current_task == old(self).current_task,
    {
        self.current_exec = Some(current_exec);
    }

    /// The task being completed, or a `NotFound` error where there is none.
    pub fn current_task_ex(&self) -> (r: Result<ApfRuTask, AppError>)
        ensures
            match self.current_task {
                Some(t) => r == Ok::<ApfRuTask, AppError>(t),
                None => r matches Err(e) && is_error(e, ErrorCode::NotFound, no_task_msg()),
            },
    {
        match &self.current_task {
            Some(t) => Ok(t.clone()),
            None => Err(AppError::new(ErrorCode::NotFound, Some("current task not found"), "BaseOperator::current_task_ex", None)),
        }
    }

    /// The execution that the step moves, or a `NotFound` error where there is
    /// none.
    pub fn current_excution_ex(&self) -> (r: Result<ApfRuExecution, AppError>)
        ensures
            match self.current_exec {
                Some(x) => r == Ok::<ApfRuExecution, AppError>(x),
                None => r matches Err(e) && is_error(e, ErrorCode::NotFound, no_execution_msg()),
            },
    {
        match &self.current_exec {
            Some(x) => Ok(x.clone()),
            None => Err(AppError::new(ErrorCode::NotFound, Some("current execution not found"), "BaseOperator::current_excution_ex", None)),
        }
    }

    /// Leaves the step's element by its outgoing flow (see `outflow_decision`):
    /// where a flow is taken, the execution moves onto it, started by
    /// `start_user` at `start_time`, and the step that takes the flow is
    /// queued; the flow is returned, so that the caller records the move.
    /// After an end event, or on an error, nothing changes.
    pub fn continue_outflow(
        &mut self,
        process: &BpmnProcess,
        start_user: Option<String>,
        start_time: i64,
        queue: &mut Vec<Operator>,
    ) -> (r: Result<Option<SequenceFlow>, AppError>)
        ensures
            match outflow_decision(old(self).element, old(self).current_exec is Some, process.elements@) {
                Ok(None) => {
                    &&& r == Ok::<Option<SequenceFlow>, AppError>(None)
                    &&& *final(self) == *old(self)
                    &&& final(queue)@ == old(queue)@
                },
                Ok(Some(f)) => {
                    &&& r == Ok::<Option<SequenceFlow>, AppError>(Some(f))
                    &&& *final(self) == (BaseOperator {
                        current_exec: Some(moved_onto(old(self).current_exec->0, f, start_user, start_time)),
                        ..*old(self)
                    })
                    &&& final(queue)@ == old(queue)@.push(take_flow_step(*final(self), f))
                },
                Err((code, msg)) => {
                    &&& r matches Err(e) && is_error(e, code, msg)
                    &&& *final(self) == *old(self)
                    &&& final(queue)@ == old(queue)@
                },
            },
    {
        let decision = self.outflow(process);
        match decision {
            Ok(Some(f)) => {
                match self.current_exec.take() {
                    Some(mut x) => {
                        x.element_id = Some(f.id.clone());
                        x.start_user = start_user;
                        x.start_time = start_time;
                        self.current_exec = Some(x);
                    },
                    None => {},
                }
                let current_exec = match &self.current_exec {
                    Some(x) => Some(x.clone()),
                    None => None,
                };
                let next = BaseOperator {
                    proc_inst: self.proc_inst.clone(),
                    current_exec,
                    element: BpmnElement::Edge(f.clone()),
                    terminate_element: None,
                    current_task: None,
                };
                queue.push(Operator::TakeOutgoingFlowsOperator(next));
                Ok(Some(f))
            },
            other => other,
        }
    }

    /// The flow by which the step leaves its element (see `outflow_decision`).
    fn outflow(&self, process: &BpmnProcess) -> (r: Result<Option<SequenceFlow>, AppError>)
        ensures
            match outflow_decision(self.element, self.current_exec is Some, process.elements@) {
                Ok(f) => r == Ok::<Option<SequenceFlow>, AppError>(f),
                Err((code, msg)) => r matches Err(e) && is_error(e, code, msg),
            },
    {
        match &self.element {
            BpmnElement::Edge(_) => Err(AppError::new(
                ErrorCode::NotFound,
                Some("source bpmn node not found when taking outgoing flows"),
                "BaseOperator::continue_outflow",
                None,
            )),
            BpmnElement::Node(node) => {
                let out_flows = node.out_flows(process);
                match node.get_node_type() {
                    NodeType::EndEvent => Ok(None),
                    NodeType::ExclusiveGateway => Err(AppError::new(
                        ErrorCode::NotSupportError,
                        Some("ExclusiveGateway node is not supported by continue_outflow()"),
                        "BaseOperator::continue_outflow",
                        None,
                    )),
                    NodeType::ParallelGateway => Err(AppError::new(
                        ErrorCode::NotFound,
                        Some("ParallelGateway is not supported by continue_outflow()"),
                        "BaseOperator::continue_outflow",
                        None,
                    )),
                    _ => {
                        if self.current_exec.is_none() {
                            return Err(AppError::new(
                                ErrorCode::NotFound,
                                Some("current execution not found"),
                                "BaseOperator::continue_outflow",
                                None,
                            ));
                        }
                        if out_flows.len() == 0 {
                            return Err(AppError::new(
                                ErrorCode::NotFound,
                                Some("start event must have 1 outflow"),
                                "BaseOperator::continue_outflow",
                                None,
                            ));
                        }
                        Ok(Some(out_flows[0].clone()))
                    },
                }
            },
        }
    }

    /// Moves the execution onto the element `element_id`, started by
    /// `start_user` at `start_time`; gives the execution's identifier, or a
    /// `NotFound` error where the step moves no execution.
    pub fn begin_execution(&mut self, element_id: &str, start_user: Option<String>, start_time: i64) -> (r: Result<String, AppError>)
        ensures
            match old(self).current_exec {
                Some(x) => {
                    &&& r matches Ok(id) && id@ == x.id@
                    &&& final(self).current_exec == Some(ApfRuExecution {
                        element_id: final(self).current_exec->0.element_id,
                        start_user,
                        start_time,
                        ..x
                    })
                    &&& opt_view(final(self).current_exec->0.element_id) == Some(element_id@)
                },
                None => r matches Err(e) && is_error(e, ErrorCode::NotFound, no_execution_msg())
                    && final(self).current_exec is None,
            },
            final(self).proc_inst == old(self).proc_inst,
            final(self).element == old(self).element,
            final(self).terminate_element == old(self).terminate_element,
            final(self).current_task == old(self).current_task,
    {
        match self.current_exec.take() {
            Some(mut x) => {
                let id = x.id.clone();
                x.element_id = Some(element_id.to_owned());
                x.start_user = start_user;
                x.start_time = start_time;
                self.current_exec = Some(x);
                Ok(id)
            },
            None => Err(AppError::new(ErrorCode::NotFound, Some("current execution not found"), "BaseOperator::begin_execution", None)),
        }
    }

    /// The history record for entering the step's element at `start_time`,
    /// linked to `task_id`; a `NotFound` error where the step moves no
    /// execution.
    pub fn new_hi_actinst(&self, task_id: Option<String>, start_time: i64) -> (r: Result<NewApfHiActinst, AppError>)
        ensures
            match self.current_exec {
                Some(x) => r matches Ok(a) && {
                    &&& a.rev == 1
                    &&& a.proc_def_id == self.proc_inst.proc_def_id
                    &&& a.proc_inst_id == self.proc_inst.proc_inst_id
                    &&& a.execution_id == x.id
                    &&& a.task_id == task_id
                    &&& opt_view(a.element_id) == Some(element_id(self.element))
                    &&& opt_view(a.element_name) == element_name(self.element)
                    &&& opt_view(a.element_type) == Some(element_type(self.element))
                    &&& a.start_user_id == x.start_user
                    &&& a.start_time == start_time
                    &&& a.end_time is None
                    &&& a.duration is None
                },
                None => r matches Err(e) && is_error(e, ErrorCode::NotFound, no_execution_msg()),
            },
    {
        let x = self.current_excution_ex()?;
        Ok(NewApfHiActinst {
            rev: 1,
            proc_def_id: self.proc_inst.proc_def_id.clone(),
            proc_inst_id: crate::manager::engine::bpmn::bpmn_node::copy_opt(&self.proc_inst.proc_inst_id),
            execution_id: x.id,
            task_id,
            element_id: Some(self.element.get_element_id()),
            element_name: self.element.get_element_name(),
            element_type: Some(self.element.get_element_type()),
            start_user_id: x.start_user,
            start_time,
            end_time: None,
            duration: None,
        })
    }

    /// A new execution of the process instance at the element `element_id`,
    /// started by `start_user` at `start_time`.
    pub fn new_current_execution(&self, element_id: &str, start_time: i64, start_user: Option<String>) -> (r: NewApfRuExecution)
        ensures
            r.parent_id matches Some(p) && p == self.proc_inst.id,
            r.proc_inst_id matches Some(p) && p == self.proc_inst.id,
            r.root_proc_inst_id matches Some(p) && p == self.proc_inst.id,
            r.proc_def_id == self.proc_inst.proc_def_id,
            opt_view(r.element_id) == Some(element_id@),
            r.is_active == 1,
            r.start_time == start_time,
            r.start_user == start_user,
            r.business_key == self.proc_inst.business_key,
    {
        NewApfRuExecution {
            parent_id: Some(self.proc_inst.id.clone()),
            proc_inst_id: Some(self.proc_inst.id.clone()),
            proc_def_id: self.proc_inst.proc_def_id.clone(),
            root_proc_inst_id: Some(self.proc_inst.id.clone()),
            element_id: Some(element_id.to_owned()),
            is_active: 1,
            start_time,
            start_user,
            business_key: crate::manager::engine::bpmn::bpmn_node::copy_opt(&self.proc_inst.business_key),
        }
    }

    /// The query for the task `task` at `element` that the user `user_id` of
    /// the group `group_id` may complete: the task itself, filtered on the
    /// candidate of `privilege_candidate`.
    pub fn complete_task_privilege_query(
        &self,
        task: &ApfRuTask,
        element: &BpmnElement,
        user_id: &Option<String>,
        group_id: &Option<String>,
    ) -> (r: TaskQuery)
        ensures
            r.id matches Some(i) && i@ == task.id@,
            r.candidate_user == privilege_candidate(*element, *user_id, *group_id),
            r.execution_id is None,
            r.proc_inst_id is None,
            r.candidate_group is None,
            r.business_key is None,
            r.process_definition_key is None,
            r.order_by is None,
            r.count is None,
    {
        let mut task_query = TaskQuery::new().id(task.id.as_str());
        if let BpmnElement::Node(node) = element {
            let t = node.get_node_type();
            let applies = match t {
                NodeType::UserTask => true,
                NodeType::ServiceTask => true,
                _ => false,
            };
            if node.candidate_users().len() > 0 && applies && user_id.is_some() {
                task_query = task_query.candidate_user(crate::manager::engine::bpmn::bpmn_node::copy_opt(user_id));
            }
            if node.candidate_groups().len() > 0 && applies && group_id.is_some() {
                task_query = task_query.candidate_user(crate::manager::engine::bpmn::bpmn_node::copy_opt(group_id));
            }
        }
        task_query
    }

    /// Whether the user `user_id` may complete `task`, given the number of
    /// tasks that the privilege query found: a `NotAuthorized` error where it
    /// found none.
    pub fn complete_task_privilege_check(&self, tasks_found: usize, user_id: &Option<String>, task: &ApfRuTask) -> (r: Result<(), AppError>)
        ensures
            tasks_found > 0 ==> r is Ok,
            tasks_found == 0 ==> (r matches Err(e) && is_error(e, ErrorCode::NotAuthorized, not_authorized_msg(*user_id, task.id@))),
    {
        if tasks_found == 0 {
            let mut msg = String::from_str("Current user (");
            match user_id {
                Some(u) => push_str(&mut msg, u.as_str()),
                None => push_str(&mut msg, "?"),
            }
            push_str(&mut msg, ") has not been authorized to complete the task (");
            push_str(&mut msg, task.id.as_str());
            push_str(&mut msg, ")");
            return Err(AppError::new(ErrorCode::NotAuthorized, Some(msg.as_str()), "BaseOperator::check_complete_task_priviledge", None));
        }
        Ok(())
    }
}

} // verus!
