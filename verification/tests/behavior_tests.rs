use apf_engine::error::ErrorCode;
use apf_engine::manager::engine::behavior::base_operator::BaseOperator;
use apf_engine::manager::engine::behavior::end_event_behavior::EndEventBehavior;
use apf_engine::manager::engine::behavior::operator::Operator;
use apf_engine::manager::engine::behavior::operator_executor::{OperateRst, OperatorExecutor};
use apf_engine::manager::engine::behavior::service_task_behavior::ServiceTaskBehavior;
use apf_engine::manager::engine::bpmn::bpmn_element::{BpmnElement, FlowNode};
use apf_engine::manager::engine::bpmn::bpmn_process::BpmnProcess;
use apf_engine::manager::engine::bpmn::end_event::EndEvent;
use apf_engine::manager::engine::bpmn::exclusive_gateway::ExclusiveGateway;
use apf_engine::manager::engine::bpmn::parallel_gateway::ParallelGateway;
use apf_engine::manager::engine::bpmn::sequence_flow::SequenceFlow;
use apf_engine::manager::engine::bpmn::start_event::StartEvent;
use apf_engine::manager::engine::bpmn::user_task::UserTask;
use apf_engine::manager::engine::process_engine::{RuntimeService, TaskService};
use apf_engine::dao::records::{hi_identitylink_from_link, hi_taskinst_from_task, task_variable_dto};
use apf_engine::model::{ApfRuExecution, ApfRuIdentitylink, ApfRuTask, IdentType};

fn s(x: &str) -> String {
    x.to_owned()
}

fn execution(id: &str, element: Option<&str>) -> ApfRuExecution {
    ApfRuExecution {
        id: s(id),
        rev: 1,
        proc_inst_id: Some(s("p1")),
        business_key: Some(s("process_biz_key")),
        parent_id: None,
        proc_def_id: s("def1"),
        root_proc_inst_id: Some(s("p1")),
        element_id: element.map(s),
        is_active: 1,
        start_time: 100,
        start_user: Some(s("u0")),
    }
}

fn task() -> ApfRuTask {
    ApfRuTask {
        id: s("t1"),
        rev: 1,
        execution_id: s("e1"),
        proc_inst_id: s("p1"),
        proc_def_id: s("def1"),
        element_id: Some(s("task_1")),
        element_name: Some(s("Approve")),
        element_type: Some(s("UserTask")),
        business_key: None,
        description: None,
        start_user_id: Some(s("u0")),
        create_time: 42,
        suspension_state: 0,
        form_key: Some(s("form")),
    }
}

fn start() -> BpmnElement {
    BpmnElement::Node(FlowNode::StartEvent(StartEvent::new(s("start_1"), None)))
}

fn process() -> BpmnProcess {
    BpmnProcess {
        id: s("proc"),
        name: s("Proc"),
        description: None,
        elements: vec![
            start(),
            BpmnElement::Edge(SequenceFlow::new(s("f1"), s("start_1"), s("end_1"), None)),
            BpmnElement::Edge(SequenceFlow::new(s("f2"), s("start_1"), s("end_1"), None)),
            BpmnElement::Node(FlowNode::EndEvent(EndEvent::new(s("end_1"), None))),
        ],
    }
}

#[test]
fn start_event_takes_its_first_outflow() {
    let mut op = BaseOperator::new(execution("p1", None), Some(execution("e1", None)), start(), None, None);
    let mut queue: Vec<Operator> = Vec::new();
    let f = op.continue_outflow(&process(), Some(s("u1")), 77, &mut queue).unwrap().unwrap();
    assert_eq!(f.id, "f1");
    let x = op.current_exec().unwrap();
    assert_eq!(x.id, "e1");
    assert_eq!(x.element_id.as_deref(), Some("f1"));
    assert_eq!(x.start_user.as_deref(), Some("u1"));
    assert_eq!(x.start_time, 77);
    assert_eq!(queue.len(), 1);
    match &queue[0] {
        Operator::TakeOutgoingFlowsOperator(next) => {
            assert_eq!(next.proc_inst.id, "p1");
            let nx = next.current_exec.as_ref().unwrap();
            assert_eq!(nx.id, "e1");
            assert_eq!(nx.element_id.as_deref(), Some("f1"));
            match &next.element {
                BpmnElement::Edge(e) => assert_eq!(e.id, "f1"),
                _ => panic!("expected the flow"),
            }
            assert!(next.terminate_element.is_none());
            assert!(next.current_task.is_none());
        },
        _ => panic!("expected a step that takes the flow"),
    }
}

#[test]
fn continue_outflow_errors() {
    let p = process();
    let mut queue: Vec<Operator> = Vec::new();
    let mut op = BaseOperator::new(execution("p1", None), None, start(), None, None);
    let e = op.continue_outflow(&p, None, 1, &mut queue).unwrap_err();
    assert_eq!(e.code, ErrorCode::NotFound);
    assert_eq!(e.msg, "current execution not found");

    let lonely = BpmnElement::Node(FlowNode::StartEvent(StartEvent::new(s("start_9"), None)));
    let mut op = BaseOperator::new(execution("p1", None), Some(execution("e1", None)), lonely, None, None);
    assert_eq!(op.continue_outflow(&p, None, 1, &mut queue).unwrap_err().msg, "start event must have 1 outflow");

    let edge = BpmnElement::Edge(SequenceFlow::new(s("f1"), s("start_1"), s("end_1"), None));
    let mut op = BaseOperator::new(execution("p1", None), None, edge, None, None);
    assert_eq!(op.continue_outflow(&p, None, 1, &mut queue).unwrap_err().msg, "source bpmn node not found when taking outgoing flows");

    let gw = BpmnElement::Node(FlowNode::ExclusiveGateway(ExclusiveGateway::new(s("gw"), None)));
    let mut op = BaseOperator::new(execution("p1", None), None, gw, None, None);
    let e = op.continue_outflow(&p, None, 1, &mut queue).unwrap_err();
    assert_eq!(e.code, ErrorCode::NotSupportError);
    assert_eq!(e.msg, "ExclusiveGateway node is not supported by continue_outflow()");

    let pg = BpmnElement::Node(FlowNode::ParallelGateway(ParallelGateway::new(s("pg"), None)));
    let mut op = BaseOperator::new(execution("p1", None), None, pg, None, None);
    assert_eq!(op.continue_outflow(&p, None, 1, &mut queue).unwrap_err().msg, "ParallelGateway is not supported by continue_outflow()");

    let end = BpmnElement::Node(FlowNode::EndEvent(EndEvent::new(s("end_1"), None)));
    let mut op = BaseOperator::new(execution("p1", None), None, end, None, None);
    assert!(op.continue_outflow(&p, None, 1, &mut queue).unwrap().is_none());
    assert!(queue.is_empty());
}

#[test]
fn execution_moves_and_is_recorded() {
    let mut op = BaseOperator::new(execution("p1", None), Some(execution("e1", None)), start(), None, None);
    assert_eq!(op.begin_execution("f1", Some(s("u7")), 500).unwrap(), "e1");
    let x = op.current_exec().unwrap();
    assert_eq!(x.element_id.as_deref(), Some("f1"));
    assert_eq!(x.start_user.as_deref(), Some("u7"));
    assert_eq!(x.start_time, 500);
    let a = op.new_hi_actinst(Some(s("t1")), 600).unwrap();
    assert_eq!(a.rev, 1);
    assert_eq!(a.execution_id, "e1");
    assert_eq!(a.proc_def_id, "def1");
    assert_eq!(a.element_id.as_deref(), Some("start_1"));
    assert_eq!(a.element_type.as_deref(), Some("StartEvent"));
    assert_eq!(a.start_user_id.as_deref(), Some("u7"));
    assert_eq!(a.start_time, 600);
    assert!(a.end_time.is_none());
    let n = op.new_current_execution("task_1", 700, None);
    assert_eq!(n.parent_id.as_deref(), Some("p1"));
    assert_eq!(n.root_proc_inst_id.as_deref(), Some("p1"));
    assert_eq!(n.business_key.as_deref(), Some("process_biz_key"));
    assert_eq!(n.is_active, 1);
    let mut none = BaseOperator::new(execution("p1", None), None, start(), None, None);
    assert_eq!(none.begin_execution("f1", None, 1).unwrap_err().msg, "current execution not found");
    assert!(none.new_hi_actinst(None, 1).is_err());
    none.set_current_exec(execution("e2", None));
    assert_eq!(none.current_excution_ex().unwrap().id, "e2");
    assert_eq!(none.current_task_ex().unwrap_err().msg, "current task not found");
}

#[test]
fn who_may_complete_a_task() {
    let node = BpmnElement::Node(FlowNode::UserTask(UserTask::new(
        s("task_1"),
        None,
        None,
        None,
        Some(s("g1")),
        Some(s("user_1")),
    )));
    let op = BaseOperator::new(execution("p1", None), None, node.clone(), None, Some(task()));
    let q = op.complete_task_privilege_query(&task(), &node, &Some(s("user_1")), &None);
    assert_eq!(q.id.as_deref(), Some("t1"));
    assert_eq!(q.candidate_user.as_deref(), Some("user_1"));
    let q = op.complete_task_privilege_query(&task(), &node, &Some(s("user_1")), &Some(s("g1")));
    assert_eq!(q.candidate_user.as_deref(), Some("g1"));
    let q = op.complete_task_privilege_query(&task(), &start(), &Some(s("user_1")), &None);
    assert!(q.candidate_user.is_none());
    assert!(op.complete_task_privilege_check(1, &None, &task()).is_ok());
    let e = op.complete_task_privilege_check(0, &Some(s("bob")), &task()).unwrap_err();
    assert_eq!(e.code, ErrorCode::NotAuthorized);
    assert_eq!(e.msg, "Current user (bob) has not been authorized to complete the task (t1)");
    let e = op.complete_task_privilege_check(0, &None, &task()).unwrap_err();
    assert_eq!(e.msg, "Current user (?) has not been authorized to complete the task (t1)");
}

#[test]
fn ending_a_process() {
    let end = BpmnElement::Node(FlowNode::EndEvent(EndEvent::new(s("end_1"), None)));
    let b = EndEventBehavior::new(end.clone(), None, execution("p1", None), Some(execution("e1", Some("end_1"))), None);
    assert!(b.records_history());
    let plan = b.leave_plan().unwrap();
    assert_eq!(plan.proc_inst_id, "p1");
    assert_eq!(plan.execution_id, "e1");
    assert_eq!(plan.end_element_id, "end_1");
    assert!(plan.record_element_end);
    let t = BpmnElement::Node(FlowNode::EndEvent(EndEvent::new(s("terminate_1"), None)));
    let b = EndEventBehavior::new(end.clone(), Some(t), execution("p1", None), Some(execution("e1", Some("end_1"))), None);
    let plan = b.leave_plan().unwrap();
    assert_eq!(plan.end_element_id, "terminate_1");
    assert!(!plan.record_element_end);
    let b = EndEventBehavior::new(end.clone(), None, execution("p1", None), Some(execution("e1", None)), None);
    assert_eq!(b.leave_plan().unwrap_err().code, ErrorCode::NotFound);
    let b = EndEventBehavior::new(end, None, execution("p1", None), None, None);
    assert_eq!(b.leave_plan().unwrap_err().msg, "current execution not found");
    let st = ServiceTaskBehavior::new(start(), execution("p1", None), None, Some(task()));
    assert!(st.base.terminate_element.is_none());
}

#[test]
fn steps_run_in_queue_order() {
    let mut exec = OperatorExecutor::new();
    let mut queue = Vec::new();
    let a = BaseOperator::new(execution("a", None), None, start(), None, None);
    let b = BaseOperator::new(execution("b", None), None, start(), None, None);
    exec.enqueue(&mut queue, Operator::TakeOutgoingFlowsOperator(a));
    exec.enqueue(&mut queue, Operator::ContinueProcessOperator(b));
    match exec.take_next(&mut queue) {
        Some(Operator::TakeOutgoingFlowsOperator(op)) => assert_eq!(op.proc_inst.id, "a"),
        _ => panic!("expected the first step"),
    }
    match exec.take_next(&mut queue) {
        Some(Operator::ContinueProcessOperator(op)) => assert_eq!(op.proc_inst.id, "b"),
        _ => panic!("expected the second step"),
    }
    assert!(exec.take_next(&mut queue).is_none());
    let kept = exec.keep_result(OperateRst { process_instantce: Some(execution("p1", None)) }, OperateRst::default());
    assert_eq!(kept.process_instantce.unwrap().id, "p1");
    let newer = exec.keep_result(OperateRst::default(), OperateRst { process_instantce: Some(execution("p2", None)) });
    assert_eq!(newer.process_instantce.unwrap().id, "p2");
}

#[test]
fn services_report_missing_results() {
    let rt = RuntimeService::new();
    assert_eq!(rt.started_process_instance(OperateRst::default()).unwrap_err().msg, "process instance not found");
    assert_eq!(rt.started_process_instance(OperateRst { process_instantce: Some(execution("p3", None)) }).unwrap().id, "p3");
    let ts = TaskService::new();
    let p = process();
    assert!(matches!(ts.task_element(&p, "end_1"), Ok(BpmnElement::Node(_))));
    let e = ts.task_element(&p, "task_1").unwrap_err();
    assert_eq!(e.code, ErrorCode::NotFound);
    assert_eq!(e.msg, "Not found");
}

#[test]
fn history_records_copy_their_sources() {
    let h = hi_taskinst_from_task(&task());
    assert_eq!(h.id, "t1");
    assert_eq!(h.rev, 1);
    assert_eq!(h.start_time, 42);
    assert_eq!(h.form_key.as_deref(), Some("form"));
    assert!(h.end_time.is_none() && h.duration.is_none());
    let link = ApfRuIdentitylink {
        id: s("l1"),
        rev: 1,
        ident_type: IdentType::group,
        group_id: Some(s("test_group_id")),
        user_id: None,
        task_id: Some(s("t1")),
        proc_inst_id: Some(s("p1")),
        proc_def_id: Some(s("def1")),
    };
    let hl = hi_identitylink_from_link(&link);
    assert_eq!(hl.id, "l1");
    assert_eq!(hl.ident_type, IdentType::group);
    assert_eq!(hl.group_id.as_deref(), Some("test_group_id"));
}

#[test]
fn completing_a_task_writes_its_variables() {
    let t = task();
    let d = task_variable_dto(&t, "approved", s("bool"), s("1"));
    assert_eq!(d.name, "approved");
    assert_eq!(d.var_type, "bool");
    assert_eq!(d.value, "1");
    assert_eq!(d.proc_inst_id, t.proc_inst_id);
    assert_eq!(d.execution_id.as_deref(), Some(t.execution_id.as_str()));
    assert_eq!(d.task_id.as_deref(), Some(t.id.as_str()));
}
