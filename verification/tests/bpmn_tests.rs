use apf_engine::error::ErrorCode;
use apf_engine::manager::engine::bpmn::bpmn_definitions::BpmnDefinitions;
use apf_engine::manager::engine::bpmn::bpmn_element::{BpmnElement, FlowNode};
use apf_engine::manager::engine::bpmn::bpmn_node::{BpmnNode, NodeType};
use apf_engine::manager::engine::bpmn::bpmn_process::BpmnProcess;
use apf_engine::manager::engine::bpmn::end_event::EndEvent;
use apf_engine::manager::engine::bpmn::exclusive_gateway::ExclusiveGateway;
use apf_engine::manager::engine::bpmn::parallel_gateway::ParallelGateway;
use apf_engine::manager::engine::bpmn::sequence_flow::SequenceFlow;
use apf_engine::manager::engine::bpmn::service_task::ServiceTask;
use apf_engine::manager::engine::bpmn::start_event::StartEvent;
use apf_engine::manager::engine::bpmn::user_task::UserTask;

fn s(x: &str) -> String {
    x.to_owned()
}

fn flow(id: &str, from: &str, to: &str) -> BpmnElement {
    BpmnElement::Edge(SequenceFlow::new(s(id), s(from), s(to), None))
}

fn start(id: &str) -> BpmnElement {
    BpmnElement::Node(FlowNode::StartEvent(StartEvent::new(s(id), None)))
}

fn end(id: &str) -> BpmnElement {
    BpmnElement::Node(FlowNode::EndEvent(EndEvent::new(s(id), None)))
}

fn user(id: &str) -> BpmnElement {
    BpmnElement::Node(FlowNode::UserTask(UserTask::new(
        s(id),
        Some(s("Approve")),
        Some(s("form_1")),
        Some(s("approve it")),
        Some(s("Managers,Staff")),
        None,
    )))
}

fn process(elements: Vec<BpmnElement>) -> BpmnProcess {
    BpmnProcess { id: s("process_1"), name: s("Process 1"), description: None, elements }
}

fn simple_process() -> BpmnProcess {
    process(vec![
        start("start_1"),
        flow("f1", "start_1", "task_1"),
        user("task_1"),
        flow("f2", "task_1", "end_1"),
        end("end_1"),
    ])
}

#[test]
fn node_type_names() {
    assert_eq!(NodeType::StartEvent.name(), "StartEvent");
    assert_eq!(NodeType::EndEvent.name(), "EndEvent");
    assert_eq!(NodeType::UserTask.name(), "UserTask");
    assert_eq!(NodeType::ServiceTask.name(), "ServiceTask");
    assert_eq!(NodeType::ExclusiveGateway.name(), "ExclusiveGateway");
    assert_eq!(NodeType::ParallelGateway.name(), "ParallelGateway");
}

#[test]
fn valid_process_validates() {
    let defs = BpmnDefinitions::new(s("<xml/>"), simple_process());
    assert!(defs.validate().is_ok());
}

#[test]
fn start_event_with_inflow_is_refused() {
    let defs = BpmnDefinitions::new(
        s(""),
        process(vec![
            start("start_1"),
            flow("f1", "start_1", "end_1"),
            flow("f0", "end_1", "start_1"),
            end("end_1"),
        ]),
    );
    let e = defs.validate().unwrap_err();
    assert_eq!(e.code, ErrorCode::ParseError);
    assert_eq!(e.msg, "StartEvent(start_1) 不能有输入边 (len: 1)");
}

#[test]
fn start_event_needs_one_outflow() {
    let defs = BpmnDefinitions::new(s(""), process(vec![start("start_1")]));
    let e = defs.validate().unwrap_err();
    assert_eq!(e.msg, "StartEvent(start_1) 有且只能有1条输出边 (len: 0)");
}

#[test]
fn end_event_rules() {
    let defs = BpmnDefinitions::new(s(""), process(vec![end("end_1")]));
    assert_eq!(defs.validate().unwrap_err().msg, "EndEvent(end_1) 至少要有1条输入边 (len: 0)");
    let defs = BpmnDefinitions::new(
        s(""),
        process(vec![
            start("start_1"),
            flow("f1", "start_1", "end_1"),
            end("end_1"),
            flow("f2", "end_1", "end_2"),
            flow("f3", "end_1", "end_2"),
            end("end_2"),
        ]),
    );
    assert_eq!(defs.validate().unwrap_err().msg, "EndEvent(end_1) 不能有输出边 (len: 2)");
}

#[test]
fn gateways_need_an_outflow() {
    let gw = BpmnElement::Node(FlowNode::ExclusiveGateway(ExclusiveGateway::new(s("gw_1"), None)));
    let defs = BpmnDefinitions::new(
        s(""),
        process(vec![start("start_1"), flow("f1", "start_1", "gw_1"), gw]),
    );
    assert_eq!(defs.validate().unwrap_err().msg, "ExclusiveGateway(gw_1) 至少要有1条输出边 (len: 0)");
    let pg = BpmnElement::Node(FlowNode::ParallelGateway(ParallelGateway::new(s("pg_1"), None)));
    let defs = BpmnDefinitions::new(s(""), process(vec![pg]));
    assert_eq!(defs.validate().unwrap_err().msg, "ParallelGateway(pg_1) 至少要有1条输入边 (len: 0)");
}

#[test]
fn service_task_needs_one_outflow() {
    let st = BpmnElement::Node(FlowNode::ServiceTask(ServiceTask::new(s("st_1"), Some(s("Send")), None)));
    let defs = BpmnDefinitions::new(
        s(""),
        process(vec![
            start("start_1"),
            flow("f1", "start_1", "st_1"),
            st,
            flow("f2", "st_1", "end_1"),
            flow("f3", "st_1", "end_1"),
            end("end_1"),
        ]),
    );
    assert_eq!(defs.validate().unwrap_err().msg, "ServiceTask(st_1) 有且只能有1条输出边 (len: 2)");
}

#[test]
fn dangling_flows_are_refused() {
    let defs = BpmnDefinitions::new(s(""), process(vec![flow("f9", "nowhere", "end_1"), end("end_1")]));
    assert_eq!(defs.validate().unwrap_err().msg, "SequenceFlow (f9) 必须要有输入节点");
    let defs = BpmnDefinitions::new(
        s(""),
        process(vec![start("start_1"), flow("f1", "start_1", "nowhere")]),
    );
    assert_eq!(defs.validate().unwrap_err().msg, "SequenceFlow (f1) 必须要有输出节点");
    let defs = BpmnDefinitions::new(
        s(""),
        process(vec![start("start_1"), flow("f1", "start_1", "f1")]),
    );
    assert_eq!(defs.validate().unwrap_err().msg, "SequenceFlow (f1) 必须要有输出节点");
}

#[test]
fn first_broken_rule_is_reported() {
    let defs = BpmnDefinitions::new(s(""), process(vec![end("end_1"), start("start_1")]));
    assert_eq!(defs.validate().unwrap_err().msg, "EndEvent(end_1) 至少要有1条输入边 (len: 0)");
}

#[test]
fn flows_of_a_node() {
    let p = simple_process();
    let task = UserTask::new(s("task_1"), None, None, None, None, None);
    let outs = task.out_flows(&p);
    let ins = task.in_flows(&p);
    assert_eq!(outs.len(), 1);
    assert_eq!(outs[0].id, "f2");
    assert_eq!(ins.len(), 1);
    assert_eq!(ins[0].id, "f1");
    let other = EndEvent::new(s("missing"), None);
    assert!(other.out_flows(&p).is_empty());
}

#[test]
fn sequence_flow_nodes() {
    let p = simple_process();
    let f = SequenceFlow::new(s("f1"), s("start_1"), s("task_1"), Some(s("${ok}")));
    assert_eq!(f.from_node(&p).unwrap().get_id(), "start_1");
    assert_eq!(f.to_node(&p).unwrap().get_node_type(), NodeType::UserTask);
    assert_eq!(f.get_condition_expr(), Some(s("${ok}")));
    assert_eq!(f.get_edge_type(), "SequenceFlow");
    let g = SequenceFlow::new(s("g"), s("f1"), s("none"), None);
    assert!(g.from_node(&p).is_none());
    assert!(g.to_node(&p).is_none());
}

#[test]
fn element_getters() {
    let u = user("task_1");
    assert_eq!(u.get_element_id(), "task_1");
    assert_eq!(u.get_element_type(), "UserTask");
    assert_eq!(u.get_element_name(), Some(s("Approve")));
    assert_eq!(u.get_description(), Some(s("approve it")));
    assert_eq!(u.get_from_key(), Some(s("form_1")));
    let f = flow("f1", "a", "b");
    assert_eq!(f.get_element_id(), "f1");
    assert_eq!(f.get_element_type(), "SequenceFlow");
    assert_eq!(f.get_element_name(), None);
    assert_eq!(f.get_description(), None);
    assert_eq!(f.get_from_key(), None);
}

#[test]
fn user_task_candidates_are_lower_case_pieces() {
    let t = UserTask::new(s("t"), None, None, None, Some(s("Managers,Staff, ÄRZTE")), Some(s("ALICE")));
    assert_eq!(t.candidate_groups, vec![s("managers"), s("staff"), s(" ärzte")]);
    assert_eq!(t.candidate_users, vec![s("alice")]);
    let t = UserTask::new(s("t"), None, None, None, None, Some(s("")));
    assert!(t.candidate_groups.is_empty());
    assert_eq!(t.candidate_users, vec![s("")]);
}

#[test]
fn process_lookups() {
    let p = simple_process();
    assert!(matches!(p.get_element("f2"), Some(BpmnElement::Edge(_))));
    assert!(matches!(p.get_node("end_1"), Some(FlowNode::EndEvent(_))));
    assert!(p.get_node("f2").is_none());
    assert!(p.get_element("zzz").is_none());
}

#[test]
fn a_repeated_identifier_finds_the_last_element() {
    let p = simple_process();
    assert_eq!(p.get_element("task_1").unwrap().get_element_id(), "task_1");
    assert!(p.get_element("nowhere").is_none());
    let twice = process(vec![start("x"), flow("f1", "x", "end_1"), end("x")]);
    assert_eq!(twice.get_element("x").unwrap().get_element_type(), "EndEvent");
    assert_eq!(twice.get_node("x").unwrap().get_node_type(), NodeType::EndEvent);
    let edge_last = process(vec![end("y"), flow("y", "a", "b")]);
    assert!(edge_last.get_node("y").is_none());
    // A process with a repeated identifier is still validated: the start
    // event `x` has an incoming flow from the end event `x`.
    let defs = BpmnDefinitions::new(
        s(""),
        process(vec![start("x"), flow("f1", "x", "end_1"), end("end_1"), flow("f2", "end_1", "x"), end("x")]),
    );
    assert_eq!(defs.validate().unwrap_err().msg, "StartEvent(x) 不能有输入边 (len: 1)");
}
