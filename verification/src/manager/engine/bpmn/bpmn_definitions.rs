//! A parsed BPMN document and the rules that its process must obey.

use vstd::prelude::*;
use crate::error::{AppError, ErrorCode};
use crate::manager::engine::bpmn::bpmn_node::{BpmnNode, NodeType, node_type_name};
use crate::manager::engine::bpmn::bpmn_element::{BpmnElement, FlowNode};
use crate::manager::engine::bpmn::bpmn_process::{BpmnProcess, flows_from, flows_to, node_with_id};
use crate::manager::engine::bpmn::sequence_flow::SequenceFlow;
use crate::text::{decimal, push_decimal, push_str};

verus! {

/// A BPMN document: its XML text and the process it describes.
#[derive(Debug)]
pub struct BpmnDefinitions {
    pub xml: String,
    pub process: BpmnProcess,
}

/// The message for a node whose number of flows breaks a rule: the node's
/// kind, its identifier in brackets, the rule, and the number found.
pub open spec fn count_msg(t: NodeType, id: Seq<char>, rule: Seq<char>, len: nat) -> Seq<char> {
    node_type_name(t) + "("@ + id + rule + decimal(len) + ")"@
}

pub open spec fn rule_zero_inflow() -> Seq<char> {
    ") 不能有输入边 (len: "@
}

pub open spec fn rule_zero_outflow() -> Seq<char> {
    ") 不能有输出边 (len: "@
}

pub open spec fn rule_one_outflow() -> Seq<char> {
    ") 有且只能有1条输出边 (len: "@
}

pub open spec fn rule_some_inflow() -> Seq<char> {
    ") 至少要有1条输入边 (len: "@
}

pub open spec fn rule_some_outflow() -> Seq<char> {
    ") 至少要有1条输出边 (len: "@
}

/// The message for a sequence flow without a source node.
pub open spec fn no_source_msg(id: Seq<char>) -> Seq<char> {
    "SequenceFlow ("@ + id + ") 必须要有输入节点"@
}

/// The message for a sequence flow without a target node.
pub open spec fn no_target_msg(id: Seq<char>) -> Seq<char> {
    "SequenceFlow ("@ + id + ") 必须要有输出节点"@
}

/// The rule that a node with `ins` incoming and `outs` outgoing flows breaks
/// first, if any: a start event has no incoming and exactly one outgoing flow;
/// an end event has an incoming flow and no outgoing one; a user or service
/// task has an incoming flow and exactly one outgoing flow; a gateway has at
/// least one flow of each.
pub open spec fn node_error(t: NodeType, id: Seq<char>, ins: nat, outs: nat) -> Option<Seq<char>> {
    match t {
        NodeType::StartEvent => if ins != 0 {
            Some(count_msg(t, id, rule_zero_inflow(), ins))
        } else if outs != 1 {
            Some(count_msg(t, id, rule_one_outflow(), outs))
        } else {
            None
        },
        NodeType::EndEvent => if ins == 0 {
            Some(count_msg(t, id, rule_some_inflow(), ins))
        } else if outs != 0 {
            Some(count_msg(t, id, rule_zero_outflow(), outs))
        } else {
            None
        },
        NodeType::UserTask | NodeType::ServiceTask => if ins == 0 {
            Some(count_msg(t, id, rule_some_inflow(), ins))
        } else if outs != 1 {
            Some(count_msg(t, id, rule_one_outflow(), outs))
        } else {
            None
        },
        NodeType::ExclusiveGateway | NodeType::ParallelGateway => if ins == 0 {
            Some(count_msg(t, id, rule_some_inflow(), ins))
        } else if outs == 0 {
            Some(count_msg(t, id, rule_some_outflow(), outs))
        } else {
            None
        },
    }
}

/// The rule that a sequence flow breaks, if any: its source and its target
/// must each name a node of the process.
pub open spec fn edge_error(f: SequenceFlow, elems: Seq<BpmnElement>) -> Option<Seq<char>> {
    if node_with_id(elems, f.source_ref@) is None {
        Some(no_source_msg(f.id@))
    } else if node_with_id(elems, f.target_ref@) is None {
        Some(no_target_msg(f.id@))
    } else {
        None
    }
}

/// The rule that the element `e` of the process with elements `elems` breaks.
pub open spec fn element_error(e: BpmnElement, elems: Seq<BpmnElement>) -> Option<Seq<char>> {
    match e {
        BpmnElement::Node(n) => node_error(
            n.view_node_type(),
            n.view_id(),
            flows_to(elems, n.view_id()).len(),
            flows_from(elems, n.view_id()).len(),
        ),
        BpmnElement::Edge(f) => edge_error(f, elems),
    }
}

/// The first broken rule among the elements `es` of the process with
/// elements `all`.
pub open spec fn first_error(es: Seq<BpmnElement>, all: Seq<BpmnElement>) -> Option<Seq<char>>
    decreases es.len(),
{
    if es.len() == 0 {
        None
    } else {
        match element_error(es[0], all) {
            Some(m) => Some(m),
            None => first_error(es.drop_first(), all),
        }
    }
}

/// No rule is broken exactly when every element obeys its rule; where one is
/// broken, it is the rule of some element before which every element obeys.
pub proof fn lemma_first_error(es: Seq<BpmnElement>, all: Seq<BpmnElement>)
    ensures
        first_error(es, all) is None <==> forall|i: int| 0 <= i < es.len() ==> (#[trigger] element_error(es[i], all)) is None,
        first_error(es, all) matches Some(m) ==> exists|i: int|
            0 <= i < es.len() && element_error(es[i], all) == Some(m) && forall|j: int|
                0 <= j < i ==> (#[trigger] element_error(es[j], all)) is None,
    decreases es.len(),
{
    if es.len() > 0 {
        let rest = es.drop_first();
        lemma_first_error(rest, all);
        assert forall|i: int| 0 < i < es.len() implies es[i] == rest[i - 1] by {}
        if element_error(es[0], all) is None {
            if first_error(rest, all) is None {
                assert forall|i: int| 0 <= i < es.len() implies (#[trigger] element_error(es[i], all)) is None by {
                    if i > 0 {
                        assert(element_error(rest[i - 1], all) is None);
                    }
                }
            } else {
                let m = first_error(rest, all)->0;
                let k = choose|k: int|
                    0 <= k < rest.len() && element_error(rest[k], all) == Some(m) && forall|j: int|
                        0 <= j < k ==> (#[trigger] element_error(rest[j], all)) is None;
                assert(element_error(es[k + 1], all) == Some(m));
                assert forall|j: int| 0 <= j < k + 1 implies (#[trigger] element_error(es[j], all)) is None by {
                    if j > 0 {
                        assert(element_error(rest[j - 1], all) is None);
                    }
                }
            }
        }
    }
}

/// The flow rules by kind of node: a start event passes exactly when it has
/// no incoming and exactly one outgoing flow; an end event when it has at
/// least one incoming and no outgoing flow; a user or service task when it has
/// at least one incoming and exactly one outgoing flow; an exclusive or a
/// parallel gateway when it has at least one incoming and at least one
/// outgoing flow, however many.
pub proof fn lemma_node_rules(t: NodeType, id: Seq<char>, ins: nat, outs: nat)
    ensures
        t == NodeType::StartEvent ==> (node_error(t, id, ins, outs) is None <==> ins == 0 && outs == 1),
        t == NodeType::EndEvent ==> (node_error(t, id, ins, outs) is None <==> ins >= 1 && outs == 0),
        t == NodeType::UserTask ==> (node_error(t, id, ins, outs) is None <==> ins >= 1 && outs == 1),
        t == NodeType::ServiceTask ==> (node_error(t, id, ins, outs) is None <==> ins >= 1 && outs == 1),
        t == NodeType::ExclusiveGateway ==> (node_error(t, id, ins, outs) is None <==> ins >= 1 && outs >= 1),
        t == NodeType::ParallelGateway ==> (node_error(t, id, ins, outs) is None <==> ins >= 1 && outs >= 1),
{
}

/// A process passes validation exactly when every node has the flows that
/// its kind allows (counted over all the sequence flows of the process) and
/// every sequence flow starts and ends at a node of the process.
pub proof fn lemma_validate_accepts(elems: Seq<BpmnElement>)
    ensures
        first_error(elems, elems) is None <==> forall|i: int| 0 <= i < elems.len() ==> (match #[trigger] elems[i] {
            BpmnElement::Node(n) => {
                let ins = flows_to(elems, n.view_id()).len();
                let outs = flows_from(elems, n.view_id()).len();
                match n.view_node_type() {
                    NodeType::StartEvent => ins == 0 && outs == 1,
                    NodeType::EndEvent => ins >= 1 && outs == 0,
                    NodeType::UserTask | NodeType::ServiceTask => ins >= 1 && outs == 1,
                    NodeType::ExclusiveGateway | NodeType::ParallelGateway => ins >= 1 && outs >= 1,
                }
            },
            BpmnElement::Edge(f) => node_with_id(elems, f.source_ref@) is Some && node_with_id(elems, f.target_ref@) is Some,
        }),
{
    lemma_first_error(elems, elems);
    assert forall|i: int| 0 <= i < elems.len() implies (element_error(elems[i], elems) is None <==> (match #[trigger] elems[i] {
            BpmnElement::Node(n) => {
                let ins = flows_to(elems, n.view_id()).len();
                let outs = flows_from(elems, n.view_id()).len();
                match n.view_node_type() {
                    NodeType::StartEvent => ins == 0 && outs == 1,
                    NodeType::EndEvent => ins >= 1 && outs == 0,
                    NodeType::UserTask | NodeType::ServiceTask => ins >= 1 && outs == 1,
                    NodeType::ExclusiveGateway | NodeType::ParallelGateway => ins >= 1 && outs >= 1,
                }
            },
            BpmnElement::Edge(f) => node_with_id(elems, f.source_ref@) is Some && node_with_id(elems, f.target_ref@) is Some,
        })) by {
        match elems[i] {
            BpmnElement::Node(n) => {
                lemma_node_rules(n.view_node_type(), n.view_id(), flows_to(elems, n.view_id()).len(), flows_from(elems, n.view_id()).len());
            },
            BpmnElement::Edge(f) => {},
        }
    }
}

/// A `ParseError` for `node`, whose number `len` of flows breaks `rule`.
fn count_error(node: &FlowNode, rule: &str, len: usize, location: &str) -> (r: AppError)
    ensures
        r.code == ErrorCode::ParseError,
        r.msg@ == count_msg(node.view_node_type(), node.view_id(), rule@, len as nat),
        r.child_err is None,
{
    let mut msg = node.get_node_type().name();
    push_str(&mut msg, "(");
    let id = node.get_id();
    push_str(&mut msg, id.as_str());
    push_str(&mut msg, rule);
    push_decimal(&mut msg, len as u64);
    push_str(&mut msg, ")");
    AppError::new(ErrorCode::ParseError, Some(msg.as_str()), location, None)
}

impl BpmnDefinitions {
    pub fn new(xml: String, process: BpmnProcess) -> (r: Self)
        ensures
            r.xml == xml,
            r.process == process,
    {
        BpmnDefinitions { xml, process }
    }

    /// Checks every element of the process, in order, against its rule (see
    /// `node_error` and `edge_error`) and reports the first rule broken as a
    /// `ParseError`.
    pub fn validate(&self) -> (r: Result<(), AppError>)
        ensures
            r is Ok <==> first_error(self.process.elements@, self.process.elements@) is None,
            r matches Err(e) ==> e.code == ErrorCode::ParseError && e.child_err is None && Some(e.msg@)
                == first_error(self.process.elements@, self.process.elements@),
    {
        let bpmn_proc = &self.process;
        let elements = &bpmn_proc.elements;
        let ghost all = elements@;
        let mut i: usize = 0;
        assert(all.skip(0) =~= all);
        while i < elements.len()
            invariant
                all == bpmn_proc.elements@,
                all == self.process.elements@,
                elements == &bpmn_proc.elements,
                i <= all.len(),
                first_error(all, all) == first_error(all.skip(i as int), all),
            decreases all.len() - i,
        {
            let el = &elements[i];
            assert(all.skip(i as int)[0] == all[i as int]);
            assert(all.skip(i as int).drop_first() =~= all.skip(i + 1));
            let checked = match el {
                BpmnElement::Node(node) => {
                    let in_flows_len = node.in_flows(bpmn_proc).len();
                    let out_flows_len = node.out_flows(bpmn_proc).len();
                    assert(all[i as int] == BpmnElement::Node(*node));
                    assert(in_flows_len == flows_to(all, node.view_id()).len());
                    assert(out_flows_len == flows_from(all, node.view_id()).len());
                    Self::check_node(node, in_flows_len, out_flows_len)
                },
                BpmnElement::Edge(edge) => {
                    assert(all[i as int] == BpmnElement::Edge(*edge));
                    Self::allow_source_and_target(edge, bpmn_proc)
                },
            };
            assert(checked is Ok <==> element_error(all[i as int], all) is None);
            assert(checked matches Err(e) ==> e.code == ErrorCode::ParseError && e.child_err is None
                && Some(e.msg@) == element_error(all[i as int], all));
            if let Err(e) = checked {
                assert(first_error(all.skip(i as int), all) == element_error(all[i as int], all));
                return Err(e);
            }
            i = i + 1;
        }
        Ok(())
    }

    /// Checks a node with `ins` incoming and `outs` outgoing flows against the
    /// rule for its kind.
    fn check_node(node: &FlowNode, ins: usize, outs: usize) -> (r: Result<(), AppError>)
        ensures
            r is Ok <==> node_error(node.view_node_type(), node.view_id(), ins as nat, outs as nat) is None,
            r matches Err(e) ==> e.code == ErrorCode::ParseError && e.child_err is None && Some(e.msg@)
                == node_error(node.view_node_type(), node.view_id(), ins as nat, outs as nat),
    {
        let first = match node.get_node_type() {
            NodeType::StartEvent => Self::allow_zero_inflow(node, ins),
            NodeType::EndEvent => Self::allow_at_least_one_inflow(node, ins),
            NodeType::UserTask => Self::allow_at_least_one_inflow(node, ins),
            NodeType::ServiceTask => Self::allow_at_least_one_inflow(node, ins),
            NodeType::ExclusiveGateway => Self::allow_at_least_one_inflow(node, ins),
            NodeType::ParallelGateway => Self::allow_at_least_one_inflow(node, ins),
        };
        if let Err(e) = first {
            return Err(e);
        }
        match node.get_node_type() {
            NodeType::StartEvent => Self::allow_one_outflow(node, outs),
            NodeType::EndEvent => Self::allow_zero_outflow(node, outs),
            NodeType::UserTask => Self::allow_one_outflow(node, outs),
            NodeType::ServiceTask => Self::allow_one_outflow(node, outs),
            NodeType::ExclusiveGateway => Self::allow_at_least_one_outflow(node, outs),
            NodeType::ParallelGateway => Self::allow_at_least_one_outflow(node, outs),
        }
    }

    fn allow_zero_inflow(node: &FlowNode, in_flows_len: usize) -> (r: Result<(), AppError>)
        ensures
            r is Ok <==> in_flows_len == 0,
            r matches Err(e) ==> e.code == ErrorCode::ParseError && e.child_err is None && e.msg@ == count_msg(
                node.view_node_type(),
                node.view_id(),
                rule_zero_inflow(),
                in_flows_len as nat,
            ),
    {
        if in_flows_len != 0 {
            return Err(count_error(node, ") 不能有输入边 (len: ", in_flows_len, "BpmnDefinitions::allow_zero_inflow"));
        }
        Ok(())
    }

    fn allow_zero_outflow(node: &FlowNode, out_flows_len: usize) -> (r: Result<(), AppError>)
        ensures
            r is Ok <==> out_flows_len == 0,
            r matches Err(e) ==> e.code == ErrorCode::ParseError && e.child_err is None && e.msg@ == count_msg(
                node.view_node_type(),
                node.view_id(),
                rule_zero_outflow(),
                out_flows_len as nat,
            ),
    {
        if out_flows_len != 0 {
            return Err(count_error(node, ") 不能有输出边 (len: ", out_flows_len, "BpmnDefinitions::allow_zero_outflow"));
        }
        Ok(())
    }

    fn allow_one_outflow(node: &FlowNode, out_flows_len: usize) -> (r: Result<(), AppError>)
        ensures
            r is Ok <==> out_flows_len == 1,
            r matches Err(e) ==> e.code == ErrorCode::ParseError && e.child_err is None && e.msg@ == count_msg(
                node.view_node_type(),
                node.view_id(),
                rule_one_outflow(),
                out_flows_len as nat,
            ),
    {
        if out_flows_len != 1 {
            return Err(count_error(node, ") 有且只能有1条输出边 (len: ", out_flows_len, "BpmnDefinitions::allow_one_outflow"));
        }
        Ok(())
    }

    fn allow_at_least_one_inflow(node: &FlowNode, in_flows_len: usize) -> (r: Result<(), AppError>)
        ensures
            r is Ok <==> in_flows_len != 0,
            r matches Err(e) ==> e.code == ErrorCode::ParseError && e.child_err is None && e.msg@ == count_msg(
                node.view_node_type(),
                node.view_id(),
                rule_some_inflow(),
                in_flows_len as nat,
            ),
    {
        if in_flows_len == 0 {
            return Err(count_error(node, ") 至少要有1条输入边 (len: ", in_flows_len, "BpmnDefinitions::allow_at_least_one_inflow"));
        }
        Ok(())
    }

    fn allow_at_least_one_outflow(node: &FlowNode, out_flows_len: usize) -> (r: Result<(), AppError>)
        ensures
            r is Ok <==> out_flows_len != 0,
            r matches Err(e) ==> e.code == ErrorCode::ParseError && e.child_err is None && e.msg@ == count_msg(
                node.view_node_type(),
                node.view_id(),
                rule_some_outflow(),
                out_flows_len as nat,
            ),
    {
        if out_flows_len == 0 {
            return Err(count_error(node, ") 至少要有1条输出边 (len: ", out_flows_len, "BpmnDefinitions::allow_at_least_one_outflow"));
        }
        Ok(())
    }

    fn allow_source_and_target(edge: &SequenceFlow, bpmn_proc: &BpmnProcess) -> (r: Result<(), AppError>)
        ensures
            r is Ok <==> edge_error(*edge, bpmn_proc.elements@) is None,
            r matches Err(e) ==> e.code == ErrorCode::ParseError && e.child_err is None && Some(e.msg@) == edge_error(*edge, bpmn_proc.elements@),
    {
        let from_node = edge.from_node(bpmn_proc);
        let to_node = edge.to_node(bpmn_proc);
        match from_node {
            None => {
                let mut msg = String::from_str("SequenceFlow (");
                let id = edge.get_id();
                push_str(&mut msg, id.as_str());
                push_str(&mut msg, ") 必须要有输入节点");
                return Err(AppError::new(ErrorCode::ParseError, Some(msg.as_str()), "BpmnDefinitions::allow_source_and_target", None));
            },
            Some(_) => {},
        }
        match to_node {
            None => {
                let mut msg = String::from_str("SequenceFlow (");
                let id = edge.get_id();
                push_str(&mut msg, id.as_str());
                push_str(&mut msg, ") 必须要有输出节点");
                return Err(AppError::new(ErrorCode::ParseError, Some(msg.as_str()), "BpmnDefinitions::allow_source_and_target", None));
            },
            Some(_) => {},
        }
        Ok(())
    }
}

} // verus!
