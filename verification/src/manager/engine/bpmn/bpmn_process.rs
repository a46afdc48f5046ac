//! A BPMN process: its identity and the elements it holds, and the lookups
//! that the engine makes in it.

use vstd::prelude::*;
use crate::manager::engine::bpmn::bpmn_element::{BpmnElement, FlowNode, element_id};
use crate::manager::engine::bpmn::sequence_flow::SequenceFlow;
use crate::text::str_eq;

verus! {

/// A process: its key, name and description, and its nodes and sequence flows.
#[derive(Debug)]
pub struct BpmnProcess {
    pub id: String,
    pub name: String,
    pub description: Option<String>,
    pub elements: Vec<BpmnElement>,
}

/// The sequence flows among `elems` whose source is the node `id`, in order.
pub open spec fn flows_from(elems: Seq<BpmnElement>, id: Seq<char>) -> Seq<SequenceFlow>
    decreases elems.len(),
{
    if elems.len() == 0 {
        Seq::empty()
    } else {
        let p = flows_from(elems.drop_last(), id);
        match elems.last() {
            BpmnElement::Edge(f) => if f.source_ref@ == id {
                p.push(f)
            } else {
                p
            },
            BpmnElement::Node(_) => p,
        }
    }
}

/// The sequence flows among `elems` whose target is the node `id`, in order.
pub open spec fn flows_to(elems: Seq<BpmnElement>, id: Seq<char>) -> Seq<SequenceFlow>
    decreases elems.len(),
{
    if elems.len() == 0 {
        Seq::empty()
    } else {
        let p = flows_to(elems.drop_last(), id);
        match elems.last() {
            BpmnElement::Edge(f) => if f.target_ref@ == id {
                p.push(f)
            } else {
                p
            },
            BpmnElement::Node(_) => p,
        }
    }
}

/// The table of the elements `elems` keyed by their identifiers, built by
/// entering the elements in order: where several elements share an
/// identifier, the later one replaces the earlier.
pub open spec fn element_table(elems: Seq<BpmnElement>) -> Map<Seq<char>, BpmnElement>
    decreases elems.len(),
{
    if elems.len() == 0 {
        Map::empty()
    } else {
        element_table(elems.drop_last()).insert(element_id(elems.last()), elems.last())
    }
}

/// The element found under the identifier `id`: the last of `elems` with
/// that identifier, if any.
pub open spec fn element_with_id(elems: Seq<BpmnElement>, id: Seq<char>) -> Option<BpmnElement>
    decreases elems.len(),
{
    if elems.len() == 0 {
        None
    } else if element_id(elems.last()) == id {
        Some(elems.last())
    } else {
        element_with_id(elems.drop_last(), id)
    }
}

/// Looking an identifier up among the elements gives what the table of the
/// elements keyed by identifier holds under it, and nothing where the table
/// holds nothing; the element found has that identifier and is one of the
/// elements, and where no element has the identifier nothing is found.
pub proof fn lemma_lookup_is_table(elems: Seq<BpmnElement>, id: Seq<char>)
    ensures
        element_with_id(elems, id) == (if element_table(elems).dom().contains(id) {
            Some(element_table(elems)[id])
        } else {
            None::<BpmnElement>
        }),
        element_with_id(elems, id) matches Some(e) ==> elems.contains(e) && element_id(e) == id,
        element_with_id(elems, id) is None <==> forall|i: int|
            0 <= i < elems.len() ==> element_id(#[trigger] elems[i]) != id,
    decreases elems.len(),
{
    if elems.len() > 0 {
        let d = elems.drop_last();
        lemma_lookup_is_table(d, id);
        assert(elems =~= d.push(elems.last()));
        assert forall|i: int| 0 <= i < d.len() implies elems[i] == d[i] by {}
        if element_id(elems.last()) != id {
            if element_with_id(d, id) is Some {
                let e = element_with_id(d, id)->0;
                let k = choose|k: int| 0 <= k < d.len() && d[k] == e;
                assert(elems[k] == e);
            }
            if element_with_id(d, id) is None {
                assert forall|i: int| 0 <= i < elems.len() implies element_id(#[trigger] elems[i]) != id by {
                    if i < d.len() {
                        assert(element_id(d[i]) != id);
                    }
                }
            }
        } else {
            assert(elems[elems.len() - 1] == elems.last());
        }
    }
}

/// The node found under the identifier `id`: the first element with that
/// identifier, where it is a node.
pub open spec fn node_with_id(elems: Seq<BpmnElement>, id: Seq<char>) -> Option<FlowNode> {
    match element_with_id(elems, id) {
        Some(BpmnElement::Node(n)) => Some(n),
        _ => None,
    }
}

/// Every flow from `id` is an element of `elems` whose source is `id`, and
/// every such element is among the flows from `id`.
pub proof fn lemma_flows_from_members(elems: Seq<BpmnElement>, id: Seq<char>, f: SequenceFlow)
    ensures
        flows_from(elems, id).contains(f) <==> (elems.contains(BpmnElement::Edge(f)) && f.source_ref@ == id),
    decreases elems.len(),
{
    broadcast use vstd::seq_lib::group_seq_properties;
    if elems.len() > 0 {
        let d = elems.drop_last();
        lemma_flows_from_members(d, id, f);
        assert(elems =~= d.push(elems.last()));
    }
}

/// Every flow to `id` is an element of `elems` whose target is `id`, and
/// every such element is among the flows to `id`.
pub proof fn lemma_flows_to_members(elems: Seq<BpmnElement>, id: Seq<char>, f: SequenceFlow)
    ensures
        flows_to(elems, id).contains(f) <==> (elems.contains(BpmnElement::Edge(f)) && f.target_ref@ == id),
    decreases elems.len(),
{
    broadcast use vstd::seq_lib::group_seq_properties;
    if elems.len() > 0 {
        let d = elems.drop_last();
        lemma_flows_to_members(d, id, f);
        assert(elems =~= d.push(elems.last()));
    }
}

impl BpmnProcess {
    /// The sequence flows whose source is the node `id`, in the order of the
    /// process's elements.
    pub fn flows_from_node(&self, id: &str) -> (r: Vec<SequenceFlow>)
        ensures
            r@ == flows_from(self.elements@, id@),
    {
        let mut r: Vec<SequenceFlow> = Vec::new();
        let mut i: usize = 0;
        while i < self.elements.len()
            invariant
                i <= self.elements@.len(),
                r@ == flows_from(self.elements@.take(i as int), id@),
            decreases self.elements@.len() - i,
        {
            assert(self.elements@.take(i + 1).drop_last() =~= self.elements@.take(i as int));
            match &self.elements[i] {
                BpmnElement::Edge(flow) => {
                    if str_eq(flow.source_ref.as_str(), id) {
                        r.push(flow.clone());
                    }
                },
                BpmnElement::Node(_) => {},
            }
            i = i + 1;
        }
        assert(self.elements@.take(self.elements@.len() as int) =~= self.elements@);
        r
    }

    /// The sequence flows whose target is the node `id`, in the order of the
    /// process's elements.
    pub fn flows_to_node(&self, id: &str) -> (r: Vec<SequenceFlow>)
        ensures
            r@ == flows_to(self.elements@, id@),
    {
        let mut r: Vec<SequenceFlow> = Vec::new();
        let mut i: usize = 0;
        while i < self.elements.len()
            invariant
                i <= self.elements@.len(),
                r@ == flows_to(self.elements@.take(i as int), id@),
            decreases self.elements@.len() - i,
        {
            assert(self.elements@.take(i + 1).drop_last() =~= self.elements@.take(i as int));
            match &self.elements[i] {
                BpmnElement::Edge(flow) => {
                    if str_eq(flow.target_ref.as_str(), id) {
                        r.push(flow.clone());
                    }
                },
                BpmnElement::Node(_) => {},
            }
            i = i + 1;
        }
        assert(self.elements@.take(self.elements@.len() as int) =~= self.elements@);
        r
    }

    /// The element with the identifier `id`: the one that the table of the
    /// process's elements keyed by identifier holds under it (the last with
    /// that identifier; see `lemma_lookup_is_table`).
    pub fn get_element(&self, id: &str) -> (r: Option<&BpmnElement>)
        ensures
            match r {
                Some(e) => element_with_id(self.elements@, id@) == Some(*e),
                None => element_with_id(self.elements@, id@) is None,
            },
    {
        let mut i: usize = self.elements.len();
        assert(self.elements@.take(i as int) =~= self.elements@);
        while i > 0
            invariant
                i <= self.elements@.len(),
                element_with_id(self.elements@, id@) == element_with_id(self.elements@.take(i as int), id@),
            decreases i,
        {
            let el = &self.elements[i - 1];
            let el_id = el.get_element_id();
            let ghost t = self.elements@.take(i as int);
            assert(t.last() == self.elements@[i - 1]);
            if str_eq(el_id.as_str(), id) {
                return Some(el);
            }
            assert(t.drop_last() =~= self.elements@.take(i - 1));
            i = i - 1;
        }
        None
    }

    /// The node with the identifier `id`: the element found under `id`, where
    /// that element is a node.
    pub fn get_node(&self, id: &str) -> (r: Option<&FlowNode>)
        ensures
            match r {
                Some(n) => node_with_id(self.elements@, id@) == Some(*n),
                None => node_with_id(self.elements@, id@) is None,
            },
    {
        match self.get_element(id) {
            Some(BpmnElement::Node(n)) => Some(n),
            _ => None,
        }
    }
}

} // verus!
