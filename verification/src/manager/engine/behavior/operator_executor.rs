//! The loop that runs queued steps until none is left.

use vstd::prelude::*;
use crate::manager::engine::behavior::operator::Operator;
use crate::model::ApfRuExecution;

verus! {

/// What running steps produced: the process instance that a step started, if
/// any.
#[derive(Debug)]
pub struct OperateRst {
    pub process_instantce: Option<ApfRuExecution>,
}

impl Default for OperateRst {
    fn default() -> (r: Self)
        ensures
            r.process_instantce is None,
    {
        OperateRst { process_instantce: None }
    }
}

/// Runs queued steps in the order they were queued.
#[derive(Debug)]
pub struct OperatorExecutor {}

impl OperatorExecutor {
    pub fn new() -> (r: Self) {
        OperatorExecutor {}
    }

    /// The next step to run: the first in the queue, which leaves it.
    pub fn take_next(&mut self, queue: &mut Vec<Operator>) -> (r: Option<Operator>)
        ensures
            old(queue)@.len() == 0 ==> r is None && final(queue)@ == old(queue)@,
            old(queue)@.len() > 0 ==> r == Some(old(queue)@[0]) && final(queue)@ == old(queue)@.drop_first(),
    {
        if queue.len() == 0 {
            None
        } else {
            Some(queue.remove(0))
        }
    }

    /// Adds `operator` at the end of the queue.
    pub fn enqueue(&mut self, queue: &mut Vec<Operator>, operator: Operator)
        ensures
            final(queue)@ == old(queue)@.push(operator),
    {
        queue.push(operator);
    }

    /// The result after a step: the step's own where it started a process
    /// instance, the earlier one otherwise.
    pub fn keep_result(&self, rst: OperateRst, latest: OperateRst) -> (r: OperateRst)
        ensures
            latest.process_instantce is Some ==> r == latest,
            latest.process_instantce is None ==> r == rst,
    {
        if latest.process_instantce.is_some() {
            latest
        } else {
            rst
        }
    }
}

/// The queue of steps is first in, first out: after a step is queued, the
/// next step taken is the one that was first before, or the new one where the
/// queue was empty, and the new step stays last.
pub proof fn lemma_queue_first_in_first_out(queue: Seq<Operator>, operator: Operator)
    ensures
        queue.len() > 0 ==> queue.push(operator)[0] == queue[0]
            && queue.push(operator).drop_first() == queue.drop_first().push(operator),
        queue.len() == 0 ==> queue.push(operator)[0] == operator
            && queue.push(operator).drop_first() == queue,
{
    if queue.len() > 0 {
        assert(queue.push(operator).drop_first() =~= queue.drop_first().push(operator));
    } else {
        assert(queue.push(operator).drop_first() =~= queue);
    }
}

} // verus!
