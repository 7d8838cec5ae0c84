//! Mutual-exclusion arbiter for the one shared analog-to-digital converter.
//!
//! Reader tasks identify themselves by a task id. A task that finds the
//! arbiter free acquires it and holds it across the reference-then-sensor
//! sample pair; one that finds it held suspends (in the runtime) and retries.
//! The trace model below makes the exclusion guarantee precise: in any trace
//! of successful acquisitions and releases that the contracts admit, a second
//! acquisition can only follow a release by the previous holder, so two
//! critical sections never overlap.

use vstd::prelude::*;

verus! {

/// A successful operation on the arbiter, as recorded in a trace.
#[derive(Debug, Clone, Copy, PartialEq, Eq, Structural)]
pub enum ArbiterOp {
    /// The task with this id acquired the arbiter.
    Acquire(u64),
    /// The task with this id released the arbiter.
    Release(u64),
}

/// Whether an operation is admitted in the given state: an acquisition only
/// when the arbiter is free, a release only by the current holder.
pub open spec fn arbiter_step_allowed(holder: Option<u64>, op: ArbiterOp) -> bool {
    match op {
        ArbiterOp::Acquire(task) => holder is None,
        ArbiterOp::Release(task) => holder == Some(task),
    }
}

/// The holder after an admitted operation.
pub open spec fn arbiter_step(holder: Option<u64>, op: ArbiterOp) -> Option<u64> {
    match op {
        ArbiterOp::Acquire(task) => Some(task),
        ArbiterOp::Release(task) => None,
    }
}

/// The holder after the first `n` operations of a trace, starting free.
pub open spec fn arbiter_holder_at(ops: Seq<ArbiterOp>, n: int) -> Option<u64>
    decreases n,
{
    if n <= 0 {
        None
    } else {
        arbiter_step(arbiter_holder_at(ops, n - 1), ops[n - 1])
    }
}

/// Whether the first `n` operations of a trace are each admitted in the state
/// the previous ones produce.
pub open spec fn arbiter_trace_valid_to(ops: Seq<ArbiterOp>, n: int) -> bool
    decreases n,
{
    if n <= 0 {
        true
    } else {
        arbiter_trace_valid_to(ops, n - 1) && arbiter_step_allowed(
            arbiter_holder_at(ops, n - 1),
            ops[n - 1],
        )
    }
}

/// Whether a whole trace, starting from a free arbiter, is admitted.
pub open spec fn arbiter_trace_valid(ops: Seq<ArbiterOp>) -> bool {
    arbiter_trace_valid_to(ops, ops.len() as int)
}

/// A prefix of a valid trace is valid.
proof fn lemma_valid_prefix(ops: Seq<ArbiterOp>, m: int, n: int)
    requires
        arbiter_trace_valid_to(ops, n),
        m <= n,
    ensures
        arbiter_trace_valid_to(ops, m),
    decreases n - m,
{
    if m < n {
        lemma_valid_prefix(ops, m, n - 1);
    }
}

/// Once a task has acquired the arbiter, it remains the holder up to any
/// later point of the trace before which it has not released.
proof fn lemma_holder_persists(ops: Seq<ArbiterOp>, task: u64, i: int, k: int)
    requires
        arbiter_trace_valid_to(ops, k),
        0 <= i < k <= ops.len(),
        ops[i] == ArbiterOp::Acquire(task),
        forall|m: int| i < m < k ==> ops[m] != ArbiterOp::Release(task),
    ensures
        arbiter_holder_at(ops, k) == Some(task),
    decreases k,
{
    if k == i + 1 {
        assert(arbiter_holder_at(ops, k) == arbiter_step(arbiter_holder_at(ops, i), ops[i]));
    } else {
        lemma_holder_persists(ops, task, i, k - 1);
        // The operation at k - 1 is admitted with the task still holding, so
        // it can only be that task's own release — which the premise rules
        // out — or an acquisition, which the held state forbids.
        assert(arbiter_step_allowed(arbiter_holder_at(ops, k - 1), ops[k - 1]));
        assert(ops[k - 1] != ArbiterOp::Release(task));
        assert(false);
    }
}

/// Mutual exclusion: in any valid trace, between two successful acquisitions
/// there is a release by the first holder. The critical section that begins
/// with the first acquisition has therefore ended before the second one
/// starts: the two never overlap in time.
pub proof fn lemma_mutual_exclusion(ops: Seq<ArbiterOp>, t1: u64, t2: u64, i: int, j: int)
    requires
        arbiter_trace_valid(ops),
        0 <= i < j < ops.len(),
        ops[i] == ArbiterOp::Acquire(t1),
        ops[j] == ArbiterOp::Acquire(t2),
    ensures
        exists|m: int| i < m < j && ops[m] == ArbiterOp::Release(t1),
{
    if forall|m: int| i < m < j ==> ops[m] != ArbiterOp::Release(t1) {
        lemma_valid_prefix(ops, j + 1, ops.len() as int);
        lemma_holder_persists(ops, t1, i, j);
        assert(arbiter_step_allowed(arbiter_holder_at(ops, j), ops[j]));
        assert(false);
    }
}

/// Mutual-exclusion gate in front of the shared converter.
pub struct AdcArbiter {
    holder: Option<u64>,
}

impl AdcArbiter {
    /// The id of the task currently holding the converter, if any.
    pub closed spec fn holder(&self) -> Option<u64> {
        self.holder
    }

    /// Creates a free arbiter.
    pub fn new() -> (a: Self)
        ensures
            a.holder() is None,
    {
        AdcArbiter { holder: None }
    }

    /// Attempts to acquire the converter for the given task. Grants exclusive
    /// access exactly when the arbiter is free; a refused caller suspends in
    /// the runtime and retries after the next release.
    pub fn try_acquire(&mut self, task: u64) -> (granted: bool)
        ensures
            granted == arbiter_step_allowed(old(self).holder(), ArbiterOp::Acquire(task)),
            granted ==> final(self).holder() == arbiter_step(
                old(self).holder(),
                ArbiterOp::Acquire(task),
            ),
            granted ==> final(self).holder() == Some(task),
            !granted ==> final(self).holder() == old(self).holder(),
    {
        if self.holder.is_none() {
            self.holder = Some(task);
            true
        } else {
            false
        }
    }

    /// Releases the converter; only the current holder may release.
    pub fn release(&mut self, task: u64)
        requires
            arbiter_step_allowed(old(self).holder(), ArbiterOp::Release(task)),
        ensures
            final(self).holder() == arbiter_step(old(self).holder(), ArbiterOp::Release(task)),
            final(self).holder() is None,
    {
        self.holder = None;
    }

    /// The current holder, for observation by a supervisor or a test harness.
    pub fn current_holder(&self) -> (h: Option<u64>)
        ensures
            h == self.holder(),
    {
        self.holder
    }
}

} // verus!
