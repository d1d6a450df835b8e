//! A counting semaphore, in two variants sharing one contract.
//!
//! The counter is a bounded non-negative number of available permits, mutated
//! only through `wait` (take one permit) and `signal` (return one permit and
//! unblock at most one waiter). This module holds the blocking variant, whose
//! overflow policy is to *block* a `signal` at the maximum count until a
//! waiter creates headroom; [`optimised`] holds the futex-style variant,
//! whose policy is to abort instead. Blocking itself is the caller's step:
//! the `try_` operations decide, under the caller's exclusive access, whether
//! the operation can proceed or the caller must block and retry after being
//! woken.

pub mod optimised;

use vstd::prelude::*;

verus! {

/// The blocking counting semaphore. Its abstract view is the number of
/// available permits. A fresh semaphore starts with no permits.
pub struct Semaphore {
    counter: u32,
}

impl View for Semaphore {
    type V = u32;

    closed spec fn view(&self) -> u32 {
        self.counter
    }
}

impl Semaphore {
    /// A semaphore with no available permits: the first `wait` blocks until a
    /// `signal` arrives.
    pub fn new() -> (semaphore: Self)
        ensures
            semaphore@ == 0,
    {
        Semaphore { counter: 0 }
    }

    /// Returns one permit. The caller must have headroom: at the maximum
    /// representable count this variant's policy is to block until a waiter
    /// frees a slot, so a full counter is excluded here and handled by
    /// [`Self::try_signal`].
    pub fn signal(&mut self)
        requires
            old(self)@ < u32::MAX,
        ensures
            final(self)@ == old(self)@ + 1,
    {
        self.counter = self.counter + 1;
    }

    /// Takes one permit. A `wait` at count zero blocks until a `signal`
    /// arrives, so a zero counter is excluded here and handled by
    /// [`Self::try_wait`].
    pub fn wait(&mut self)
        requires
            old(self)@ > 0,
        ensures
            final(self)@ == old(self)@ - 1,
    {
        self.counter = self.counter - 1;
    }

    /// One signalling step: returns a permit unless the counter is full, in
    /// which case the caller must block until a waiter creates headroom and
    /// then retry.
    pub fn try_signal(&mut self) -> (signalled: bool)
        ensures
            signalled == (old(self)@ < u32::MAX),
            old(self)@ < u32::MAX ==> final(self)@ == old(self)@ + 1,
            old(self)@ == u32::MAX ==> final(self)@ == old(self)@,
    {
        if self.counter < u32::MAX {
            self.counter = self.counter + 1;
            true
        } else {
            false
        }
    }

    /// One waiting step: takes a permit unless none is available, in which
    /// case the caller must block until a signal arrives and then retry.
    pub fn try_wait(&mut self) -> (waited: bool)
        ensures
            waited == (old(self)@ > 0),
            old(self)@ > 0 ==> final(self)@ == old(self)@ - 1,
            old(self)@ == 0 ==> final(self)@ == old(self)@,
    {
        if self.counter > 0 {
            self.counter = self.counter - 1;
            true
        } else {
            false
        }
    }

    /// The number of permits currently available.
    pub fn available(&self) -> (count: u32)
        ensures
            count == self@,
    {
        self.counter
    }
}

/// One completed semaphore operation: a successful `signal` or a successful
/// `wait`.
pub enum SemOp {
    Signal,
    Wait,
}

/// The permit count after `ops`, starting from `initial` permits.
pub open spec fn count_after(initial: int, ops: Seq<SemOp>) -> int
    decreases ops.len(),
{
    if ops.len() == 0 {
        initial
    } else {
        match ops.last() {
            SemOp::Signal => count_after(initial, ops.drop_last()) + 1,
            SemOp::Wait => count_after(initial, ops.drop_last()) - 1,
        }
    }
}

/// The number of signals in `ops`.
pub open spec fn signal_count(ops: Seq<SemOp>) -> int
    decreases ops.len(),
{
    if ops.len() == 0 {
        0
    } else {
        signal_count(ops.drop_last()) + match ops.last() {
            SemOp::Signal => 1int,
            SemOp::Wait => 0int,
        }
    }
}

/// The number of waits in `ops`.
pub open spec fn wait_count(ops: Seq<SemOp>) -> int
    decreases ops.len(),
{
    if ops.len() == 0 {
        0
    } else {
        wait_count(ops.drop_last()) + match ops.last() {
            SemOp::Signal => 0int,
            SemOp::Wait => 1int,
        }
    }
}

/// A trace the semaphore's contracts permit: a `wait` completes only when a
/// permit is available at that point.
pub open spec fn valid_trace(initial: int, ops: Seq<SemOp>) -> bool {
    forall|n: int|
        0 <= n < ops.len() && #[trigger] ops[n] is Wait ==> count_after(initial, ops.take(n)) > 0
}

proof fn lemma_count_decomposition(initial: int, ops: Seq<SemOp>, n: int)
    requires
        initial >= 0,
        valid_trace(initial, ops),
        0 <= n <= ops.len(),
    ensures
        count_after(initial, ops.take(n)) == initial + signal_count(ops.take(n)) - wait_count(
            ops.take(n),
        ),
        count_after(initial, ops.take(n)) >= 0,
    decreases n,
{
    if n > 0 {
        lemma_count_decomposition(initial, ops, n - 1);
        let prefix = ops.take(n);
        assert(prefix.drop_last() =~= ops.take(n - 1));
        assert(prefix.last() == ops[n - 1]);
    } else {
        assert(ops.take(0) =~= Seq::<SemOp>::empty());
    }
}

/// Semaphore bound: in any trace the contracts permit, starting from
/// `initial` permits, the number of completed waits never exceeds `initial`
/// plus the number of completed signals, at every point in time; the count is
/// always the initial count plus signals minus waits, and never negative.
pub proof fn lemma_semaphore_bound(initial: int, ops: Seq<SemOp>)
    requires
        initial >= 0,
        valid_trace(initial, ops),
    ensures
        forall|n: int|
            0 <= n <= ops.len() ==> #[trigger] wait_count(ops.take(n)) <= initial + signal_count(
                ops.take(n),
            ),
        count_after(initial, ops) == initial + signal_count(ops) - wait_count(ops),
{
    assert forall|n: int| 0 <= n <= ops.len() implies #[trigger] wait_count(ops.take(n)) <= initial
        + signal_count(ops.take(n)) by {
        lemma_count_decomposition(initial, ops, n);
    }
    lemma_count_decomposition(initial, ops, ops.len() as int);
    assert(ops.take(ops.len() as int) =~= ops);
}

} // verus!
