//! A queue-based mutual-exclusion lock.
//!
//! The mutual-exclusion token is a boolean busy flag; contending callers
//! enqueue a parking token onto a FIFO wait queue that lives inside a
//! versioned cell, exactly as the other structures store their state. An
//! acquisition attempt either wins the flag or reports that the caller must
//! park; a release clears the flag and hands back at most one queued token to
//! wake. Waking only nominates a candidate: the woken caller still has to win
//! the flag, which gives an uncontended fast path with FIFO-biased fairness.
//!
//! Thread suspension itself cannot happen here; the caller performs the park
//! and the wakeup. To avoid a missed wakeup it must use a blocking primitive
//! that re-checks the busy flag at the moment of blocking.

use crate::rcu::Rcu;
use std::collections::VecDeque;
use vstd::prelude::*;

verus! {

/// What an acquisition attempt decided: the caller either holds the lock now,
/// or has been enqueued and must park until its token is handed back by a
/// release.
pub enum LockStep {
    Acquired,
    MustPark,
}

/// The queue-based lock, protecting one value of type `T`. Its abstract view
/// is the protected value; the busy flag and the wait queue are exposed
/// through [`Self::busy`] and [`Self::waiters`].
pub struct QueueLock<T> {
    queue: Rcu<VecDeque<u64>>,
    is_busy: bool,
    data: T,
}

impl<T> View for QueueLock<T> {
    type V = T;

    closed spec fn view(&self) -> T {
        self.data
    }
}

impl<T> QueueLock<T> {
    /// Whether the lock is currently held.
    pub closed spec fn busy(&self) -> bool {
        self.is_busy
    }

    /// The parking tokens of the enqueued waiters, in arrival order.
    pub closed spec fn waiters(&self) -> Seq<u64> {
        self.queue@@
    }

    /// A fresh, free lock protecting `data`, with an empty wait queue.
    pub fn new(data: T) -> (lock: Self)
        ensures
            !lock.busy(),
            lock.waiters() == Seq::<u64>::empty(),
            lock@ == data,
    {
        QueueLock { queue: Rcu::new(VecDeque::new()), is_busy: false, data }
    }

    /// The fast path: one attempt to win the busy flag. It succeeds exactly
    /// when the lock was free, and in every case leaves the flag set.
    pub fn try_acquire(&mut self) -> (acquired: bool)
        ensures
            acquired == !old(self).busy(),
            final(self).busy(),
            final(self).waiters() == old(self).waiters(),
            final(self)@ == old(self)@,
    {
        if self.is_busy {
            false
        } else {
            self.is_busy = true;
            true
        }
    }

    /// One acquisition attempt by the caller whose parking token is `waiter`:
    /// win the flag outright, or enqueue the token and report that the caller
    /// must park. A parked caller, once woken, retries through
    /// [`Self::try_acquire`].
    pub fn lock(&mut self, waiter: u64) -> (step: LockStep)
        ensures
            final(self)@ == old(self)@,
            final(self).busy(),
            !old(self).busy() ==> step is Acquired && final(self).waiters() == old(self).waiters(),
            old(self).busy() ==> step is MustPark && final(self).waiters()
                == old(self).waiters().push(waiter),
    {
        if self.try_acquire() {
            return LockStep::Acquired;
        }
        // The flag was held: append the caller's token by installing a new
        // version of the wait queue.
        let mut observed = self.queue.install(VecDeque::new());
        observed.push_back(waiter);
        let _placeholder = self.queue.install(observed);
        // The flag is still set, so the caller must park. Parking is the
        // caller's step, and it must re-check the flag at the moment of
        // blocking: a release between the enqueue above and the park would
        // otherwise be a missed wakeup.
        LockStep::MustPark
    }

    /// Releases the lock: clears the busy flag, then pops one waiter (if any)
    /// from the queue and returns its token for the caller to wake. The woken
    /// waiter is only a candidate — it still has to win the flag.
    pub fn unlock(&mut self) -> (woken: Option<u64>)
        ensures
            !final(self).busy(),
            final(self)@ == old(self)@,
            old(self).waiters().len() == 0 ==> woken is None && final(self).waiters()
                == old(self).waiters(),
            old(self).waiters().len() > 0 ==> woken == Some(old(self).waiters()[0])
                && final(self).waiters() == old(self).waiters().drop_first(),
    {
        self.is_busy = false;
        let mut observed = self.queue.install(VecDeque::new());
        let woken = observed.pop_front();
        let _placeholder = self.queue.install(observed);
        woken
    }

    /// Reads the protected value; the caller must hold the lock.
    pub fn data(&self) -> (value: &T)
        requires
            self.busy(),
        ensures
            *value == self@,
    {
        &self.data
    }

    /// Replaces the protected value; the caller must hold the lock.
    pub fn set_data(&mut self, value: T)
        requires
            old(self).busy(),
        ensures
            final(self)@ == value,
            final(self).busy() == old(self).busy(),
            final(self).waiters() == old(self).waiters(),
    {
        self.data = value;
    }
}

/// One completed step of some thread's critical-section protocol: a granted
/// acquisition, or a release.
pub enum LockEvent {
    Acquire,
    Release,
}

/// The number of live guards after `events`: acquisitions minus releases.
pub open spec fn holders_after(events: Seq<LockEvent>) -> int
    decreases events.len(),
{
    if events.len() == 0 {
        0
    } else {
        match events.last() {
            LockEvent::Acquire => holders_after(events.drop_last()) + 1,
            LockEvent::Release => holders_after(events.drop_last()) - 1,
        }
    }
}

/// A history the lock's contracts permit: an acquisition is granted only when
/// no guard is alive (the flag was clear), and only a live guard is released.
pub open spec fn valid_history(events: Seq<LockEvent>) -> bool {
    forall|n: int|
        0 <= n < events.len() ==> match #[trigger] events[n] {
            LockEvent::Acquire => holders_after(events.take(n)) == 0,
            LockEvent::Release => holders_after(events.take(n)) == 1,
        }
}

proof fn lemma_holders_bounded(events: Seq<LockEvent>, n: int)
    requires
        valid_history(events),
        0 <= n <= events.len(),
    ensures
        0 <= holders_after(events.take(n)) <= 1,
    decreases n,
{
    if n > 0 {
        lemma_holders_bounded(events, n - 1);
        let prefix = events.take(n);
        assert(prefix.drop_last() =~= events.take(n - 1));
        assert(prefix.last() == events[n - 1]);
    } else {
        assert(events.take(0) =~= Seq::<LockEvent>::empty());
    }
}

/// Mutual exclusion: in any sequence of lock/release cycles that the lock's
/// contracts permit, at most one guard is alive at any instant.
pub proof fn lemma_mutual_exclusion(events: Seq<LockEvent>)
    requires
        valid_history(events),
    ensures
        forall|n: int| 0 <= n <= events.len() ==> 0 <= #[trigger] holders_after(events.take(n))
            <= 1,
{
    assert forall|n: int| 0 <= n <= events.len() implies 0 <= #[trigger] holders_after(
        events.take(n),
    ) <= 1 by {
        lemma_holders_bounded(events, n);
    }
}

} // verus!
