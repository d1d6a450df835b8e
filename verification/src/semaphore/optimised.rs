//! The futex-style counting semaphore.
//!
//! Instead of holding a lock across the whole operation, this variant agrees
//! with concurrent callers one atomic step at a time: `wait` re-checks the
//! counter each time it is woken and blocks again while the counter is zero;
//! `signal` increments and wakes one blocked waiter. Its overflow policy is
//! to abort: a `signal` at the maximum representable count is a caller error,
//! excluded here by precondition and surfaced by the runner as a panic.

use vstd::prelude::*;

verus! {

/// The futex-style counting semaphore. Its abstract view is the number of
/// available permits.
pub struct Semaphore {
    counter: u32,
}

impl View for Semaphore {
    type V = u32;

    closed spec fn view(&self) -> u32 {
        self.counter
    }
}

impl Semaphore {
    /// A semaphore with `initial_count` permits available.
    pub fn new(initial_count: u32) -> (semaphore: Self)
        ensures
            semaphore@ == initial_count,
    {
        Semaphore { counter: initial_count }
    }

    /// Returns one permit; the runner then wakes one blocked waiter. Under
    /// this variant's policy a full counter is a caller error (the runner
    /// aborts), so it is excluded here.
    pub fn signal(&mut self)
        requires
            old(self)@ < u32::MAX,
        ensures
            final(self)@ == old(self)@ + 1,
    {
        self.counter = self.counter + 1;
    }

    /// Takes one permit. A `wait` at count zero blocks until a `signal`
    /// arrives, so a zero counter is excluded here and handled by
    /// [`Self::try_wait`].
    pub fn wait(&mut self)
        requires
            old(self)@ > 0,
        ensures
            final(self)@ == old(self)@ - 1,
    {
        self.counter = self.counter - 1;
    }

    /// One round of the waiting loop: the observed-counter check followed, on
    /// success, by the decrement. When no permit is available the caller must
    /// block while the counter is still zero at the moment of blocking, then
    /// retry this step on wakeup.
    pub fn try_wait(&mut self) -> (waited: bool)
        ensures
            waited == (old(self)@ > 0),
            old(self)@ > 0 ==> final(self)@ == old(self)@ - 1,
            old(self)@ == 0 ==> final(self)@ == old(self)@,
    {
        if self.counter > 0 {
            self.counter = self.counter - 1;
            true
        } else {
            false
        }
    }

    /// The number of permits currently available.
    pub fn available(&self) -> (count: u32)
        ensures
            count == self@,
    {
        self.counter
    }
}

} // verus!
