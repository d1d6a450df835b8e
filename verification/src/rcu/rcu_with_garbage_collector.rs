//! A reclaiming versioned cell: the base cell plus deferred-free bookkeeping.
//!
//! Instead of freeing a replaced version the instant it is swapped out, an
//! update pushes it into a retirement set and only drains that set once no
//! writer is still inside an update (the in-flight writer counter has reached
//! zero). This closes the window in which one writer could free a version
//! that another writer, mid-retry, still holds; it is a coarser mechanism
//! than per-reader quiescence, tracking only "writers currently mid-call".
//! Reader snapshots are owned clones and never need protection.

use crate::rcu::Rcu;
use vstd::prelude::*;

verus! {

/// The reclaiming versioned cell. Its abstract view is the value held by the
/// current version; the retirement set and the in-flight writer counter are
/// exposed through [`Self::retired`] and [`Self::in_flight`].
pub struct RcuGC<T> {
    rcu: Rcu<T>,
    is_used: u64,
    garbage_collector: Vec<T>,
}

impl<T> View for RcuGC<T> {
    type V = T;

    closed spec fn view(&self) -> T {
        self.rcu@
    }
}

impl<T> RcuGC<T> {
    /// The versions retired by past updates and not yet freed, oldest first.
    pub closed spec fn retired(&self) -> Seq<T> {
        self.garbage_collector@
    }

    /// The number of writers currently inside an update.
    pub closed spec fn in_flight(&self) -> u64 {
        self.is_used
    }
}

impl<T: Clone> RcuGC<T> {
    /// Allocates the first version from `data`, with an empty retirement set
    /// and no writer in flight.
    pub fn new(data: T) -> (cell: Self)
        ensures
            cell@ == data,
            cell.retired() == Seq::<T>::empty(),
            cell.in_flight() == 0,
    {
        RcuGC { rcu: Rcu::new(data), garbage_collector: Vec::new(), is_used: 0 }
    }

    /// Returns a consistent point-in-time snapshot: a clone of the current
    /// version.
    pub fn load(&self) -> (snapshot: T)
        ensures
            cloned::<T>(self@, snapshot),
    {
        self.rcu.load()
    }

    /// Copy-on-write update with deferred reclamation. The replaced version
    /// is pushed into the retirement set rather than freed; once the writer
    /// counter is back to zero the whole set is drained. In particular, a
    /// call that starts with no other writer in flight leaves the retirement
    /// set empty: every retired version has been freed.
    pub fn change<F: Fn(T) -> T>(&mut self, f: F)
        requires
            old(self).in_flight() < u64::MAX,
            forall|candidate: T| #[trigger]
                cloned::<T>(old(self)@, candidate) ==> call_requires(f, (candidate,)),
        ensures
            exists|candidate: T| #[trigger]
                cloned::<T>(old(self)@, candidate) && call_ensures(f, (candidate,), final(self)@),
            final(self).in_flight() == old(self).in_flight(),
            old(self).in_flight() == 0 ==> final(self).retired() == Seq::<T>::empty(),
            old(self).in_flight() > 0 ==> final(self).retired() == old(self).retired().push(
                old(self)@,
            ),
    {
        self.is_used = self.is_used + 1;
        let candidate = self.rcu.load();
        proof {
            assert(cloned::<T>(old(self)@, candidate));
        }
        let ghost chosen_candidate = candidate;
        let next_version = f(candidate);
        let retired_version = self.rcu.install(next_version);
        proof {
            assert(cloned::<T>(old(self)@, chosen_candidate) && call_ensures(
                f,
                (chosen_candidate,),
                self@,
            ));
        }
        self.garbage_collector.push(retired_version);
        self.is_used = self.is_used - 1;
        // The last writer to finish drains the retirement set: at that point
        // no update is mid-retry, so no thread can still hold a reference to
        // a retired version.
        if self.is_used == 0 {
            self.garbage_collector.clear();
            assert(self.retired() =~= Seq::<T>::empty());
        }
    }

    /// The number of retired versions still awaiting reclamation.
    pub fn retired_count(&self) -> (count: usize)
        ensures
            count == self.retired().len(),
    {
        self.garbage_collector.len()
    }

    /// The number of writers currently inside an update.
    pub fn in_flight_writers(&self) -> (count: u64)
        ensures
            count == self.in_flight(),
    {
        self.is_used
    }
}

} // verus!
