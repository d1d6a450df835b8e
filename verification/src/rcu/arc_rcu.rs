//! A shareable wrapper around the versioned cell.
//!
//! `ArcRcu` exposes the same operations as [`Rcu`](crate::rcu::Rcu) through a
//! wrapper intended to be handed out to several owners. Its contracts are
//! those of the inner cell: snapshots are clones of the current version, and
//! each update applies its mutator to the committed state.

use crate::rcu::Rcu;
use vstd::prelude::*;

verus! {

/// A versioned cell behind a shareable wrapper; its abstract view is the
/// value held by the inner cell's current version.
pub struct ArcRcu<T> {
    rcu: Rcu<T>,
}

impl<T> View for ArcRcu<T> {
    type V = T;

    closed spec fn view(&self) -> T {
        self.rcu@
    }
}

impl<T: Clone> ArcRcu<T> {
    /// Allocates the first version from `data`.
    pub fn new(data: T) -> (cell: Self)
        ensures
            cell@ == data,
    {
        ArcRcu { rcu: Rcu::new(data) }
    }

    /// Returns a consistent point-in-time snapshot: a clone of the current
    /// version.
    pub fn load(&self) -> (snapshot: T)
        ensures
            cloned::<T>(self@, snapshot),
    {
        self.rcu.load()
    }

    /// Copy-on-write update: applies `f` to a clone of the current version
    /// and installs the result. The effect of `f` is applied to the committed
    /// state, so the update cannot be lost.
    pub fn change<F: Fn(T) -> T>(&mut self, f: F)
        requires
            forall|candidate: T| #[trigger]
                cloned::<T>(old(self)@, candidate) ==> call_requires(f, (candidate,)),
        ensures
            exists|candidate: T| #[trigger]
                cloned::<T>(old(self)@, candidate) && call_ensures(f, (candidate,), final(self)@),
    {
        let candidate = self.rcu.load();
        proof {
            assert(cloned::<T>(old(self)@, candidate));
        }
        let ghost chosen_candidate = candidate;
        let next_version = f(candidate);
        let _retired = self.rcu.install(next_version);
        proof {
            assert(cloned::<T>(old(self)@, chosen_candidate) && call_ensures(
                f,
                (chosen_candidate,),
                self@,
            ));
        }
    }
}

} // verus!
