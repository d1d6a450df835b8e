//! A copy-on-write versioned cell: the base primitive of the toolkit.
//!
//! The cell holds exactly one live version of a value at a time. Readers take
//! a cloned snapshot (`load`); they never receive a reference into the cell,
//! so no reader can observe a retired version. Writers (`change`) clone the
//! current version into a candidate, apply their mutator to the candidate,
//! and install the result; the replaced version is retired immediately.
//! Successive updates are totally ordered: each mutator runs against the
//! version that was committed when it was applied, so no update is lost.

pub mod arc_rcu;
pub mod rcu_with_garbage_collector;

use vstd::prelude::*;

verus! {

/// The versioned cell. Its abstract view is the value held by the current
/// version.
#[derive(Debug)]
pub struct Rcu<T> {
    value: T,
}

impl<T: Clone> Clone for Rcu<T> {
    /// Clones the cell by cloning its current version into a fresh cell.
    fn clone(&self) -> (other: Self)
        ensures
            cloned::<T>(self@, other@),
    {
        Rcu { value: self.value.clone() }
    }
}

impl<T> View for Rcu<T> {
    type V = T;

    closed spec fn view(&self) -> T {
        self.value
    }
}

impl<T> Rcu<T> {
    /// Allocates the first version from `data`.
    pub fn new(data: T) -> (cell: Self)
        ensures
            cell@ == data,
    {
        Rcu { value: data }
    }

    /// Installs `next` as the new current version and hands the retired
    /// version back to the caller, who becomes its owner.
    pub(crate) fn install(&mut self, next: T) -> (retired: T)
        ensures
            final(self)@ == next,
            retired == old(self)@,
    {
        let mut version = next;
        core::mem::swap(&mut self.value, &mut version);
        version
    }
}

impl<T: Clone> Rcu<T> {
    /// Returns a consistent point-in-time snapshot: a clone of the current
    /// version. The cell itself is never exposed by reference.
    pub fn load(&self) -> (snapshot: T)
        ensures
            cloned::<T>(self@, snapshot),
    {
        self.value.clone()
    }

    /// Copy-on-write update: clones the current version into a candidate,
    /// applies `f` to the candidate, and installs the result. The effect of
    /// `f` is applied to the committed state, so the update cannot be lost.
    pub fn change<F: Fn(T) -> T>(&mut self, f: F)
        requires
            forall|candidate: T| #[trigger]
                cloned::<T>(old(self)@, candidate) ==> call_requires(f, (candidate,)),
        ensures
            exists|candidate: T| #[trigger]
                cloned::<T>(old(self)@, candidate) && call_ensures(f, (candidate,), final(self)@),
    {
        let candidate = self.value.clone();
        proof {
            assert(cloned::<T>(old(self)@, candidate));
        }
        let ghost chosen_candidate = candidate;
        let next_version = f(candidate);
        // The base cell retires the replaced version immediately: it goes out
        // of scope here, and that is the moment the old version is freed.
        let _retired = self.install(next_version);
        proof {
            assert(cloned::<T>(old(self)@, chosen_candidate) && call_ensures(
                f,
                (chosen_candidate,),
                self@,
            ));
        }
    }
}

/// The value of an integer counter cell after `n` updates that each increment
/// the committed state by one.
pub open spec fn apply_increments(start: int, n: nat) -> int
    decreases n,
{
    if n == 0 {
        start
    } else {
        apply_increments(start, (n - 1) as nat) + 1
    }
}

/// No lost update: each `change` applies its mutator to the committed state,
/// so `n` increment updates raise the counter by exactly `n` — none of them
/// can overwrite another's effect.
pub proof fn lemma_no_lost_update(start: int, n: nat)
    ensures
        apply_increments(start, n) == start + n,
    decreases n,
{
    if n > 0 {
        lemma_no_lost_update(start, (n - 1) as nat);
    }
}

} // verus!
