//! A sketch of an alternative list design in which the whole list lives
//! inside one versioned cell, instead of one cell per node.

use crate::rcu::Rcu;
use vstd::prelude::*;

verus! {

/// A list held as a single value inside one versioned cell.
pub struct List<T> {
    rcu: Rcu<T>,
}

impl<T> View for List<T> {
    type V = T;

    closed spec fn view(&self) -> T {
        self.rcu@
    }
}

impl<T: Clone> List<T> {
    /// Allocates the cell's first version from `data`.
    pub fn new(data: T) -> (list: Self)
        ensures
            list@ == data,
    {
        List { rcu: Rcu::new(data) }
    }
}

} // verus!
