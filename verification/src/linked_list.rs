//! A singly linked list whose per-node payload is a versioned cell.
//!
//! The list is append/prepend-only: nodes are created by `push_front` and
//! `push_back` and never removed. Each node owns a [`Rcu`] cell for its
//! payload, so a traversal reads every payload through the cell's snapshot
//! contract and can never observe a torn value. The list's abstract view is
//! the sequence of payload values from head to tail.

pub mod new_solution;

use crate::rcu::Rcu;
use vstd::prelude::*;
use vstd::multiset::Multiset;
use vstd::seq_lib::{to_multiset_build, to_multiset_insert};

verus! {

/// One list node: a versioned cell for the payload and the link to the next
/// node.
pub struct Node<T> {
    data: Rcu<T>,
    next: Option<Box<Node<T>>>,
}

/// The sequence of payload values reachable from `node_opt` by following the
/// links.
pub open spec fn optional_as_seq<T>(node_opt: Option<Box<Node<T>>>) -> Seq<T>
    decreases node_opt,
{
    match node_opt {
        None => Seq::empty(),
        Some(node) => node.as_seq(),
    }
}

impl<T> Node<T> {
    /// The payload value held by this node's cell.
    pub closed spec fn value(&self) -> T {
        self.data@
    }

    /// The sequence of payload values from this node to the end of the list.
    pub closed spec fn as_seq(self) -> Seq<T>
        decreases self,
    {
        seq![self.data@] + optional_as_seq(self.next)
    }
}

impl<T: Clone> Node<T> {
    /// Allocates an unlinked node holding `data`.
    pub fn new(data: T) -> (node: Self)
        ensures
            node.value() == data,
            node.as_seq() == seq![data],
    {
        let node = Node { data: Rcu::new(data), next: None };
        assert(node.as_seq() =~= seq![data]);
        node
    }

    /// Returns a snapshot of this node's payload, read through the cell.
    pub fn data(&self) -> (snapshot: T)
        ensures
            cloned::<T>(self.value(), snapshot),
    {
        self.data.load()
    }
}

/// The singly linked list. Its abstract view is the sequence of payload
/// values from head to tail.
pub struct List<T> {
    head: Option<Box<Node<T>>>,
}

impl<T> View for List<T> {
    type V = Seq<T>;

    closed spec fn view(&self) -> Seq<T> {
        optional_as_seq(self.head)
    }
}

impl<T: Clone> List<T> {
    /// Sequential construction from an ordered slice: the list holds a clone
    /// of each element, front to back in slice order.
    pub fn new(values: &[T]) -> (list: Self)
        ensures
            list@.len() == values@.len(),
            forall|i: int|
                0 <= i < values@.len() ==> cloned::<T>(values@[i], #[trigger] list@[i]),
    {
        let mut head: Option<Box<Node<T>>> = None;
        let mut i: usize = values.len();
        while i > 0
            invariant
                i <= values@.len(),
                optional_as_seq(head).len() == values@.len() - i,
                forall|k: int|
                    0 <= k < optional_as_seq(head).len() ==> cloned::<T>(
                        values@[i + k],
                        #[trigger] optional_as_seq(head)[k],
                    ),
            decreases i,
        {
            i = i - 1;
            let ghost previous = head;
            let node = Node { data: Rcu::new(values[i].clone()), next: head };
            head = Some(Box::new(node));
            assert(optional_as_seq(head) =~= seq![node.data@] + optional_as_seq(previous));
        }
        List { head }
    }

    /// Relaxed traversal from the head, collecting a snapshot of each node's
    /// payload through the node's own cell.
    pub fn to_vector(&self) -> (out: Vec<T>)
        ensures
            out@.len() == self@.len(),
            forall|i: int| 0 <= i < self@.len() ==> cloned::<T>(self@[i], #[trigger] out@[i]),
    {
        let mut out: Vec<T> = Vec::new();
        Self::collect_from(&self.head, &mut out);
        out
    }

    fn collect_from(node_opt: &Option<Box<Node<T>>>, out: &mut Vec<T>)
        ensures
            final(out)@.len() == old(out)@.len() + optional_as_seq(*node_opt).len(),
            forall|i: int| 0 <= i < old(out)@.len() ==> final(out)@[i] == old(out)@[i],
            forall|i: int|
                old(out)@.len() <= i < final(out)@.len() ==> cloned::<T>(
                    optional_as_seq(*node_opt)[i - old(out)@.len()],
                    #[trigger] final(out)@[i],
                ),
        decreases node_opt,
    {
        match node_opt {
            None => {},
            Some(node) => {
                let snapshot = node.data.load();
                out.push(snapshot);
                Self::collect_from(&node.next, out);
            },
        }
    }
}

impl<T> List<T> {
    /// Prepends `data`: allocates a node whose link is the observed head and
    /// installs it as the new head.
    pub fn push_front(&mut self, data: T)
        ensures
            final(self)@ == seq![data] + old(self)@,
    {
        let observed_head = self.head.take();
        let ghost rest = observed_head;
        let node = Node { data: Rcu::new(data), next: observed_head };
        self.head = Some(Box::new(node));
        assert(self@ =~= seq![data] + optional_as_seq(rest));
    }

    /// Appends `data`: walks the links to the last node and hangs a new node
    /// off its empty link (or installs it as the head of an empty list).
    pub fn push_back(&mut self, data: T)
        ensures
            final(self)@ == old(self)@.push(data),
    {
        Self::push_back_from(&mut self.head, data);
    }

    fn push_back_from(node_opt: &mut Option<Box<Node<T>>>, data: T)
        ensures
            optional_as_seq(*final(node_opt)) == optional_as_seq(*old(node_opt)).push(data),
        decreases *old(node_opt),
    {
        match node_opt.take() {
            None => {
                let node = Node { data: Rcu::new(data), next: None };
                *node_opt = Some(Box::new(node));
                assert(optional_as_seq(*node_opt) =~= optional_as_seq(None::<Box<Node<T>>>).push(
                    data,
                ));
            },
            Some(mut boxed_node) => {
                Self::push_back_from(&mut boxed_node.next, data);
                *node_opt = Some(boxed_node);
                assert(optional_as_seq(*node_opt) =~= optional_as_seq(*old(node_opt)).push(data));
            },
        }
    }
}

/// One push operation against the list, together with the value it carries.
pub enum PushOp<T> {
    Front(T),
    Back(T),
}

/// The value a push operation carries.
pub open spec fn push_value<T>(op: PushOp<T>) -> T {
    match op {
        PushOp::Front(v) => v,
        PushOp::Back(v) => v,
    }
}

/// The list contents after applying `ops`, in order, to a list whose view is
/// `start`.
pub open spec fn apply_pushes<T>(start: Seq<T>, ops: Seq<PushOp<T>>) -> Seq<T>
    decreases ops.len(),
{
    if ops.len() == 0 {
        start
    } else {
        let prefix = apply_pushes(start, ops.drop_last());
        match ops.last() {
            PushOp::Front(v) => seq![v] + prefix,
            PushOp::Back(v) => prefix.push(v),
        }
    }
}

/// The values carried by `ops`, in order.
pub open spec fn pushed_values<T>(ops: Seq<PushOp<T>>) -> Seq<T>
    decreases ops.len(),
{
    if ops.len() == 0 {
        Seq::empty()
    } else {
        pushed_values(ops.drop_last()).push(push_value(ops.last()))
    }
}

/// List completeness: any interleaving of pushes grows the list by exactly
/// one node per push and loses nothing — the final contents are the starting
/// contents plus, as a multiset, exactly the pushed values. In particular,
/// pushing distinct values into an empty list yields every value exactly
/// once: none missing, none duplicated.
pub proof fn lemma_push_completeness<T>(start: Seq<T>, ops: Seq<PushOp<T>>)
    ensures
        apply_pushes(start, ops).len() == start.len() + ops.len(),
        apply_pushes(start, ops).to_multiset() == start.to_multiset().add(
            pushed_values(ops).to_multiset(),
        ),
    decreases ops.len(),
{
    broadcast use vstd::seq_lib::group_to_multiset_ensures;

    if ops.len() == 0 {
        assert(pushed_values(ops).to_multiset() =~= Multiset::<T>::empty());
        assert(apply_pushes(start, ops).to_multiset() =~= start.to_multiset().add(
            pushed_values(ops).to_multiset(),
        ));
    } else {
        let shorter = ops.drop_last();
        let v = push_value(ops.last());
        lemma_push_completeness(start, shorter);
        let prefix = apply_pushes(start, shorter);
        match ops.last() {
            PushOp::Front(_) => {
                assert(seq![v] + prefix =~= prefix.insert(0, v));
                to_multiset_insert(prefix, 0, v);
            },
            PushOp::Back(_) => {
                to_multiset_build(prefix, v);
            },
        }
        to_multiset_build(pushed_values(shorter), v);
        assert(apply_pushes(start, ops).to_multiset() =~= start.to_multiset().add(
            pushed_values(ops).to_multiset(),
        ));
    }
}

} // verus!
