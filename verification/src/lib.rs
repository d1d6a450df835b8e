//! A small toolkit of synchronization primitives for shared in-process state:
//! a copy-on-write versioned cell ("RCU"), a reclaiming variant of it with
//! deferred-free bookkeeping, a singly linked list whose per-node payload is a
//! versioned cell, a queue-based mutual-exclusion lock, and a counting
//! semaphore in two variants (blocking and futex-style).
//!
//! Every structure is a verified state machine over plain values: each
//! operation's contract pins down exactly how the structure's abstract view
//! changes. Operations that in a multi-threaded setting would block the caller
//! (a contended lock acquisition, a wait on an empty semaphore) are expressed
//! as step functions that report the required action (park, retry) to the
//! caller, which performs the actual thread blocking.

pub mod linked_list;
pub mod queue_based_locks;
pub mod rcu;
pub mod semaphore;

pub use rcu::rcu_with_garbage_collector::RcuGC;
pub use semaphore::Semaphore;
