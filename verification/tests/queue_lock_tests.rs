use sync_primitives::queue_based_locks::{LockStep, QueueLock};

#[test]
fn mutual_exclusion_cycle() {
    // At most one holder at a time: while the lock is busy, a second
    // acquisition does not succeed; it parks instead.
    let mut lock = QueueLock::new(0u32);

    let first = lock.lock(1);
    assert!(matches!(first, LockStep::Acquired));

    let second = lock.lock(2);
    assert!(matches!(second, LockStep::MustPark));

    lock.set_data(5);
    assert_eq!(*lock.data(), 5);

    let woken = lock.unlock();
    assert_eq!(woken, Some(2));

    // The woken waiter retries and now wins the flag.
    assert!(lock.try_acquire());
    let woken = lock.unlock();
    assert_eq!(woken, None);
}

#[test]
fn waiters_wake_in_fifo_order() {
    let mut lock = QueueLock::new(());

    assert!(matches!(lock.lock(7), LockStep::Acquired));
    assert!(matches!(lock.lock(8), LockStep::MustPark));
    assert!(matches!(lock.lock(9), LockStep::MustPark));

    assert_eq!(lock.unlock(), Some(8));
    assert!(lock.try_acquire());
    assert_eq!(lock.unlock(), Some(9));
    assert!(lock.try_acquire());
    assert_eq!(lock.unlock(), None);
}

#[test]
fn try_acquire_only_when_free() {
    let mut lock = QueueLock::new(1u8);
    assert!(lock.try_acquire());
    assert!(!lock.try_acquire());
    assert_eq!(lock.unlock(), None);
    assert!(lock.try_acquire());
}
