use sync_primitives::semaphore::optimised;
use sync_primitives::semaphore::Semaphore;

#[test]
fn semaphore() {
    let mut semaphore = Semaphore::new();

    for _ in 0..4_000_000 {
        semaphore.signal();
    }
    for _ in 0..4_000_000 {
        semaphore.wait();
    }
    println!("counter:{}", semaphore.available());
    assert_eq!(semaphore.available(), 0);
}

#[test]
fn wait_and_signal() {
    let count_of_resources = 50_000;
    let mut semaphore = optimised::Semaphore::new(count_of_resources);

    for _ in 0..count_of_resources {
        semaphore.wait();
    }
    assert_eq!(semaphore.available(), 0);
}

#[test]
fn semaphore_bound() {
    // Starting from k permits, successful waits never exceed k plus the
    // completed signals: with k = 3 and one signal, exactly four waits can
    // succeed and the fifth attempt reports that the caller must block.
    let mut semaphore = optimised::Semaphore::new(3);
    assert!(semaphore.try_wait());
    assert!(semaphore.try_wait());
    assert!(semaphore.try_wait());
    assert!(!semaphore.try_wait());
    semaphore.signal();
    assert!(semaphore.try_wait());
    assert!(!semaphore.try_wait());
    assert_eq!(semaphore.available(), 0);
}

#[test]
fn wait_blocks_at_zero() {
    // A wait on a zero count does not take a permit: the step reports that
    // the caller must block until a signal arrives.
    let mut semaphore = Semaphore::new();
    assert!(!semaphore.try_wait());
    semaphore.signal();
    assert!(semaphore.try_wait());
    assert!(!semaphore.try_wait());
}

#[test]
fn signal_then_wait() {
    let mut semaphore = Semaphore::new();
    for _ in 0..10 {
        assert!(semaphore.try_signal());
    }
    assert_eq!(semaphore.available(), 10);
    semaphore.wait();
    assert_eq!(semaphore.available(), 9);
}

#[test]
fn optimised_signal_increments() {
    let mut semaphore = optimised::Semaphore::new(0);
    for _ in 0..5 {
        semaphore.signal();
    }
    assert_eq!(semaphore.available(), 5);
}

#[test]
fn optimised_at_largest_count() {
    let mut semaphore = optimised::Semaphore::new(u32::MAX);
    semaphore.wait();
    assert_eq!(semaphore.available(), u32::MAX - 1);
}
