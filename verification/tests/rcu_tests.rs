use sync_primitives::linked_list::new_solution;
use sync_primitives::rcu::arc_rcu::ArcRcu;
use sync_primitives::rcu::rcu_with_garbage_collector::RcuGC;
use sync_primitives::rcu::Rcu;

#[derive(Clone, Debug)]
struct User {
    name: String,
    password: String,
}

#[test]
fn mod_test() {
    let mut rcu = Rcu::new(User {
        name: String::from("name"),
        password: String::from("password"),
    });
    let n = 10_000;
    for i in 0..n {
        rcu.change(|mut user: User| {
            user.name = format!("new_name {i}");
            user
        });
    }
    for i in 0..n {
        rcu.change(|mut user: User| {
            user.password = format!("new_password {i}");
            user
        });
    }
    println!("{:?}", rcu.load());
    let last = rcu.load();
    assert_eq!(last.name, format!("new_name {}", n - 1));
    assert_eq!(last.password, format!("new_password {}", n - 1));
}

#[derive(Clone, Debug)]
struct Counter {
    count: u32,
}

#[test]
fn counter() {
    let mut rcu = Rcu::new(Counter { count: 0 });
    for _ in 0..10_000 {
        rcu.change(|mut counter: Counter| {
            counter.count += 1;
            counter
        });
    }
    println!("{:?}", rcu.load());
    assert_eq!(rcu.load().count, 10_000);
}

#[test]
fn check_garabage_collector() {
    let mut rcu = RcuGC::new(0);

    for _ in 0..1_000 {
        for _ in 0..1_000 {
            rcu.change(|data| data + 1);
        }
    }
    assert_eq!(rcu.load(), 1_000_000);
}

#[test]
fn rcu_no_lost_update() {
    // Each of the n updates increments the committed state by one, so none
    // of them is lost.
    let mut rcu = Rcu::new(0u64);
    let n: u64 = 100;
    for _ in 0..n {
        rcu.change(|value| value + 1);
    }
    assert_eq!(rcu.load(), n);
}

#[test]
fn arc_rcu_no_lost_update() {
    let mut rcu = ArcRcu::new(0u64);
    let n: u64 = 100;
    for _ in 0..n {
        rcu.change(|value| value + 1);
    }
    assert_eq!(rcu.load(), n);
}

#[test]
fn rcu_gc_no_leak() {
    // Once every update has completed and no writer is in flight, the
    // retirement set has been drained: every retired version was freed.
    let mut rcu = RcuGC::new(0u64);
    for _ in 0..1_000 {
        rcu.change(|value| value + 1);
    }
    assert_eq!(rcu.load(), 1_000);
    assert_eq!(rcu.in_flight_writers(), 0);
    assert_eq!(rcu.retired_count(), 0);
}

#[test]
fn rcu_load_is_snapshot() {
    let mut rcu = Rcu::new(5u32);
    let before = rcu.load();
    rcu.change(|value| value + 2);
    assert_eq!(before, 5);
    assert_eq!(rcu.load(), 7);
}

#[test]
fn rcu_clone_is_independent() {
    let mut original = Rcu::new(3u32);
    let copy = original.clone();
    original.change(|value| value + 1);
    assert_eq!(original.load(), 4);
    assert_eq!(copy.load(), 3);
}

#[test]
fn new_solution_list() {
    let list = new_solution::List::new(vec![1u8, 2, 3]);
    drop(list);
}
