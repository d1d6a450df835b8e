use sync_primitives::linked_list::{List, Node};

#[test]
fn new_list() {
    let data = &[1, 2, 3, 4, 5];
    let list: List<usize> = List::new(data);
    assert_eq!(list.to_vector().len(), data.len());
}

#[test]
fn push_front_back() {
    let mut list: List<isize> = List::new(&[]);
    let n: usize = 399;

    for i in 1..=n {
        list.push_back(i as isize);
    }
    for i in 1..=n {
        list.push_front(i as isize * -1);
    }

    let mut vec = list.to_vector();
    assert_eq!(vec.len(), n * 2);
    vec.dedup_by(|a, b| a == b);
    assert_eq!(vec.len(), n * 2);

    assert!(vec[vec.len() / 2] > 0);
    assert!(vec[vec.len() / 2 - 1] < 0);
}

#[test]
fn push_mixed_completeness() {
    // Pushing distinct values, in any mix of front and back, yields a vector
    // holding every pushed value exactly once.
    let mut list: List<u64> = List::new(&[]);
    let n: u64 = 50;
    for i in 0..n {
        if i % 2 == 0 {
            list.push_front(i);
        } else {
            list.push_back(i);
        }
    }
    let mut vec = list.to_vector();
    assert_eq!(vec.len(), n as usize);
    vec.sort();
    for i in 0..n {
        assert_eq!(vec[i as usize], i);
    }
}

#[test]
fn new_keeps_order() {
    let list: List<u32> = List::new(&[10, 20, 30]);
    assert_eq!(list.to_vector(), vec![10, 20, 30]);
}

#[test]
fn push_order() {
    let mut list: List<u32> = List::new(&[2]);
    list.push_front(1);
    list.push_back(3);
    assert_eq!(list.to_vector(), vec![1, 2, 3]);
}

#[test]
fn empty_list() {
    let list: List<u8> = List::new(&[]);
    assert_eq!(list.to_vector().len(), 0);
}

#[test]
fn node_payload() {
    let node = Node::new(7u32);
    assert_eq!(node.data(), 7);
}
