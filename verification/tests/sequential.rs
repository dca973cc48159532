use benching::btreemap_filled;
use benching::btreemap_simple;
use benching::deque_front_inserted;
use benching::deque_front_pushed;
use benching::deque_front_pushed_prealloc;
use benching::hashmap_filled;
use benching::hashmap_filled_prealloc;
use benching::hashmap_prealloc;
use benching::hashmap_simple;
use benching::hashset_filled;
use benching::hashset_filled_prealloc;
use benching::hashset_prealloc;
use benching::hashset_simple;
use benching::vec_inserted;
use benching::vec_inserted_prealloc;
use benching::vec_prealloc_insert;
use benching::vec_prealloc_push;
use benching::vec_pushed;
use benching::vec_pushed_prealloc;
use benching::vec_simple_insert;
use benching::vec_simple_push;
use benching::vecdeque_prealloc;
use benching::vecdeque_simple;
use benching::vecdeque_simple_insert;

const DEFAULT_MAX: usize = 9000;

#[test]
fn vec_builders_empty_at_zero() {
    assert!(vec_pushed(0).is_empty());
    assert!(vec_pushed_prealloc(0).is_empty());
    assert!(vec_inserted(0).is_empty());
    assert!(vec_inserted_prealloc(0).is_empty());
}

#[test]
fn deque_builders_empty_at_zero() {
    assert!(deque_front_pushed(0).is_empty());
    assert!(deque_front_pushed_prealloc(0).is_empty());
    assert!(deque_front_inserted(0).is_empty());
}

#[test]
fn table_builders_empty_at_zero() {
    assert!(hashmap_filled(0).is_empty());
    assert!(hashmap_filled_prealloc(0).is_empty());
    assert!(hashset_filled(0).is_empty());
    assert!(hashset_filled_prealloc(0).is_empty());
    assert!(btreemap_filled(0).is_empty());
}

#[test]
fn vec_push_default_size() {
    let v = vec_pushed(DEFAULT_MAX);
    assert_eq!(v.len(), DEFAULT_MAX);
    for (i, x) in v.iter().enumerate() {
        assert_eq!(*x, i);
    }
}

#[test]
fn vec_insert_matches_push() {
    assert_eq!(vec_inserted(DEFAULT_MAX), vec_pushed(DEFAULT_MAX));
    assert_eq!(vec_inserted(137), vec_pushed(137));
}

#[test]
fn vec_prealloc_matches_simple() {
    assert_eq!(vec_pushed_prealloc(DEFAULT_MAX), vec_pushed(DEFAULT_MAX));
    assert_eq!(vec_inserted_prealloc(DEFAULT_MAX), vec_inserted(DEFAULT_MAX));
}

#[test]
fn deque_front_push_reverses() {
    let d = deque_front_pushed(DEFAULT_MAX);
    assert_eq!(d.len(), DEFAULT_MAX);
    for (i, x) in d.iter().enumerate() {
        assert_eq!(*x, DEFAULT_MAX - 1 - i);
    }
}

#[test]
fn deque_prealloc_and_insert_match_push() {
    assert_eq!(
        deque_front_pushed_prealloc(DEFAULT_MAX),
        deque_front_pushed(DEFAULT_MAX)
    );
    assert_eq!(
        deque_front_inserted(DEFAULT_MAX),
        deque_front_pushed(DEFAULT_MAX)
    );
}

#[test]
fn hashmap_fill_default_size() {
    let m = hashmap_filled(DEFAULT_MAX);
    assert_eq!(m.len(), DEFAULT_MAX);
    for k in 0..DEFAULT_MAX {
        assert_eq!(m.get(&k), Some(&k));
    }
    assert_eq!(m.get(&DEFAULT_MAX), None);
}

#[test]
fn hashmap_prealloc_matches_simple() {
    assert_eq!(hashmap_filled_prealloc(DEFAULT_MAX), hashmap_filled(DEFAULT_MAX));
}

#[test]
fn hashset_fill_default_size() {
    let s = hashset_filled(DEFAULT_MAX);
    assert_eq!(s.len(), DEFAULT_MAX);
    for k in 0..DEFAULT_MAX {
        assert!(s.contains(&k));
    }
    assert!(!s.contains(&DEFAULT_MAX));
}

#[test]
fn hashset_prealloc_matches_simple() {
    assert_eq!(hashset_filled_prealloc(DEFAULT_MAX), hashset_filled(DEFAULT_MAX));
}

#[test]
fn btreemap_fill_sorted_contents() {
    let m = btreemap_filled(DEFAULT_MAX);
    assert_eq!(m.len(), DEFAULT_MAX);
    let mut expected: usize = 0;
    for (k, v) in m.iter() {
        assert_eq!(*k, expected);
        assert_eq!(*v, expected);
        expected += 1;
    }
    assert_eq!(expected, DEFAULT_MAX);
}

#[test]
fn sequential_workloads_run() {
    vec_simple_push(100);
    vec_prealloc_push(100);
    vec_simple_insert(100);
    vec_prealloc_insert(100);
    vecdeque_simple(100);
    vecdeque_prealloc(100);
    vecdeque_simple_insert(100);
    hashmap_simple(100);
    hashmap_prealloc(100);
    hashset_simple(100);
    hashset_prealloc(100);
    btreemap_simple(100);
}

#[test]
fn sequential_workloads_run_at_zero() {
    vec_simple_push(0);
    vec_prealloc_push(0);
    vec_simple_insert(0);
    vec_prealloc_insert(0);
    vecdeque_simple(0);
    vecdeque_prealloc(0);
    vecdeque_simple_insert(0);
    hashmap_simple(0);
    hashmap_prealloc(0);
    hashset_simple(0);
    hashset_prealloc(0);
    btreemap_simple(0);
}
