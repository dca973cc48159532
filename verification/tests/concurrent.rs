use benching::dashmap_filled;
use benching::dashmap_filled_prealloc;
use benching::dashmap_prealloc;
use benching::dashmap_simple;
use benching::dashmap_threaded;
use benching::dashmap_threaded_filled;
use benching::hashmap_rwlock_read;
use benching::hashmap_rwlock_write;
use benching::hashmap_threaded;
use benching::mutex_threaded_filled;
use benching::rwlock_read_scanned;
use benching::rwlock_threaded_filled;

const DEFAULT_MAX: usize = 9000;

#[test]
fn dashmap_builders_empty_at_zero() {
    assert!(dashmap_filled(0).is_empty());
    assert!(dashmap_filled_prealloc(0).is_empty());
    assert!(dashmap_threaded_filled(0).is_empty());
}

#[test]
fn locked_builders_empty_at_zero() {
    assert!(mutex_threaded_filled(0).is_empty());
    assert!(rwlock_threaded_filled(0).is_empty());
    assert!(rwlock_read_scanned(0).is_empty());
}

#[test]
fn dashmap_fill_default_size() {
    let m = dashmap_filled(DEFAULT_MAX);
    assert_eq!(m.len(), DEFAULT_MAX);
    for k in 0..DEFAULT_MAX {
        assert_eq!(m.get(&k).map(|entry| *entry.value()), Some(k));
    }
    assert!(m.get(&DEFAULT_MAX).is_none());
}

#[test]
fn dashmap_prealloc_matches_simple() {
    let plain = dashmap_filled(DEFAULT_MAX);
    let reserved = dashmap_filled_prealloc(DEFAULT_MAX);
    assert_eq!(plain.len(), reserved.len());
    for k in 0..DEFAULT_MAX {
        let a = plain.get(&k).map(|entry| *entry.value());
        let b = reserved.get(&k).map(|entry| *entry.value());
        assert_eq!(a, b);
    }
}

#[test]
fn dashmap_threaded_fill_complete() {
    let m = dashmap_threaded_filled(DEFAULT_MAX);
    assert_eq!(m.len(), DEFAULT_MAX);
    for k in 0..DEFAULT_MAX {
        assert_eq!(m.get(&k).map(|entry| *entry.value()), Some(k));
    }
}

#[test]
fn mutex_threaded_fill_complete() {
    let m = mutex_threaded_filled(DEFAULT_MAX);
    assert_eq!(m.len(), DEFAULT_MAX);
    for k in 0..DEFAULT_MAX {
        assert_eq!(m.get(&k), Some(&k));
    }
}

#[test]
fn rwlock_threaded_fill_complete() {
    let m = rwlock_threaded_filled(DEFAULT_MAX);
    assert_eq!(m.len(), DEFAULT_MAX);
    for k in 0..DEFAULT_MAX {
        assert_eq!(m.get(&k), Some(&k));
    }
}

#[test]
fn rwlock_read_leaves_map_unchanged() {
    let m = rwlock_read_scanned(DEFAULT_MAX);
    assert_eq!(m.len(), DEFAULT_MAX);
    for k in 0..DEFAULT_MAX {
        assert_eq!(m.get(&k), Some(&k));
    }
}

#[test]
fn locking_strategies_agree_on_final_size() {
    let sharded = dashmap_threaded_filled(DEFAULT_MAX);
    let coarse = mutex_threaded_filled(DEFAULT_MAX);
    assert_eq!(sharded.len(), coarse.len());
    for k in 0..DEFAULT_MAX {
        assert_eq!(
            sharded.get(&k).map(|entry| *entry.value()),
            coarse.get(&k).copied()
        );
    }
}

#[test]
fn concurrent_workloads_run() {
    dashmap_simple(100);
    dashmap_prealloc(100);
    dashmap_threaded(100);
    hashmap_threaded(100);
    hashmap_rwlock_write(100);
    hashmap_rwlock_read(100);
}

#[test]
fn concurrent_workloads_run_at_zero() {
    dashmap_simple(0);
    dashmap_prealloc(0);
    dashmap_threaded(0);
    hashmap_threaded(0);
    hashmap_rwlock_write(0);
    hashmap_rwlock_read(0);
}
