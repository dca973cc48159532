//! Concurrent hash-map workloads over a shared worker pool.
//!
//! The parallel passes hand the range `0..max` to rayon's worker pool, with
//! the shared table behind a coarse lock: an exclusive lock for the mutex
//! variant, a reader/writer lock for the write and read variants. The pool
//! and the locks are outside what the verifier reads, so each parallel pass
//! stands behind one trusted wrapper whose contract states the final
//! contents; the wrappers' claims rest on every task inserting (or looking
//! up) a distinct key exactly once.

use std::collections::HashMap;
use std::sync::Arc;
use std::sync::Mutex;
use std::sync::RwLock;

use crate::laws::lemma_concurrent_fill;
use crate::model::ident_map;
use crate::tables::hashmap_filled;
use rayon::iter::IntoParallelIterator;
use rayon::iter::ParallelIterator;
use vstd::prelude::*;

verus! {

/// Relies on rayon's parallel `for_each` over `0..max`, `std::sync::Arc`,
/// `std::sync::Mutex` and std's `HashMap::insert`: each index in `0..max`
/// is inserted exactly once, keyed by itself, under the exclusive lock;
/// entries for other keys are left unchanged.
#[verifier::external_body]
fn mutex_par_insert(m: HashMap<usize, usize>, max: usize) -> (r: HashMap<usize, usize>)
    ensures
        r@ == m@.union_prefer_right(ident_map(max)),
{
    let shared = Arc::new(Mutex::new(m));
    (0..max).into_par_iter().for_each(|num: usize| {
        shared.lock().unwrap().insert(num, num);
    });
    Arc::try_unwrap(shared).ok().unwrap().into_inner().unwrap()
}

/// Relies on rayon's parallel `for_each` over `0..max`, `std::sync::RwLock`
/// and std's `HashMap::insert`: each index in `0..max` is inserted exactly
/// once, keyed by itself, under the write lock; entries for other keys are
/// left unchanged.
#[verifier::external_body]
fn rwlock_par_insert(m: HashMap<usize, usize>, max: usize) -> (r: HashMap<usize, usize>)
    ensures
        r@ == m@.union_prefer_right(ident_map(max)),
{
    let shared = RwLock::new(m);
    (0..max).into_par_iter().for_each(|num: usize| {
        shared.write().unwrap().insert(num, num);
    });
    shared.into_inner().unwrap()
}

/// Relies on rayon's parallel `for_each` over `0..max`, `std::sync::RwLock`
/// and std's `HashMap::get`: one read lookup per index, under a shared read
/// guard; the table is not mutated, so it comes back exactly as it went in.
#[verifier::external_body]
fn rwlock_par_read(m: HashMap<usize, usize>, max: usize) -> (r: HashMap<usize, usize>)
    ensures
        r@ == m@,
{
    let shared = RwLock::new(m);
    (0..max).into_par_iter().for_each(|num: usize| {
        let guard = shared.read().unwrap();
        let _ = guard.get(&num);
    });
    shared.into_inner().unwrap()
}

/// Fills a shared hash map with the keys `0..max` concurrently, one insert
/// per pooled task, the whole map behind one exclusive lock.
pub fn mutex_threaded_filled(max: usize) -> (m: HashMap<usize, usize>)
    ensures
        m@ == ident_map(max),
{
    let m: HashMap<usize, usize> = HashMap::new();
    proof {
        lemma_concurrent_fill(max, m@);
    }
    mutex_par_insert(m, max)
}

/// Fills a shared hash map with the keys `0..max` concurrently, one insert
/// per pooled task, the whole map behind one reader/writer lock taken for
/// writing.
pub fn rwlock_threaded_filled(max: usize) -> (m: HashMap<usize, usize>)
    ensures
        m@ == ident_map(max),
{
    let m: HashMap<usize, usize> = HashMap::new();
    proof {
        lemma_concurrent_fill(max, m@);
    }
    rwlock_par_insert(m, max)
}

/// Pre-populates a hash map with the keys `0..max` sequentially, then runs
/// `max` concurrent read lookups against it behind a reader/writer lock.
/// The result comes back with all `max` pre-populated entries intact: the
/// read pass mutates nothing.
pub fn rwlock_read_scanned(max: usize) -> (m: HashMap<usize, usize>)
    ensures
        m@ == ident_map(max),
{
    let m = hashmap_filled(max);
    rwlock_par_read(m, max)
}

/// Benchmarked workload: concurrent inserts under an exclusive lock; the
/// map is discarded.
pub fn hashmap_threaded(max: usize) {
    let _ = mutex_threaded_filled(max);
}

/// Benchmarked workload: concurrent inserts under a reader/writer lock; the
/// map is discarded.
pub fn hashmap_rwlock_write(max: usize) {
    let _ = rwlock_threaded_filled(max);
}

/// Benchmarked workload: sequential pre-population, then concurrent read
/// lookups under a reader/writer lock; the map is discarded.
pub fn hashmap_rwlock_read(max: usize) {
    let _ = rwlock_read_scanned(max);
}

} // verus!
