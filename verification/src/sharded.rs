//! Workloads on the sharded concurrent map.
//!
//! `dashmap::DashMap` partitions its entries into independently locked
//! shards, so concurrent inserts to different shards do not contend on one
//! whole-map lock. The verifier sees the type opaquely: `dash_contents`
//! names the table a given map holds, and each trusted wrapper states over
//! that name what the crate's entry points do, as its source shows. The
//! loops and the builders around the wrappers are verified against those
//! contracts.

use crate::laws::lemma_concurrent_fill;
use crate::model::empty_map;
use crate::model::ident_map;
use rayon::iter::IntoParallelIterator;
use rayon::iter::ParallelIterator;
use vstd::prelude::*;

verus! {

#[verifier::external_type_specification]
#[verifier::external_body]
#[verifier::reject_recursive_types(K)]
#[verifier::reject_recursive_types(V)]
#[verifier::reject_recursive_types(S)]
pub struct ExDashMap<K, V, S>(dashmap::DashMap<K, V, S>);

/// The table of entries a sharded map holds, all shards taken together.
pub uninterp spec fn dash_contents(m: dashmap::DashMap<usize, usize>) -> Map<usize, usize>;

/// Relies on dashmap::DashMap::new: a freshly created map holds no entries.
#[verifier::external_body]
fn dash_new() -> (m: dashmap::DashMap<usize, usize>)
    ensures
        dash_contents(m) == empty_map(),
{
    dashmap::DashMap::new()
}

/// Relies on dashmap::DashMap::with_capacity: the capacity is only a
/// reservation, so the fresh map holds no entries.
#[verifier::external_body]
fn dash_with_capacity(capacity: usize) -> (m: dashmap::DashMap<usize, usize>)
    ensures
        dash_contents(m) == empty_map(),
{
    dashmap::DashMap::with_capacity(capacity)
}

/// Relies on dashmap::DashMap::insert: the entry for the key is set to the
/// value and every other entry is left unchanged.
#[verifier::external_body]
fn dash_insert(m: &mut dashmap::DashMap<usize, usize>, key: usize, value: usize)
    ensures
        dash_contents(*final(m)) == dash_contents(*old(m)).insert(key, value),
{
    let _ = m.insert(key, value);
}

/// Relies on rayon's parallel `for_each` over `0..max` and on
/// dashmap::DashMap::insert: each index in `0..max` is inserted exactly
/// once, keyed by itself, each insert atomic on its shard; entries for
/// other keys are left unchanged.
#[verifier::external_body]
fn dash_par_insert(m: &mut dashmap::DashMap<usize, usize>, max: usize)
    ensures
        dash_contents(*final(m)) == dash_contents(*old(m)).union_prefer_right(ident_map(max)),
{
    let shared: &dashmap::DashMap<usize, usize> = m;
    (0..max).into_par_iter().for_each(|num: usize| {
        shared.insert(num, num);
    });
}

/// Inserts every key in `0..max`, mapped to itself, into a fresh sharded
/// map, one key per loop iteration on the calling thread.
pub fn dashmap_filled(max: usize) -> (m: dashmap::DashMap<usize, usize>)
    ensures
        dash_contents(m) == ident_map(max),
{
    let mut m = dash_new();
    for num in 0..max
        invariant
            dash_contents(m) == ident_map(num),
    {
        dash_insert(&mut m, num, num);
        proof {
            assert(ident_map(num).insert(num, num) =~= ident_map((num + 1) as usize));
        }
    }
    m
}

/// Inserts every key in `0..max`, mapped to itself, into a sharded map with
/// capacity reserved for all of them.
pub fn dashmap_filled_prealloc(max: usize) -> (m: dashmap::DashMap<usize, usize>)
    ensures
        dash_contents(m) == ident_map(max),
{
    let mut m = dash_with_capacity(max);
    for num in 0..max
        invariant
            dash_contents(m) == ident_map(num),
    {
        dash_insert(&mut m, num, num);
        proof {
            assert(ident_map(num).insert(num, num) =~= ident_map((num + 1) as usize));
        }
    }
    m
}

/// Fills a fresh sharded map with the keys `0..max` concurrently, one
/// insert per pooled task, each task locking only its target shard.
pub fn dashmap_threaded_filled(max: usize) -> (m: dashmap::DashMap<usize, usize>)
    ensures
        dash_contents(m) == ident_map(max),
{
    let mut m = dash_new();
    proof {
        lemma_concurrent_fill(max, dash_contents(m));
    }
    dash_par_insert(&mut m, max);
    m
}

/// Benchmarked workload: fill a growing sharded map with `max` keys on the
/// calling thread, then discard it.
pub fn dashmap_simple(max: usize) {
    let _ = dashmap_filled(max);
}

/// Benchmarked workload: fill a sharded map with `max` keys, capacity
/// reserved up front, then discard it.
pub fn dashmap_prealloc(max: usize) {
    let _ = dashmap_filled_prealloc(max);
}

/// Benchmarked workload: concurrent inserts into the sharded map, one task
/// per key; the map is discarded.
pub fn dashmap_threaded(max: usize) {
    let _ = dashmap_threaded_filled(max);
}

} // verus!
