//! Sequential map and set workloads.
//!
//! Each builder inserts the keys `0..max` into one freshly created table
//! (mapping each key to itself where a value is involved) and returns it;
//! the contract fixes the final contents exactly. The workload functions run
//! a builder and discard the result.

use std::collections::BTreeMap;
use std::collections::HashMap;
use std::collections::HashSet;

use crate::model::ident_map;
use crate::model::ident_set;
use vstd::prelude::*;

verus! {

broadcast use
    vstd::std_specs::hash::group_hash_axioms,
    vstd::std_specs::btree::group_btree_axioms,
    vstd::laws_cmp::group_laws_cmp;

/// Inserts every key in `0..max`, mapped to itself, into a fresh hash map.
pub fn hashmap_filled(max: usize) -> (m: HashMap<usize, usize>)
    ensures
        m@ == ident_map(max),
{
    let mut m: HashMap<usize, usize> = HashMap::new();
    for num in 0..max
        invariant
            m@ == ident_map(num),
    {
        m.insert(num, num);
        proof {
            assert(ident_map(num).insert(num, num) =~= ident_map((num + 1) as usize));
        }
    }
    m
}

/// Inserts every key in `0..max`, mapped to itself, into a hash map with
/// capacity reserved for all of them.
pub fn hashmap_filled_prealloc(max: usize) -> (m: HashMap<usize, usize>)
    ensures
        m@ == ident_map(max),
{
    let mut m: HashMap<usize, usize> = HashMap::with_capacity(max);
    for num in 0..max
        invariant
            m@ == ident_map(num),
    {
        m.insert(num, num);
        proof {
            assert(ident_map(num).insert(num, num) =~= ident_map((num + 1) as usize));
        }
    }
    m
}

/// Inserts every key in `0..max` into a fresh hash set.
pub fn hashset_filled(max: usize) -> (s: HashSet<usize>)
    ensures
        s@ == ident_set(max),
{
    let mut s: HashSet<usize> = HashSet::new();
    for num in 0..max
        invariant
            s@ == ident_set(num),
    {
        s.insert(num);
        proof {
            assert(ident_set(num).insert(num) =~= ident_set((num + 1) as usize));
        }
    }
    s
}

/// Inserts every key in `0..max` into a hash set with capacity reserved for
/// all of them.
pub fn hashset_filled_prealloc(max: usize) -> (s: HashSet<usize>)
    ensures
        s@ == ident_set(max),
{
    let mut s: HashSet<usize> = HashSet::with_capacity(max);
    for num in 0..max
        invariant
            s@ == ident_set(num),
    {
        s.insert(num);
        proof {
            assert(ident_set(num).insert(num) =~= ident_set((num + 1) as usize));
        }
    }
    s
}

/// Inserts every key in `0..max`, mapped to itself, into a fresh ordered
/// map.
pub fn btreemap_filled(max: usize) -> (m: BTreeMap<usize, usize>)
    ensures
        m@ == ident_map(max),
{
    let mut m: BTreeMap<usize, usize> = BTreeMap::new();
    for num in 0..max
        invariant
            m@ == ident_map(num),
    {
        m.insert(num, num);
        proof {
            assert(ident_map(num).insert(num, num) =~= ident_map((num + 1) as usize));
        }
    }
    m
}

/// Benchmarked workload: fill a growing hash map with `max` keys, then
/// discard it.
pub fn hashmap_simple(max: usize) {
    let _ = hashmap_filled(max);
}

/// Benchmarked workload: fill a hash map with `max` keys, capacity reserved
/// up front, then discard it.
pub fn hashmap_prealloc(max: usize) {
    let _ = hashmap_filled_prealloc(max);
}

/// Benchmarked workload: fill a growing hash set with `max` keys, then
/// discard it.
pub fn hashset_simple(max: usize) {
    let _ = hashset_filled(max);
}

/// Benchmarked workload: fill a hash set with `max` keys, capacity reserved
/// up front, then discard it.
pub fn hashset_prealloc(max: usize) {
    let _ = hashset_filled_prealloc(max);
}

/// Benchmarked workload: fill a growing ordered map with `max` keys, then
/// discard it.
pub fn btreemap_simple(max: usize) {
    let _ = btreemap_filled(max);
}

} // verus!
