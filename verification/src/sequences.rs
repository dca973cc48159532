//! Sequential list and queue workloads.
//!
//! Each builder performs `max` operations against one freshly created
//! container and returns it; its contract fixes the final contents exactly.
//! The workload functions run a builder and discard the result, which is the
//! shape a timing harness invokes. The `prealloc` variants reserve space for
//! all `max` elements up front; their contracts show that this changes
//! nothing about the contents.

use std::collections::VecDeque;

use crate::model::ident_seq;
use crate::model::rev_seq;
use vstd::prelude::*;

verus! {

/// Appends the keys `0..max` in order to a fresh list.
pub fn vec_pushed(max: usize) -> (v: Vec<usize>)
    ensures
        v@ == ident_seq(max),
{
    let mut v: Vec<usize> = Vec::new();
    for num in 0..max
        invariant
            v@ == ident_seq(num),
    {
        v.push(num);
        proof {
            assert(ident_seq(num).push(num) =~= ident_seq((num + 1) as usize));
        }
    }
    v
}

/// Appends the keys `0..max` in order to a list with capacity reserved for
/// all of them.
pub fn vec_pushed_prealloc(max: usize) -> (v: Vec<usize>)
    ensures
        v@ == ident_seq(max),
{
    let mut v: Vec<usize> = Vec::with_capacity(max);
    for num in 0..max
        invariant
            v@ == ident_seq(num),
    {
        v.push(num);
        proof {
            assert(ident_seq(num).push(num) =~= ident_seq((num + 1) as usize));
        }
    }
    v
}

/// Inserts each key `num` at index `num` of a fresh list; since the list
/// holds `num` elements at that point, every insert lands at the end.
pub fn vec_inserted(max: usize) -> (v: Vec<usize>)
    ensures
        v@ == ident_seq(max),
{
    let mut v: Vec<usize> = Vec::new();
    for num in 0..max
        invariant
            v@ == ident_seq(num),
    {
        v.insert(num, num);
        proof {
            assert(ident_seq(num).insert(num as int, num) =~= ident_seq((num + 1) as usize));
        }
    }
    v
}

/// Inserts each key at the end by index, into a list with capacity reserved
/// for all `max` elements.
pub fn vec_inserted_prealloc(max: usize) -> (v: Vec<usize>)
    ensures
        v@ == ident_seq(max),
{
    let mut v: Vec<usize> = Vec::with_capacity(max);
    for num in 0..max
        invariant
            v@ == ident_seq(num),
    {
        v.insert(num, num);
        proof {
            assert(ident_seq(num).insert(num as int, num) =~= ident_seq((num + 1) as usize));
        }
    }
    v
}

/// Pushes the keys `0..max` in order onto the front of a fresh queue, so the
/// queue ends in reverse order.
pub fn deque_front_pushed(max: usize) -> (d: VecDeque<usize>)
    ensures
        d@ == rev_seq(max),
{
    let mut d: VecDeque<usize> = VecDeque::new();
    for num in 0..max
        invariant
            d@ == rev_seq(num),
    {
        d.push_front(num);
        proof {
            assert(seq![num] + rev_seq(num) =~= rev_seq((num + 1) as usize));
        }
    }
    d
}

/// Pushes the keys `0..max` onto the front of a queue with capacity reserved
/// for all of them.
pub fn deque_front_pushed_prealloc(max: usize) -> (d: VecDeque<usize>)
    ensures
        d@ == rev_seq(max),
{
    let mut d: VecDeque<usize> = VecDeque::with_capacity(max);
    for num in 0..max
        invariant
            d@ == rev_seq(num),
    {
        d.push_front(num);
        proof {
            assert(seq![num] + rev_seq(num) =~= rev_seq((num + 1) as usize));
        }
    }
    d
}

/// Inserts each key at index 0 of a fresh queue: the same front insertion as
/// `deque_front_pushed`, spelled through the index-based entry point.
pub fn deque_front_inserted(max: usize) -> (d: VecDeque<usize>)
    ensures
        d@ == rev_seq(max),
{
    let mut d: VecDeque<usize> = VecDeque::new();
    for num in 0..max
        invariant
            d@ == rev_seq(num),
    {
        d.insert(0, num);
        proof {
            assert(rev_seq(num).insert(0, num) =~= rev_seq((num + 1) as usize));
        }
    }
    d
}

/// Benchmarked workload: append `max` keys to a growing list, then discard
/// it.
pub fn vec_simple_push(max: usize) {
    let _ = vec_pushed(max);
}

/// Benchmarked workload: append `max` keys to a list with its capacity
/// reserved up front, then discard it.
pub fn vec_prealloc_push(max: usize) {
    let _ = vec_pushed_prealloc(max);
}

/// Benchmarked workload: insert `max` keys at the end of a growing list by
/// index, then discard it.
pub fn vec_simple_insert(max: usize) {
    let _ = vec_inserted(max);
}

/// Benchmarked workload: insert `max` keys at the end by index, capacity
/// reserved up front, then discard the list.
pub fn vec_prealloc_insert(max: usize) {
    let _ = vec_inserted_prealloc(max);
}

/// Benchmarked workload: push `max` keys onto the front of a growing queue,
/// then discard it.
pub fn vecdeque_simple(max: usize) {
    let _ = deque_front_pushed(max);
}

/// Benchmarked workload: push `max` keys onto the front of a queue with its
/// capacity reserved up front, then discard it.
pub fn vecdeque_prealloc(max: usize) {
    let _ = deque_front_pushed_prealloc(max);
}

/// Benchmarked workload: insert `max` keys at index 0 of a growing queue,
/// then discard it.
pub fn vecdeque_simple_insert(max: usize) {
    let _ = deque_front_inserted(max);
}

} // verus!
