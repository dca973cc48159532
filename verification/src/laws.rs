//! Laws that relate the workloads to one another.
//!
//! The builders' contracts each pin one container's final contents to a
//! model from `model`. The proof functions here state what those models have
//! in common: every workload fills its container with exactly `max` distinct
//! keys, reserving capacity never changes the outcome, a read-only pass
//! changes nothing, and all the concurrent insert strategies end in the same
//! state.

use crate::model::empty_map;
use crate::model::ident_map;
use crate::model::ident_seq;
use crate::model::ident_set;
use crate::model::lemma_ident_map_len;
use crate::model::lemma_ident_set_len;
use crate::model::rev_seq;
use vstd::prelude::*;

verus! {

/// Every sequential workload leaves exactly `max` entries, the keys
/// `0..max` with no duplicates: the list models hold `max` pairwise distinct
/// elements drawn from `0..max`, and the set and table models hold exactly
/// the keys below `max`.
pub proof fn lemma_sequential_fill(max: usize)
    ensures
        ident_seq(max).len() == max,
        forall|i: int| 0 <= i < max ==> ident_seq(max)[i] == i,
        forall|i: int, j: int|
            0 <= i < j < max ==> ident_seq(max)[i] != ident_seq(max)[j],
        rev_seq(max).len() == max,
        forall|i: int, j: int| 0 <= i < j < max ==> rev_seq(max)[i] != rev_seq(max)[j],
        forall|k: usize| #[trigger] ident_set(max).contains(k) <==> k < max,
        ident_set(max).finite(),
        ident_set(max).len() == max,
        forall|k: usize| #[trigger] ident_map(max).dom().contains(k) <==> k < max,
        forall|k: usize| k < max ==> ident_map(max)[k] == k,
        ident_map(max).dom().finite(),
        ident_map(max).dom().len() == max,
{
    lemma_ident_set_len(max);
    lemma_ident_map_len(max);
}

/// A concurrent insert of every key `0..max`, each mapped to itself, into an
/// initially empty table ends as the identity table with exactly `max`
/// entries, in whatever order the tasks ran.
pub proof fn lemma_concurrent_fill(max: usize, start: Map<usize, usize>)
    requires
        start == empty_map(),
    ensures
        start.union_prefer_right(ident_map(max)) == ident_map(max),
        ident_map(max).dom().finite(),
        ident_map(max).dom().len() == max,
{
    assert(start.union_prefer_right(ident_map(max)) =~= ident_map(max));
    lemma_ident_map_len(max);
}

/// Reserving capacity affects only performance, never contents: a list
/// workload run with and without pre-allocation meets the same model, so the
/// two results are equal.
pub proof fn lemma_prealloc_irrelevant_seq(max: usize, plain: Seq<usize>, reserved: Seq<usize>)
    requires
        plain == ident_seq(max) && reserved == ident_seq(max) || plain == rev_seq(max)
            && reserved == rev_seq(max),
    ensures
        plain == reserved,
{
}

/// Reserving capacity affects only performance, never contents: the plain
/// and pre-allocated set workloads end with the same elements.
pub proof fn lemma_prealloc_irrelevant_set(max: usize, plain: Set<usize>, reserved: Set<usize>)
    requires
        plain == ident_set(max),
        reserved == ident_set(max),
    ensures
        plain == reserved,
{
}

/// Reserving capacity affects only performance, never contents: the plain
/// and pre-allocated map workloads end with the same entries.
pub proof fn lemma_prealloc_irrelevant_map(
    max: usize,
    plain: Map<usize, usize>,
    reserved: Map<usize, usize>,
)
    requires
        plain == ident_map(max),
        reserved == ident_map(max),
    ensures
        plain == reserved,
{
}

/// The read-only benchmark observes all `max` pre-populated entries, each
/// key mapped to itself, and does not mutate the table: a table left exactly
/// as it was found still holds all `max` entries.
pub proof fn lemma_read_only_observation(max: usize, before: Map<usize, usize>, after: Map<
    usize,
    usize,
>)
    requires
        before == ident_map(max),
        after == before,
    ensures
        after.dom().finite(),
        after.dom().len() == max,
        forall|k: usize| k < max ==> #[trigger] after.dom().contains(k) && after[k] == k,
{
    lemma_ident_map_len(max);
}

/// The coarse-locked and the sharded concurrent insert workloads are
/// behaviourally equivalent: for one `max`, both end as the identity table,
/// with the same `max` entries.
pub proof fn lemma_locking_strategies_agree(
    max: usize,
    coarse: Map<usize, usize>,
    sharded: Map<usize, usize>,
)
    requires
        coarse == ident_map(max),
        sharded == ident_map(max),
    ensures
        coarse == sharded,
        coarse.dom().finite(),
        coarse.dom().len() == max,
        sharded.dom().len() == max,
{
    lemma_ident_map_len(max);
}

} // verus!
