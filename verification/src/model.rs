//! Mathematical models of what each workload leaves behind.
//!
//! Every workload inserts the keys `0..max`, each mapped to itself where a
//! value is involved, so the final contents of every container are fixed by
//! `max` alone. These spec functions name those contents once, and the
//! builders' contracts all speak in terms of them.

use vstd::prelude::*;

verus! {

/// The sequence `0, 1, ..., max - 1`: what appending the keys in order
/// leaves in a list.
pub open spec fn ident_seq(max: usize) -> Seq<usize> {
    Seq::new(max as nat, |i: int| i as usize)
}

/// The sequence `max - 1, ..., 1, 0`: what pushing the keys in order onto
/// the front of a queue leaves behind.
pub open spec fn rev_seq(max: usize) -> Seq<usize> {
    Seq::new(max as nat, |i: int| (max - 1 - i) as usize)
}

/// The set `{0, 1, ..., max - 1}`.
pub open spec fn ident_set(max: usize) -> Set<usize> {
    Set::new(|k: usize| k < max)
}

/// The empty table: what every map workload starts from.
pub open spec fn empty_map() -> Map<usize, usize> {
    Map::<usize, usize>::empty()
}

/// The table mapping every key in `0..max` to itself.
pub open spec fn ident_map(max: usize) -> Map<usize, usize> {
    Map::new(|k: usize| k < max, |k: usize| k)
}

/// The key set `{0, ..., max - 1}` is finite and holds exactly `max` keys.
pub proof fn lemma_ident_set_len(max: usize)
    ensures
        ident_set(max).finite(),
        ident_set(max).len() == max,
    decreases max,
{
    if max == 0 {
        assert(ident_set(0) =~= Set::<usize>::empty());
    } else {
        let prev = (max - 1) as usize;
        lemma_ident_set_len(prev);
        assert(ident_set(max) =~= ident_set(prev).insert(prev));
    }
}

/// The identity table over `0..max` has a finite domain of exactly `max`
/// keys.
pub proof fn lemma_ident_map_len(max: usize)
    ensures
        ident_map(max).dom().finite(),
        ident_map(max).dom().len() == max,
{
    assert(ident_map(max).dom() =~= ident_set(max));
    lemma_ident_set_len(max);
}

} // verus!
