//! The randomness source and the few draws the sampler makes with it.

use rand::seq::SliceRandom;
use vstd::prelude::*;


verus! {

#[verifier::external_type_specification]
#[verifier::external_body]
pub struct ExStdRng(rand::rngs::StdRng);

/// `idx` holds pairwise distinct positions of a sequence of length `n`.
pub open spec fn distinct_positions(idx: Seq<int>, n: int) -> bool {
    &&& idx.no_duplicates()
    &&& forall|i: int| 0 <= i < idx.len() ==> 0 <= #[trigger] idx[i] < n
}

/// `p` is a permutation of the positions `0..n`.
pub open spec fn is_permutation(p: Seq<int>, n: int) -> bool {
    p.len() == n && distinct_positions(p, n)
}

/// `r` is made of the items of `pool` found at the distinct positions `idx`.
pub open spec fn picked_at(r: Seq<String>, pool: Seq<String>, idx: Seq<int>) -> bool {
    &&& idx.len() == r.len()
    &&& distinct_positions(idx, pool.len() as int)
    &&& forall|i: int| 0 <= i < r.len() ==> r[i] == pool[#[trigger] idx[i]]
}

/// `r` was drawn from `pool` without replacement: no position of `pool` is
/// used twice.
pub open spec fn drawn_without_replacement(r: Seq<String>, pool: Seq<String>) -> bool {
    exists|idx: Seq<int>| picked_at(r, pool, idx)
}

/// `r` was drawn from `pool` with replacement: each item is one of `pool`'s.
pub open spec fn drawn_with_replacement(r: Seq<String>, pool: Seq<String>) -> bool {
    forall|i: int| 0 <= i < r.len() ==> pool.contains(#[trigger] r[i])
}

/// `r` holds the items of `v`, each position once, in the order `p` gives.
pub open spec fn permuted(r: Seq<String>, v: Seq<String>, p: Seq<int>) -> bool {
    &&& r.len() == v.len()
    &&& is_permutation(p, v.len() as int)
    &&& forall|i: int| 0 <= i < r.len() ==> r[i] == v[#[trigger] p[i]]
}

/// Relies on rand's `SliceRandom::choose_multiple`: it samples
/// `min(amount, len)` distinct indices of the slice and yields the items there.
#[verifier::external_body]
pub(crate) fn choose_multiple(pool: &[String], rng: &mut rand::rngs::StdRng, amount: usize) -> (r: Vec<String>)
    ensures
        r@.len() == if amount <= pool@.len() { amount as int } else { pool@.len() as int },
        drawn_without_replacement(r@, pool@),
{
    pool.choose_multiple(rng, amount).cloned().collect()
}

/// Relies on rand's `SliceRandom::choose`: `None` for an empty slice, else
/// the item at one index of it.
#[verifier::external_body]
pub(crate) fn choose_one(pool: &[String], rng: &mut rand::rngs::StdRng) -> (r: Option<String>)
    ensures
        r is None <==> pool@.len() == 0,
        r matches Some(x) ==> pool@.contains(x),
{
    pool.choose(rng).cloned()
}

/// Relies on rand's `SliceRandom::shuffle`: a run of swaps, so the items end
/// up in some permutation of their positions.
#[verifier::external_body]
pub(crate) fn shuffle(v: &mut Vec<String>, rng: &mut rand::rngs::StdRng)
    ensures
        exists|p: Seq<int>| permuted(final(v)@, old(v)@, p),
{
    v.shuffle(rng)
}

} // verus!
