//! Primary and backup operator selection.

use vstd::prelude::*;

use crate::random::{
    choose_multiple, choose_one, drawn_with_replacement, drawn_without_replacement, is_permutation,
    permuted, picked_at, shuffle,
};

verus! {

/// Why a selection could not be made.
#[derive(Clone, Copy, Debug, PartialEq, Eq, Structural)]
pub enum SampleError {
    /// The enabled pool holds no operator.
    EmptyPool,
}

/// What a primary selection of `k` picks from `pool` is: `k` items, distinct
/// positions of `pool` when it is large enough, else any of its items.
pub open spec fn primary_pick(r: Seq<String>, pool: Seq<String>, k: int) -> bool {
    &&& r.len() == k
    &&& if k <= pool.len() {
        drawn_without_replacement(r, pool)
    } else {
        drawn_with_replacement(r, pool)
    }
}

/// No two items of `s` have the same text.
pub open spec fn distinct_names(s: Seq<String>) -> bool {
    forall|i: int, j: int| 0 <= i < s.len() && 0 <= j < s.len() && i != j ==> s[i]@ != s[j]@
}

/// Some item of `s` has the text of `x`.
pub open spec fn has_name(s: Seq<String>, x: String) -> bool {
    exists|i: int| 0 <= i < s.len() && s[i]@ == x@
}

/// Picks from a pool of distinct names, taken at distinct positions, are
/// distinct names of the pool.
pub proof fn lemma_distinct_picks(r: Seq<String>, pool: Seq<String>)
    requires
        distinct_names(pool),
        drawn_without_replacement(r, pool),
    ensures
        distinct_names(r),
        drawn_with_replacement(r, pool),
{
    let idx = choose|idx: Seq<int>| picked_at(r, pool, idx);
    assert forall|i: int, j: int| 0 <= i < r.len() && 0 <= j < r.len() && i != j implies r[i]@
        != r[j]@ by {
        assert(idx[i] != idx[j]);
        assert(r[i] == pool[idx[i]]);
        assert(r[j] == pool[idx[j]]);
    }
    assert forall|i: int| 0 <= i < r.len() implies pool.contains(#[trigger] r[i]) by {
        assert(r[i] == pool[idx[i]]);
    }
}

/// Selects `k` operators from `pool`: distinct ones when the pool holds at
/// least `k`, else `k` independent draws that may repeat.
pub fn sample_or_choices(pool: &[String], k: usize, rng: &mut rand::rngs::StdRng) -> (r: Result<
    Vec<String>,
    SampleError,
>)
    ensures
        r is Err <==> pool@.len() == 0,
        r matches Ok(s) ==> primary_pick(s@, pool@, k as int),
        r matches Ok(s) ==> s@.len() == k,
        r matches Ok(s) ==> drawn_with_replacement(s@, pool@),
        r matches Ok(s) ==> (k <= pool@.len() && distinct_names(pool@) ==> distinct_names(s@)),
{
    if pool.len() == 0 {
        return Err(SampleError::EmptyPool);
    }
    if pool.len() >= k {
        let s = choose_multiple(pool, rng, k);
        proof {
            let idx = choose|idx: Seq<int>| picked_at(s@, pool@, idx);
            assert forall|i: int| 0 <= i < s@.len() implies pool@.contains(#[trigger] s@[i]) by {
                assert(s@[i] == pool@[idx[i]]);
            }
            if distinct_names(pool@) {
                lemma_distinct_picks(s@, pool@);
            }
        }
        Ok(s)
    } else {
        let mut s: Vec<String> = Vec::new();
        let mut i: usize = 0;
        while i < k
            invariant
                i <= k,
                s@.len() == i,
                pool@.len() > 0,
                drawn_with_replacement(s@, pool@),
            decreases k - i,
        {
            let x = choose_one(pool, rng).unwrap();
            s.push(x);
            i = i + 1;
        }
        Ok(s)
    }
}

/// A selection is not fixed by its inputs: from a pool with two distinct
/// names, two different one-round selections both meet the contract of a
/// primary selection, so repeated calls may differ.
pub proof fn lemma_selections_may_differ(pool: Seq<String>)
    requires
        pool.len() >= 2,
        distinct_names(pool),
    ensures
        exists|r1: Seq<String>, r2: Seq<String>|
            primary_pick(r1, pool, 1) && primary_pick(r2, pool, 1) && r1 != r2,
{
    let r1 = seq![pool[0]];
    let r2 = seq![pool[1]];
    assert(picked_at(r1, pool, seq![0int]));
    assert(picked_at(r2, pool, seq![1int]));
    assert(r1[0]@ != r2[0]@);
    assert(primary_pick(r1, pool, 1) && primary_pick(r2, pool, 1) && r1 != r2);
}

/// The items of `pool`, in order, whose text no item of `excluded` has.
pub open spec fn without_names(excluded: Seq<String>, pool: Seq<String>) -> Seq<String>
    decreases pool.len(),
{
    if pool.len() == 0 {
        Seq::empty()
    } else {
        let rest = without_names(excluded, pool.drop_last());
        if has_name(excluded, pool.last()) {
            rest
        } else {
            rest.push(pool.last())
        }
    }
}

/// `r` holds every item of `avail` once and pads the rest with items of
/// `primary`, in the order the permutation `p` of its positions gives.
pub open spec fn padded_with(r: Seq<String>, avail: Seq<String>, primary: Seq<String>, p: Seq<
    int,
>) -> bool {
    &&& is_permutation(p, r.len() as int)
    &&& forall|i: int|
        0 <= i < r.len() ==> {
            &&& #[trigger] p[i] < avail.len() ==> r[i] == avail[p[i]]
            &&& p[i] >= avail.len() ==> primary.contains(r[i])
        }
}

/// What a backup selection of `k` picks is: `k` items at distinct positions
/// of the available operators when there are at least `k` of them; else all
/// of them, padded with primary picks, in a random order.
pub open spec fn backup_pick(r: Seq<String>, primary: Seq<String>, pool: Seq<String>, k: int) -> bool {
    let avail = without_names(primary, pool);
    &&& r.len() == k
    &&& if k <= avail.len() {
        drawn_without_replacement(r, avail)
    } else {
        exists|p: Seq<int>| padded_with(r, avail, primary, p)
    }
}

/// What is left of a pool is made of its items that the excluded names miss.
pub proof fn lemma_without_names_members(primary: Seq<String>, pool: Seq<String>)
    ensures
        without_names(primary, pool).len() <= pool.len(),
        forall|i: int|
            0 <= i < without_names(primary, pool).len() ==> pool.contains(
                #[trigger] without_names(primary, pool)[i],
            ) && !has_name(primary, without_names(primary, pool)[i]),
    decreases pool.len(),
{
    if pool.len() > 0 {
        lemma_without_names_members(primary, pool.drop_last());
        let rest = without_names(primary, pool.drop_last());
        assert forall|i: int| 0 <= i < rest.len() implies pool.contains(#[trigger] rest[i]) by {
            let j = choose|j: int| 0 <= j < pool.drop_last().len() && pool.drop_last()[j] == rest[i];
            assert(pool[j] == rest[i]);
        }
        assert(pool[pool.len() - 1] == pool.last());
    }
}

/// Excluding no names leaves the pool as it is.
pub proof fn lemma_without_no_names(primary: Seq<String>, pool: Seq<String>)
    requires
        primary.len() == 0,
    ensures
        without_names(primary, pool) == pool,
    decreases pool.len(),
{
    if pool.len() > 0 {
        lemma_without_no_names(primary, pool.drop_last());
        assert(pool.drop_last().push(pool.last()) =~= pool);
    }
}

/// Whether an item of `names` has the text of `x`.
fn holds_name(names: &[String], x: &String) -> (r: bool)
    ensures
        r == has_name(names@, *x),
{
    let mut i: usize = 0;
    while i < names.len()
        invariant
            i <= names@.len(),
            forall|j: int| 0 <= j < i ==> names@[j]@ != x@,
        decreases names@.len() - i,
    {
        if names[i] == *x {
            return true;
        }
        i = i + 1;
    }
    false
}

/// The operators of `pool`, in order, that `excluded` does not name.
pub fn remove_named(excluded: &[String], pool: &[String]) -> (r: Vec<String>)
    ensures
        r@ == without_names(excluded@, pool@),
{
    let mut out: Vec<String> = Vec::new();
    let mut i: usize = 0;
    while i < pool.len()
        invariant
            i <= pool@.len(),
            out@ == without_names(excluded@, pool@.subrange(0, i as int)),
        decreases pool@.len() - i,
    {
        let ghost before = pool@.subrange(0, i as int);
        assert(pool@.subrange(0, i + 1).drop_last() =~= before);
        assert(pool@.subrange(0, i + 1).last() == pool@[i as int]);
        if !holds_name(excluded, &pool[i]) {
            out.push(pool[i].clone());
        }
        i = i + 1;
    }
    assert(pool@.subrange(0, pool@.len() as int) =~= pool@);
    out
}

/// Selects `k` backup operators from `pool`, avoiding the operators of
/// `main_selection` where the pool leaves enough others; where it does not,
/// every other operator is taken and the rest is drawn, with replacement,
/// from `main_selection`. The result comes in a random order.
pub fn generate_backups(
    main_selection: &[String],
    pool: &[String],
    k: usize,
    rng: &mut rand::rngs::StdRng,
) -> (r: Result<Vec<String>, SampleError>)
    requires
        main_selection@.len() > 0 || k <= pool@.len() || pool@.len() == 0,
    ensures
        r is Err <==> pool@.len() == 0,
        r matches Ok(s) ==> backup_pick(s@, main_selection@, pool@, k as int),
        r matches Ok(s) ==> s@.len() == k,
        r matches Ok(s) ==> (k <= without_names(main_selection@, pool@).len() ==> forall|i: int|
            0 <= i < k ==> pool@.contains(#[trigger] s@[i]) && !has_name(main_selection@, s@[i])),
{
    if pool.len() == 0 {
        return Err(SampleError::EmptyPool);
    }
    let avail = remove_named(main_selection, pool);
    proof {
        lemma_without_names_members(main_selection@, pool@);
    }
    if avail.len() >= k {
        let mut backups = choose_multiple(avail.as_slice(), rng, k);
        let ghost drawn = backups@;
        shuffle(&mut backups, rng);
        proof {
            let idx = choose|idx: Seq<int>| picked_at(drawn, avail@, idx);
            let p = choose|p: Seq<int>| permuted(backups@, drawn, p);
            let composed = Seq::new(k as nat, |i: int| idx[p[i]]);
            assert forall|i: int, j: int|
                0 <= i < composed.len() && 0 <= j < composed.len() && i != j implies composed[i]
                != composed[j] by {
                assert(p[i] != p[j]);
            }
            assert forall|i: int| 0 <= i < backups@.len() implies backups@[i] == avail@[
                #[trigger] composed[i]] by {
                assert(backups@[i] == drawn[p[i]]);
            }
            assert(picked_at(backups@, avail@, composed));
            assert forall|i: int| 0 <= i < k implies pool@.contains(#[trigger] backups@[i])
                && !has_name(main_selection@, backups@[i]) by {
                assert(backups@[i] == avail@[composed[i]]);
            }
        }
        Ok(backups)
    } else {
        proof {
            if main_selection@.len() == 0 {
                lemma_without_no_names(main_selection@, pool@);
            }
        }
        let ghost a = avail@.len();
        let mut backups = avail;
        while backups.len() < k
            invariant
                a <= backups@.len() <= k,
                main_selection@.len() > 0,
                backups@.subrange(0, a as int) == without_names(main_selection@, pool@),
                forall|j: int| a <= j < backups@.len() ==> main_selection@.contains(#[trigger] backups@[j]),
            decreases k - backups@.len(),
        {
            let x = choose_one(main_selection, rng).unwrap();
            let ghost prev = backups@;
            backups.push(x);
            assert(backups@.subrange(0, a as int) =~= prev.subrange(0, a as int));
        }
        let ghost filled = backups@;
        shuffle(&mut backups, rng);
        proof {
            let p = choose|p: Seq<int>| permuted(backups@, filled, p);
            let avail_s = without_names(main_selection@, pool@);
            assert forall|i: int| 0 <= i < backups@.len() implies {
                &&& #[trigger] p[i] < avail_s.len() ==> backups@[i] == avail_s[p[i]]
                &&& p[i] >= avail_s.len() ==> main_selection@.contains(backups@[i])
            } by {
                assert(backups@[i] == filled[p[i]]);
                if p[i] < a {
                    assert(filled.subrange(0, a as int)[p[i]] == filled[p[i]]);
                }
            }
            assert(padded_with(backups@, avail_s, main_selection@, p));
        }
        Ok(backups)
    }
}

} // verus!
