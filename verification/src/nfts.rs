//! Asset-list bookkeeping: the host engine hands decks over as (asset,
//! count) pairs, while the session and the scripting runtime hold flat
//! lists with one entry per copy. This module converts between the two
//! shapes.

use vstd::prelude::*;

verus! {

/// `n` copies of the same asset identifier.
pub open spec fn repeat_name(name: String, n: nat) -> Seq<String> {
    Seq::new(n, |i: int| name)
}

/// The flat list described by (asset, count) pairs: each asset repeated
/// its count times, pairs in order.
pub open spec fn expand_counts(s: Seq<(String, u64)>) -> Seq<String>
    decreases s.len(),
{
    if s.len() == 0 {
        Seq::<String>::empty()
    } else {
        expand_counts(s.drop_last()) + repeat_name(s.last().0, s.last().1 as nat)
    }
}

/// How many entries of `s` spell `name`.
pub open spec fn count_of(s: Seq<String>, name: Seq<char>) -> nat
    decreases s.len(),
{
    if s.len() == 0 {
        0
    } else {
        count_of(s.drop_last(), name) + if s.last()@ == name {
            1nat
        } else {
            0nat
        }
    }
}

/// Flatten (asset, count) pairs into one entry per copy, in pair order.
pub fn expand_nft_counts(v: &Vec<(String, u64)>) -> (r: Vec<String>)
    ensures
        r@ == expand_counts(v@),
{
    let mut out: Vec<String> = Vec::new();
    let mut i: usize = 0;
    while i < v.len()
        invariant
            i <= v@.len(),
            out@ == expand_counts(v@.take(i as int)),
        decreases v@.len() - i,
    {
        let count = v[i].1;
        let mut k: u64 = 0;
        while k < count
            invariant
                k <= count,
                i < v@.len(),
                count == v@[i as int].1,
                out@ == expand_counts(v@.take(i as int)) + repeat_name(v@[i as int].0, k as nat),
            decreases count - k,
        {
            let name = v[i].0.clone();
            out.push(name);
            proof {
                assert(repeat_name(v@[i as int].0, (k + 1) as nat) =~= repeat_name(
                    v@[i as int].0,
                    k as nat,
                ).push(v@[i as int].0));
                assert(out@ =~= expand_counts(v@.take(i as int)) + repeat_name(
                    v@[i as int].0,
                    (k + 1) as nat,
                ));
            }
            k = k + 1;
        }
        proof {
            assert(v@.take(i + 1).drop_last() =~= v@.take(i as int));
            assert(v@.take(i + 1).last() == v@[i as int]);
        }
        i = i + 1;
    }
    proof {
        assert(v@.take(v@.len() as int) =~= v@);
    }
    out
}

/// Count how many entries of `list` spell `name`.
pub fn count_matches(list: &Vec<String>, name: &String) -> (c: u64)
    ensures
        c == count_of(list@, name@),
{
    let mut c: u64 = 0;
    let mut j: usize = 0;
    while j < list.len()
        invariant
            j <= list@.len(),
            c <= j,
            c == count_of(list@.take(j as int), name@),
        decreases list@.len() - j,
    {
        proof {
            assert(list@.take(j + 1).drop_last() =~= list@.take(j as int));
            assert(list@.take(j + 1).last() == list@[j as int]);
        }
        if list[j] == *name {
            c = c + 1;
        }
        j = j + 1;
    }
    proof {
        assert(list@.take(list@.len() as int) =~= list@);
    }
    c
}

/// Every asset among the first `upto` entries of `list` is represented by
/// some pair of `r`.
pub open spec fn histogram_covers(r: Seq<(String, u64)>, list: Seq<String>, upto: int) -> bool {
    forall|m: int|
        #![trigger list[m]]
        0 <= m < upto ==> exists|e: int| 0 <= e < r.len() && #[trigger] r[e].0@ == list[m]@
}

/// Gather a flat asset list back into (asset, count) pairs: one pair per
/// distinct asset, each with its exact number of copies, every asset of
/// the list represented, no asset twice.
#[verifier::rlimit(50)]
pub fn nft_counts(list: &Vec<String>) -> (r: Vec<(String, u64)>)
    ensures
        forall|e: int| 0 <= e < r@.len() ==> #[trigger] r@[e].1 == count_of(list@, r@[e].0@),
        forall|e1: int, e2: int| 0 <= e1 < e2 < r@.len() ==> r@[e1].0@ != r@[e2].0@,
        histogram_covers(r@, list@, list@.len() as int),
{
    let mut out: Vec<(String, u64)> = Vec::new();
    let mut i: usize = 0;
    while i < list.len()
        invariant
            i <= list@.len(),
            forall|e: int|
                0 <= e < out@.len() ==> #[trigger] out@[e].1 == count_of(list@, out@[e].0@),
            forall|e1: int, e2: int| 0 <= e1 < e2 < out@.len() ==> out@[e1].0@ != out@[e2].0@,
            histogram_covers(out@, list@, i as int),
        decreases list@.len() - i,
    {
        let mut found = false;
        let mut j: usize = 0;
        while j < out.len()
            invariant
                i < list@.len(),
                j <= out@.len(),
                found ==> exists|e: int|
                    0 <= e < out@.len() && #[trigger] out@[e].0@ == list@[i as int]@,
                !found ==> forall|e: int| 0 <= e < j ==> out@[e].0@ != list@[i as int]@,
            decreases out@.len() - j,
        {
            if out[j].0 == list[i] {
                found = true;
                proof {
                    assert(out@[j as int].0@ == list@[i as int]@);
                }
            }
            j = j + 1;
        }
        let ghost before = out@;
        if !found {
            let name = list[i].clone();
            let c = count_matches(list, &name);
            out.push((name, c));
            proof {
                assert(out@.last().0@ == list@[i as int]@);
                assert(forall|e: int| 0 <= e < before.len() ==> out@[e] == #[trigger] before[e]);
            }
        }
        proof {
            assert forall|m: int| #![trigger list@[m]] 0 <= m < i + 1 implies exists|e: int|
                0 <= e < out@.len() && #[trigger] out@[e].0@ == list@[m]@ by {
                if m < i {
                    let e = choose|e: int| 0 <= e < before.len() && #[trigger] before[e].0@
                        == list@[m]@;
                    assert(out@[e].0@ == list@[m]@);
                } else {
                    if found {
                        let e = choose|e: int| 0 <= e < before.len() && #[trigger] before[e].0@
                            == list@[i as int]@;
                        assert(out@[e].0@ == list@[m]@);
                    } else {
                        assert(out@[out@.len() - 1].0@ == list@[m]@);
                    }
                }
            }
            assert(histogram_covers(out@, list@, i + 1));
        }
        i = i + 1;
    }
    out
}

/// A deep copy of a flat asset list.
pub fn clone_names(v: &Vec<String>) -> (r: Vec<String>)
    ensures
        r@ == v@,
{
    let mut out: Vec<String> = Vec::new();
    let mut i: usize = 0;
    while i < v.len()
        invariant
            i <= v@.len(),
            out@ == v@.take(i as int),
        decreases v@.len() - i,
    {
        let name = v[i].clone();
        out.push(name);
        proof {
            assert(out@ =~= v@.take(i + 1));
        }
        i = i + 1;
    }
    proof {
        assert(v@.take(v@.len() as int) =~= v@);
    }
    out
}

/// A deep copy of an (asset, count) list, used when the same pairs are
/// both cached and sent outward.
pub fn clone_nft_counts(v: &Vec<(String, u64)>) -> (r: Vec<(String, u64)>)
    ensures
        r@ == v@,
{
    let mut out: Vec<(String, u64)> = Vec::new();
    let mut i: usize = 0;
    while i < v.len()
        invariant
            i <= v@.len(),
            out@ == v@.take(i as int),
        decreases v@.len() - i,
    {
        let name = v[i].0.clone();
        let count = v[i].1;
        out.push((name, count));
        proof {
            assert(out@ =~= v@.take(i + 1));
        }
        i = i + 1;
    }
    proof {
        assert(v@.take(v@.len() as int) =~= v@);
    }
    out
}

} // verus!
