//! Stable descending ranking of scored candidates.
//!
//! Every engine scores candidates and ranks them highest-first, with ties
//! keeping discovery order. A candidate is a `(score, index)` pair; the
//! ranking is insertion sort, inserting after equal scores, so the order is
//! exactly pinned down by `spec_sort_desc`.

use vstd::prelude::*;
use vstd::multiset::Multiset;
use vstd::seq_lib::{group_seq_properties, group_to_multiset_ensures};

verus! {

/// A scored candidate: the score in thousandths, and the index of the
/// candidate in its discovery order.
pub type Scored = (u64, usize);

/// Insert `x` into a descending list, after any entry with an equal or
/// greater score.
pub open spec fn spec_insert_desc(s: Seq<Scored>, x: Scored) -> Seq<Scored>
    decreases s.len(),
{
    if s.len() == 0 {
        seq![x]
    } else if s[0].0 >= x.0 {
        seq![s[0]] + spec_insert_desc(s.drop_first(), x)
    } else {
        seq![x] + s
    }
}

/// The stable descending order of a list of scored candidates: scores
/// highest first, ties in their original order.
pub open spec fn spec_sort_desc(s: Seq<Scored>) -> Seq<Scored>
    decreases s.len(),
{
    if s.len() == 0 {
        Seq::empty()
    } else {
        spec_insert_desc(spec_sort_desc(s.drop_last()), s.last())
    }
}

/// Descending by score.
pub open spec fn spec_sorted_desc(s: Seq<Scored>) -> bool {
    forall|i: int, j: int| 0 <= i < j < s.len() ==> (#[trigger] s[i]).0 >= (#[trigger] s[j]).0
}

/// Inserting splits the list at the first entry with a smaller score.
proof fn lemma_insert_desc_at(s: Seq<Scored>, x: Scored, pos: int)
    requires
        0 <= pos <= s.len(),
        forall|i: int| 0 <= i < pos ==> (#[trigger] s[i]).0 >= x.0,
        pos < s.len() ==> s[pos].0 < x.0,
    ensures
        spec_insert_desc(s, x) == s.subrange(0, pos) + seq![x] + s.subrange(pos, s.len() as int),
    decreases s.len(),
{
    if s.len() == 0 {
        assert(spec_insert_desc(s, x) =~= s.subrange(0, pos) + seq![x]
            + s.subrange(pos, s.len() as int));
    } else if s[0].0 >= x.0 {
        lemma_insert_desc_at(s.drop_first(), x, pos - 1);
        assert(spec_insert_desc(s, x) =~= s.subrange(0, pos) + seq![x]
            + s.subrange(pos, s.len() as int));
    } else {
        assert(pos == 0);
        assert(spec_insert_desc(s, x) =~= s.subrange(0, pos) + seq![x]
            + s.subrange(pos, s.len() as int));
    }
}

/// Insertion keeps the list descending.
proof fn lemma_insert_desc_sorted(s: Seq<Scored>, x: Scored)
    requires
        spec_sorted_desc(s),
    ensures
        spec_sorted_desc(spec_insert_desc(s, x)),
        spec_insert_desc(s, x).len() == s.len() + 1,
    decreases s.len(),
{
    if s.len() == 0 {
    } else if s[0].0 >= x.0 {
        assert(spec_sorted_desc(s.drop_first()));
        lemma_insert_desc_sorted(s.drop_first(), x);
        let r = spec_insert_desc(s, x);
        let tail = spec_insert_desc(s.drop_first(), x);
        assert forall|i: int, j: int| 0 <= i < j < r.len() implies (#[trigger] r[i]).0
            >= (#[trigger] r[j]).0 by {
            if i == 0 {
                assert(r[j] == tail[j - 1]);
                lemma_insert_desc_head_bound(s.drop_first(), x, j - 1, s[0].0);
            } else {
                assert(r[i] == tail[i - 1] && r[j] == tail[j - 1]);
            }
        }
    } else {
    }
}

/// Every entry of an insertion result is bounded by any bound on both the
/// list's entries and the inserted one.
proof fn lemma_insert_desc_head_bound(s: Seq<Scored>, x: Scored, k: int, bound: u64)
    requires
        0 <= k < spec_insert_desc(s, x).len(),
        forall|i: int| 0 <= i < s.len() ==> (#[trigger] s[i]).0 <= bound,
        x.0 <= bound,
    ensures
        spec_insert_desc(s, x)[k].0 <= bound,
    decreases s.len(),
{
    if s.len() == 0 {
    } else if s[0].0 >= x.0 {
        if k > 0 {
            assert(forall|i: int| 0 <= i < s.drop_first().len()
                ==> (#[trigger] s.drop_first()[i]).0 <= bound);
            lemma_insert_desc_head_bound(s.drop_first(), x, k - 1, bound);
        }
    } else {
        if k > 0 {
            assert(spec_insert_desc(s, x)[k] == s[k - 1]);
        }
    }
}

/// Insertion adds exactly the inserted entry.
proof fn lemma_insert_desc_multiset(s: Seq<Scored>, x: Scored)
    ensures
        spec_insert_desc(s, x).to_multiset() == s.to_multiset().insert(x),
    decreases s.len(),
{
    broadcast use group_seq_properties, group_to_multiset_ensures;
    broadcast use vstd::multiset::group_multiset_axioms;

    if s.len() == 0 {
        assert(seq![x] =~= Seq::<Scored>::empty().push(x));
        assert(seq![x].to_multiset() =~= s.to_multiset().insert(x));
    } else if s[0].0 >= x.0 {
        lemma_insert_desc_multiset(s.drop_first(), x);
        let r = spec_insert_desc(s, x);
        let tail = spec_insert_desc(s.drop_first(), x);
        assert(seq![s[0]] =~= Seq::<Scored>::empty().push(s[0]));
        assert(seq![s[0]].to_multiset() =~= Multiset::<Scored>::empty().insert(s[0]));
        vstd::seq_lib::lemma_multiset_commutative(seq![s[0]], tail);
        vstd::seq_lib::lemma_multiset_commutative(seq![s[0]], s.drop_first());
        assert(s =~= seq![s[0]] + s.drop_first());
        assert(r.to_multiset() =~= s.to_multiset().insert(x));
    } else {
        let r = spec_insert_desc(s, x);
        assert(seq![x] =~= Seq::<Scored>::empty().push(x));
        assert(seq![x].to_multiset() =~= Multiset::<Scored>::empty().insert(x));
        vstd::seq_lib::lemma_multiset_commutative(seq![x], s);
        assert(r.to_multiset() =~= s.to_multiset().insert(x));
    }
}

/// The ranking is descending.
pub proof fn lemma_sort_desc_sorted(s: Seq<Scored>)
    ensures
        spec_sorted_desc(spec_sort_desc(s)),
        spec_sort_desc(s).len() == s.len(),
    decreases s.len(),
{
    if s.len() > 0 {
        lemma_sort_desc_sorted(s.drop_last());
        lemma_insert_desc_sorted(spec_sort_desc(s.drop_last()), s.last());
    }
}

/// The ranking is a permutation: it holds exactly the entries it was given.
pub proof fn lemma_sort_desc_multiset(s: Seq<Scored>)
    ensures
        spec_sort_desc(s).to_multiset() == s.to_multiset(),
    decreases s.len(),
{
    broadcast use group_seq_properties, group_to_multiset_ensures;

    if s.len() > 0 {
        lemma_sort_desc_multiset(s.drop_last());
        lemma_insert_desc_multiset(spec_sort_desc(s.drop_last()), s.last());
        assert(s =~= s.drop_last().push(s.last()));
    }
}

/// Every entry of the ranking occurs in the input.
pub proof fn lemma_sort_desc_contains(s: Seq<Scored>, k: int)
    requires
        0 <= k < spec_sort_desc(s).len(),
    ensures
        s.contains(spec_sort_desc(s)[k]),
{
    broadcast use group_seq_properties, group_to_multiset_ensures;

    lemma_sort_desc_multiset(s);
    let x = spec_sort_desc(s)[k];
    assert(spec_sort_desc(s).contains(x));
    assert(spec_sort_desc(s).to_multiset().contains(x));
    assert(s.to_multiset().contains(x));
}

/// Rank scored candidates highest-first, ties keeping their discovery
/// order.
pub fn sort_pairs_desc(pairs: &Vec<Scored>) -> (r: Vec<Scored>)
    ensures
        r@ == spec_sort_desc(pairs@),
        spec_sorted_desc(r@),
        r@.len() == pairs@.len(),
{
    let mut r: Vec<Scored> = Vec::new();
    let mut i: usize = 0;
    while i < pairs.len()
        invariant
            i <= pairs@.len(),
            r@ == spec_sort_desc(pairs@.take(i as int)),
            spec_sorted_desc(r@),
            r@.len() == i,
        decreases pairs@.len() - i,
    {
        let x = pairs[i];
        let mut pos: usize = 0;
        while pos < r.len() && r[pos].0 >= x.0
            invariant
                pos <= r@.len(),
                forall|j: int| 0 <= j < pos ==> (#[trigger] r@[j]).0 >= x.0,
            decreases r@.len() - pos,
        {
            pos = pos + 1;
        }
        proof {
            lemma_insert_desc_at(r@, x, pos as int);
            lemma_insert_desc_sorted(r@, x);
            assert(pairs@.take(i + 1).drop_last() =~= pairs@.take(i as int));
            assert(pairs@.take(i + 1).last() == pairs@[i as int]);
        }
        r.insert(pos, x);
        proof {
            assert(r@ =~= spec_inserted_at(spec_sort_desc(pairs@.take(i as int)), x,
                pos as int));
        }
        i = i + 1;
    }
    proof {
        assert(pairs@.take(pairs@.len() as int) =~= pairs@);
        lemma_sort_desc_sorted(pairs@);
    }
    r
}

/// Multiply a fixed-point score by a factor in thousandths.
pub fn mul_milli(a: u64, f: u64) -> (r: u64)
    requires
        a <= 0x2000_0000_0000,
        f <= 10000,
    ensures
        r == a * f / 1000,
        r <= a * 10,
        f <= 4000 ==> r <= 4 * a,
        f <= 1000 ==> r <= a,
{
    proof {
        assert(a * f <= 0x2000_0000_0000 * 10000 && a * f / 1000 <= a * 10 && (f <= 4000
            ==> a * f / 1000 <= 4 * a) && (f <= 1000 ==> a * f / 1000 <= a))
            by (nonlinear_arith)
            requires a <= 0x2000_0000_0000, f <= 10000;
    }
    a * f / 1000
}

/// The shape an in-place insertion at `pos` produces.
pub open spec fn spec_inserted_at(s: Seq<Scored>, x: Scored, pos: int) -> Seq<Scored> {
    s.subrange(0, pos) + seq![x] + s.subrange(pos, s.len() as int)
}

} // verus!
