//! Sorting of numbers and of names.

use crate::text::{not_after, text_le, text_order_is_total};
use vstd::prelude::*;

verus! {

/// Whether no element is above one that follows it.
pub open spec fn ascending(s: Seq<u64>) -> bool {
    forall|i: int, j: int| 0 <= i < j < s.len() ==> s[i] <= s[j]
}

/// Whether `r` holds what `s` holds, in ascending order.
pub open spec fn sorted_from(r: Seq<u64>, s: Seq<u64>) -> bool {
    &&& ascending(r)
    &&& r.to_multiset() =~= s.to_multiset()
}

/// A multiset has one ascending arrangement.
pub proof fn sorting_is_unique(a: Seq<u64>, b: Seq<u64>)
    requires
        ascending(a),
        ascending(b),
        a.to_multiset() == b.to_multiset(),
    ensures
        a == b,
{
    vstd::seq_lib::lemma_sorted_unique(a, b, |x: u64, y: u64| x <= y);
}

proof fn lemma_same_len(a: Seq<u64>, b: Seq<u64>)
    requires
        a.to_multiset() =~= b.to_multiset(),
    ensures
        a.len() == b.len(),
{
    broadcast use vstd::seq_lib::group_to_multiset_ensures;

    assert(a.len() == a.to_multiset().len());
    assert(b.len() == b.to_multiset().len());
}

/// Every element of a sorted sequence is one of the original, and the other way round.
pub proof fn sorting_keeps_elements(r: Seq<u64>, s: Seq<u64>, x: u64)
    requires
        sorted_from(r, s),
    ensures
        r.len() == s.len(),
        r.contains(x) == s.contains(x),
{
    broadcast use vstd::seq_lib::group_to_multiset_ensures;

    lemma_same_len(r, s);
    assert(r.contains(x) <==> r.to_multiset().count(x) > 0);
    assert(s.contains(x) <==> s.to_multiset().count(x) > 0);
}

fn merge(a: &Vec<u64>, b: &Vec<u64>) -> (r: Vec<u64>)
    requires
        ascending(a@),
        ascending(b@),
        a.len() + b.len() <= usize::MAX,
    ensures
        ascending(r@),
        r@.to_multiset() =~= (a@ + b@).to_multiset(),
{
    broadcast use vstd::seq_lib::group_to_multiset_ensures;

    let mut out: Vec<u64> = Vec::new();
    let mut i: usize = 0;
    let mut j: usize = 0;
    proof {
        vstd::seq_lib::lemma_multiset_commutative(a@, b@);
        vstd::seq_lib::lemma_multiset_commutative(a@.take(0), b@.take(0));
        assert(a@.take(0) + b@.take(0) =~= out@);
    }
    while i < a.len() || j < b.len()
        invariant
            ascending(a@),
            ascending(b@),
            i <= a.len(),
            j <= b.len(),
            ascending(out@),
            forall|k: int, m: int|
                0 <= k < out@.len() && i <= m < a@.len() ==> #[trigger] out@[k] <= #[trigger] a@[m],
            forall|k: int, m: int|
                0 <= k < out@.len() && j <= m < b@.len() ==> #[trigger] out@[k] <= #[trigger] b@[m],
            out@.to_multiset() =~= a@.take(i as int).to_multiset().add(
                b@.take(j as int).to_multiset(),
            ),
        decreases a.len() - i + b.len() - j,
    {
        broadcast use vstd::seq_lib::group_to_multiset_ensures;

        if j == b.len() || (i < a.len() && a[i] <= b[j]) {
            assert(a@.take(i + 1) =~= a@.take(i as int).push(a@[i as int]));
            out.push(a[i]);
            i = i + 1;
        } else {
            assert(b@.take(j + 1) =~= b@.take(j as int).push(b@[j as int]));
            out.push(b[j]);
            j = j + 1;
        }
    }
    assert(a@.take(a@.len() as int) =~= a@);
    assert(b@.take(b@.len() as int) =~= b@);
    out
}

/// `v` in ascending order.
pub fn sort(v: &Vec<u64>) -> (r: Vec<u64>)
    ensures
        sorted_from(r@, v@),
{
    let r: Vec<u64> = sort_range(v, 0, v.len());
    assert(v@.subrange(0, v@.len() as int) =~= v@);
    r
}

fn sort_range(v: &Vec<u64>, from: usize, to: usize) -> (r: Vec<u64>)
    requires
        from <= to <= v.len(),
    ensures
        sorted_from(r@, v@.subrange(from as int, to as int)),
        r@.len() == to - from,
    decreases to - from,
{
    let ghost all = v@.subrange(from as int, to as int);
    if to - from <= 1 {
        let mut out: Vec<u64> = Vec::new();
        if from < to {
            out.push(v[from]);
        }
        assert(out@ =~= all);
        return out;
    }
    let mid: usize = from + (to - from) / 2;
    let left: Vec<u64> = sort_range(v, from, mid);
    let right: Vec<u64> = sort_range(v, mid, to);
    let r: Vec<u64> = merge(&left, &right);
    proof {
        let l = v@.subrange(from as int, mid as int);
        let m = v@.subrange(mid as int, to as int);
        assert(all =~= l + m);
        vstd::seq_lib::lemma_multiset_commutative(l, m);
        vstd::seq_lib::lemma_multiset_commutative(left@, right@);
        lemma_same_len(r@, all);
    }
    r
}

/// The names in `v`, as texts.
pub open spec fn texts(v: Seq<String>) -> Seq<Seq<char>> {
    Seq::new(v.len(), |i: int| v[i]@)
}

/// Whether no name is after one that follows it.
pub open spec fn names_ascending(s: Seq<Seq<char>>) -> bool {
    forall|i: int, j: int| 0 <= i < j < s.len() ==> text_le(#[trigger] s[i], #[trigger] s[j])
}

/// The order of texts is transitive.
pub proof fn text_le_transitive(a: Seq<char>, b: Seq<char>, c: Seq<char>)
    requires
        text_le(a, b),
        text_le(b, c),
    ensures
        text_le(a, c),
    decreases a.len(),
{
    if a.len() > 0 && b.len() > 0 && c.len() > 0 && a[0] == b[0] && b[0] == c[0] {
        text_le_transitive(a.skip(1), b.skip(1), c.skip(1));
    }
}

/// Puts `name` where it belongs among sorted names.
fn insert_name(v: &mut Vec<String>, name: String)
    requires
        names_ascending(texts(old(v)@)),
    ensures
        names_ascending(texts(final(v)@)),
        texts(final(v)@).to_multiset() =~= texts(old(v)@).to_multiset().insert(name@),
{
    broadcast use vstd::seq_lib::group_to_multiset_ensures;

    let mut at: usize = v.len();
    let ghost before = texts(v@);
    while at > 0 && !not_after(v[at - 1].as_str(), name.as_str())
        invariant
            at <= v.len(),
            before == texts(v@),
            names_ascending(before),
            forall|k: int| at <= k < before.len() ==> !text_le(#[trigger] before[k], name@),
        decreases at,
    {
        assert(before[at - 1] == v@[at - 1]@);
        at = at - 1;
    }
    proof {
        assert forall|k: int| 0 <= k < at implies text_le(#[trigger] before[k], name@) by {
            assert(before[at - 1] == v@[at - 1]@);
            if k < at - 1 {
                text_le_transitive(before[k], before[at - 1], name@);
            }
        }
        assert forall|k: int| at <= k < before.len() implies text_le(name@, #[trigger] before[k]) by {
            text_order_is_total(name@, before[k]);
        }
    }
    let ghost own = name@;
    v.insert(at, name);
    proof {
        let after = texts(v@);
        assert(after =~= before.insert(at as int, own));
        assert forall|i: int, j: int| 0 <= i < j < after.len() implies text_le(
            #[trigger] after[i],
            #[trigger] after[j],
        ) by {
            if i < at {
                assert(after[i] == before[i]);
            } else if i > at {
                assert(after[i] == before[i - 1]);
            }
            if j < at {
                assert(after[j] == before[j]);
            } else if j > at {
                assert(after[j] == before[j - 1]);
            }
        }
        vstd::seq_lib::to_multiset_insert(before, at as int, own);
    }
}

/// The names of `v` in order.
pub fn sort_names(v: Vec<String>) -> (r: Vec<String>)
    ensures
        names_ascending(texts(r@)),
        texts(r@).to_multiset() =~= texts(v@).to_multiset(),
        r@.len() == v@.len(),
{
    broadcast use vstd::seq_lib::group_to_multiset_ensures;

    let mut out: Vec<String> = Vec::new();
    assert(texts(out@) =~= texts(v@).take(0));
    for i in 0..v.len()
        invariant
            names_ascending(texts(out@)),
            texts(out@).to_multiset() =~= texts(v@).take(i as int).to_multiset(),
    {
        broadcast use vstd::seq_lib::group_to_multiset_ensures;

        assert(texts(v@).take(i + 1) =~= texts(v@).take(i as int).push(v@[i as int]@));
        insert_name(&mut out, v[i].clone());
    }
    assert(texts(v@).take(v@.len() as int) =~= texts(v@));
    proof {
        assert(texts(out@).len() == texts(out@).to_multiset().len());
        assert(texts(v@).len() == texts(v@).to_multiset().len());
    }
    out
}

} // verus!
