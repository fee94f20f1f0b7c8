//! Stable ordering by an integer key: the specification that the library's
//! insertion sorts meet, and what follows from it.

use vstd::prelude::*;

verus! {

/// `s` is in non-decreasing order of `key`.
pub open spec fn sorted_by<T>(s: Seq<T>, key: spec_fn(T) -> int) -> bool {
    forall|i: int, j: int| 0 <= i < j < s.len() ==> key(s[i]) <= key(s[j])
}

/// `x` placed into `s` after every element whose key is not greater than its own
/// that comes before the first greater one seen from the end.
pub open spec fn insert_by<T>(s: Seq<T>, x: T, key: spec_fn(T) -> int) -> Seq<T>
    decreases s.len(),
{
    if s.len() == 0 {
        seq![x]
    } else if key(s.last()) <= key(x) {
        s.push(x)
    } else {
        insert_by(s.drop_last(), x, key).push(s.last())
    }
}

/// `s` in order of `key`; elements with equal keys keep their order.
pub open spec fn sort_by<T>(s: Seq<T>, key: spec_fn(T) -> int) -> Seq<T>
    decreases s.len(),
{
    if s.len() == 0 {
        Seq::empty()
    } else {
        insert_by(sort_by(s.drop_last(), key), s.last(), key)
    }
}

/// Where every element from `p` on has a key greater than that of `x`, and
/// the one before `p` does not, `x` goes in at `p`.
pub proof fn lemma_insert_at<T>(s: Seq<T>, x: T, key: spec_fn(T) -> int, p: int)
    requires
        0 <= p <= s.len(),
        p == 0 || key(s[p - 1]) <= key(x),
        forall|j: int| p <= j < s.len() ==> key(#[trigger] s[j]) > key(x),
    ensures
        insert_by(s, x, key) == s.take(p).push(x) + s.skip(p),
    decreases s.len(),
{
    if s.len() == 0 {
        assert(s.take(p).push(x) + s.skip(p) =~= seq![x]);
    } else if p == s.len() {
        assert(s.take(p) =~= s);
        assert(s.take(p).push(x) + s.skip(p) =~= s.push(x));
    } else {
        assert(key(s[s.len() - 1]) > key(x));
        let d = s.drop_last();
        assert forall|j: int| p <= j < d.len() implies key(#[trigger] d[j]) > key(x) by {
            assert(d[j] == s[j]);
        }
        if p > 0 {
            assert(d[p - 1] == s[p - 1]);
        }
        lemma_insert_at(d, x, key, p);
        assert((d.take(p).push(x) + d.skip(p)).push(s.last()) =~= s.take(p).push(x) + s.skip(p));
    }
}

/// Inserting into a sorted sequence keeps it sorted.
pub proof fn lemma_insert_sorted<T>(s: Seq<T>, x: T, key: spec_fn(T) -> int)
    requires
        sorted_by(s, key),
    ensures
        sorted_by(insert_by(s, x, key), key),
        insert_by(s, x, key).len() == s.len() + 1,
        insert_by(s, x, key).to_multiset() == s.to_multiset().insert(x),
    decreases s.len(),
{
    broadcast use vstd::seq_lib::group_to_multiset_ensures;
    if s.len() == 0 {
        assert(seq![x] =~= Seq::<T>::empty().push(x));
    } else if key(s.last()) <= key(x) {
    } else {
        let d = s.drop_last();
        lemma_insert_sorted(d, x, key);
        let r = insert_by(d, x, key);
        assert forall|i: int| 0 <= i < r.len() implies key(#[trigger] r[i]) <= key(s.last()) by {
            assert(r.to_multiset().count(r[i]) > 0);
            assert(d.to_multiset().insert(x).count(r[i]) > 0);
            if r[i] != x {
                assert(d.to_multiset().count(r[i]) > 0);
                assert(d.contains(r[i]));
                let j = choose|j: int| 0 <= j < d.len() && d[j] == r[i];
                assert(s[j] == d[j]);
            }
        }
        assert(s =~= d.push(s.last()));
    }
}

/// What `sort_by` gives is in order of `key`, and holds the same elements.
pub proof fn lemma_sort_sorted<T>(s: Seq<T>, key: spec_fn(T) -> int)
    ensures
        sorted_by(sort_by(s, key), key),
        sort_by(s, key).len() == s.len(),
        sort_by(s, key).to_multiset() == s.to_multiset(),
    decreases s.len(),
{
    broadcast use vstd::seq_lib::group_to_multiset_ensures;
    if s.len() > 0 {
        lemma_sort_sorted(s.drop_last(), key);
        lemma_insert_sorted(sort_by(s.drop_last(), key), s.last(), key);
        assert(s =~= s.drop_last().push(s.last()));
    }
}

} // verus!
