//! Small facts about sequences that several modules share.

use vstd::prelude::*;

verus! {

/// The index of the first element of `s` that satisfies `p`, or the length of
/// `s` where none does.
pub open spec fn first_index<T>(s: Seq<T>, p: spec_fn(T) -> bool) -> nat
    decreases s.len(),
{
    if s.len() == 0 || p(s[0]) {
        0
    } else {
        1 + first_index(s.skip(1), p)
    }
}

/// `first_index` is at most the length, points at an element that satisfies
/// the predicate when it is below the length, and passes none that does.
pub proof fn lemma_first_index_props<T>(s: Seq<T>, p: spec_fn(T) -> bool)
    ensures
        first_index(s, p) <= s.len(),
        first_index(s, p) < s.len() ==> p(s[first_index(s, p) as int]),
        forall|j: int| 0 <= j < first_index(s, p) ==> !p(#[trigger] s[j]),
    decreases s.len(),
{
    if s.len() == 0 || p(s[0]) {
    } else {
        let t = s.skip(1);
        lemma_first_index_props(t, p);
        assert forall|j: int| 0 <= j < first_index(s, p) implies !p(#[trigger] s[j]) by {
            if j > 0 {
                assert(s[j] == t[j - 1]);
            }
        }
    }
}

/// An index that no earlier match precedes, and that is a match unless it is
/// the length, is the first index.
pub proof fn lemma_first_index_is<T>(s: Seq<T>, p: spec_fn(T) -> bool, i: int)
    requires
        0 <= i <= s.len(),
        forall|j: int| 0 <= j < i ==> !p(#[trigger] s[j]),
        i < s.len() ==> p(s[i]),
    ensures
        first_index(s, p) == i,
    decreases s.len(),
{
    if s.len() == 0 || p(s[0]) {
        if s.len() > 0 && i > 0 {
            assert(!p(s[0]));
        }
    } else {
        let t = s.skip(1);
        assert(i > 0);
        assert forall|j: int| 0 <= j < i - 1 implies !p(#[trigger] t[j]) by {
            assert(t[j] == s[j + 1]);
        }
        lemma_first_index_is(t, p, i - 1);
    }
}

/// Where no element satisfies a test, filtering by it leaves nothing.
pub proof fn lemma_filter_none<T>(s: Seq<T>, p: spec_fn(T) -> bool)
    requires
        forall|i: int| 0 <= i < s.len() ==> !p(#[trigger] s[i]),
    ensures
        s.filter(p).len() == 0,
    decreases s.len(),
{
    if s.len() == 0 {
        s.lemma_filter_len(p);
    } else {
        let front = s.drop_last();
        assert forall|i: int| 0 <= i < front.len() implies !p(#[trigger] front[i]) by {
            assert(front[i] == s[i]);
        }
        lemma_filter_none(front, p);
        front.lemma_filter_push(s.last(), p);
        assert(front.push(s.last()) =~= s);
    }
}

/// Whether some element of `s` has the key `k`.
pub open spec fn has_key<T, K>(s: Seq<T>, key: spec_fn(T) -> K, k: K) -> bool {
    exists|i: int| 0 <= i < s.len() && key(#[trigger] s[i]) == k
}

/// `s` without the elements whose key an earlier element has: of each key the
/// first element stays, in its place among the others.
pub open spec fn dedup_by<T, K>(s: Seq<T>, key: spec_fn(T) -> K) -> Seq<T>
    decreases s.len(),
{
    if s.len() == 0 {
        s
    } else if has_key(s.drop_last(), key, key(s.last())) {
        dedup_by(s.drop_last(), key)
    } else {
        dedup_by(s.drop_last(), key).push(s.last())
    }
}

/// Whether no two elements of `s` share a key.
pub open spec fn distinct_keys<T, K>(s: Seq<T>, key: spec_fn(T) -> K) -> bool {
    forall|i: int, j: int| 0 <= i < j < s.len() ==> key(#[trigger] s[i]) != key(#[trigger] s[j])
}

/// Removing duplicates loses no key and adds none.
pub proof fn lemma_dedup_keeps_keys<T, K>(s: Seq<T>, key: spec_fn(T) -> K, k: K)
    ensures
        has_key(dedup_by(s, key), key, k) == has_key(s, key, k),
    decreases s.len(),
{
    if s.len() == 0 {
    } else {
        let rest = s.drop_last();
        let d = dedup_by(rest, key);
        lemma_dedup_keeps_keys(rest, key, k);
        lemma_dedup_keeps_keys(rest, key, key(s.last()));
        if has_key(s, key, k) {
            let i = choose|i: int| 0 <= i < s.len() && key(#[trigger] s[i]) == k;
            if i < rest.len() {
                assert(key(rest[i]) == k);
                let j = choose|j: int| 0 <= j < d.len() && key(#[trigger] d[j]) == k;
                assert(key(dedup_by(s, key)[j]) == k);
            } else {
                if has_key(rest, key, key(s.last())) {
                } else {
                    assert(key(dedup_by(s, key)[d.len() as int]) == k);
                }
            }
        }
        if has_key(dedup_by(s, key), key, k) {
            let r = dedup_by(s, key);
            let j = choose|j: int| 0 <= j < r.len() && key(#[trigger] r[j]) == k;
            if j < d.len() {
                assert(key(d[j]) == k);
                let i = choose|i: int| 0 <= i < rest.len() && key(#[trigger] rest[i]) == k;
                assert(key(s[i]) == k);
            } else {
                assert(key(s[s.len() - 1]) == k);
            }
        }
    }
}

/// After removing duplicates no two elements share a key.
pub proof fn lemma_dedup_distinct<T, K>(s: Seq<T>, key: spec_fn(T) -> K)
    ensures
        distinct_keys(dedup_by(s, key), key),
    decreases s.len(),
{
    if s.len() == 0 {
    } else {
        let rest = s.drop_last();
        let d = dedup_by(rest, key);
        lemma_dedup_distinct(rest, key);
        lemma_dedup_keeps_keys(rest, key, key(s.last()));
        if !has_key(rest, key, key(s.last())) {
            let r = d.push(s.last());
            assert forall|i: int, j: int| 0 <= i < j < r.len() implies key(#[trigger] r[i]) != key(
                #[trigger] r[j],
            ) by {
                if j == d.len() {
                    if key(d[i]) == key(s.last()) {
                        assert(has_key(d, key, key(s.last())));
                    }
                }
            }
        }
    }
}

/// Where no two elements share a key, removing duplicates changes nothing.
pub proof fn lemma_dedup_of_distinct<T, K>(s: Seq<T>, key: spec_fn(T) -> K)
    requires
        distinct_keys(s, key),
    ensures
        dedup_by(s, key) == s,
    decreases s.len(),
{
    if s.len() == 0 {
    } else {
        let rest = s.drop_last();
        assert(distinct_keys(rest, key)) by {
            assert forall|i: int, j: int| 0 <= i < j < rest.len() implies key(#[trigger] rest[i])
                != key(#[trigger] rest[j]) by {
                assert(rest[i] == s[i] && rest[j] == s[j]);
            }
        }
        lemma_dedup_of_distinct(rest, key);
        if has_key(rest, key, key(s.last())) {
            let i = choose|i: int| 0 <= i < rest.len() && key(#[trigger] rest[i]) == key(s.last());
            assert(rest[i] == s[i]);
            assert(key(s[i]) != key(s[s.len() - 1]));
        }
        assert(rest.push(s.last()) =~= s);
    }
}

/// Removing duplicates twice gives what removing them once gives.
pub proof fn lemma_dedup_idempotent<T, K>(s: Seq<T>, key: spec_fn(T) -> K)
    ensures
        dedup_by(dedup_by(s, key), key) == dedup_by(s, key),
{
    lemma_dedup_distinct(s, key);
    lemma_dedup_of_distinct(dedup_by(s, key), key);
}

} // verus!
