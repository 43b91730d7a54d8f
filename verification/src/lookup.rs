//! First-match search over sequences.
//!
//! Every keyed collection in this crate is an insertion-ordered `Vec` whose
//! keys are unique, so "the entry with this key" is always "the first entry
//! satisfying a predicate".  [`find_by`] is the single spec-level notion of
//! that index; the lemmas here characterise it in both directions so that
//! executable scans can establish it.

use vstd::prelude::*;

verus! {

/// The index of the first element of `s` satisfying `p`, or `-1` if none does.
pub open spec fn find_by<T>(s: Seq<T>, p: spec_fn(T) -> bool) -> int
    decreases s.len(),
{
    if s.len() == 0 {
        -1
    } else if p(s[0]) {
        0
    } else {
        let r = find_by(s.drop_first(), p);
        if r == -1 {
            -1
        } else {
            r + 1
        }
    }
}

/// What `find_by` returns: either `-1` and nothing matches, or the first
/// matching index.
pub proof fn lemma_find_by<T>(s: Seq<T>, p: spec_fn(T) -> bool)
    ensures
        find_by(s, p) == -1 ==> forall|k: int| 0 <= k < s.len() ==> !p(s[k]),
        find_by(s, p) != -1 ==> 0 <= find_by(s, p) < s.len() && p(s[find_by(s, p)]) && forall|
            k: int,
        | 0 <= k < find_by(s, p) ==> !p(s[k]),
    decreases s.len(),
{
    if s.len() > 0 && !p(s[0]) {
        let t = s.drop_first();
        lemma_find_by(t, p);
        if find_by(s, p) == -1 {
            assert forall|k: int| 0 <= k < s.len() implies !p(s[k]) by {
                if k > 0 {
                    assert(t[k - 1] == s[k]);
                    assert(!p(t[k - 1]));
                }
            }
        } else {
            let r = find_by(t, p);
            assert(s[r + 1] == t[r]);
            assert forall|k: int| 0 <= k < find_by(s, p) implies !p(s[k]) by {
                if k > 0 {
                    assert(t[k - 1] == s[k]);
                    assert(!p(t[k - 1]));
                }
            }
        }
    }
}

/// A witness for the first match pins `find_by` down.
pub proof fn lemma_find_by_is<T>(s: Seq<T>, p: spec_fn(T) -> bool, i: int)
    requires
        0 <= i < s.len(),
        p(s[i]),
        forall|k: int| 0 <= k < i ==> !p(s[k]),
    ensures
        find_by(s, p) == i,
    decreases s.len(),
{
    if i > 0 {
        lemma_find_by_is(s.drop_first(), p, i - 1);
    }
}

/// Two sequences on which `p` agrees pointwise have the same first match.
pub proof fn lemma_find_by_congruent<T>(s1: Seq<T>, s2: Seq<T>, p: spec_fn(T) -> bool)
    requires
        s1.len() == s2.len(),
        forall|k: int| 0 <= k < s1.len() ==> p(s1[k]) == p(s2[k]),
    ensures
        find_by(s1, p) == find_by(s2, p),
    decreases s1.len(),
{
    if s1.len() > 0 && !p(s1[0]) {
        let t1 = s1.drop_first();
        let t2 = s2.drop_first();
        assert(forall|k: int| 0 <= k < t1.len() ==> t1[k] == s1[k + 1] && t2[k] == s2[k + 1]);
        lemma_find_by_congruent(t1, t2, p);
    }
}

/// The subsequence of elements of `s` satisfying `p`, in order.
pub open spec fn filter_seq<T>(s: Seq<T>, p: spec_fn(T) -> bool) -> Seq<T>
    decreases s.len(),
{
    if s.len() == 0 {
        Seq::empty()
    } else if p(s.last()) {
        filter_seq(s.drop_last(), p).push(s.last())
    } else {
        filter_seq(s.drop_last(), p)
    }
}


/// No match anywhere pins `find_by` to `-1`.
pub proof fn lemma_find_by_none<T>(s: Seq<T>, p: spec_fn(T) -> bool)
    requires
        forall|k: int| 0 <= k < s.len() ==> !p(s[k]),
    ensures
        find_by(s, p) == -1,
    decreases s.len(),
{
    if s.len() > 0 {
        assert(forall|k: int| 0 <= k < s.drop_first().len() ==> s.drop_first()[k] == s[k + 1]);
        lemma_find_by_none(s.drop_first(), p);
    }
}

} // verus!
