//! First-match search over sequences, shared by the registry lookups.
use vstd::prelude::*;

verus! {

/// Index of the first element of `s` that satisfies `p`, if any.
pub open spec fn find_first<A>(s: Seq<A>, p: spec_fn(A) -> bool) -> Option<int>
    decreases s.len(),
{
    if s.len() == 0 {
        None
    } else if p(s[0]) {
        Some(0)
    } else {
        match find_first(s.drop_first(), p) {
            Some(i) => Some(i + 1),
            None => None,
        }
    }
}

/// `i` is the first index of `s` whose element satisfies `p`.
pub open spec fn is_first_match<A>(s: Seq<A>, p: spec_fn(A) -> bool, i: int) -> bool {
    &&& 0 <= i < s.len()
    &&& p(s[i])
    &&& forall|j: int| 0 <= j < i ==> !p(#[trigger] s[j])
}

/// The search result is characterised by `is_first_match`.
pub proof fn lemma_find_first_at<A>(s: Seq<A>, p: spec_fn(A) -> bool, i: int)
    requires
        is_first_match(s, p, i),
    ensures
        find_first(s, p) == Some(i),
    decreases i,
{
    if i > 0 {
        assert(!p(s[0]));
        let t = s.drop_first();
        assert forall|j: int| 0 <= j < i - 1 implies !p(#[trigger] t[j]) by {
            assert(t[j] == s[j + 1]);
        }
        lemma_find_first_at(t, p, i - 1);
    }
}

/// When no element satisfies `p`, the search finds nothing.
pub proof fn lemma_find_first_none<A>(s: Seq<A>, p: spec_fn(A) -> bool)
    requires
        forall|j: int| 0 <= j < s.len() ==> !p(#[trigger] s[j]),
    ensures
        find_first(s, p) is None,
    decreases s.len(),
{
    if s.len() > 0 {
        let t = s.drop_first();
        assert forall|j: int| 0 <= j < t.len() implies !p(#[trigger] t[j]) by {
            assert(t[j] == s[j + 1]);
        }
        lemma_find_first_none(t, p);
    }
}

/// What a successful search says about the index it returns.
pub proof fn lemma_find_first_some<A>(s: Seq<A>, p: spec_fn(A) -> bool)
    ensures
        find_first(s, p) matches Some(i) ==> is_first_match(s, p, i),
        find_first(s, p) is None ==> forall|j: int| 0 <= j < s.len() ==> !p(#[trigger] s[j]),
    decreases s.len(),
{
    if s.len() > 0 {
        let t = s.drop_first();
        lemma_find_first_some(t, p);
        assert forall|j: int| 0 < j < s.len() implies s[j] == #[trigger] t[j - 1] by {}
        if !p(s[0]) {
            if let Some(i) = find_first(t, p) {
                assert forall|j: int| 0 <= j < i + 1 implies !p(#[trigger] s[j]) by {
                    if j > 0 {
                        assert(s[j] == t[j - 1]);
                    }
                }
            } else {
                assert forall|j: int| 0 <= j < s.len() implies !p(#[trigger] s[j]) by {
                    if j > 0 {
                        assert(s[j] == t[j - 1]);
                    }
                }
            }
        }
    }
}

/// The search depends only on the predicate's values on the elements.
pub proof fn lemma_find_first_same_matches<A, B>(
    s: Seq<A>,
    p: spec_fn(A) -> bool,
    t: Seq<B>,
    q: spec_fn(B) -> bool,
)
    requires
        s.len() == t.len(),
        forall|j: int| 0 <= j < s.len() ==> p(#[trigger] s[j]) == q(t[j]),
    ensures
        find_first(s, p) == find_first(t, q),
{
    lemma_find_first_some(s, p);
    lemma_find_first_some(t, q);
    if let Some(i) = find_first(s, p) {
        assert(is_first_match(t, q, i)) by {
            assert forall|j: int| 0 <= j < i implies !q(#[trigger] t[j]) by {
                assert(!p(s[j]));
            }
        }
        lemma_find_first_at(t, q, i);
    } else {
        assert forall|j: int| 0 <= j < t.len() implies !q(#[trigger] t[j]) by {
            assert(!p(s[j]));
        }
        lemma_find_first_none(t, q);
    }
}

} // verus!
