//! "First element satisfying a predicate": the search rule behind every
//! `iter().find(..)` / `position(..)` of the panel logic, stated once.

use vstd::prelude::*;

verus! {

/// `i` is the first index of `s` whose element satisfies `p`.
pub open spec fn is_first_match<A>(s: Seq<A>, p: spec_fn(A) -> bool, i: int) -> bool {
    &&& 0 <= i < s.len()
    &&& p(s[i])
    &&& forall|j: int| 0 <= j < i ==> !p(#[trigger] s[j])
}

/// The first index of `s` whose element satisfies `p`, if any.
pub open spec fn first_match<A>(s: Seq<A>, p: spec_fn(A) -> bool) -> Option<int> {
    if exists|i: int| is_first_match(s, p, i) {
        Some(choose|i: int| is_first_match(s, p, i))
    } else {
        None
    }
}

/// Some element of `s` satisfies `p`.
pub open spec fn any_match<A>(s: Seq<A>, p: spec_fn(A) -> bool) -> bool {
    exists|i: int| 0 <= i < s.len() && p(#[trigger] s[i])
}

/// Replace the first element satisfying `p` by `f` of it; unchanged when none does.
pub open spec fn update_first<A>(s: Seq<A>, p: spec_fn(A) -> bool, f: spec_fn(A) -> A) -> Seq<A> {
    match first_match(s, p) {
        Some(i) => s.update(i, f(s[i])),
        None => s,
    }
}

/// Updating the first match changes exactly that element.
pub proof fn lemma_update_first_at<A>(s: Seq<A>, p: spec_fn(A) -> bool, f: spec_fn(A) -> A, i: int)
    requires
        is_first_match(s, p, i),
    ensures
        update_first(s, p, f) == s.update(i, f(s[i])),
{
    lemma_first_match_is(s, p, i);
}

/// With no match, updating the first match changes nothing.
pub proof fn lemma_update_first_absent<A>(s: Seq<A>, p: spec_fn(A) -> bool, f: spec_fn(A) -> A)
    requires
        forall|j: int| 0 <= j < s.len() ==> !p(#[trigger] s[j]),
    ensures
        update_first(s, p, f) == s,
{
    lemma_first_match_none(s, p);
}

/// A first match, once found, is the one `first_match` names.
pub proof fn lemma_first_match_is<A>(s: Seq<A>, p: spec_fn(A) -> bool, i: int)
    requires
        is_first_match(s, p, i),
    ensures
        first_match(s, p) == Some(i),
{
    let k = choose|k: int| is_first_match(s, p, k);
    assert(is_first_match(s, p, k));
    if k < i {
        assert(!p(s[k]));
    } else if i < k {
        assert(!p(s[i]));
    }
}

/// When no element satisfies `p` there is no first match.
pub proof fn lemma_first_match_none<A>(s: Seq<A>, p: spec_fn(A) -> bool)
    requires
        forall|j: int| 0 <= j < s.len() ==> !p(#[trigger] s[j]),
    ensures
        first_match(s, p) is None,
        !any_match(s, p),
{
}

/// Whenever some element satisfies `p`, there is a first one.
pub proof fn lemma_any_match_has_first<A>(s: Seq<A>, p: spec_fn(A) -> bool)
    requires
        any_match(s, p),
    ensures
        first_match(s, p) is Some,
        is_first_match(s, p, first_match(s, p)->0),
    decreases s.len(),
{
    if p(s[0]) {
        lemma_first_match_is(s, p, 0);
    } else {
        let k = choose|k: int| 0 <= k < s.len() && p(#[trigger] s[k]);
        let t = s.drop_first();
        assert(t[k - 1] == s[k]);
        lemma_any_match_has_first(t, p);
        let i = first_match(t, p)->0;
        assert forall|j: int| 0 <= j < i + 1 implies !p(#[trigger] s[j]) by {
            if j > 0 {
                assert(s[j] == t[j - 1]);
            }
        }
        lemma_first_match_is(s, p, i + 1);
    }
}

/// Filtering a prefix one element longer adds that element exactly when it is kept.
pub proof fn lemma_filter_take_step<A>(s: Seq<A>, p: spec_fn(A) -> bool, i: int)
    requires
        0 <= i < s.len(),
    ensures
        s.take(i + 1).filter(p) == (if p(s[i]) {
            s.take(i).filter(p).push(s[i])
        } else {
            s.take(i).filter(p)
        }),
{
    reveal(Seq::filter);
    assert(s.take(i + 1).drop_last() =~= s.take(i));
    assert(s.take(i + 1).last() == s[i]);
}

/// Every element of a filtered sequence satisfies the filter.
pub proof fn lemma_filter_all<A>(s: Seq<A>, p: spec_fn(A) -> bool)
    ensures
        forall|i: int| 0 <= i < s.filter(p).len() ==> p(#[trigger] s.filter(p)[i]),
{
    assert forall|i: int| 0 <= i < s.filter(p).len() implies p(#[trigger] s.filter(p)[i]) by {
        s.lemma_filter_pred(p, i);
    }
}


/// What `first_match` names is a first match.
pub proof fn lemma_first_match_spec<A>(s: Seq<A>, p: spec_fn(A) -> bool)
    requires
        first_match(s, p) is Some,
    ensures
        is_first_match(s, p, first_match(s, p)->0),
{
}

} // verus!
