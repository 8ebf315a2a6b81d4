//! The first element of a sequence that satisfies a condition: the search
//! that every "first pressed / first hovered / first in range" rule makes.
use vstd::prelude::*;

verus! {

/// The first element of `s` that satisfies `p`, if there is one.
pub open spec fn first_match<A>(s: Seq<A>, p: spec_fn(A) -> bool) -> Option<A>
    decreases s.len(),
{
    if s.len() == 0 {
        None
    } else if p(s[0]) {
        Some(s[0])
    } else {
        first_match(s.drop_first(), p)
    }
}

/// Searching from position `i` looks at `s[i]` first, then goes on from `i + 1`.
pub proof fn lemma_first_match_at<A>(s: Seq<A>, p: spec_fn(A) -> bool, i: int)
    requires
        0 <= i < s.len(),
    ensures
        first_match(s.skip(i), p) == (if p(s[i]) {
            Some(s[i])
        } else {
            first_match(s.skip(i + 1), p)
        }),
{
    assert(s.skip(i).drop_first() =~= s.skip(i + 1));
}

/// Searching from the start is searching the whole sequence, and searching
/// past the end finds nothing.
pub proof fn lemma_first_match_bounds<A>(s: Seq<A>, p: spec_fn(A) -> bool)
    ensures
        first_match(s.skip(0), p) == first_match(s, p),
        first_match(s.skip(s.len() as int), p) is None,
{
    assert(s.skip(0) =~= s);
    assert(s.skip(s.len() as int) =~= Seq::<A>::empty());
}

/// What the search finds is an element of the sequence that satisfies the
/// condition, and it finds something whenever some element satisfies it.
pub proof fn lemma_first_match_sound<A>(s: Seq<A>, p: spec_fn(A) -> bool)
    ensures
        first_match(s, p) matches Some(a) ==> p(a) && s.contains(a),
        (exists|i: int| 0 <= i < s.len() && p(#[trigger] s[i])) ==> first_match(s, p) is Some,
    decreases s.len(),
{
    if s.len() > 0 {
        lemma_first_match_sound(s.drop_first(), p);
        if first_match(s, p) is Some && !p(s[0]) {
            let a = first_match(s, p)->0;
            let j = choose|j: int| 0 <= j < s.drop_first().len() && s.drop_first()[j] == a;
            assert(s[j + 1] == a);
        }
        if exists|i: int| 0 <= i < s.len() && p(#[trigger] s[i]) {
            let i = choose|i: int| 0 <= i < s.len() && p(#[trigger] s[i]);
            if i > 0 {
                assert(p(s.drop_first()[i - 1]));
            }
        }
    } else {
    }
}

/// The search finds nothing exactly when no element satisfies the condition,
/// and what it finds is the element at some position `i` that satisfies the
/// condition while no element before `i` does.
pub proof fn lemma_first_match_index<A>(s: Seq<A>, p: spec_fn(A) -> bool)
    ensures
        first_match(s, p) is None <==> (forall|i: int| 0 <= i < s.len() ==> !p(#[trigger] s[i])),
        first_match(s, p) matches Some(a) ==> exists|i: int|
            0 <= i < s.len() && #[trigger] s[i] == a && p(s[i]) && (forall|j: int| 0 <= j < i ==> !p(#[trigger] s[j])),
    decreases s.len(),
{
    if s.len() > 0 {
        let d = s.drop_first();
        lemma_first_match_index(d, p);
        if p(s[0]) {
            assert(s[0] == s[0] && p(s[0]));
        } else {
            assert forall|i: int| 0 <= i < d.len() implies d[i] == #[trigger] s[i + 1] by {}
            if first_match(s, p) is None {
                assert forall|i: int| 0 <= i < s.len() implies !p(#[trigger] s[i]) by {
                    if i > 0 {
                        assert(s[i] == d[i - 1]);
                    }
                }
            } else {
                let a = first_match(s, p)->0;
                let i = choose|i: int|
                    0 <= i < d.len() && #[trigger] d[i] == a && p(d[i]) && (forall|j: int| 0 <= j < i ==> !p(#[trigger] d[j]));
                assert(s[i + 1] == a);
                assert forall|j: int| 0 <= j < i + 1 implies !p(#[trigger] s[j]) by {
                    if j > 0 {
                        assert(s[j] == d[j - 1]);
                    }
                }
                if (forall|k: int| 0 <= k < s.len() ==> !p(#[trigger] s[k])) {
                    assert(!p(s[i + 1]));
                }
            }
        }
    }
}

} // verus!
