//! Which interactable object the player may interact with, and when the
//! interaction is carried out.
//!
//! Entities are named by their 64-bit identifiers. A candidate is an
//! interactable together with whether the player stands within its range.
use vstd::prelude::*;

use crate::search::{first_match, lemma_first_match_at, lemma_first_match_bounds, lemma_first_match_index};

verus! {

/// What one update of the pending interaction decides.
#[derive(Debug)]
pub struct PendingUpdate {
    /// The pending interaction to set, if it is set at all.
    pub next: Option<Option<u64>>,
    /// Whether a "pending interaction changed" notice is sent.
    pub changed: bool,
}

/// The condition on a candidate: the player is within its range.
pub open spec fn in_range() -> spec_fn((u64, bool)) -> bool {
    |c: (u64, bool)| c.1
}

/// The first interactable, in the order given, that the player is in range of.
pub open spec fn first_in_range(candidates: Seq<(u64, bool)>) -> Option<u64> {
    match first_match(candidates, in_range()) {
        Some(c) => Some(c.0),
        None => None,
    }
}

/// The pending interaction that an update sets, if any: the first
/// interactable in range, or nothing where none is in range (which clears a
/// pending interaction and leaves an empty one alone).
pub open spec fn next_pending(current: Option<u64>, candidates: Seq<(u64, bool)>) -> Option<Option<u64>> {
    match first_in_range(candidates) {
        Some(e) => Some(Some(e)),
        None => if current is Some {
            Some(None)
        } else {
            None
        },
    }
}

/// Whether an update sends the "changed" notice.
pub open spec fn pending_changed(current: Option<u64>, candidates: Seq<(u64, bool)>) -> bool {
    match first_in_range(candidates) {
        Some(e) => current != Some(e),
        None => current is Some,
    }
}

/// The interactable chosen is the first one, in the order given, that the
/// player is within range of; where the player is within range of none,
/// none is chosen.
pub proof fn lemma_first_in_range_index(candidates: Seq<(u64, bool)>)
    ensures
        first_in_range(candidates) is None <==> (forall|i: int| 0 <= i < candidates.len() ==> !#[trigger] candidates[i].1),
        first_in_range(candidates) matches Some(e) ==> exists|i: int|
            0 <= i < candidates.len() && #[trigger] candidates[i] == (e, true) && (forall|j: int|
                0 <= j < i ==> !#[trigger] candidates[j].1),
{
    lemma_first_match_index(candidates, in_range());
}

/// An update sets an interactable only when the player is in its range and
/// in the range of none before it; it clears the pending interaction only
/// when the player is in range of none, and sends a notice exactly when the
/// pending interaction is different afterwards.
pub proof fn lemma_pending_update_explained(current: Option<u64>, candidates: Seq<(u64, bool)>)
    ensures
        next_pending(current, candidates) matches Some(Some(e)) ==> exists|i: int|
            0 <= i < candidates.len() && #[trigger] candidates[i] == (e, true) && (forall|j: int|
                0 <= j < i ==> !#[trigger] candidates[j].1),
        next_pending(current, candidates) == Some(None::<u64>) <==> (current is Some && forall|i: int|
            0 <= i < candidates.len() ==> !#[trigger] candidates[i].1),
        next_pending(current, candidates) is None <==> (current is None && forall|i: int|
            0 <= i < candidates.len() ==> !#[trigger] candidates[i].1),
        pending_changed(current, candidates) <==> (match next_pending(current, candidates) {
            Some(n) => n != current,
            None => false,
        }),
{
    lemma_first_in_range_index(candidates);
}

/// Decides the pending interaction from the interactables and whether the
/// player is within range of each.
pub fn update_pending_interaction(current: Option<u64>, candidates: &Vec<(u64, bool)>) -> (res: PendingUpdate)
    ensures
        res.next == next_pending(current, candidates@),
        res.changed == pending_changed(current, candidates@),
        res.next matches Some(Some(e)) ==> exists|i: int|
            0 <= i < candidates.len() && #[trigger] candidates@[i] == (e, true) && (forall|j: int|
                0 <= j < i ==> !#[trigger] candidates@[j].1),
        res.next == Some(None::<u64>) <==> (current is Some && forall|i: int|
            0 <= i < candidates.len() ==> !#[trigger] candidates@[i].1),
        res.next is None <==> (current is None && forall|i: int|
            0 <= i < candidates.len() ==> !#[trigger] candidates@[i].1),
        res.changed <==> (match res.next {
            Some(n) => n != current,
            None => false,
        }),
{
    proof {
        lemma_pending_update_explained(current, candidates@);
    }
    proof {
        lemma_first_match_bounds(candidates@, in_range());
    }
    let mut i: usize = 0;
    while i < candidates.len()
        invariant
            i <= candidates.len(),
            first_match(candidates@, in_range()) == first_match(candidates@.skip(i as int), in_range()),
        decreases candidates.len() - i,
    {
        proof {
            lemma_first_match_at(candidates@, in_range(), i as int);
        }
        let (entity, within) = candidates[i];
        if within {
            let changed = match current {
                Some(c) => c != entity,
                None => true,
            };
            proof {
                lemma_pending_update_explained(current, candidates@);
            }
            return PendingUpdate { next: Some(Some(entity)), changed };
        }
        i = i + 1;
    }
    proof {
        lemma_pending_update_explained(current, candidates@);
    }
    match current {
        Some(_) => PendingUpdate { next: Some(None), changed: true },
        None => PendingUpdate { next: None, changed: false },
    }
}

/// The pending interaction after an update: the one set, or the current one
/// where nothing is set.
pub open spec fn pending_after(current: Option<u64>, candidates: Seq<(u64, bool)>) -> Option<u64> {
    match next_pending(current, candidates) {
        Some(n) => n,
        None => current,
    }
}

/// After an update the pending interaction is the first interactable in
/// range, or none where no interactable is in range.
pub proof fn lemma_pending_is_first_in_range(current: Option<u64>, candidates: Seq<(u64, bool)>)
    ensures
        pending_after(current, candidates) == first_in_range(candidates),
{
}

/// The notice is sent exactly when the pending interaction really changes.
pub proof fn lemma_changed_iff_pending_differs(current: Option<u64>, candidates: Seq<(u64, bool)>)
    ensures
        pending_changed(current, candidates) <==> pending_after(current, candidates) != current,
{
}

/// An update is settled: updating again with the same candidates sends no
/// notice and leaves the pending interaction as it is.
pub proof fn lemma_update_settles(current: Option<u64>, candidates: Seq<(u64, bool)>)
    ensures
        !pending_changed(pending_after(current, candidates), candidates),
        pending_after(pending_after(current, candidates), candidates) == pending_after(current, candidates),
{
}

/// The interaction to carry out: the pending one, when the interact key was
/// just pressed.
pub fn execute_pending_interaction(interact_just_pressed: bool, pending: Option<u64>) -> (res: Option<u64>)
    ensures
        res == (if interact_just_pressed { pending } else { None }),
{
    if !interact_just_pressed {
        return None;
    }
    pending
}

} // verus!
