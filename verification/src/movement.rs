//! Which way the player moves for the movement keys held down.
use vstd::prelude::*;

verus! {

/// A direction relative to the camera, flattened onto the ground.
#[derive(Clone, Copy, Debug, PartialEq, Eq, Structural)]
pub enum CameraDirection {
    Forward,
    Back,
    Left,
    Right,
}

/// The camera directions whose keys are held, in the order forward (W),
/// back (S), left (A), right (D); the player moves along their sum.
pub open spec fn held_directions(forward: bool, back: bool, left: bool, right: bool) -> Seq<CameraDirection> {
    (if forward { seq![CameraDirection::Forward] } else { seq![] })
        + (if back { seq![CameraDirection::Back] } else { seq![] })
        + (if left { seq![CameraDirection::Left] } else { seq![] })
        + (if right { seq![CameraDirection::Right] } else { seq![] })
}

/// The position of a direction in the order forward, back, left, right.
pub open spec fn direction_rank(d: CameraDirection) -> int {
    match d {
        CameraDirection::Forward => 0,
        CameraDirection::Back => 1,
        CameraDirection::Left => 2,
        CameraDirection::Right => 3,
    }
}

/// The directions added up are exactly those whose keys are held, each once,
/// in the order forward, back, left, right.
pub proof fn lemma_held_directions_are_the_keys(forward: bool, back: bool, left: bool, right: bool)
    ensures
        held_directions(forward, back, left, right).contains(CameraDirection::Forward) <==> forward,
        held_directions(forward, back, left, right).contains(CameraDirection::Back) <==> back,
        held_directions(forward, back, left, right).contains(CameraDirection::Left) <==> left,
        held_directions(forward, back, left, right).contains(CameraDirection::Right) <==> right,
        forall|i: int, j: int|
            0 <= i < j < held_directions(forward, back, left, right).len() ==> direction_rank(
                #[trigger] held_directions(forward, back, left, right)[i],
            ) < direction_rank(#[trigger] held_directions(forward, back, left, right)[j]),
{
    let w = held_directions(forward, back, left, right);
    let f: Seq<CameraDirection> = if forward { seq![CameraDirection::Forward] } else { seq![] };
    let b: Seq<CameraDirection> = if back { seq![CameraDirection::Back] } else { seq![] };
    let l: Seq<CameraDirection> = if left { seq![CameraDirection::Left] } else { seq![] };
    let r: Seq<CameraDirection> = if right { seq![CameraDirection::Right] } else { seq![] };
    assert(w =~= f + b + l + r);
    if forward { assert(w[0] == CameraDirection::Forward); }
    if back { assert(w[f.len() as int] == CameraDirection::Back); }
    if left { assert(w[(f.len() + b.len()) as int] == CameraDirection::Left); }
    if right { assert(w[(f.len() + b.len() + l.len()) as int] == CameraDirection::Right); }
    assert forall|i: int| 0 <= i < w.len() implies
        (i < f.len() ==> #[trigger] w[i] == CameraDirection::Forward)
        && (f.len() <= i < f.len() + b.len() ==> w[i] == CameraDirection::Back)
        && (f.len() + b.len() <= i < f.len() + b.len() + l.len() ==> w[i] == CameraDirection::Left)
        && (f.len() + b.len() + l.len() <= i ==> w[i] == CameraDirection::Right) by {}
}

/// The camera directions to add up for the movement keys held down.
pub fn movement_directions(forward: bool, back: bool, left: bool, right: bool) -> (res: Vec<CameraDirection>)
    ensures
        res@ == held_directions(forward, back, left, right),
{
    let mut res: Vec<CameraDirection> = Vec::new();
    if forward {
        res.push(CameraDirection::Forward);
    }
    if back {
        res.push(CameraDirection::Back);
    }
    if left {
        res.push(CameraDirection::Left);
    }
    if right {
        res.push(CameraDirection::Right);
    }
    assert(res@ =~= held_directions(forward, back, left, right));
    res
}

} // verus!
