//! Travel directions and the anti-reversal direction arbiter.

use vstd::prelude::*;

verus! {

/// One of the four directions the moving entity can travel in.
#[derive(Clone, Copy, PartialEq, Eq, Structural, Debug)]
pub enum Heading {
    Up,
    Down,
    Left,
    Right,
}

impl Heading {
    /// The direction exactly opposite to `self`.
    pub open spec fn opposite_spec(self) -> Heading {
        match self {
            Heading::Up => Heading::Down,
            Heading::Down => Heading::Up,
            Heading::Left => Heading::Right,
            Heading::Right => Heading::Left,
        }
    }

    /// Returns the direction exactly opposite to `self`.
    pub fn opposite(&self) -> (r: Heading)
        ensures
            r == self.opposite_spec(),
    {
        match self {
            Heading::Up => Heading::Down,
            Heading::Down => Heading::Up,
            Heading::Left => Heading::Right,
            Heading::Right => Heading::Left,
        }
    }
}

/// Reversing a heading twice gives the heading back: `opposite` is an
/// involution over the four directions.
pub proof fn lemma_opposite_involutive(h: Heading)
    ensures
        h.opposite_spec().opposite_spec() == h,
{
}

/// A snapshot of the directional input keys held during one tick.
///
/// Each flag is true when some key mapped to that direction is held.
#[derive(Clone, Copy, PartialEq, Eq, Structural, Debug)]
pub struct KeySet {
    pub left: bool,
    pub right: bool,
    pub up: bool,
    pub down: bool,
}

impl KeySet {
    /// The snapshot in which no directional key is held.
    pub fn none() -> (r: KeySet)
        ensures
            r == (KeySet { left: false, right: false, up: false, down: false }),
    {
        KeySet { left: false, right: false, up: false, down: false }
    }
}

/// The heading the arbiter picks for the next tick.
///
/// Candidates are tried in the fixed priority order Left, Right, Up,
/// Down; the first one whose key is held and which is not the exact
/// reverse of `current` wins. When no candidate qualifies the current
/// heading is kept.
pub open spec fn resolve_spec(keys: KeySet, current: Heading) -> Heading {
    let forbidden = current.opposite_spec();
    if keys.left && forbidden != Heading::Left {
        Heading::Left
    } else if keys.right && forbidden != Heading::Right {
        Heading::Right
    } else if keys.up && forbidden != Heading::Up {
        Heading::Up
    } else if keys.down && forbidden != Heading::Down {
        Heading::Down
    } else {
        current
    }
}

/// Resolves the next heading from the held keys and the current
/// heading, refusing any change that would reverse the entity in
/// place.
pub fn resolve(keys: KeySet, current: Heading) -> (r: Heading)
    ensures
        r == resolve_spec(keys, current),
{
    let forbidden = current.opposite();
    if keys.left && forbidden != Heading::Left {
        Heading::Left
    } else if keys.right && forbidden != Heading::Right {
        Heading::Right
    } else if keys.up && forbidden != Heading::Up {
        Heading::Up
    } else if keys.down && forbidden != Heading::Down {
        Heading::Down
    } else {
        current
    }
}

/// Anti-reversal: whatever keys are held, the resolved heading is
/// never the exact opposite of the current one.
pub proof fn lemma_no_reversal(keys: KeySet, current: Heading)
    ensures
        resolve_spec(keys, current) != current.opposite_spec(),
{
}

/// No-input stability: when no directional key is held the current
/// heading is kept unchanged.
pub proof fn lemma_no_input_stability(current: Heading)
    ensures
        resolve_spec(KeySet { left: false, right: false, up: false, down: false }, current)
            == current,
{
}

} // verus!
