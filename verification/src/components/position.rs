//! World position and movement parameters of one entity.

use vstd::prelude::*;

verus! {

/// Movement speed a fresh position starts with, in world units per frame.
pub const DEFAULT_SPEED: i64 = 2;

/// Position component: world coordinates in integer world units, the
/// facing direction, and the entity's speed in world units per frame.
/// Mutated only by the movement resolver.
#[derive(Clone, Copy, PartialEq, Eq, Structural, Debug)]
pub struct Position {
    pub x: i64,
    pub y: i64,
    pub facing_right: bool,
    pub speed: i64,
}

impl Position {
    /// Well-formedness: speed is never negative.
    pub open spec fn wf(self) -> bool {
        self.speed >= 0
    }

    /// A position at `(x, y)` with the default speed.
    pub fn new(x: i64, y: i64, facing_right: bool) -> (p: Position)
        ensures
            p == (Position { x, y, facing_right, speed: DEFAULT_SPEED }),
            p.wf(),
    {
        Position { x, y, facing_right, speed: DEFAULT_SPEED }
    }
}

} // verus!
