//! An entity's declared intent for the current frame.

use vstd::prelude::*;

verus! {

/// One frame's declared intent, fully recomputed each frame by the input
/// or AI resolver. Opposing movement bits may both be set; resolving the
/// conflict is the movement resolver's job.
#[derive(Clone, Copy, PartialEq, Eq, Structural, Debug)]
pub enum ActionState {
    Idle,
    Moving { right: bool, left: bool, up: bool, down: bool },
    Attacking,
}

impl ActionState {
    /// True when the intent is `Moving` with at least one direction bit set.
    pub open spec fn is_directed_movement(self) -> bool {
        match self {
            ActionState::Moving { right, left, up, down } => right || left || up || down,
            _ => false,
        }
    }
}

impl Default for ActionState {
    fn default() -> (r: Self)
        ensures
            r == ActionState::Idle,
    {
        ActionState::Idle
    }
}

} // verus!
