//! AI behavior variants.

use vstd::prelude::*;

verus! {

/// Closed set of AI behaviors. `Chase`'s target is an entity index — a
/// lookup key into the position container, not an owning reference — and
/// is bounds-checked at use time.
#[derive(Clone, PartialEq, Debug)]
pub enum AiState {
    Idle,
    Patrol { waypoints: Vec<(i64, i64)>, current_waypoint: usize },
    Chase { target_entity: usize, detection_range: i64, attack_range: i64 },
}

impl AiState {
    /// Well-formedness: a patroller with waypoints points at one of them,
    /// and chase ranges are never negative.
    pub open spec fn wf(self) -> bool {
        match self {
            AiState::Idle => true,
            AiState::Patrol { waypoints, current_waypoint } => waypoints@.len() > 0
                ==> current_waypoint < waypoints@.len(),
            AiState::Chase { target_entity, detection_range, attack_range } => detection_range >= 0
                && attack_range >= 0,
        }
    }
}

/// AI component for one entity.
#[derive(Clone, PartialEq, Debug)]
pub struct Ai {
    pub behavior: AiState,
}

impl Ai {
    pub open spec fn wf(self) -> bool {
        self.behavior.wf()
    }
}

} // verus!
