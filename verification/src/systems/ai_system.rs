//! AI resolver: maps each entity's behavior variant and the world's
//! positions to one frame's intent, independent of input.

use vstd::prelude::*;
use crate::components::action_state::ActionState;
use crate::components::ai::Ai;
use crate::components::ai::AiState;
use crate::components::entity::Entity;
use crate::components::position::Position;

verus! {

/// A patroller counts as arrived when its Euclidean distance to the
/// current waypoint is below this many world units.
pub const PATROL_ARRIVAL_RADIUS: i64 = 5;

/// Squared Euclidean distance between two points.
pub open spec fn dist_sq(ax: int, ay: int, bx: int, by: int) -> int {
    (bx - ax) * (bx - ax) + (by - ay) * (by - ay)
}

/// Euclidean distance strictly below `range`.
pub open spec fn within(ax: int, ay: int, bx: int, by: int, range: int) -> bool {
    dist_sq(ax, ay, bx, by) < range * range
}

/// The movement intent toward `(bx, by)` as seen from `(ax, ay)`: each
/// direction bit is set by the sign of its axis delta, so both axis bits
/// may be set, yielding diagonal intent.
pub open spec fn intent_toward(ax: int, ay: int, bx: int, by: int) -> ActionState {
    ActionState::Moving { right: bx > ax, left: bx < ax, up: by < ay, down: by > ay }
}

/// The intent one AI pass emits for entity `i`, or nothing when the
/// behavior deliberately leaves the previous frame's intent in place
/// (a chaser whose target is out of range or out of bounds).
pub open spec fn ai_emit(b: AiState, positions: Seq<Position>, i: int) -> Option<ActionState> {
    match b {
        AiState::Idle => Some(ActionState::Idle),
        AiState::Patrol { waypoints, current_waypoint } => {
            if waypoints@.len() == 0 {
                Some(ActionState::Idle)
            } else {
                let w = waypoints@[current_waypoint as int];
                if within(
                    positions[i].x as int,
                    positions[i].y as int,
                    w.0 as int,
                    w.1 as int,
                    PATROL_ARRIVAL_RADIUS as int,
                ) {
                    Some(ActionState::Idle)
                } else {
                    Some(
                        intent_toward(
                            positions[i].x as int,
                            positions[i].y as int,
                            w.0 as int,
                            w.1 as int,
                        ),
                    )
                }
            }
        },
        AiState::Chase { target_entity, detection_range, attack_range } => {
            if target_entity < positions.len() {
                let t = positions[target_entity as int];
                if within(
                    positions[i].x as int,
                    positions[i].y as int,
                    t.x as int,
                    t.y as int,
                    attack_range as int,
                ) {
                    Some(ActionState::Attacking)
                } else if within(
                    positions[i].x as int,
                    positions[i].y as int,
                    t.x as int,
                    t.y as int,
                    detection_range as int,
                ) {
                    Some(
                        intent_toward(
                            positions[i].x as int,
                            positions[i].y as int,
                            t.x as int,
                            t.y as int,
                        ),
                    )
                } else {
                    None
                }
            } else {
                None
            }
        },
    }
}

/// How one AI pass changes the behavior itself: a patroller that arrived
/// advances to the next waypoint (wrapping around); everything else is
/// left untouched.
pub open spec fn ai_advanced(pre: AiState, post: AiState, positions: Seq<Position>, i: int) -> bool {
    match pre {
        AiState::Patrol { waypoints: w, current_waypoint: c } => {
            if w@.len() > 0 && within(
                positions[i].x as int,
                positions[i].y as int,
                w@[c as int].0 as int,
                w@[c as int].1 as int,
                PATROL_ARRIVAL_RADIUS as int,
            ) {
                &&& post matches AiState::Patrol { waypoints: w2, current_waypoint: c2 }
                &&& w2@ == w@
                &&& c2 == ((c + 1) % w@.len() as int)
            } else {
                post == pre
            }
        },
        _ => post == pre,
    }
}

/// Law: a patroller holding its single waypoint (distance below the
/// arrival radius) emits no movement and keeps its waypoint index, pass
/// after pass, until the distance grows past the radius again.
pub proof fn lemma_patrol_holds_at_sole_waypoint(
    pre: AiState,
    post: AiState,
    positions: Seq<Position>,
    i: int,
)
    requires
        pre matches AiState::Patrol { waypoints, current_waypoint } && waypoints@.len() == 1
            && current_waypoint == 0 && within(
            positions[i].x as int,
            positions[i].y as int,
            waypoints@[0].0 as int,
            waypoints@[0].1 as int,
            PATROL_ARRIVAL_RADIUS as int,
        ),
        ai_advanced(pre, post, positions, i),
    ensures
        ai_emit(pre, positions, i) == Some(ActionState::Idle),
        post matches AiState::Patrol { waypoints: w2, current_waypoint: c2 } && w2@
            == pre->Patrol_waypoints@ && c2 == 0,
{
}

/// Euclidean range test on integer coordinates, exact over the full
/// coordinate space.
pub fn within_range(ax: i64, ay: i64, bx: i64, by: i64, range: i64) -> (res: bool)
    requires
        range >= 0,
    ensures
        res == within(ax as int, ay as int, bx as int, by as int, range as int),
{
    let dx: i128 = bx as i128 - ax as i128;
    let dy: i128 = by as i128 - ay as i128;
    let r: i128 = range as i128;
    if dx >= r || -dx >= r || dy >= r || -dy >= r {
        proof {
            assert(dx * dx + dy * dy >= r * r) by (nonlinear_arith)
                requires
                    dx >= r || -dx >= r || dy >= r || -dy >= r,
                    r >= 0,
            ;
        }
        false
    } else {
        proof {
            assert(0 <= dx * dx && dx * dx < r * r && 0 <= dy * dy && dy * dy < r * r && r * r
                <= 0x4000_0000_0000_0000_0000_0000_0000_0000) by (nonlinear_arith)
                requires
                    -r < dx < r,
                    -r < dy < r,
                    0 <= r <= 0x8000_0000_0000_0000,
            ;
        }
        dx * dx + dy * dy < r * r
    }
}

pub struct AiSystem;

impl AiSystem {
    /// One AI pass for entity `i` alone: emit an intent into its action
    /// slot (or leave the slot as it was) and advance its patrol state.
    pub fn step_entity(
        positions: &Vec<Position>,
        ais: &mut Vec<Ai>,
        action_states: &mut Vec<ActionState>,
        i: usize,
    )
        requires
            old(ais).len() == positions.len(),
            old(action_states).len() == positions.len(),
            i < positions.len(),
            old(ais)@[i as int].wf(),
        ensures
            final(ais).len() == old(ais).len(),
            final(action_states).len() == old(action_states).len(),
            ai_advanced(
                old(ais)@[i as int].behavior,
                final(ais)@[i as int].behavior,
                positions@,
                i as int,
            ),
            final(ais)@[i as int].wf(),
            forall|j: int| 0 <= j < old(ais).len() && j != i ==> final(ais)@[j] == old(ais)@[j],
            final(action_states)@ == old(action_states)@.update(
                i as int,
                match ai_emit(old(ais)@[i as int].behavior, positions@, i as int) {
                    Some(a) => a,
                    None => old(action_states)@[i as int],
                },
            ),
    {
        let p = positions[i];
        let mut advance_to: Option<usize> = None;
        let mut emit: Option<ActionState> = None;
        match &ais[i].behavior {
            AiState::Idle => {
                emit = Some(ActionState::Idle);
            },
            AiState::Patrol { waypoints, current_waypoint } => {
                if waypoints.len() == 0 {
                    emit = Some(ActionState::Idle);
                } else {
                    let (wx, wy) = waypoints[*current_waypoint];
                    if within_range(p.x, p.y, wx, wy, PATROL_ARRIVAL_RADIUS) {
                        advance_to = Some((*current_waypoint + 1) % waypoints.len());
                        emit = Some(ActionState::Idle);
                    } else {
                        emit = Some(
                            ActionState::Moving {
                                right: wx > p.x,
                                left: wx < p.x,
                                up: wy < p.y,
                                down: wy > p.y,
                            },
                        );
                    }
                }
            },
            AiState::Chase { target_entity, detection_range, attack_range } => {
                if *target_entity < positions.len() {
                    let t = positions[*target_entity];
                    if within_range(p.x, p.y, t.x, t.y, *attack_range) {
                        emit = Some(ActionState::Attacking);
                    } else if within_range(p.x, p.y, t.x, t.y, *detection_range) {
                        emit = Some(
                            ActionState::Moving {
                                right: t.x > p.x,
                                left: t.x < p.x,
                                up: t.y < p.y,
                                down: t.y > p.y,
                            },
                        );
                    }
                }
            },
        }
        if let Some(c2) = advance_to {
            match &mut ais[i].behavior {
                AiState::Patrol { current_waypoint, .. } => {
                    *current_waypoint = c2;
                },
                _ => {},
            }
        }
        if let Some(a) = emit {
            action_states.set(i, a);
        } else {
            proof {
                assert(action_states@ =~= old(action_states)@.update(
                    i as int,
                    old(action_states)@[i as int],
                ));
            }
        }
    }

    /// One AI pass over every entity, in index order. Each entity's intent
    /// is emitted from the positions as they stand at the start of the
    /// pass (the AI resolver itself moves nobody).
    pub fn run(
        entities: &Vec<Entity>,
        positions: &Vec<Position>,
        ais: &mut Vec<Ai>,
        action_states: &mut Vec<ActionState>,
    )
        requires
            positions.len() == entities.len(),
            old(ais).len() == entities.len(),
            old(action_states).len() == entities.len(),
            forall|i: int| 0 <= i < old(ais).len() ==> #[trigger] old(ais)@[i].wf(),
        ensures
            final(ais).len() == old(ais).len(),
            final(action_states).len() == old(action_states).len(),
            forall|i: int|
                0 <= i < old(ais).len() ==> ai_advanced(
                    old(ais)@[i].behavior,
                    #[trigger] final(ais)@[i].behavior,
                    positions@,
                    i,
                ),
            forall|i: int| 0 <= i < old(ais).len() ==> #[trigger] final(ais)@[i].wf(),
            forall|i: int|
                0 <= i < old(action_states).len() ==> #[trigger] final(action_states)@[i] == match
                    ai_emit(old(ais)@[i].behavior, positions@, i) {
                    Some(a) => a,
                    None => old(action_states)@[i],
                },
    {
        let n = positions.len();
        let mut i: usize = 0;
        while i < n
            invariant
                i <= n,
                n == positions.len(),
                ais.len() == n,
                action_states.len() == n,
                n == old(ais).len(),
                n == old(action_states).len(),
                forall|k: int| i <= k < n ==> #[trigger] ais@[k] == old(ais)@[k],
                forall|k: int| i <= k < n ==> #[trigger] action_states@[k] == old(
                    action_states,
                )@[k],
                forall|k: int| 0 <= k < n ==> #[trigger] old(ais)@[k].wf(),
                forall|k: int|
                    0 <= k < i ==> ai_advanced(
                        old(ais)@[k].behavior,
                        #[trigger] ais@[k].behavior,
                        positions@,
                        k,
                    ),
                forall|k: int| 0 <= k < i ==> #[trigger] ais@[k].wf(),
                forall|k: int|
                    0 <= k < i ==> #[trigger] action_states@[k] == match ai_emit(
                        old(ais)@[k].behavior,
                        positions@,
                        k,
                    ) {
                        Some(a) => a,
                        None => old(action_states)@[k],
                    },
            decreases n - i,
        {
            AiSystem::step_entity(positions, ais, action_states, i);
            i = i + 1;
        }
    }
}

} // verus!
