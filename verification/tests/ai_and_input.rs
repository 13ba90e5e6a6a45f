use tilecore::components::action_state::ActionState;
use tilecore::components::ai::{Ai, AiState};
use tilecore::components::entity::Entity;
use tilecore::components::game_action::GameAction;
use tilecore::components::input_bindings::{
    InputBindings, KEY_LEFT, KEY_RIGHT, KEY_SPACE, KEY_UP,
};
use tilecore::components::position::Position;
use tilecore::systems::ai_system::AiSystem;
use tilecore::systems::input_system::InputSystem;

fn run_ai(ai: Ai, pos: Position, others: Vec<Position>) -> (Ai, ActionState) {
    let mut positions = vec![pos];
    positions.extend(others);
    let entities: Vec<Entity> = (0..positions.len()).map(Entity).collect();
    let mut ais: Vec<Ai> = (0..positions.len()).map(|_| Ai { behavior: AiState::Idle }).collect();
    ais[0] = ai;
    let mut actions = vec![ActionState::Idle; positions.len()];
    actions[0] = ActionState::Attacking; // sentinel to see "no emission"
    AiSystem::run(&entities, &positions, &mut ais, &mut actions);
    (ais.swap_remove(0), actions[0])
}

#[test]
fn idle_ai_emits_idle() {
    let (_, a) = run_ai(Ai { behavior: AiState::Idle }, Position::new(0, 0, true), vec![]);
    assert_eq!(a, ActionState::Idle);
}

#[test]
fn patrol_with_no_waypoints_emits_idle() {
    let ai = Ai { behavior: AiState::Patrol { waypoints: vec![], current_waypoint: 0 } };
    let (ai2, a) = run_ai(ai, Position::new(3, 4, true), vec![]);
    assert_eq!(a, ActionState::Idle);
    assert_eq!(
        ai2.behavior,
        AiState::Patrol { waypoints: vec![], current_waypoint: 0 }
    );
}

#[test]
fn patrol_at_waypoint_emits_idle_and_wraps_waypoint() {
    // One waypoint, already there: the wrap keeps the index at 0 and no
    // movement is emitted on the arrival frame.
    let ai = Ai {
        behavior: AiState::Patrol { waypoints: vec![(100, 100)], current_waypoint: 0 },
    };
    let (ai2, a) = run_ai(ai, Position::new(100, 100, true), vec![]);
    assert_eq!(a, ActionState::Idle);
    assert_eq!(
        ai2.behavior,
        AiState::Patrol { waypoints: vec![(100, 100)], current_waypoint: 0 }
    );
}

#[test]
fn patrol_far_from_waypoint_moves_diagonally() {
    let ai = Ai {
        behavior: AiState::Patrol { waypoints: vec![(100, 100)], current_waypoint: 0 },
    };
    let (ai2, a) = run_ai(ai, Position::new(0, 0, true), vec![]);
    assert_eq!(
        a,
        ActionState::Moving { right: true, left: false, up: false, down: true }
    );
    assert_eq!(
        ai2.behavior,
        AiState::Patrol { waypoints: vec![(100, 100)], current_waypoint: 0 }
    );
}

#[test]
fn patrol_arrival_radius_is_five_units() {
    let ai = || Ai {
        behavior: AiState::Patrol { waypoints: vec![(10, 0), (0, 0)], current_waypoint: 0 },
    };
    // Distance 5: not arrived (strictly less than 5 counts as arrival).
    let (ai2, a) = run_ai(ai(), Position::new(5, 0, true), vec![]);
    assert_eq!(a, ActionState::Moving { right: true, left: false, up: false, down: false });
    assert_eq!(
        ai2.behavior,
        AiState::Patrol { waypoints: vec![(10, 0), (0, 0)], current_waypoint: 0 }
    );
    // Distance ~4.47: arrived, waypoint advances to the next one.
    let (ai3, a3) = run_ai(ai(), Position::new(8, 4, true), vec![]);
    assert_eq!(a3, ActionState::Idle);
    assert_eq!(
        ai3.behavior,
        AiState::Patrol { waypoints: vec![(10, 0), (0, 0)], current_waypoint: 1 }
    );
}

#[test]
fn chase_attacks_close_pursues_detected_ignores_far() {
    let chase = || Ai {
        behavior: AiState::Chase { target_entity: 1, detection_range: 200, attack_range: 50 },
    };
    // Within attack range.
    let (_, a) = run_ai(chase(), Position::new(0, 0, true), vec![Position::new(30, 0, true)]);
    assert_eq!(a, ActionState::Attacking);
    // Within detection range only: move toward the target.
    let (_, a) = run_ai(chase(), Position::new(0, 0, true), vec![Position::new(0, -100, true)]);
    assert_eq!(a, ActionState::Moving { right: false, left: false, up: true, down: false });
    // Beyond detection range: the previous intent is left in place.
    let (_, a) = run_ai(chase(), Position::new(0, 0, true), vec![Position::new(300, 0, true)]);
    assert_eq!(a, ActionState::Attacking); // the sentinel survived
}

#[test]
fn chase_with_invalid_target_changes_nothing() {
    let chase = Ai {
        behavior: AiState::Chase { target_entity: 9, detection_range: 200, attack_range: 50 },
    };
    let (ai2, a) = run_ai(chase, Position::new(0, 0, true), vec![]);
    assert_eq!(a, ActionState::Attacking); // the sentinel survived
    assert_eq!(
        ai2.behavior,
        AiState::Chase { target_entity: 9, detection_range: 200, attack_range: 50 }
    );
}

fn held(keys: &[u32]) -> Vec<bool> {
    let mut v = vec![false; 200];
    for &k in keys {
        v[k as usize] = true;
    }
    v
}

#[test]
fn movement_keys_are_level_triggered() {
    let mut sys = InputSystem::new(200);
    let entities = vec![Entity(0)];
    let bindings = vec![InputBindings::default()];
    let a = sys.run(&entities, &bindings, &held(&[KEY_RIGHT, KEY_UP]));
    assert_eq!(
        a[0],
        ActionState::Moving { right: true, left: false, up: true, down: false }
    );
    // Still held next frame: still moving.
    let a = sys.run(&entities, &bindings, &held(&[KEY_RIGHT, KEY_UP]));
    assert_eq!(
        a[0],
        ActionState::Moving { right: true, left: false, up: true, down: false }
    );
}

#[test]
fn opposing_movement_keys_both_report() {
    let mut sys = InputSystem::new(200);
    let entities = vec![Entity(0)];
    let bindings = vec![InputBindings::default()];
    let a = sys.run(&entities, &bindings, &held(&[KEY_RIGHT, KEY_LEFT]));
    assert_eq!(
        a[0],
        ActionState::Moving { right: true, left: true, up: false, down: false }
    );
}

#[test]
fn attack_is_edge_triggered_and_overrides_movement() {
    let mut sys = InputSystem::new(200);
    let entities = vec![Entity(0)];
    let bindings = vec![InputBindings::default()];
    // Space newly pressed while moving: attack wins, movement unreported.
    let a = sys.run(&entities, &bindings, &held(&[KEY_SPACE, KEY_RIGHT]));
    assert_eq!(a[0], ActionState::Attacking);
    // Space still held: no repeat fire; movement reports again.
    let a = sys.run(&entities, &bindings, &held(&[KEY_SPACE, KEY_RIGHT]));
    assert_eq!(
        a[0],
        ActionState::Moving { right: true, left: false, up: false, down: false }
    );
    // Released, then pressed again: fires again.
    let a = sys.run(&entities, &bindings, &held(&[]));
    assert_eq!(a[0], ActionState::Idle);
    let a = sys.run(&entities, &bindings, &held(&[KEY_SPACE]));
    assert_eq!(a[0], ActionState::Attacking);
}

#[test]
fn later_binding_for_same_key_wins() {
    let b = InputBindings::new(vec![
        (7, GameAction::MoveRight),
        (7, GameAction::Attack),
    ]);
    assert_eq!(b.keys, vec![(7, GameAction::Attack)]);
    let mut sys = InputSystem::new(16);
    let entities = vec![Entity(0)];
    let a = sys.run(&entities, &vec![b], &held(&[7]));
    assert_eq!(a[0], ActionState::Attacking);
}

#[test]
fn unbound_keys_do_nothing() {
    let mut sys = InputSystem::new(200);
    let entities = vec![Entity(0)];
    let bindings = vec![InputBindings::default()];
    let a = sys.run(&entities, &bindings, &held(&[5, 6, 60]));
    assert_eq!(a[0], ActionState::Idle);
}

#[test]
fn patrol_wraps_from_last_waypoint_to_first() {
    let ai = Ai {
        behavior: AiState::Patrol { waypoints: vec![(0, 0), (10, 0)], current_waypoint: 1 },
    };
    let (ai2, a) = run_ai(ai, Position::new(10, 1, true), vec![]);
    assert_eq!(a, ActionState::Idle);
    assert_eq!(
        ai2.behavior,
        AiState::Patrol { waypoints: vec![(0, 0), (10, 0)], current_waypoint: 0 }
    );
}

#[test]
fn default_action_state_is_idle() {
    assert_eq!(ActionState::default(), ActionState::Idle);
}

#[test]
fn default_trait_matches_default_bindings() {
    assert_eq!(InputBindings::default().keys, InputBindings::default_bindings().keys);
}
