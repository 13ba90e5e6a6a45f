use tilecore::components::action_state::ActionState;
use tilecore::components::ai::{Ai, AiState};
use tilecore::components::animation::{Animation, AnimationState};
use tilecore::components::health::Health;
use tilecore::components::input_bindings::{InputBindings, KEY_RIGHT, KEY_SPACE};
use tilecore::components::position::Position;
use tilecore::components::tilemap::{TileType, TileTypes, Tilemap};
use tilecore::game_state::GameState;

fn world_with_player() -> GameState {
    let mut gs = GameState::new();
    gs.spawn(
        Position::new(100, 100, true),
        Health::new(100, 100),
        InputBindings::default(),
        Animation::new(AnimationState::Idle, 6, 8, 9),
        Ai { behavior: AiState::Idle },
    );
    gs
}

fn held(keys: &[u32]) -> Vec<bool> {
    let mut v = vec![false; 200];
    for &k in keys {
        v[k as usize] = true;
    }
    v
}

#[test]
fn spawn_keeps_containers_aligned() {
    let mut gs = world_with_player();
    let id = gs.spawn(
        Position::new(200, 200, false),
        Health::new(30, 30),
        InputBindings::new(vec![]),
        Animation::new(AnimationState::Idle, 1, 1, 1),
        Ai { behavior: AiState::Chase { target_entity: 0, detection_range: 200, attack_range: 50 } },
    );
    assert_eq!(id, 1);
    assert_eq!(gs.entities.len(), 2);
    assert_eq!(gs.positions.len(), 2);
    assert_eq!(gs.healths.len(), 2);
    assert_eq!(gs.input_bindings.len(), 2);
    assert_eq!(gs.animations.len(), 2);
    assert_eq!(gs.ais.len(), 2);
    assert_eq!(gs.action_states.len(), 2);
    assert_eq!(gs.action_states[1], ActionState::Idle);
}

#[test]
fn one_frame_moves_the_player_by_held_keys() {
    let mut gs = world_with_player();
    gs.update(&held(&[KEY_RIGHT]), 16);
    assert_eq!(gs.positions[0].x, 102);
    assert_eq!(gs.positions[0].y, 100);
    assert!(gs.positions[0].facing_right);
    assert_eq!(
        gs.action_states[0],
        ActionState::Moving { right: true, left: false, up: false, down: false }
    );
    assert_eq!(gs.animations[0].state, AnimationState::Walk);
}

#[test]
fn attack_edge_locks_the_player_intent_for_the_cycle() {
    let mut gs = world_with_player();
    gs.update(&held(&[KEY_SPACE]), 16);
    assert_eq!(gs.action_states[0], ActionState::Attacking);
    assert_eq!(gs.animations[0].state, AnimationState::Attack);
    assert!(gs.animations[0].is_attack_in_progress);
    // While the lock holds, a held movement key does not take the slot.
    gs.update(&held(&[KEY_RIGHT]), 16);
    assert_eq!(gs.action_states[0], ActionState::Attacking);
    assert_eq!(gs.positions[0].x, 100);
}

#[test]
fn chaser_pursues_the_player_across_a_frame() {
    let mut gs = world_with_player();
    gs.spawn(
        Position::new(200, 100, false),
        Health::new(30, 30),
        InputBindings::new(vec![]),
        Animation::new(AnimationState::Idle, 1, 1, 1),
        Ai { behavior: AiState::Chase { target_entity: 0, detection_range: 300, attack_range: 5 } },
    );
    gs.update(&held(&[]), 16);
    // The chaser moved toward the player (left), by its default speed.
    assert_eq!(
        gs.action_states[1],
        ActionState::Moving { right: false, left: true, up: false, down: false }
    );
    assert_eq!(gs.positions[1].x, 198);
    assert!(!gs.positions[1].facing_right);
    assert_eq!(gs.animations[1].state, AnimationState::Walk);
}

#[test]
fn health_ticks_inside_the_frame() {
    let mut gs = world_with_player();
    gs.healths[0].damage_queue.push(40);
    gs.update(&held(&[]), 16);
    assert_eq!(gs.healths[0].current, 60);
    assert!(gs.healths[0].is_invulnerable());
}

#[test]
fn camera_centers_on_player_and_clamps_to_world() {
    let mut gs = world_with_player();
    // 64x32 tiles of 32 units: world is 2048 x 1024.
    let tm = Tilemap::new(64, 32, 32);
    let tt = TileTypes::new(vec![
        TileType::Empty,
        TileType::Floor,
        TileType::Wall,
        TileType::Water,
        TileType::Lava,
    ]);
    gs.set_tilemap(tm, tt);
    // Player near the origin: camera clamps to 0.
    gs.update(&held(&[]), 16);
    assert_eq!(gs.camera_x, 0);
    assert_eq!(gs.camera_y, 0);
    // Player in the middle: the camera centers on it horizontally and
    // clamps to the world's bottom edge vertically.
    gs.positions[0].x = 1000;
    gs.positions[0].y = 800;
    gs.update(&held(&[]), 16);
    assert_eq!(gs.camera_x, 1000 - 400);
    assert_eq!(gs.camera_y, 1024 - 600);
}

#[test]
fn update_on_an_empty_world_is_a_no_op() {
    let mut gs = GameState::new();
    gs.update(&held(&[]), 16);
    assert_eq!(gs.entities.len(), 0);
    assert_eq!(gs.camera_x, 0);
    assert_eq!(gs.camera_y, 0);
}

#[test]
fn update_camera_without_tilemap_keeps_camera() {
    let mut gs = world_with_player();
    let p = gs.positions[0];
    gs.update_camera(&p);
    assert_eq!(gs.camera_x, 0);
    assert_eq!(gs.camera_y, 0);
}

#[test]
fn a_wall_stops_the_player_inside_the_frame() {
    let mut gs = world_with_player();
    // Wall tile directly right of the player's collision box.
    let mut tm = Tilemap::new(8, 8, 32);
    tm.set_tile(3, 3, tilecore::components::tilemap::TileId(2));
    let tt = TileTypes::new(vec![
        TileType::Empty,
        TileType::Floor,
        TileType::Wall,
        TileType::Water,
        TileType::Lava,
    ]);
    gs.set_tilemap(tm, tt);
    // Player at (100, 100): box spans x 108..123, y 116..131; the wall
    // tile spans 96..128 x 96..128, so box and wall already touch rows
    // 116..127 — any further step right stays overlapping and reverts.
    gs.update(&held(&[KEY_RIGHT]), 16);
    assert_eq!(gs.positions[0].x, 100);
    assert_eq!(gs.positions[0].y, 100);
}
