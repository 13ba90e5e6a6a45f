use tilecore::components::action_state::ActionState;
use tilecore::components::entity::Entity;
use tilecore::components::position::Position;
use tilecore::components::tilemap::{TileId, TileType, TileTypes, Tilemap, TilemapError};
use tilecore::systems::movement_system::MovementSystem;

fn standard_types() -> TileTypes {
    TileTypes::new(vec![
        TileType::Empty,
        TileType::Floor,
        TileType::Wall,
        TileType::Water,
        TileType::Lava,
    ])
}

fn run_one(
    p: Position,
    a: ActionState,
    tm: Option<&Tilemap>,
    tt: Option<&TileTypes>,
) -> Position {
    let entities = vec![Entity(0)];
    let mut positions = vec![p];
    let actions = vec![a];
    MovementSystem::run(&entities, &mut positions, &actions, tm, tt);
    positions[0]
}

#[test]
fn moving_right_without_grid_adds_exactly_speed() {
    let p = Position::new(100, 50, false);
    let a = ActionState::Moving { right: true, left: false, up: false, down: false };
    let q = run_one(p, a, None, None);
    assert_eq!(q.x, 100 + p.speed);
    assert_eq!(q.y, 50);
    assert!(q.facing_right);
}

#[test]
fn opposing_bits_cancel_and_keep_facing() {
    let p = Position::new(100, 50, false);
    let a = ActionState::Moving { right: true, left: true, up: false, down: true };
    let q = run_one(p, a, None, None);
    assert_eq!(q.x, 100);
    assert_eq!(q.y, 50 + p.speed);
    assert!(!q.facing_right); // pure vertical movement keeps facing
}

#[test]
fn attacking_and_idle_leave_position_unchanged() {
    let p = Position::new(7, 9, true);
    assert_eq!(run_one(p, ActionState::Attacking, None, None), p);
    assert_eq!(run_one(p, ActionState::Idle, None, None), p);
}

#[test]
fn wall_overlap_reverts_whole_displacement() {
    // One wall tile at (2, 1) of a 4x4 grid of 32-unit tiles.
    let mut tm = Tilemap::new(4, 4, 32);
    tm.set_tile(2, 1, TileId(2));
    let tt = standard_types();
    // Collision box is x+8..x+24, y+16..y+32; from (40, 20) moving right
    // with speed 16 lands the box inside the wall tile spanning 64..96 x
    // 32..64.
    let mut p = Position::new(40, 20, true);
    p.speed = 16;
    let a = ActionState::Moving { right: true, left: false, up: false, down: true };
    let q = run_one(p, a, Some(&tm), Some(&tt));
    assert_eq!(q, p); // full revert, both axes, facing included
}

#[test]
fn lava_does_not_block_movement() {
    let mut tm = Tilemap::new(4, 4, 32);
    tm.set_tile(2, 1, TileId(4)); // lava where the wall was
    let tt = standard_types();
    let mut p = Position::new(40, 20, true);
    p.speed = 16;
    let a = ActionState::Moving { right: true, left: false, up: false, down: true };
    let q = run_one(p, a, Some(&tm), Some(&tt));
    assert_eq!(q.x, 56);
    assert_eq!(q.y, 36);
}

#[test]
fn out_of_bounds_is_solid_for_movement() {
    let tm = Tilemap::new(2, 2, 32); // world is 64x64
    let tt = standard_types();
    let mut p = Position::new(30, 20, true);
    p.speed = 16;
    // Box right edge would pass x = 64: blocked by the world edge.
    let a = ActionState::Moving { right: true, left: false, up: false, down: false };
    let q = run_one(p, a, Some(&tm), Some(&tt));
    assert_eq!(q, p);
}

#[test]
fn free_tiles_allow_movement_under_grid() {
    let tm = Tilemap::new(4, 4, 32); // all tile id 0 = Empty
    let tt = standard_types();
    let p = Position::new(40, 20, false);
    let a = ActionState::Moving { right: true, left: false, up: false, down: false };
    let q = run_one(p, a, Some(&tm), Some(&tt));
    assert_eq!(q.x, 42);
    assert!(q.facing_right);
}

#[test]
fn tilemap_accessors_are_bounds_checked() {
    let mut tm = Tilemap::new(3, 2, 32);
    assert_eq!(tm.get_tile(2, 1), Some(TileId(0)));
    assert_eq!(tm.get_tile(3, 0), None);
    assert_eq!(tm.get_tile(0, 2), None);
    tm.set_tile(9, 9, TileId(2)); // out of bounds: no effect
    assert_eq!(tm.get_tile(2, 1), Some(TileId(0)));
    tm.set_tile(2, 1, TileId(2));
    assert_eq!(tm.get_tile(2, 1), Some(TileId(2)));
}

#[test]
fn is_solid_counts_walls_lava_and_out_of_bounds() {
    let mut tm = Tilemap::new(3, 3, 32);
    tm.set_tile(0, 0, TileId(2)); // wall
    tm.set_tile(1, 0, TileId(4)); // lava
    tm.set_tile(2, 0, TileId(1)); // floor
    tm.set_tile(0, 1, TileId(9)); // unmapped id
    let tt = standard_types();
    assert!(tm.is_solid(0, 0, &tt));
    assert!(tm.is_solid(1, 0, &tt));
    assert!(!tm.is_solid(2, 0, &tt));
    assert!(!tm.is_solid(0, 1, &tt)); // unmapped: not solid
    assert!(tm.is_solid(5, 5, &tt)); // out of bounds: solid
}

#[test]
fn from_rows_validates_shape() {
    assert_eq!(
        Tilemap::from_rows(vec![], 32).err(),
        Some(TilemapError::Empty)
    );
    assert_eq!(
        Tilemap::from_rows(vec![vec![1, 2], vec![3]], 32).err(),
        Some(TilemapError::InconsistentRowWidth)
    );
    assert_eq!(
        Tilemap::from_rows(vec![vec![1, 2]], 0).err(),
        Some(TilemapError::InvalidGeometry)
    );
    let tm = Tilemap::from_rows(vec![vec![0, 1], vec![2, 3]], 32).unwrap();
    assert_eq!(tm.width, 2);
    assert_eq!(tm.height, 2);
    assert_eq!(tm.tile_size, 32);
    assert_eq!(tm.get_tile(0, 1), Some(TileId(2)));
    assert_eq!(tm.get_tile(1, 1), Some(TileId(3)));
}

#[test]
fn movement_saturates_at_the_world_edge() {
    let mut p = Position::new(i64::MAX - 1, 0, false);
    p.speed = 16;
    let a = ActionState::Moving { right: true, left: false, up: false, down: false };
    let q = run_one(p, a, None, None);
    assert_eq!(q.x, i64::MAX);
    assert!(q.facing_right);
}

#[test]
fn negative_coordinates_are_outside_the_grid() {
    let tm = Tilemap::new(4, 4, 32);
    let tt = standard_types();
    let mut p = Position::new(-40, 10, true);
    p.speed = 4;
    let a = ActionState::Moving { right: false, left: true, up: false, down: false };
    let q = run_one(p, a, Some(&tm), Some(&tt));
    assert_eq!(q, p); // the box is left of the world: blocked, full revert
}

#[test]
fn from_rows_rejects_unsupported_tile_size() {
    assert_eq!(
        Tilemap::from_rows(vec![vec![1]], 70_000).err(),
        Some(TilemapError::InvalidGeometry)
    );
}
