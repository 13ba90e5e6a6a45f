//! Movement & collision resolver: turns one frame's intent into a
//! position delta, resolves it against the tile grid, and reverts the
//! whole displacement on a blocking collision.

use vstd::prelude::*;
use vstd::arithmetic::div_mod::lemma_div_is_ordered;
use vstd::arithmetic::div_mod::lemma_div_multiples_vanish;
use vstd::arithmetic::div_mod::lemma_fundamental_div_mod;
use vstd::arithmetic::div_mod::lemma_multiply_divide_lt;
use crate::components::action_state::ActionState;
use crate::components::entity::Entity;
use crate::components::position::Position;
use crate::components::tilemap::MAX_MAP_DIM;
use crate::components::tilemap::MAX_TILE_SIZE;
use crate::components::tilemap::TileType;
use crate::components::tilemap::TileTypes;
use crate::components::tilemap::Tilemap;

verus! {

/// The collision box is a fixed fraction of the 32-by-32 world-unit
/// sprite: its lower middle quarter, the sprite's footprint.
pub const COLLIDER_OFFSET_X: i64 = 8;

pub const COLLIDER_OFFSET_Y: i64 = 16;

pub const COLLIDER_WIDTH: i64 = 16;

pub const COLLIDER_HEIGHT: i64 = 16;

/// Net horizontal displacement of a `Moving` intent: each set bit
/// contributes the entity's speed, so opposing bits cancel.
pub open spec fn spec_move_dx(right: bool, left: bool, speed: int) -> int {
    (if right {
        speed
    } else {
        0
    }) - (if left {
        speed
    } else {
        0
    })
}

/// Net vertical displacement: down is the positive y direction.
pub open spec fn spec_move_dy(up: bool, down: bool, speed: int) -> int {
    (if down {
        speed
    } else {
        0
    }) - (if up {
        speed
    } else {
        0
    })
}

/// Addition clamped to the range of the coordinate type (the world edge).
pub open spec fn sat_add_i64(a: int, b: int) -> int {
    if a + b > i64::MAX {
        i64::MAX as int
    } else if a + b < i64::MIN {
        i64::MIN as int
    } else {
        a + b
    }
}

/// The x coordinate the intent asks for, before collision is considered.
pub open spec fn spec_moved_x(p: Position, a: ActionState) -> int {
    match a {
        ActionState::Moving { right, left, up, down } => sat_add_i64(
            p.x as int,
            spec_move_dx(right, left, p.speed as int),
        ),
        _ => p.x as int,
    }
}

/// The y coordinate the intent asks for, before collision is considered.
pub open spec fn spec_moved_y(p: Position, a: ActionState) -> int {
    match a {
        ActionState::Moving { right, left, up, down } => sat_add_i64(
            p.y as int,
            spec_move_dy(up, down, p.speed as int),
        ),
        _ => p.y as int,
    }
}

/// Whether grid cell `(tx, ty)` blocks movement: cells outside the grid
/// block (fail-safe), and inside the grid only tiles mapped to Wall block —
/// Lava is solid for generic traversal but deliberately does not block
/// movement (it is meant to hurt, not to stop).
pub open spec fn blocks_movement_at(tm: Tilemap, tt: TileTypes, tx: int, ty: int) -> bool {
    if 0 <= tx < tm.width && 0 <= ty < tm.height {
        tt.spec_type_of(tm.spec_tile_at(tx, ty)) == Some(TileType::Wall)
    } else {
        true
    }
}

/// Whether the collision box anchored at sprite position `(x, y)` overlaps
/// any blocking cell: the box corners are converted to tile coordinates
/// and every cell the box overlaps is considered.
pub open spec fn spec_blocked(tm: Tilemap, tt: TileTypes, x: int, y: int) -> bool {
    let ts = tm.tile_size as int;
    let bx0 = x + COLLIDER_OFFSET_X;
    let by0 = y + COLLIDER_OFFSET_Y;
    let bx1 = bx0 + COLLIDER_WIDTH - 1;
    let by1 = by0 + COLLIDER_HEIGHT - 1;
    exists|tx: int, ty: int|
        bx0 / ts <= tx <= bx1 / ts && by0 / ts <= ty <= by1 / ts && #[trigger] blocks_movement_at(
            tm,
            tt,
            tx,
            ty,
        )
}

/// Collision applies only when both a grid and a type mapping are supplied.
pub open spec fn grid_blocks(
    tm_opt: Option<Tilemap>,
    tt_opt: Option<TileTypes>,
    x: int,
    y: int,
) -> bool {
    match (tm_opt, tt_opt) {
        (Some(tm), Some(tt)) => spec_blocked(tm, tt, x, y),
        _ => false,
    }
}

/// The position after one movement resolver pass on one entity: only a
/// `Moving` intent moves; facing flips only on nonzero net horizontal
/// displacement; a blocking collision rejects the whole displacement.
pub open spec fn spec_resolved(
    p: Position,
    a: ActionState,
    tm_opt: Option<Tilemap>,
    tt_opt: Option<TileTypes>,
) -> Position {
    match a {
        ActionState::Moving { right, left, up, down } => {
            let dx = spec_move_dx(right, left, p.speed as int);
            if grid_blocks(tm_opt, tt_opt, spec_moved_x(p, a), spec_moved_y(p, a)) {
                p
            } else {
                Position {
                    x: spec_moved_x(p, a) as i64,
                    y: spec_moved_y(p, a) as i64,
                    facing_right: if dx > 0 {
                        true
                    } else if dx < 0 {
                        false
                    } else {
                        p.facing_right
                    },
                    speed: p.speed,
                }
            }
        },
        _ => p,
    }
}

/// View through an optional reference, for stating contracts.
pub open spec fn opt_value<T>(o: Option<&T>) -> Option<T> {
    match o {
        Some(t) => Some(*t),
        None => None,
    }
}

proof fn lemma_neg_div_is_neg(b: int, d: int)
    requires
        b < 0,
        0 < d,
    ensures
        b / d < 0,
{
    lemma_fundamental_div_mod(b, d);
    if b / d >= 0 {
        assert(b >= 0) by (nonlinear_arith)
            requires
                b == d * (b / d) + b % d,
                b % d >= 0,
                b / d >= 0,
                d > 0,
        ;
    }
}

pub struct MovementSystem;

impl MovementSystem {
    /// Whether the collision box anchored at `(x, y)` overlaps a blocking
    /// cell of `tilemap` under `tile_types`.
    #[verifier::loop_isolation(false)]
    pub fn movement_blocked(tilemap: &Tilemap, tile_types: &TileTypes, x: i64, y: i64) -> (b: bool)
        requires
            tilemap.wf(),
        ensures
            b == spec_blocked(*tilemap, *tile_types, x as int, y as int),
    {
        let ts: i128 = tilemap.tile_size as i128;
        let bx0: i128 = x as i128 + COLLIDER_OFFSET_X as i128;
        let by0: i128 = y as i128 + COLLIDER_OFFSET_Y as i128;
        let bx1: i128 = bx0 + (COLLIDER_WIDTH - 1) as i128;
        let by1: i128 = by0 + (COLLIDER_HEIGHT - 1) as i128;
        proof {
            lemma_div_is_ordered(bx0 as int, bx1 as int, ts as int);
            lemma_div_is_ordered(by0 as int, by1 as int, ts as int);
        }
        if bx0 < 0 || by0 < 0 {
            proof {
                if bx0 < 0 {
                    lemma_neg_div_is_neg(bx0 as int, ts as int);
                } else {
                    lemma_neg_div_is_neg(by0 as int, ts as int);
                }
                assert(blocks_movement_at(*tilemap, *tile_types, bx0 as int / ts as int, by0 as int / ts as int));
            }
            return true;
        }
        proof {
            assert((tilemap.width as i128) * ts <= 0x1_0000_0000_0000i128 && (tilemap.height
                as i128) * ts <= 0x1_0000_0000_0000i128) by (nonlinear_arith)
                requires
                    0 <= tilemap.width <= MAX_MAP_DIM,
                    0 <= tilemap.height <= MAX_MAP_DIM,
                    0 < ts <= MAX_TILE_SIZE,
            ;
        }
        let ww: i128 = (tilemap.width as i128) * ts;
        let wh: i128 = (tilemap.height as i128) * ts;
        if bx1 >= ww || by1 >= wh {
            proof {
                assert(ww as int == tilemap.width * (ts as int));
                assert(wh as int == tilemap.height * (ts as int));
                if bx1 as int >= tilemap.width * ts as int {
                    lemma_div_multiples_vanish(tilemap.width as int, ts as int);
                    lemma_div_is_ordered(
                        (ts as int) * (tilemap.width as int),
                        bx1 as int,
                        ts as int,
                    );
                } else {
                    lemma_div_multiples_vanish(tilemap.height as int, ts as int);
                    lemma_div_is_ordered(
                        (ts as int) * (tilemap.height as int),
                        by1 as int,
                        ts as int,
                    );
                }
                assert(blocks_movement_at(*tilemap, *tile_types, bx1 as int / ts as int, by1 as int / ts as int));
            }
            return true;
        }
        proof {
            lemma_multiply_divide_lt(bx1 as int, ts as int, tilemap.width as int);
            lemma_multiply_divide_lt(by1 as int, ts as int, tilemap.height as int);
            vstd::arithmetic::div_mod::lemma_div_pos_is_pos(bx0 as int, ts as int);
            vstd::arithmetic::div_mod::lemma_div_pos_is_pos(by0 as int, ts as int);
        }
        let tsu: u128 = tilemap.tile_size as u128;
        let tx0: usize = ((bx0 as u128) / tsu) as usize;
        let tx1: usize = ((bx1 as u128) / tsu) as usize;
        let ty0: usize = ((by0 as u128) / tsu) as usize;
        let ty1: usize = ((by1 as u128) / tsu) as usize;
        assert(tx0 as int == bx0 as int / ts as int);
        assert(tx1 as int == bx1 as int / ts as int);
        assert(ty0 as int == by0 as int / ts as int);
        assert(ty1 as int == by1 as int / ts as int);
        let mut ty: usize = ty0;
        while ty <= ty1
            invariant
                tilemap.wf(),
                tx0 as int == (x + COLLIDER_OFFSET_X) as int / tilemap.tile_size as int,
                tx1 as int == (x + COLLIDER_OFFSET_X + COLLIDER_WIDTH - 1) as int
                    / tilemap.tile_size as int,
                ty0 as int == (y + COLLIDER_OFFSET_Y) as int / tilemap.tile_size as int,
                ty1 as int == (y + COLLIDER_OFFSET_Y + COLLIDER_HEIGHT - 1) as int
                    / tilemap.tile_size as int,
                tx0 <= tx1 < tilemap.width,
                ty0 <= ty <= ty1 + 1,
                ty1 < tilemap.height,
                forall|a: int, b: int|
                    ty0 <= a < ty && tx0 <= b <= tx1 ==> !blocks_movement_at(
                        *tilemap,
                        *tile_types,
                        b,
                        a,
                    ),
            decreases ty1 + 1 - ty,
        {
            let mut tx: usize = tx0;
            while tx <= tx1
                invariant
                    tilemap.wf(),
                    tx0 <= tx <= tx1 + 1,
                    tx1 < tilemap.width,
                    ty0 <= ty <= ty1,
                    ty1 < tilemap.height,
                    forall|b: int|
                        tx0 <= b < tx ==> !blocks_movement_at(*tilemap, *tile_types, b, ty as int),
                decreases tx1 + 1 - tx,
            {
                let id = tilemap.tiles[ty][tx];
                match tile_types.get(id) {
                    Some(t) => {
                        if t == TileType::Wall {
                            assert(blocks_movement_at(*tilemap, *tile_types, tx as int, ty as int));
                            return true;
                        }
                    },
                    None => {},
                }
                tx = tx + 1;
            }
            ty = ty + 1;
        }
        false
    }

    /// One movement resolver pass on one entity: apply the intent's
    /// displacement, then reject it entirely when the grid blocks the
    /// displaced collision box.
    pub fn resolve(
        position: Position,
        action: &ActionState,
        tilemap: Option<&Tilemap>,
        tile_types: Option<&TileTypes>,
    ) -> (q: Position)
        requires
            position.wf(),
            tilemap matches Some(tm) ==> tm.wf(),
        ensures
            q == spec_resolved(position, *action, opt_value(tilemap), opt_value(tile_types)),
            q.wf(),
            q.speed == position.speed,
    {
        match action {
            ActionState::Moving { right, left, up, down } => {
                let mut dx: i64 = 0;
                let mut dy: i64 = 0;
                if *right {
                    dx = dx + position.speed;
                }
                if *left {
                    dx = dx - position.speed;
                }
                if *up {
                    dy = dy - position.speed;
                }
                if *down {
                    dy = dy + position.speed;
                }
                let nx: i64 = if dx >= 0 {
                    if position.x > i64::MAX - dx {
                        i64::MAX
                    } else {
                        position.x + dx
                    }
                } else {
                    if position.x < i64::MIN - dx {
                        i64::MIN
                    } else {
                        position.x + dx
                    }
                };
                let ny: i64 = if dy >= 0 {
                    if position.y > i64::MAX - dy {
                        i64::MAX
                    } else {
                        position.y + dy
                    }
                } else {
                    if position.y < i64::MIN - dy {
                        i64::MIN
                    } else {
                        position.y + dy
                    }
                };
                let moved = Position {
                    x: nx,
                    y: ny,
                    facing_right: if dx > 0 {
                        true
                    } else if dx < 0 {
                        false
                    } else {
                        position.facing_right
                    },
                    speed: position.speed,
                };
                match (tilemap, tile_types) {
                    (Some(tm), Some(tt)) => {
                        if MovementSystem::movement_blocked(tm, tt, nx, ny) {
                            position
                        } else {
                            moved
                        }
                    },
                    _ => moved,
                }
            },
            _ => position,
        }
    }

    /// One movement resolver pass over every entity, in index order.
    /// Collision is entity-independent: each entity is checked only
    /// against the static grid, never against other entities.
    pub fn run(
        entities: &Vec<Entity>,
        positions: &mut Vec<Position>,
        action_states: &Vec<ActionState>,
        tilemap: Option<&Tilemap>,
        tile_types: Option<&TileTypes>,
    )
        requires
            old(positions).len() == entities.len(),
            action_states.len() == entities.len(),
            forall|i: int| 0 <= i < old(positions).len() ==> #[trigger] old(positions)@[i].wf(),
            tilemap matches Some(tm) ==> tm.wf(),
        ensures
            final(positions).len() == old(positions).len(),
            forall|i: int|
                0 <= i < old(positions).len() ==> #[trigger] final(positions)@[i] == spec_resolved(
                    old(positions)@[i],
                    action_states@[i],
                    opt_value(tilemap),
                    opt_value(tile_types),
                ),
            forall|i: int| 0 <= i < old(positions).len() ==> #[trigger] final(positions)@[i].wf(),
    {
        let n = positions.len();
        let mut i: usize = 0;
        while i < n
            invariant
                i <= n,
                positions.len() == n,
                n == old(positions).len(),
                action_states.len() == n,
                tilemap matches Some(tm) ==> tm.wf(),
                forall|k: int| i <= k < n ==> #[trigger] positions@[k] == old(positions)@[k],
                forall|k: int| 0 <= k < n ==> #[trigger] old(positions)@[k].wf(),
                forall|k: int|
                    0 <= k < i ==> #[trigger] positions@[k] == spec_resolved(
                        old(positions)@[k],
                        action_states@[k],
                        opt_value(tilemap),
                        opt_value(tile_types),
                    ),
                forall|k: int| 0 <= k < i ==> #[trigger] positions@[k].wf(),
            decreases n - i,
        {
            let p = positions[i];
            let q = MovementSystem::resolve(p, &action_states[i], tilemap, tile_types);
            positions.set(i, q);
            i = i + 1;
        }
    }
}

/// Law: a `Moving` intent with only the right bit set and no grid moves
/// the entity right by exactly its speed (up to the world edge) and makes
/// it face right, leaving everything else unchanged.
pub proof fn lemma_move_right_unobstructed(p: Position, a: ActionState)
    requires
        p.wf(),
        a == (ActionState::Moving { right: true, left: false, up: false, down: false }),
        p.x + p.speed <= i64::MAX,
    ensures
        spec_resolved(p, a, None, None).x == p.x + p.speed,
        spec_resolved(p, a, None, None).y == p.y,
        spec_resolved(p, a, None, None).facing_right == (p.speed > 0 || p.facing_right),
        spec_resolved(p, a, None, None).speed == p.speed,
{
}

/// Law: when the displaced collision box overlaps a blocking cell, the
/// whole displacement is rejected and the position (facing included) is
/// exactly what it was: no partial, single-axis movement survives.
pub proof fn lemma_blocked_move_reverts(p: Position, a: ActionState, tm: Tilemap, tt: TileTypes)
    requires
        spec_blocked(tm, tt, spec_moved_x(p, a), spec_moved_y(p, a)),
    ensures
        spec_resolved(p, a, Some(tm), Some(tt)) == p,
{
}

} // verus!
