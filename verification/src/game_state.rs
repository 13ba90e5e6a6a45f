//! The component store and the per-frame pipeline: input and AI declare
//! intents, movement resolves them against the grid, health and animation
//! advance, and the camera follows the player.

use vstd::prelude::*;
use crate::components::action_state::ActionState;
use crate::components::ai::Ai;
use crate::components::animation::Animation;
use crate::components::entity::Entity;
use crate::components::health::Health;
use crate::components::input_bindings::InputBindings;
use crate::components::position::Position;
use crate::components::tilemap::MAX_MAP_DIM;
use crate::components::tilemap::MAX_TILE_SIZE;
use crate::components::tilemap::TileTypes;
use crate::components::tilemap::Tilemap;
use crate::systems::ai_system::AiSystem;
use crate::systems::ai_system::ai_advanced;
use crate::systems::ai_system::ai_emit;
use crate::systems::health_system::HealthSystem;
use crate::systems::health_system::health_stepped;
use crate::systems::input_system::InputSystem;
use crate::systems::input_system::key_held;
use crate::systems::input_system::resolved_intent;
use crate::systems::movement_system::MovementSystem;
use crate::systems::movement_system::spec_resolved;

verus! {

/// Screen size in world units, for the camera.
pub const SCREEN_WIDTH: i64 = 800;

pub const SCREEN_HEIGHT: i64 = 600;

/// Milliseconds the animation clock advances per frame.
pub const ANIMATION_FRAME_TIME: u32 = 16;

/// Key codes the input resolver remembers for edge detection.
pub const TRACKED_KEYS: usize = 200;

/// One camera axis: center the camera on the player, clamped into the
/// world — but when the world is narrower than the screen, the far edge
/// wins (the camera sits at the negative far-edge offset).
pub open spec fn spec_camera(player: int, screen: int, world_extent: int) -> int {
    let centered = player - screen / 2;
    let lo = if centered > 0 {
        centered
    } else {
        0
    };
    if lo < world_extent - screen {
        lo
    } else {
        world_extent - screen
    }
}

/// The whole world: entities are indices into the parallel component
/// containers, which all stay index-aligned; the tile grid and the type
/// mapping are read-only inputs to movement.
pub struct GameState {
    pub entities: Vec<Entity>,
    pub positions: Vec<Position>,
    pub healths: Vec<Health>,
    pub input_bindings: Vec<InputBindings>,
    pub animations: Vec<Animation>,
    pub ais: Vec<Ai>,
    pub action_states: Vec<ActionState>,
    pub tilemap: Option<Tilemap>,
    pub tile_types: TileTypes,
    pub camera_x: i64,
    pub camera_y: i64,
    pub input_system: InputSystem,
}

impl GameState {
    /// Number of entities.
    pub open spec fn n(self) -> int {
        self.entities@.len() as int
    }

    /// Well-formedness: every component container holds exactly one
    /// well-formed record per entity, and the grid (when present) is
    /// well-formed. This is the invariant the whole design rests on.
    pub open spec fn wf(self) -> bool {
        &&& self.positions@.len() == self.n()
        &&& self.healths@.len() == self.n()
        &&& self.input_bindings@.len() == self.n()
        &&& self.animations@.len() == self.n()
        &&& self.ais@.len() == self.n()
        &&& self.action_states@.len() == self.n()
        &&& forall|i: int| 0 <= i < self.n() ==> (#[trigger] self.positions@[i]).wf()
        &&& forall|i: int| 0 <= i < self.n() ==> (#[trigger] self.healths@[i]).wf()
        &&& forall|i: int| 0 <= i < self.n() ==> (#[trigger] self.animations@[i]).wf()
        &&& forall|i: int| 0 <= i < self.n() ==> (#[trigger] self.ais@[i]).wf()
        &&& self.tilemap matches Some(tm) ==> tm.wf()
    }

    /// The intent the player (entity 0) declares this frame.
    pub open spec fn spec_player_intent(self, held: Seq<bool>) -> ActionState {
        resolved_intent(self.input_bindings@[0].keys@, held, self.input_system.previous_keys@)
    }

    /// Action slots after the input stage: the player's slot takes the
    /// declared intent unless their attack animation is locked; AI slots
    /// are not yet touched.
    pub open spec fn spec_actions_after_input(self, held: Seq<bool>) -> Seq<ActionState> {
        if self.n() > 0 && !self.animations@[0].is_attack_in_progress {
            self.action_states@.update(0, self.spec_player_intent(held))
        } else {
            self.action_states@
        }
    }

    /// Positions after the player's movement resolved, which is what the
    /// AI stage reads: the player has moved, nobody else has.
    pub open spec fn spec_positions_mid(self, held: Seq<bool>) -> Seq<Position> {
        if self.n() > 0 {
            self.positions@.update(
                0,
                spec_resolved(
                    self.positions@[0],
                    self.spec_actions_after_input(held)[0],
                    self.tilemap,
                    Some(self.tile_types),
                ),
            )
        } else {
            self.positions@
        }
    }

    /// Action slots at the end of the frame: the player's from input, the
    /// others from their AI (which may leave the previous frame's intent).
    pub open spec fn spec_actions_final(self, held: Seq<bool>) -> Seq<ActionState> {
        Seq::new(
            self.n() as nat,
            |i: int|
                if i == 0 {
                    self.spec_actions_after_input(held)[0]
                } else {
                    match ai_emit(self.ais@[i].behavior, self.spec_positions_mid(held), i) {
                        Some(a) => a,
                        None => self.action_states@[i],
                    }
                },
        )
    }

    /// Positions at the end of the frame: every entity's start-of-frame
    /// position resolved once under its final intent.
    pub open spec fn spec_positions_final(self, held: Seq<bool>) -> Seq<Position> {
        Seq::new(
            self.n() as nat,
            |i: int|
                spec_resolved(
                    self.positions@[i],
                    self.spec_actions_final(held)[i],
                    self.tilemap,
                    Some(self.tile_types),
                ),
        )
    }

    /// Animations at the end of the frame: each takes its entity's final
    /// intent, then advances by one fixed animation step.
    pub open spec fn spec_animations_final(self, held: Seq<bool>) -> Seq<Animation> {
        Seq::new(
            self.n() as nat,
            |i: int|
                self.animations@[i].spec_apply_intent(
                    self.spec_actions_final(held)[i],
                ).spec_update(ANIMATION_FRAME_TIME),
        )
    }

    /// An empty world: no entities, no grid, camera at the origin, and an
    /// input resolver tracking the standard key range.
    pub fn new() -> (gs: GameState)
        ensures
            gs.wf(),
            gs.n() == 0,
            gs.tilemap is None,
            gs.tile_types.types@.len() == 0,
            gs.camera_x == 0,
            gs.camera_y == 0,
            gs.input_system.previous_keys@.len() == TRACKED_KEYS,
    {
        GameState {
            entities: Vec::new(),
            positions: Vec::new(),
            healths: Vec::new(),
            input_bindings: Vec::new(),
            animations: Vec::new(),
            ais: Vec::new(),
            action_states: Vec::new(),
            tilemap: None,
            tile_types: TileTypes::new(Vec::new()),
            camera_x: 0,
            camera_y: 0,
            input_system: InputSystem::new(TRACKED_KEYS),
        }
    }

    /// Add one entity, appending one record to every component container
    /// so the containers stay index-aligned; its intent starts as `Idle`.
    /// Returns the new entity's index.
    pub fn spawn(
        &mut self,
        position: Position,
        health: Health,
        bindings: InputBindings,
        animation: Animation,
        ai: Ai,
    ) -> (id: usize)
        requires
            old(self).wf(),
            old(self).n() < usize::MAX,
            position.wf(),
            health.wf(),
            animation.wf(),
            ai.wf(),
        ensures
            final(self).wf(),
            id == old(self).n(),
            final(self).n() == old(self).n() + 1,
            final(self).entities@ == old(self).entities@.push(Entity(id)),
            final(self).positions@ == old(self).positions@.push(position),
            final(self).healths@ == old(self).healths@.push(health),
            final(self).input_bindings@ == old(self).input_bindings@.push(bindings),
            final(self).animations@ == old(self).animations@.push(animation),
            final(self).ais@ == old(self).ais@.push(ai),
            final(self).action_states@ == old(self).action_states@.push(ActionState::Idle),
            final(self).tilemap == old(self).tilemap,
            final(self).tile_types == old(self).tile_types,
            final(self).camera_x == old(self).camera_x,
            final(self).camera_y == old(self).camera_y,
            final(self).input_system == old(self).input_system,
    {
        let id = self.entities.len();
        self.entities.push(Entity(id));
        self.positions.push(position);
        self.healths.push(health);
        self.input_bindings.push(bindings);
        self.animations.push(animation);
        self.ais.push(ai);
        self.action_states.push(ActionState::Idle);
        id
    }

    /// Install the tile grid and its type mapping.
    pub fn set_tilemap(&mut self, tilemap: Tilemap, tile_types: TileTypes)
        requires
            old(self).wf(),
            tilemap.wf(),
        ensures
            final(self).wf(),
            final(self).tilemap == Some(tilemap),
            final(self).tile_types == tile_types,
            final(self).entities@ == old(self).entities@,
            final(self).positions@ == old(self).positions@,
            final(self).healths@ == old(self).healths@,
            final(self).input_bindings@ == old(self).input_bindings@,
            final(self).animations@ == old(self).animations@,
            final(self).ais@ == old(self).ais@,
            final(self).action_states@ == old(self).action_states@,
            final(self).camera_x == old(self).camera_x,
            final(self).camera_y == old(self).camera_y,
            final(self).input_system == old(self).input_system,
    {
        self.tilemap = Some(tilemap);
        self.tile_types = tile_types;
    }

    /// Center the camera on the player, clamped to the world edges of the
    /// installed grid; without a grid the camera stays put.
    pub fn update_camera(&mut self, player_pos: &Position)
        requires
            old(self).wf(),
        ensures
            old(self).tilemap matches Some(tm) ==> {
                &&& final(self).camera_x == spec_camera(
                    player_pos.x as int,
                    SCREEN_WIDTH as int,
                    tm.width * tm.tile_size,
                )
                &&& final(self).camera_y == spec_camera(
                    player_pos.y as int,
                    SCREEN_HEIGHT as int,
                    tm.height * tm.tile_size,
                )
            },
            old(self).tilemap is None ==> final(self).camera_x == old(self).camera_x && final(self).camera_y == old(self).camera_y,
            final(self).entities@ == old(self).entities@,
            final(self).positions@ == old(self).positions@,
            final(self).healths@ == old(self).healths@,
            final(self).input_bindings@ == old(self).input_bindings@,
            final(self).animations@ == old(self).animations@,
            final(self).ais@ == old(self).ais@,
            final(self).action_states@ == old(self).action_states@,
            final(self).tilemap == old(self).tilemap,
            final(self).tile_types == old(self).tile_types,
            final(self).input_system == old(self).input_system,
    {
        match &self.tilemap {
            Some(tm) => {
                proof {
                    assert((tm.width as i128) * (tm.tile_size as i128) <= 0x1_0000_0000_0000i128
                        && (tm.height as i128) * (tm.tile_size as i128)
                        <= 0x1_0000_0000_0000i128) by (nonlinear_arith)
                        requires
                            0 <= tm.width <= MAX_MAP_DIM,
                            0 <= tm.height <= MAX_MAP_DIM,
                            0 < tm.tile_size <= MAX_TILE_SIZE,
                    ;
                }
                let ww: i128 = (tm.width as i128) * (tm.tile_size as i128);
                let wh: i128 = (tm.height as i128) * (tm.tile_size as i128);
                let max_x: i128 = ww - (SCREEN_WIDTH as i128);
                let max_y: i128 = wh - (SCREEN_HEIGHT as i128);
                let cx: i128 = player_pos.x as i128 - (SCREEN_WIDTH / 2) as i128;
                let cy: i128 = player_pos.y as i128 - (SCREEN_HEIGHT / 2) as i128;
                let lx: i128 = if cx > 0 {
                    cx
                } else {
                    0
                };
                let ly: i128 = if cy > 0 {
                    cy
                } else {
                    0
                };
                let fx: i128 = if lx < max_x {
                    lx
                } else {
                    max_x
                };
                let fy: i128 = if ly < max_y {
                    ly
                } else {
                    max_y
                };
                self.camera_x = fx as i64;
                self.camera_y = fy as i64;
            },
            None => {},
        }
    }

    /// Frame-invariant context: fields the resolver stages never touch,
    /// plus the input memory as it stands after the input stage.
    spec fn frame_ctx(self, g: GameState, held: Seq<bool>) -> bool {
        &&& self.entities@ == g.entities@
        &&& self.input_bindings@ == g.input_bindings@
        &&& self.tilemap == g.tilemap
        &&& self.tile_types == g.tile_types
        &&& self.camera_x == g.camera_x
        &&& self.camera_y == g.camera_y
        &&& g.n() > 0 ==> self.input_system.previous_keys@.len()
            == g.input_system.previous_keys@.len() && (forall|k: int|
            0 <= k < g.input_system.previous_keys@.len()
                ==> #[trigger] self.input_system.previous_keys@[k] == key_held(held, k))
        &&& g.n() == 0 ==> self.input_system == g.input_system
    }

    /// State of the AI containers once the AI stage is done.
    spec fn ai_done(self, g: GameState, held: Seq<bool>) -> bool {
        &&& self.ais@.len() == g.n()
        &&& forall|k: int| 0 <= k < g.n() ==> (#[trigger] self.ais@[k]).wf()
        &&& g.n() > 0 ==> self.ais@[0] == g.ais@[0]
        &&& forall|k: int|
            1 <= k < g.n() ==> ai_advanced(
                g.ais@[k].behavior,
                (#[trigger] self.ais@[k]).behavior,
                g.spec_positions_mid(held),
                k,
            )
    }

    /// One whole frame: the input resolver declares the player's intent
    /// (unless attack-locked), the player moves, each AI declares its
    /// entity's intent from the post-player-move positions, the other
    /// entities move, health advances by the elapsed time, every animation
    /// takes its final intent and one animation step, and the camera
    /// follows the player.
    #[verifier::loop_isolation(false)]
    #[verifier::rlimit(100)]
    pub fn update(&mut self, held: &Vec<bool>, delta_time: u32)
        requires
            old(self).wf(),
        ensures
            final(self).wf(),
            final(self).n() == old(self).n(),
            final(self).entities@ == old(self).entities@,
            final(self).input_bindings@ == old(self).input_bindings@,
            final(self).tilemap == old(self).tilemap,
            final(self).tile_types == old(self).tile_types,
            final(self).action_states@ == old(self).spec_actions_final(held@),
            final(self).positions@ == old(self).spec_positions_final(held@),
            final(self).animations@ == old(self).spec_animations_final(held@),
            final(self).healths@.len() == old(self).n(),
            forall|i: int|
                0 <= i < old(self).n() ==> health_stepped(
                    old(self).healths@[i],
                    #[trigger] final(self).healths@[i],
                    delta_time as int,
                ),
            final(self).ais@.len() == old(self).n(),
            old(self).n() > 0 ==> final(self).ais@[0] == old(self).ais@[0],
            forall|i: int|
                1 <= i < old(self).n() ==> ai_advanced(
                    old(self).ais@[i].behavior,
                    (#[trigger] final(self).ais@[i]).behavior,
                    old(self).spec_positions_mid(held@),
                    i,
                ),
            forall|i: int| 0 <= i < old(self).n() ==> (#[trigger] final(self).ais@[i]).wf(),
            old(self).n() > 0 ==> (old(self).tilemap matches Some(tm) ==> {
                &&& final(self).camera_x == spec_camera(
                    old(self).spec_positions_final(held@)[0].x as int,
                    SCREEN_WIDTH as int,
                    tm.width * tm.tile_size,
                )
                &&& final(self).camera_y == spec_camera(
                    old(self).spec_positions_final(held@)[0].y as int,
                    SCREEN_HEIGHT as int,
                    tm.height * tm.tile_size,
                )
            }),
            !(old(self).n() > 0 && old(self).tilemap is Some) ==> final(self).camera_x == old(self).camera_x && final(self).camera_y == old(self).camera_y,
            old(self).n() > 0 ==> final(self).input_system.previous_keys@.len() == old(self).input_system.previous_keys@.len() && (forall|k: int|
                0 <= k < old(self).input_system.previous_keys@.len()
                    ==> #[trigger] final(self).input_system.previous_keys@[k] == key_held(
                    held@,
                    k,
                )),
            old(self).n() == 0 ==> final(self).input_system == old(self).input_system,
    {
        let ghost g: GameState = *old(self);
        let n = self.entities.len();
        if n > 0 {
            // Input stage: the player's declared intent, gated by the
            // attack lock; the resolver remembers this frame's keys.
            let player_action = InputSystem::action_for(
                &self.input_bindings[0],
                held,
                &self.input_system.previous_keys,
            );
            self.input_system.observe(held);
            if !self.animations[0].is_attack_in_progress {
                self.action_states.set(0, player_action);
            }
            proof {
                assert(self.action_states@ =~= g.spec_actions_after_input(held@));
            }

            // The player moves first, so the AI sees the player's
            // post-move position this frame.
            let p0 = self.positions[0];
            let q0 = MovementSystem::resolve(
                p0,
                &self.action_states[0],
                self.tilemap.as_ref(),
                Some(&self.tile_types),
            );
            self.positions.set(0, q0);
            proof {
                assert(self.positions@ =~= g.spec_positions_mid(held@));
            }

            // AI stage for everyone but the player.
            let mut i: usize = 1;
            while i < n
                invariant
                    1 <= i <= n,
                    self.frame_ctx(g, held@),
                    self.positions@ == g.spec_positions_mid(held@),
                    self.healths@ == g.healths@,
                    self.animations@ == g.animations@,
                    self.ais.len() == n,
                    self.action_states.len() == n,
                    forall|k: int| i <= k < n ==> #[trigger] self.ais@[k] == g.ais@[k],
                    forall|k: int| 0 <= k < i ==> (#[trigger] self.ais@[k]).wf(),
                    self.ais@[0] == g.ais@[0],
                    forall|k: int|
                        1 <= k < i ==> ai_advanced(
                            g.ais@[k].behavior,
                            (#[trigger] self.ais@[k]).behavior,
                            g.spec_positions_mid(held@),
                            k,
                        ),
                    self.action_states@[0] == g.spec_actions_after_input(held@)[0],
                    forall|k: int|
                        i <= k < n ==> #[trigger] self.action_states@[k] == g.action_states@[k],
                    forall|k: int|
                        1 <= k < i ==> #[trigger] self.action_states@[k] == match ai_emit(
                            g.ais@[k].behavior,
                            g.spec_positions_mid(held@),
                            k,
                        ) {
                            Some(a) => a,
                            None => g.action_states@[k],
                        },
                decreases n - i,
            {
                AiSystem::step_entity(&self.positions, &mut self.ais, &mut self.action_states, i);
                i = i + 1;
            }
            proof {
                assert(self.action_states@ =~= g.spec_actions_final(held@));
            }

            // Movement stage for everyone but the player.
            let mut i: usize = 1;
            while i < n
                invariant
                    1 <= i <= n,
                    self.frame_ctx(g, held@),
                    self.ai_done(g, held@),
                    self.healths@ == g.healths@,
                    self.animations@ == g.animations@,
                    self.action_states@ == g.spec_actions_final(held@),
                    self.positions.len() == n,
                    self.positions@[0] == g.spec_positions_mid(held@)[0],
                    forall|k: int| i <= k < n ==> #[trigger] self.positions@[k] == g.positions@[k],
                    forall|k: int| 0 <= k < i ==> (#[trigger] self.positions@[k]).wf(),
                    forall|k: int|
                        1 <= k < i ==> #[trigger] self.positions@[k] == spec_resolved(
                            g.positions@[k],
                            g.spec_actions_final(held@)[k],
                            g.tilemap,
                            Some(g.tile_types),
                        ),
                decreases n - i,
            {
                let p = self.positions[i];
                let q = MovementSystem::resolve(
                    p,
                    &self.action_states[i],
                    self.tilemap.as_ref(),
                    Some(&self.tile_types),
                );
                self.positions.set(i, q);
                i = i + 1;
            }
            proof {
                assert(self.positions@ =~= g.spec_positions_final(held@));
            }
        } else {
            proof {
                assert(self.action_states@ =~= g.spec_actions_final(held@));
                assert(self.positions@ =~= g.spec_positions_final(held@));
            }
        }

        // Health stage.
        HealthSystem::update(&self.entities, &mut self.healths, delta_time);

        // Animation stage: final intent, then one fixed animation step.
        let mut i: usize = 0;
        while i < n
            invariant
                i <= n,
                self.frame_ctx(g, held@),
                self.ai_done(g, held@),
                self.action_states@ == g.spec_actions_final(held@),
                self.positions@ == g.spec_positions_final(held@),
                forall|k: int| 0 <= k < n ==> (#[trigger] self.positions@[k]).wf(),
                self.healths@.len() == n,
                forall|k: int|
                    0 <= k < n ==> health_stepped(
                        g.healths@[k],
                        #[trigger] self.healths@[k],
                        delta_time as int,
                    ),
                forall|k: int| 0 <= k < n ==> (#[trigger] self.healths@[k]).wf(),
                self.animations.len() == n,
                forall|k: int| i <= k < n ==> #[trigger] self.animations@[k] == g.animations@[k],
                forall|k: int| 0 <= k < i ==> (#[trigger] self.animations@[k]).wf(),
                forall|k: int|
                    0 <= k < i ==> #[trigger] self.animations@[k]
                        == g.animations@[k].spec_apply_intent(
                        g.spec_actions_final(held@)[k],
                    ).spec_update(ANIMATION_FRAME_TIME),
            decreases n - i,
        {
            let a = self.action_states[i];
            let anim = &mut self.animations[i];
            anim.apply_intent(&a);
            anim.update(ANIMATION_FRAME_TIME);
            i = i + 1;
        }
        proof {
            assert(self.animations@ =~= g.spec_animations_final(held@));
        }

        // Camera follows the player.
        if n > 0 {
            let p = self.positions[0];
            self.update_camera(&p);
        }
    }
}

} // verus!
