//! Per-frame simulation core of a 2D tile-based action game.
//!
//! The library advances entity state (position, health, animation, AI
//! behavior, action intent) once per rendered frame and resolves movement
//! against a tile grid. Entities are plain indices into parallel,
//! index-aligned component containers; each resolver reads some components
//! and writes others, in a fixed order, with no entity creation or deletion
//! mid-frame.
//!
//! World coordinates, speeds and ranges are integer world units; durations
//! are integer milliseconds; regeneration rates are milli-points per second.
//! Asset loading, window management and rendering are outside collaborators
//! and are not part of this crate.

pub mod components;
pub mod game_state;
pub mod systems;

pub use components::action_state::ActionState;
pub use game_state::GameState;
