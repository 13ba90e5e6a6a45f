//! Per-entity data records: one component of each kind per entity slot.

pub mod action_state;
pub mod ai;
pub mod animation;
pub mod health;
pub mod input_bindings;
pub mod position;
pub mod tilemap;
pub mod entity;
pub mod game_action;

pub use self::action_state::ActionState;
pub use self::ai::Ai;
pub use self::ai::AiState;
pub use self::animation::Animation;
pub use self::animation::AnimationState;
pub use self::entity::Entity;
pub use self::health::Health;
pub use self::input_bindings::InputBindings;
pub use self::game_action::GameAction;
pub use self::position::Position;
pub use self::tilemap::Tilemap;
pub use self::tilemap::TileId;
pub use self::tilemap::TileType;
pub use self::tilemap::TileTypes;
