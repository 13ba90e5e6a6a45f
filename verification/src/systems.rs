//! Frame resolvers: each reads some components and writes others for a
//! batch of entities, once per frame, in a fixed order.

pub mod ai_system;
pub mod health_system;
pub mod input_system;
pub mod movement_system;

pub use self::ai_system::AiSystem;
pub use self::health_system::HealthSystem;
pub use self::input_system::InputSystem;
pub use self::movement_system::MovementSystem;
