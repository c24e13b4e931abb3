//! Objects of a playable character.
pub mod anim;
pub mod attacks;
pub mod behavior;
pub mod entity;
pub mod physics;
pub mod render;

pub use anim::LookAtData;
pub use attacks::{AttackMoveRegion, AttackMoveType, ProjectileType};
pub use behavior::{BehaviorAiFighting, BehaviorFightingControlShrek};
pub use entity::Entity;
pub use physics::PhysicsFighting;
pub use render::RenderSpawn;
