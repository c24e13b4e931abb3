//! Objects of a level.
pub mod events;
pub mod spitter;
pub mod throwable;
pub mod world;

pub use events::EventSequence;
pub use spitter::{Spitter, SpitterKeyframe};
pub use throwable::DynamicThrowable;
pub use world::GameWorld;
