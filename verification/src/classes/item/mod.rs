//! Items and the objects that spawn them.
pub mod potion;
pub mod powerup;
pub mod spawner;
pub mod weapon;

pub use potion::PotionType;
pub use powerup::PowerupType;
pub use spawner::ItemSpawner;
pub use weapon::WeaponType;
