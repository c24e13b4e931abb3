//! Structures representing the game's classes.
//!
//! A container is a collection of serialised game objects. Each object
//! begins with a hash that identifies its class, and many hold offsets to
//! other objects. These offsets count from the end of the container's
//! header, so that 0x40 is added to each to find the place in the file.
use vstd::prelude::*;
use crate::console::Console;
use crate::errors;
use crate::files::bin::bin::{object_error, Bin, BinObject};

pub mod db;
pub mod error;
pub mod item;
pub mod level;
pub mod loadingscreen;
pub mod object_initializer;
pub mod player;
pub mod registry;
pub mod strings;
pub mod util;

pub use db::{GfDb, ScriptDb};
pub use error::Error;
pub use item::{ItemSpawner, PotionType, PowerupType, WeaponType};
pub use level::{DynamicThrowable, EventSequence, GameWorld, Spitter, SpitterKeyframe};
pub use loadingscreen::LoadingScreen;
pub use object_initializer::ObjectInitializer;
pub use player::{
    AttackMoveRegion, AttackMoveType, BehaviorAiFighting, BehaviorFightingControlShrek, Entity,
    LookAtData, PhysicsFighting, ProjectileType, RenderSpawn,
};
pub use registry::{class_name_of, hash_lookup};
pub use strings::{EffectStringReference, LocalizedString};

verus! {

/// Trait for structures representing serialised game objects that appear in
/// the game's containers.
pub trait SerialisedShrekSuperSlamGameObject: Sized {
    /// The hash value identifying the class.
    spec fn class_hash() -> u32;

    /// The name of the class.
    spec fn class_name() -> Seq<char>;

    /// The size in bytes of a serialised object.
    spec fn class_size() -> nat;

    /// The error that reading an object at place `offset` of `raw` ends in,
    /// if it ends in one.
    spec fn read_error(raw: Seq<u8>, c: Console, offset: int) -> Option<errors::Error>;

    /// Whether this is the object that stands at place `offset` of `raw`.
    spec fn is_read_of(&self, raw: Seq<u8>, c: Console, offset: int) -> bool;

    /// Returns the hash value identifying the class.
    fn hash() -> (h: u32)
        ensures
            h == Self::class_hash(),
    ;

    /// Returns the name of the class.
    fn name() -> (n: &'static str)
        ensures
            n@ == Self::class_name(),
    ;

    /// Returns the size in bytes the serialised object takes up in a
    /// container.
    fn size() -> (s: usize)
        ensures
            s == Self::class_size(),
            s >= 4,
    ;

    /// Returns an instance of the object from the given place `offset` in
    /// the given container, which counts from the start of the file.
    ///
    /// Use [`Bin::get_object_from_offset`] to get objects from a container:
    /// it checks the hash that the object begins with.
    fn new(bin: &Bin, offset: usize) -> (r: Result<Self, errors::Error>)
        ensures
            match r {
                Ok(o) => Self::read_error(bin.raw@, bin.console, offset as int) is None
                    && o.is_read_of(bin.raw@, bin.console, offset as int),
                Err(e) => Self::read_error(bin.raw@, bin.console, offset as int) == Some(e),
            },
    ;

    /// The class is registered under its hash and its name, and an object
    /// of it has room for its hash.
    proof fn lemma_registered()
        ensures
            class_name_of(Self::class_hash()) is Some,
            class_name_of(Self::class_hash())->Some_0@ == Self::class_name(),
            Self::class_size() >= 4,
    ;
}

/// Trait for structures representing game objects that can be written back
/// to a container, over the object that is stored there.
pub trait WriteableShrekSuperSlamGameObject: SerialisedShrekSuperSlamGameObject {
    /// What writing this object at place `offset` makes of `raw`, and the
    /// error that it ends in, if it ends in one.
    spec fn written(&self, raw: Seq<u8>, c: Console, offset: int) -> (Seq<u8>, Option<errors::Error>);

    /// Whether the object at place `offset` of `raw` is stored in the one
    /// form that a write produces: every flag as zero or one.
    spec fn canonical(raw: Seq<u8>, c: Console, offset: int) -> bool;

    /// Overwrites the game object at the given place `offset` within the
    /// given container, which counts from the start of the file. Only the
    /// bytes of the object's numbers and flags change, and of those of the
    /// objects it holds.
    fn write(&self, bin: &mut Bin, offset: usize) -> (r: Result<(), errors::Error>)
        ensures
            final(bin).same_but_raw(*old(bin)),
            final(bin).raw@ == self.written(old(bin).raw@, old(bin).console, offset as int).0,
            final(bin).raw@.len() == old(bin).raw@.len(),
            match r {
                Ok(_) => self.written(old(bin).raw@, old(bin).console, offset as int).1 is None,
                Err(e) => self.written(old(bin).raw@, old(bin).console, offset as int).1 == Some(
                    e,
                ),
            },
    ;

    /// Writing an object back to the place it was read from changes nothing.
    proof fn lemma_write_read(&self, raw: Seq<u8>, c: Console, offset: int)
        requires
            0 <= offset,
            Self::read_error(raw, c, offset) is None,
            self.is_read_of(raw, c, offset),
            Self::canonical(raw, c, offset),
        ensures
            self.written(raw, c, offset) == (raw, None::<errors::Error>),
    ;
}

/// Enumeration of the different class types.
///
/// This allows parsing a container to a collection of the types contained
/// within it.
#[derive(Debug)]
pub enum ShrekSuperSlamObject {
    AttackMoveRegion(AttackMoveRegion),
    AttackMoveType(AttackMoveType),
    BehaviorAiFighting(BehaviorAiFighting),
    BehaviorFightingControlShrek(BehaviorFightingControlShrek),
    DynamicThrowable(DynamicThrowable),
    EffectStringReference(EffectStringReference),
    Entity(Entity),
    EventSequence(EventSequence),
    GameWorld(GameWorld),
    GfDb(GfDb),
    ItemSpawner(ItemSpawner),
    LoadingScreen(LoadingScreen),
    LocalizedString(LocalizedString),
    LookAtData(LookAtData),
    ObjectInitializer(ObjectInitializer),
    PhysicsFighting(PhysicsFighting),
    PotionType(PotionType),
    PowerupType(PowerupType),
    ProjectileType(ProjectileType),
    RenderSpawn(RenderSpawn),
    ScriptDb(ScriptDb),
    Spitter(Spitter),
    SpitterKeyframe(SpitterKeyframe),
    WeaponType(WeaponType),
}

/// The error that resolving `object` to an object of its class ends in, if
/// it ends in one. A class that is known by name only cannot be resolved.
pub open spec fn resolve_error(raw: Seq<u8>, c: Console, object: BinObject) -> Option<errors::Error> {
    match object.hash {
        0xF2CFE08D => object_error::<AttackMoveRegion>(raw, c, object.offset),
        0xEBF07BB5 => object_error::<AttackMoveType>(raw, c, object.offset),
        0xE2AD9980 => object_error::<BehaviorAiFighting>(raw, c, object.offset),
        0xD306D805 => object_error::<BehaviorFightingControlShrek>(raw, c, object.offset),
        0xC8E0C03F => object_error::<DynamicThrowable>(raw, c, object.offset),
        0xC43D420D => object_error::<EffectStringReference>(raw, c, object.offset),
        0xDDEC024E => object_error::<Entity>(raw, c, object.offset),
        0xD24634FE => object_error::<EventSequence>(raw, c, object.offset),
        0xB974E53B => object_error::<GameWorld>(raw, c, object.offset),
        0x9B3DDBED => object_error::<GfDb>(raw, c, object.offset),
        0xCD47AA2B => object_error::<ItemSpawner>(raw, c, object.offset),
        0xF32EBBA9 => object_error::<LoadingScreen>(raw, c, object.offset),
        0xBFC7788D => object_error::<LocalizedString>(raw, c, object.offset),
        0xD9BB3F0F => object_error::<LookAtData>(raw, c, object.offset),
        0xDBFB4A35 => object_error::<ObjectInitializer>(raw, c, object.offset),
        0xADDDF1EC => object_error::<PhysicsFighting>(raw, c, object.offset),
        0xF05C7BD3 => object_error::<PotionType>(raw, c, object.offset),
        0xBE7B44BA => object_error::<PowerupType>(raw, c, object.offset),
        0x8811292E => object_error::<ProjectileType>(raw, c, object.offset),
        0xA6FC81A0 => object_error::<RenderSpawn>(raw, c, object.offset),
        0xA128E61A => object_error::<ScriptDb>(raw, c, object.offset),
        0x90D8FCD6 => object_error::<Spitter>(raw, c, object.offset),
        0x84AD7E70 => object_error::<SpitterKeyframe>(raw, c, object.offset),
        0xFE392AB6 => object_error::<WeaponType>(raw, c, object.offset),
        _ => Some(errors::Error::NotImplementedError(object.name)),
    }
}

/// Whether `resolved` is the object that `object` names: of the class with
/// the hash of `object`, and read at its offset.
pub open spec fn is_resolved(
    resolved: ShrekSuperSlamObject,
    raw: Seq<u8>,
    c: Console,
    object: BinObject,
) -> bool {
    match resolved {
        ShrekSuperSlamObject::AttackMoveRegion(o) => object.hash == 0xF2CFE08D && o.is_read_of(
            raw,
            c,
            object.offset + 0x40,
        ),
        ShrekSuperSlamObject::AttackMoveType(o) => object.hash == 0xEBF07BB5 && o.is_read_of(
            raw,
            c,
            object.offset + 0x40,
        ),
        ShrekSuperSlamObject::BehaviorAiFighting(o) => object.hash == 0xE2AD9980 && o.is_read_of(
            raw,
            c,
            object.offset + 0x40,
        ),
        ShrekSuperSlamObject::BehaviorFightingControlShrek(o) => object.hash == 0xD306D805 && o.is_read_of(
            raw,
            c,
            object.offset + 0x40,
        ),
        ShrekSuperSlamObject::DynamicThrowable(o) => object.hash == 0xC8E0C03F && o.is_read_of(
            raw,
            c,
            object.offset + 0x40,
        ),
        ShrekSuperSlamObject::EffectStringReference(o) => object.hash == 0xC43D420D && o.is_read_of(
            raw,
            c,
            object.offset + 0x40,
        ),
        ShrekSuperSlamObject::Entity(o) => object.hash == 0xDDEC024E && o.is_read_of(
            raw,
            c,
            object.offset + 0x40,
        ),
        ShrekSuperSlamObject::EventSequence(o) => object.hash == 0xD24634FE && o.is_read_of(
            raw,
            c,
            object.offset + 0x40,
        ),
        ShrekSuperSlamObject::GameWorld(o) => object.hash == 0xB974E53B && o.is_read_of(
            raw,
            c,
            object.offset + 0x40,
        ),
        ShrekSuperSlamObject::GfDb(o) => object.hash == 0x9B3DDBED && o.is_read_of(
            raw,
            c,
            object.offset + 0x40,
        ),
        ShrekSuperSlamObject::ItemSpawner(o) => object.hash == 0xCD47AA2B && o.is_read_of(
            raw,
            c,
            object.offset + 0x40,
        ),
        ShrekSuperSlamObject::LoadingScreen(o) => object.hash == 0xF32EBBA9 && o.is_read_of(
            raw,
            c,
            object.offset + 0x40,
        ),
        ShrekSuperSlamObject::LocalizedString(o) => object.hash == 0xBFC7788D && o.is_read_of(
            raw,
            c,
            object.offset + 0x40,
        ),
        ShrekSuperSlamObject::LookAtData(o) => object.hash == 0xD9BB3F0F && o.is_read_of(
            raw,
            c,
            object.offset + 0x40,
        ),
        ShrekSuperSlamObject::ObjectInitializer(o) => object.hash == 0xDBFB4A35 && o.is_read_of(
            raw,
            c,
            object.offset + 0x40,
        ),
        ShrekSuperSlamObject::PhysicsFighting(o) => object.hash == 0xADDDF1EC && o.is_read_of(
            raw,
            c,
            object.offset + 0x40,
        ),
        ShrekSuperSlamObject::PotionType(o) => object.hash == 0xF05C7BD3 && o.is_read_of(
            raw,
            c,
            object.offset + 0x40,
        ),
        ShrekSuperSlamObject::PowerupType(o) => object.hash == 0xBE7B44BA && o.is_read_of(
            raw,
            c,
            object.offset + 0x40,
        ),
        ShrekSuperSlamObject::ProjectileType(o) => object.hash == 0x8811292E && o.is_read_of(
            raw,
            c,
            object.offset + 0x40,
        ),
        ShrekSuperSlamObject::RenderSpawn(o) => object.hash == 0xA6FC81A0 && o.is_read_of(
            raw,
            c,
            object.offset + 0x40,
        ),
        ShrekSuperSlamObject::ScriptDb(o) => object.hash == 0xA128E61A && o.is_read_of(
            raw,
            c,
            object.offset + 0x40,
        ),
        ShrekSuperSlamObject::Spitter(o) => object.hash == 0x90D8FCD6 && o.is_read_of(
            raw,
            c,
            object.offset + 0x40,
        ),
        ShrekSuperSlamObject::SpitterKeyframe(o) => object.hash == 0x84AD7E70 && o.is_read_of(
            raw,
            c,
            object.offset + 0x40,
        ),
        ShrekSuperSlamObject::WeaponType(o) => object.hash == 0xFE392AB6 && o.is_read_of(
            raw,
            c,
            object.offset + 0x40,
        ),
    }
}

} // verus!
