//! The entry point to a character.
use vstd::prelude::*;
use vstd::slice::{slice_subrange, slice_to_vec};
use crate::classes::player::{BehaviorFightingControlShrek, PhysicsFighting, RenderSpawn};
use crate::classes::SerialisedShrekSuperSlamGameObject;
use crate::console::Console;
use crate::errors::{not_enough, too_few_bytes, Error};
use crate::files::bin::bin::{object_error, string_at, string_error, Bin};
use crate::util::{get_word, word_at};

verus! {

/// Structure representing the in-game `Game::Entity` object type.
///
/// Used as the entry point to all the runtime information about a character.
#[derive(Debug)]
pub struct Entity {
    /// The player behaviour object.
    pub behaviour: BehaviorFightingControlShrek,
    /// The name of the character.
    pub name: String,
    /// The player physics.
    pub physics: PhysicsFighting,
    /// The player render.
    pub render: RenderSpawn,
    /// The raw bytes of the object.
    pub bytes: Vec<u8>,
}

impl SerialisedShrekSuperSlamGameObject for Entity {
    open spec fn class_hash() -> u32 {
        0xDDEC024E
    }

    open spec fn class_name() -> Seq<char> {
        "Game::Entity"@
    }

    open spec fn class_size() -> nat {
        0x280
    }

    open spec fn read_error(raw: Seq<u8>, c: Console, offset: int) -> Option<Error> {
        if offset + 0x280 > raw.len() {
            Some(not_enough(0x280, raw.len() as int, offset))
        } else {
            match object_error::<BehaviorFightingControlShrek>(
                raw,
                c,
                word_at(raw, c, offset + 0x08),
            ) {
                Some(e) => Some(e),
                None => match string_error(raw, word_at(raw, c, offset + 0x04)) {
                    Some(e) => Some(e),
                    None => match object_error::<PhysicsFighting>(
                        raw,
                        c,
                        word_at(raw, c, offset + 0x10),
                    ) {
                        Some(e) => Some(e),
                        None => object_error::<RenderSpawn>(
                            raw,
                            c,
                            word_at(raw, c, offset + 0x0C),
                        ),
                    },
                },
            }
        }
    }

    open spec fn is_read_of(&self, raw: Seq<u8>, c: Console, offset: int) -> bool {
        &&& self.behaviour.is_read_of(raw, c, word_at(raw, c, offset + 0x08) + 0x40)
        &&& self.name@ == string_at(raw, word_at(raw, c, offset + 0x04))
        &&& self.physics.is_read_of(raw, c, word_at(raw, c, offset + 0x10) + 0x40)
        &&& self.render.is_read_of(raw, c, word_at(raw, c, offset + 0x0C) + 0x40)
        &&& self.bytes@ == raw.subrange(offset, offset + 0x280)
    }

    /// Returns the hashcode for the `Game::Entity` in-game object.
    fn hash() -> (h: u32) {
        0xDDEC024E
    }

    /// Returns the name of the in-game class.
    fn name() -> (n: &'static str) {
        "Game::Entity"
    }

    /// Returns the size of a serialised `Game::Entity` object.
    fn size() -> (s: usize) {
        0x280
    }

    /// Return a new `Entity` using data located at the given `offset` in the
    /// given `bin` file structure.
    ///
    /// Prefer calling [`Bin::get_object_from_offset`] rather than calling
    /// this method.
    fn new(bin: &Bin, offset: usize) -> (r: Result<Entity, Error>) {
        let len: usize = bin.raw.len();
        if len < 0x280 || offset > len - 0x280 {
            return Err(too_few_bytes(0x280, len as u64, offset as u64));
        }
        let raw = bin.raw.as_slice();
        let c = bin.console;

        // The name of the character in plaintext is stored at +04.
        let name_offset = get_word(raw, c, offset + 0x04);

        // Offsets to more specific runtime types are at:
        // +08 - Game::BehaviorFightingControlShrek
        // +0C - Game::RenderSpawn
        // +10 - Game::PhysicsFighting
        let behavior_offset = get_word(raw, c, offset + 0x08);
        let render_offset = get_word(raw, c, offset + 0x0C);
        let physics_offset = get_word(raw, c, offset + 0x10);

        let behaviour = bin.get_object_from_offset::<BehaviorFightingControlShrek>(
            behavior_offset,
        )?;
        let name = bin.get_str_from_offset(name_offset)?;
        let physics = bin.get_object_from_offset::<PhysicsFighting>(physics_offset)?;
        let render = bin.get_object_from_offset::<RenderSpawn>(render_offset)?;
        let bytes = slice_to_vec(slice_subrange(raw, offset, offset + 0x280));

        Ok(Entity { behaviour, name, physics, render, bytes })
    }

    proof fn lemma_registered() {
    }
}

} // verus!
