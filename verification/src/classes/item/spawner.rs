//! The objects that spawn items in a level.
use vstd::prelude::*;
use crate::classes::item::{PotionType, PowerupType, WeaponType};
use crate::classes::util::{are_objects_at, array_error, construct_array, offsets_of};
use crate::classes::SerialisedShrekSuperSlamGameObject;
use crate::console::Console;
use crate::errors::{not_enough, too_few_bytes, Error};
use crate::files::bin::bin::Bin;
use crate::util::word_at;

verus! {

/// Structure representing the in-game `Game::ItemSpawner` object type.
///
/// ItemSpawners are used to spawn various item types throughout the level.
#[derive(Debug)]
pub struct ItemSpawner {
    /// The list of weapons spawned by the item spawner.
    pub weapons: Vec<WeaponType>,
    /// The list of potions spawned by the item spawner.
    pub potions: Vec<PotionType>,
    /// The list of powerups spawned by the item spawner.
    pub powerups: Vec<PowerupType>,
}

impl SerialisedShrekSuperSlamGameObject for ItemSpawner {
    open spec fn class_hash() -> u32 {
        0xCD47AA2B
    }

    open spec fn class_name() -> Seq<char> {
        "Game::ItemSpawner"@
    }

    open spec fn class_size() -> nat {
        0x688
    }

    open spec fn read_error(raw: Seq<u8>, c: Console, offset: int) -> Option<Error> {
        if offset + 0x688 > raw.len() {
            Some(not_enough(0x688, raw.len() as int, offset))
        } else {
            match array_error::<WeaponType>(
                raw,
                c,
                word_at(raw, c, offset + 0x2C),
                word_at(raw, c, offset + 0x30),
            ) {
                Some(e) => Some(e),
                None => match array_error::<PotionType>(
                    raw,
                    c,
                    word_at(raw, c, offset + 0x34),
                    word_at(raw, c, offset + 0x38),
                ) {
                    Some(e) => Some(e),
                    None => array_error::<PowerupType>(
                        raw,
                        c,
                        word_at(raw, c, offset + 0x3C),
                        word_at(raw, c, offset + 0x40),
                    ),
                },
            }
        }
    }

    open spec fn is_read_of(&self, raw: Seq<u8>, c: Console, offset: int) -> bool {
        &&& are_objects_at(
            self.weapons@,
            raw,
            c,
            offsets_of(raw, c, word_at(raw, c, offset + 0x2C), word_at(raw, c, offset + 0x30)),
        )
        &&& are_objects_at(
            self.potions@,
            raw,
            c,
            offsets_of(raw, c, word_at(raw, c, offset + 0x34), word_at(raw, c, offset + 0x38)),
        )
        &&& are_objects_at(
            self.powerups@,
            raw,
            c,
            offsets_of(raw, c, word_at(raw, c, offset + 0x3C), word_at(raw, c, offset + 0x40)),
        )
    }

    /// Returns the hashcode for the `Game::ItemSpawner` in-game object.
    fn hash() -> (h: u32) {
        0xCD47AA2B
    }

    /// Returns the name of the in-game class.
    fn name() -> (n: &'static str) {
        "Game::ItemSpawner"
    }

    /// Returns the size of a serialised `Game::ItemSpawner` object.
    fn size() -> (s: usize) {
        0x688
    }

    /// Return a new `ItemSpawner` using data located at the given `offset`
    /// in the given `bin` file structure.
    ///
    /// Prefer calling [`Bin::get_object_from_offset`] rather than calling
    /// this method.
    fn new(bin: &Bin, offset: usize) -> (r: Result<ItemSpawner, Error>) {
        let len: usize = bin.raw.len();
        if len < 0x688 || offset > len - 0x688 {
            return Err(too_few_bytes(0x688, len as u64, offset as u64));
        }
        // The list of weapons created by the spawner is at +2C.
        // The size of this array is at +30.
        let weapons = construct_array::<WeaponType>(bin, offset, bin.console, 0x2C, 0x30)?;

        // The list of potions created by the spawner is at +34.
        // The size of this array is at +38.
        let potions = construct_array::<PotionType>(bin, offset, bin.console, 0x34, 0x38)?;

        // The list of powerups created by the spawner is at +3C.
        // The size of this array is at +40.
        let powerups = construct_array::<PowerupType>(bin, offset, bin.console, 0x3C, 0x40)?;

        Ok(ItemSpawner { weapons, potions, powerups })
    }

    proof fn lemma_registered() {
    }
}

} // verus!
