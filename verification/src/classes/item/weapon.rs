//! The weapon item.
use vstd::prelude::*;
use vstd::slice::{slice_subrange, slice_to_vec};
use crate::classes::SerialisedShrekSuperSlamGameObject;
use crate::console::Console;
use crate::errors::{not_enough, too_few_bytes, Error};
use crate::files::bin::bin::Bin;

verus! {

/// Structure representing the in-game `Game::WeaponType` object type.
///
/// This class represents a single weapon type.
#[derive(Debug)]
pub struct WeaponType {
    /// The raw bytes of the object.
    pub bytes: Vec<u8>,
}

impl SerialisedShrekSuperSlamGameObject for WeaponType {
    open spec fn class_hash() -> u32 {
        0xFE392AB6
    }

    open spec fn class_name() -> Seq<char> {
        "Game::WeaponType"@
    }

    open spec fn class_size() -> nat {
        0x120
    }

    open spec fn read_error(raw: Seq<u8>, c: Console, offset: int) -> Option<Error> {
        if offset + 0x120 > raw.len() {
            Some(not_enough(0x120, raw.len() as int, offset))
        } else {
            None
        }
    }

    open spec fn is_read_of(&self, raw: Seq<u8>, c: Console, offset: int) -> bool {
        self.bytes@ == raw.subrange(offset, offset + 0x120)
    }

    /// Returns the hashcode for the `Game::WeaponType` in-game object.
    fn hash() -> (h: u32) {
        0xFE392AB6
    }

    /// Returns the name of the in-game class.
    fn name() -> (n: &'static str) {
        "Game::WeaponType"
    }

    /// Returns the size of a serialised `Game::WeaponType` object.
    fn size() -> (s: usize) {
        0x120
    }

    /// Return a new `WeaponType` using data located at the given `offset` in
    /// the given `bin` file structure.
    ///
    /// Prefer calling [`Bin::get_object_from_offset`] rather than calling
    /// this method.
    fn new(bin: &Bin, offset: usize) -> (r: Result<WeaponType, Error>) {
        let len: usize = bin.raw.len();
        if len < 0x120 || offset > len - 0x120 {
            return Err(too_few_bytes(0x120, len as u64, offset as u64));
        }
        let bytes = slice_to_vec(slice_subrange(bin.raw.as_slice(), offset, offset + 0x120));
        Ok(WeaponType { bytes })
    }

    proof fn lemma_registered() {
    }
}

} // verus!
