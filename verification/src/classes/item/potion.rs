//! The potion item.
use vstd::prelude::*;
use vstd::slice::{slice_subrange, slice_to_vec};
use crate::classes::SerialisedShrekSuperSlamGameObject;
use crate::console::Console;
use crate::errors::{not_enough, too_few_bytes, Error};
use crate::files::bin::bin::Bin;

verus! {

/// Structure representing the in-game `Game::PotionType` object type.
///
/// This class represents a single potion type.
#[derive(Debug)]
pub struct PotionType {
    /// The raw bytes of the object.
    pub bytes: Vec<u8>,
}

impl SerialisedShrekSuperSlamGameObject for PotionType {
    open spec fn class_hash() -> u32 {
        0xF05C7BD3
    }

    open spec fn class_name() -> Seq<char> {
        "Game::PotionType"@
    }

    open spec fn class_size() -> nat {
        0x100
    }

    open spec fn read_error(raw: Seq<u8>, c: Console, offset: int) -> Option<Error> {
        if offset + 0x100 > raw.len() {
            Some(not_enough(0x100, raw.len() as int, offset))
        } else {
            None
        }
    }

    open spec fn is_read_of(&self, raw: Seq<u8>, c: Console, offset: int) -> bool {
        self.bytes@ == raw.subrange(offset, offset + 0x100)
    }

    /// Returns the hashcode for the `Game::PotionType` in-game object.
    fn hash() -> (h: u32) {
        0xF05C7BD3
    }

    /// Returns the name of the in-game class.
    fn name() -> (n: &'static str) {
        "Game::PotionType"
    }

    /// Returns the size of a serialised `Game::PotionType` object.
    fn size() -> (s: usize) {
        0x100
    }

    /// Return a new `PotionType` using data located at the given `offset` in
    /// the given `bin` file structure.
    ///
    /// Prefer calling [`Bin::get_object_from_offset`] rather than calling
    /// this method.
    fn new(bin: &Bin, offset: usize) -> (r: Result<PotionType, Error>) {
        let len: usize = bin.raw.len();
        if len < 0x100 || offset > len - 0x100 {
            return Err(too_few_bytes(0x100, len as u64, offset as u64));
        }
        let bytes = slice_to_vec(slice_subrange(bin.raw.as_slice(), offset, offset + 0x100));
        Ok(PotionType { bytes })
    }

    proof fn lemma_registered() {
    }
}

} // verus!
