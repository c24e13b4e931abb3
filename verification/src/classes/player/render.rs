//! Rendering details of a character.
use vstd::prelude::*;
use vstd::slice::{slice_subrange, slice_to_vec};
use crate::classes::SerialisedShrekSuperSlamGameObject;
use crate::console::Console;
use crate::errors::{not_enough, too_few_bytes, Error};
use crate::files::bin::bin::Bin;

verus! {

/// Structure representing the in-game `Game::RenderSpawn` object type.
///
/// Holds some details about the player character during runtime, maybe
/// animation-related.
#[derive(Debug)]
pub struct RenderSpawn {
    /// The raw bytes of the object.
    pub bytes: Vec<u8>,
}

impl SerialisedShrekSuperSlamGameObject for RenderSpawn {
    open spec fn class_hash() -> u32 {
        0xA6FC81A0
    }

    open spec fn class_name() -> Seq<char> {
        "Game::RenderSpawn"@
    }

    open spec fn class_size() -> nat {
        0x290
    }

    open spec fn read_error(raw: Seq<u8>, c: Console, offset: int) -> Option<Error> {
        if offset + 0x290 > raw.len() {
            Some(not_enough(0x290, raw.len() as int, offset))
        } else {
            None
        }
    }

    open spec fn is_read_of(&self, raw: Seq<u8>, c: Console, offset: int) -> bool {
        self.bytes@ == raw.subrange(offset, offset + 0x290)
    }

    /// Returns the hashcode for the `Game::RenderSpawn` in-game object.
    fn hash() -> (h: u32) {
        0xA6FC81A0
    }

    /// Returns the name of the in-game class.
    fn name() -> (n: &'static str) {
        "Game::RenderSpawn"
    }

    /// Returns the size of a serialised `Game::RenderSpawn` object.
    fn size() -> (s: usize) {
        0x290
    }

    /// Return a new `RenderSpawn` using data located at the given `offset` in
    /// the given `bin` file structure.
    ///
    /// Prefer calling [`Bin::get_object_from_offset`] rather than calling
    /// this method.
    fn new(bin: &Bin, offset: usize) -> (r: Result<RenderSpawn, Error>) {
        let len: usize = bin.raw.len();
        if len < 0x290 || offset > len - 0x290 {
            return Err(too_few_bytes(0x290, len as u64, offset as u64));
        }
        let bytes = slice_to_vec(slice_subrange(bin.raw.as_slice(), offset, offset + 0x290));
        Ok(RenderSpawn { bytes })
    }

    proof fn lemma_registered() {
    }
}

} // verus!
