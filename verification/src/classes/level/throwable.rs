//! Things in a level that can be thrown.
use vstd::prelude::*;
use vstd::slice::{slice_subrange, slice_to_vec};
use crate::classes::SerialisedShrekSuperSlamGameObject;
use crate::console::Console;
use crate::errors::{not_enough, too_few_bytes, Error};
use crate::files::bin::bin::Bin;

verus! {

/// Structure representing the in-game `Game::DynamicThrowable` object type.
///
/// This class represents a single throwable item in a level.
#[derive(Debug)]
pub struct DynamicThrowable {
    /// The raw bytes of the object.
    pub bytes: Vec<u8>,
}

impl SerialisedShrekSuperSlamGameObject for DynamicThrowable {
    open spec fn class_hash() -> u32 {
        0xC8E0C03F
    }

    open spec fn class_name() -> Seq<char> {
        "Game::DynamicThrowable"@
    }

    open spec fn class_size() -> nat {
        0x150
    }

    open spec fn read_error(raw: Seq<u8>, c: Console, offset: int) -> Option<Error> {
        if offset + 0x150 > raw.len() {
            Some(not_enough(0x150, raw.len() as int, offset))
        } else {
            None
        }
    }

    open spec fn is_read_of(&self, raw: Seq<u8>, c: Console, offset: int) -> bool {
        self.bytes@ == raw.subrange(offset, offset + 0x150)
    }

    /// Returns the hashcode for the `Game::DynamicThrowable` in-game object.
    fn hash() -> (h: u32) {
        0xC8E0C03F
    }

    /// Returns the name of the in-game class.
    fn name() -> (n: &'static str) {
        "Game::DynamicThrowable"
    }

    /// Returns the size of a serialised `Game::DynamicThrowable` object.
    fn size() -> (s: usize) {
        0x150
    }

    /// Return a new `DynamicThrowable` using data located at the given `offset` in
    /// the given `bin` file structure.
    ///
    /// Prefer calling [`Bin::get_object_from_offset`] rather than calling
    /// this method.
    fn new(bin: &Bin, offset: usize) -> (r: Result<DynamicThrowable, Error>) {
        let len: usize = bin.raw.len();
        if len < 0x150 || offset > len - 0x150 {
            return Err(too_few_bytes(0x150, len as u64, offset as u64));
        }
        let bytes = slice_to_vec(slice_subrange(bin.raw.as_slice(), offset, offset + 0x150));
        Ok(DynamicThrowable { bytes })
    }

    proof fn lemma_registered() {
    }
}

} // verus!
