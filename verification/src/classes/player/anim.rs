//! Animation details of a character.
use vstd::prelude::*;
use vstd::slice::{slice_subrange, slice_to_vec};
use crate::classes::SerialisedShrekSuperSlamGameObject;
use crate::console::Console;
use crate::errors::{not_enough, too_few_bytes, Error};
use crate::files::bin::bin::Bin;

verus! {

/// Structure representing the in-game `anim::LookAtData` object type.
///
/// Represents some kind of animation detail.
#[derive(Debug)]
pub struct LookAtData {
    /// The raw bytes of the object.
    pub bytes: Vec<u8>,
}

impl SerialisedShrekSuperSlamGameObject for LookAtData {
    open spec fn class_hash() -> u32 {
        0xD9BB3F0F
    }

    open spec fn class_name() -> Seq<char> {
        "anim::LookatData"@
    }

    open spec fn class_size() -> nat {
        0x24
    }

    open spec fn read_error(raw: Seq<u8>, c: Console, offset: int) -> Option<Error> {
        if offset + 0x24 > raw.len() {
            Some(not_enough(0x24, raw.len() as int, offset))
        } else {
            None
        }
    }

    open spec fn is_read_of(&self, raw: Seq<u8>, c: Console, offset: int) -> bool {
        self.bytes@ == raw.subrange(offset, offset + 0x24)
    }

    /// Returns the hashcode for the `anim::LookatData` in-game object.
    fn hash() -> (h: u32) {
        0xD9BB3F0F
    }

    /// Returns the name of the in-game class.
    fn name() -> (n: &'static str) {
        "anim::LookatData"
    }

    /// Returns the size of a serialised `anim::LookatData` object.
    fn size() -> (s: usize) {
        0x24
    }

    /// Return a new `LookAtData` using data located at the given `offset` in
    /// the given `bin` file structure.
    ///
    /// Prefer calling [`Bin::get_object_from_offset`] rather than calling
    /// this method.
    fn new(bin: &Bin, offset: usize) -> (r: Result<LookAtData, Error>) {
        let len: usize = bin.raw.len();
        if len < 0x24 || offset > len - 0x24 {
            return Err(too_few_bytes(0x24, len as u64, offset as u64));
        }
        let bytes = slice_to_vec(slice_subrange(bin.raw.as_slice(), offset, offset + 0x24));
        Ok(LookAtData { bytes })
    }

    proof fn lemma_registered() {
    }
}

} // verus!
