//! Object initialisers.
use vstd::prelude::*;
use vstd::slice::{slice_subrange, slice_to_vec};
use crate::classes::SerialisedShrekSuperSlamGameObject;
use crate::console::Console;
use crate::errors::{not_enough, too_few_bytes, Error};
use crate::files::bin::bin::Bin;

verus! {

/// Structure representing the in-game `Game::ObjectInitializer` object type.
///
/// What this class does is not known.
#[derive(Debug)]
pub struct ObjectInitializer {
    /// The raw bytes of the object.
    pub bytes: Vec<u8>,
}

impl SerialisedShrekSuperSlamGameObject for ObjectInitializer {
    open spec fn class_hash() -> u32 {
        0xDBFB4A35
    }

    open spec fn class_name() -> Seq<char> {
        "Game::ObjectInitializer"@
    }

    open spec fn class_size() -> nat {
        0xA8
    }

    open spec fn read_error(raw: Seq<u8>, c: Console, offset: int) -> Option<Error> {
        if offset + 0xA8 > raw.len() {
            Some(not_enough(0xA8, raw.len() as int, offset))
        } else {
            None
        }
    }

    open spec fn is_read_of(&self, raw: Seq<u8>, c: Console, offset: int) -> bool {
        self.bytes@ == raw.subrange(offset, offset + 0xA8)
    }

    /// Returns the hashcode for the `Game::ObjectInitializer` in-game object.
    fn hash() -> (h: u32) {
        0xDBFB4A35
    }

    /// Returns the name of the in-game class.
    fn name() -> (n: &'static str) {
        "Game::ObjectInitializer"
    }

    /// Returns the size of a serialised `Game::ObjectInitializer` object.
    fn size() -> (s: usize) {
        0xA8
    }

    /// Return a new `ObjectInitializer` using data located at the given `offset` in
    /// the given `bin` file structure.
    ///
    /// Prefer calling [`Bin::get_object_from_offset`] rather than calling
    /// this method.
    fn new(bin: &Bin, offset: usize) -> (r: Result<ObjectInitializer, Error>) {
        let len: usize = bin.raw.len();
        if len < 0xA8 || offset > len - 0xA8 {
            return Err(too_few_bytes(0xA8, len as u64, offset as u64));
        }
        let bytes = slice_to_vec(slice_subrange(bin.raw.as_slice(), offset, offset + 0xA8));
        Ok(ObjectInitializer { bytes })
    }

    proof fn lemma_registered() {
    }
}

} // verus!
