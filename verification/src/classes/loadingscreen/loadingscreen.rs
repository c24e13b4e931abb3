//! Loading screens.
use vstd::prelude::*;
use vstd::slice::{slice_subrange, slice_to_vec};
use crate::classes::SerialisedShrekSuperSlamGameObject;
use crate::console::Console;
use crate::errors::{not_enough, too_few_bytes, Error};
use crate::files::bin::bin::Bin;

verus! {

/// Structure representing the in-game `Game::LoadingScreen` object type.
///
/// This class is a loading screen for a stage or character.
#[derive(Debug)]
pub struct LoadingScreen {
    /// The raw bytes of the object.
    pub bytes: Vec<u8>,
}

impl SerialisedShrekSuperSlamGameObject for LoadingScreen {
    open spec fn class_hash() -> u32 {
        0xF32EBBA9
    }

    open spec fn class_name() -> Seq<char> {
        "Game::LoadingScreen"@
    }

    open spec fn class_size() -> nat {
        0x8C
    }

    open spec fn read_error(raw: Seq<u8>, c: Console, offset: int) -> Option<Error> {
        if offset + 0x8C > raw.len() {
            Some(not_enough(0x8C, raw.len() as int, offset))
        } else {
            None
        }
    }

    open spec fn is_read_of(&self, raw: Seq<u8>, c: Console, offset: int) -> bool {
        self.bytes@ == raw.subrange(offset, offset + 0x8C)
    }

    /// Returns the hashcode for the `Game::LoadingScreen` in-game object.
    fn hash() -> (h: u32) {
        0xF32EBBA9
    }

    /// Returns the name of the in-game class.
    fn name() -> (n: &'static str) {
        "Game::LoadingScreen"
    }

    /// Returns the size of a serialised `Game::LoadingScreen` object.
    fn size() -> (s: usize) {
        0x8C
    }

    /// Return a new `LoadingScreen` using data located at the given `offset` in
    /// the given `bin` file structure.
    ///
    /// Prefer calling [`Bin::get_object_from_offset`] rather than calling
    /// this method.
    fn new(bin: &Bin, offset: usize) -> (r: Result<LoadingScreen, Error>) {
        let len: usize = bin.raw.len();
        if len < 0x8C || offset > len - 0x8C {
            return Err(too_few_bytes(0x8C, len as u64, offset as u64));
        }
        let bytes = slice_to_vec(slice_subrange(bin.raw.as_slice(), offset, offset + 0x8C));
        Ok(LoadingScreen { bytes })
    }

    proof fn lemma_registered() {
    }
}

} // verus!
