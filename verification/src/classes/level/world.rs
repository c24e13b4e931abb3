//! The world of a level.
use vstd::prelude::*;
use crate::classes::{SerialisedShrekSuperSlamGameObject, WriteableShrekSuperSlamGameObject};
use crate::console::{Console, FloatBits};
use crate::errors::{not_enough, too_few_bytes, Error};
use crate::files::bin::bin::Bin;
use crate::util::{
    float_at, get_float, get_word, lemma_with_word_same, put_float, put_word, with_float,
    with_word, word_at,
};

verus! {

/// Structure representing the in-game `Game::GameWorld` object type.
///
/// This contains information about a level.
#[derive(Clone, Copy, PartialEq, Eq, Structural, Debug)]
pub struct GameWorld {
    /// Setting this field to anything but 1 locks the players in place. It is
    /// always set to 1, at least in the files.
    pub playable: u32,
    /// Seems to be related to the out-of-bounds boundary. The first set is
    /// mostly 100 each, the second set -100, -10 and -100.
    pub unknown_float_1_x: FloatBits,
    /// Seems to be related to the out-of-bounds boundary. The first set is
    /// mostly 100 each, the second set -100, -10 and -100.
    pub unknown_float_1_y: FloatBits,
    /// Seems to be related to the out-of-bounds boundary. The first set is
    /// mostly 100 each, the second set -100, -10 and -100.
    pub unknown_float_1_z: FloatBits,
    /// Seems to be related to the out-of-bounds boundary. The first set is
    /// mostly 100 each, the second set -100, -10 and -100.
    pub unknown_float_2_x: FloatBits,
    /// Seems to be related to the out-of-bounds boundary. The first set is
    /// mostly 100 each, the second set -100, -10 and -100.
    pub unknown_float_2_y: FloatBits,
    /// Seems to be related to the out-of-bounds boundary. The first set is
    /// mostly 100 each, the second set -100, -10 and -100.
    pub unknown_float_2_z: FloatBits,
}

impl GameWorld {
    /// `raw` with the fields of this object written from `offset` on.
    pub open spec fn fields_written(&self, raw: Seq<u8>, c: Console, offset: int) -> Seq<u8> {
        let raw = with_word(raw, c, offset + 0x14, self.playable);
        let raw = with_float(raw, c, offset + 0x30, self.unknown_float_1_x);
        let raw = with_float(raw, c, offset + 0x34, self.unknown_float_1_y);
        let raw = with_float(raw, c, offset + 0x38, self.unknown_float_1_z);
        let raw = with_float(raw, c, offset + 0x40, self.unknown_float_2_x);
        let raw = with_float(raw, c, offset + 0x44, self.unknown_float_2_y);
        let raw = with_float(raw, c, offset + 0x48, self.unknown_float_2_z);
        raw
    }

    /// Writes the fields of this object from `offset` on.
    fn write_fields(&self, raw: &mut Vec<u8>, c: Console, offset: usize)
        requires
            offset + 0xB430 <= old(raw)@.len(),
        ensures
            final(raw)@ == self.fields_written(old(raw)@, c, offset as int),
            final(raw)@.len() == old(raw)@.len(),
    {
        assert(raw.len() == raw@.len());
        put_word(raw, c, offset + 0x14, self.playable);
        put_float(raw, c, offset + 0x30, self.unknown_float_1_x);
        put_float(raw, c, offset + 0x34, self.unknown_float_1_y);
        put_float(raw, c, offset + 0x38, self.unknown_float_1_z);
        put_float(raw, c, offset + 0x40, self.unknown_float_2_x);
        put_float(raw, c, offset + 0x44, self.unknown_float_2_y);
        put_float(raw, c, offset + 0x48, self.unknown_float_2_z);
    }
}

impl SerialisedShrekSuperSlamGameObject for GameWorld {
    open spec fn class_hash() -> u32 {
        0xB974E53B
    }

    open spec fn class_name() -> Seq<char> {
        "Game::GameWorld"@
    }

    open spec fn class_size() -> nat {
        0xB430
    }

    open spec fn read_error(raw: Seq<u8>, c: Console, offset: int) -> Option<Error> {
        if offset + 0xB430 > raw.len() {
            Some(not_enough(0xB430, raw.len() as int, offset))
        } else {
            None
        }
    }

    open spec fn is_read_of(&self, raw: Seq<u8>, c: Console, offset: int) -> bool {
        &&& self.playable == word_at(raw, c, offset + 0x14)
        &&& self.unknown_float_1_x == float_at(raw, c, offset + 0x30)
        &&& self.unknown_float_1_y == float_at(raw, c, offset + 0x34)
        &&& self.unknown_float_1_z == float_at(raw, c, offset + 0x38)
        &&& self.unknown_float_2_x == float_at(raw, c, offset + 0x40)
        &&& self.unknown_float_2_y == float_at(raw, c, offset + 0x44)
        &&& self.unknown_float_2_z == float_at(raw, c, offset + 0x48)
    }

    /// Returns the hashcode for the `Game::GameWorld` in-game object.
    fn hash() -> (h: u32) {
        0xB974E53B
    }

    /// Returns the name of the in-game class.
    fn name() -> (n: &'static str) {
        "Game::GameWorld"
    }

    /// Returns the size of a serialised `Game::GameWorld` object.
    fn size() -> (s: usize) {
        0xB430
    }

    /// Return a new `GameWorld` using data located at the given `offset` in
    /// the given `bin` file structure.
    ///
    /// Prefer calling [`Bin::get_object_from_offset`] rather than calling
    /// this method.
    fn new(bin: &Bin, offset: usize) -> (r: Result<GameWorld, Error>) {
        let len: usize = bin.raw.len();
        if len < 0xB430 || offset > len - 0xB430 {
            return Err(too_few_bytes(0xB430, len as u64, offset as u64));
        }
        let raw = bin.raw.as_slice();
        let c = bin.console;
        let playable = get_word(raw, c, offset + 0x14);
        let unknown_float_1_x = get_float(raw, c, offset + 0x30);
        let unknown_float_1_y = get_float(raw, c, offset + 0x34);
        let unknown_float_1_z = get_float(raw, c, offset + 0x38);
        let unknown_float_2_x = get_float(raw, c, offset + 0x40);
        let unknown_float_2_y = get_float(raw, c, offset + 0x44);
        let unknown_float_2_z = get_float(raw, c, offset + 0x48);
        Ok(
            GameWorld {
                playable,
                unknown_float_1_x,
                unknown_float_1_y,
                unknown_float_1_z,
                unknown_float_2_x,
                unknown_float_2_y,
                unknown_float_2_z,
            },
        )
    }

    proof fn lemma_registered() {
    }
}

impl WriteableShrekSuperSlamGameObject for GameWorld {
    open spec fn written(&self, raw: Seq<u8>, c: Console, offset: int) -> (Seq<u8>, Option<Error>) {
        if offset + 0xB430 > raw.len() {
            (raw, Some(not_enough(0xB430, raw.len() as int, offset)))
        } else {
            (self.fields_written(raw, c, offset), None)
        }
    }

    open spec fn canonical(raw: Seq<u8>, c: Console, offset: int) -> bool {
        true
    }

    /// Writes the object back to its `bin` file at the given `offset`.
    ///
    /// Only the numbers of the object are written: anything else would
    /// change the size of the file and invalidate all offsets.
    fn write(&self, bin: &mut Bin, offset: usize) -> (r: Result<(), Error>) {
        let len: usize = bin.raw.len();
        if len < 0xB430 || offset > len - 0xB430 {
            return Err(too_few_bytes(0xB430, len as u64, offset as u64));
        }
        self.write_fields(&mut bin.raw, bin.console, offset);
        Ok(())
    }

    proof fn lemma_write_read(&self, raw: Seq<u8>, c: Console, offset: int) {
        lemma_with_word_same(raw, c, offset + 0x14);
        lemma_with_word_same(raw, c, offset + 0x30);
        lemma_with_word_same(raw, c, offset + 0x34);
        lemma_with_word_same(raw, c, offset + 0x38);
        lemma_with_word_same(raw, c, offset + 0x40);
        lemma_with_word_same(raw, c, offset + 0x44);
        lemma_with_word_same(raw, c, offset + 0x48);
    }
}

} // verus!
