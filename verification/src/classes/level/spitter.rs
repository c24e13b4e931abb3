//! The spitter of a level, and the keyframes of its animation.
use vstd::prelude::*;
use crate::classes::level::events::EventSequence;
use crate::classes::util::{
    are_objects_at, array_error, construct_optional_type, elements_written, is_optional_at,
    lemma_elements_written_same, offsets_error, offsets_of, optional_error, read_objects,
    read_offsets, smaller, write_elements,
};
use crate::classes::{SerialisedShrekSuperSlamGameObject, WriteableShrekSuperSlamGameObject};
use crate::console::Console;
use crate::errors::{not_enough, too_few_bytes, Error};
use crate::files::bin::bin::Bin;
use crate::util::{
    get_word, lemma_with_byte_same, lemma_with_word_same, put_byte, put_word, with_byte,
    with_word, word_at,
};

verus! {

/// Structure representing the in-game `Game::Spitter` object type.
///
/// A 'spitter' is what players get slammed into, and is responsible for
/// spawning the player back onto the battlefield, and the slam event
/// animations.
#[derive(Debug)]
pub struct Spitter {
    /// The keyframes of the spitter.
    pub keyframes: Vec<SpitterKeyframe>,
    /// Unknown property at offset +004.
    pub unknown_004: u32,
    /// Unknown property at offset +038.
    pub unknown_038: u32,
    /// Unknown property at offset +044.
    pub unknown_044: u8,
    /// Unknown property at offset +045.
    pub unknown_045: u8,
    /// Unknown property at offset +046.
    pub unknown_046: u8,
    /// Unknown property at offset +047.
    pub unknown_047: u8,
    /// The offsets within the file of each keyframe, in the same order they
    /// exist within the keyframes property. Empty where the spitter was not
    /// read from a file.
    pub keyframe_offsets: Vec<u32>,
}

impl Spitter {
    /// `raw` with the numbers of this spitter written from `offset` on.
    pub open spec fn fields_written(&self, raw: Seq<u8>, c: Console, offset: int) -> Seq<u8> {
        let raw = with_word(raw, c, offset + 0x04, self.unknown_004);
        let raw = with_word(raw, c, offset + 0x38, self.unknown_038);
        let raw = with_byte(raw, offset + 0x44, self.unknown_044);
        let raw = with_byte(raw, offset + 0x45, self.unknown_045);
        let raw = with_byte(raw, offset + 0x46, self.unknown_046);
        let raw = with_byte(raw, offset + 0x47, self.unknown_047);
        raw
    }

    /// The offsets that the keyframes of this spitter are written at, for
    /// the spitter stored at `offset`: those that it was read with, where
    /// they are as many as the stored spitter has keyframes, else those of
    /// the stored spitter.
    pub open spec fn write_offsets(&self, raw: Seq<u8>, c: Console, offset: int) -> Seq<u32> {
        if word_at(raw, c, offset + 0x24) == self.keyframe_offsets@.len() {
            self.keyframe_offsets@
        } else {
            offsets_of(raw, c, word_at(raw, c, offset + 0x20), word_at(raw, c, offset + 0x24))
        }
    }

    /// Writes the numbers of this spitter from `offset` on.
    fn write_fields(&self, raw: &mut Vec<u8>, c: Console, offset: usize)
        requires
            offset + 0xE0 <= old(raw)@.len(),
        ensures
            final(raw)@ == self.fields_written(old(raw)@, c, offset as int),
            final(raw)@.len() == old(raw)@.len(),
    {
        assert(raw.len() == raw@.len());
        put_word(raw, c, offset + 0x04, self.unknown_004);
        put_word(raw, c, offset + 0x38, self.unknown_038);
        put_byte(raw, offset + 0x44, self.unknown_044);
        put_byte(raw, offset + 0x45, self.unknown_045);
        put_byte(raw, offset + 0x46, self.unknown_046);
        put_byte(raw, offset + 0x47, self.unknown_047);
    }

    /// The error of reading the table of the keyframes of the spitter at
    /// `offset`, if there is one.
    pub open spec fn keyframe_offsets_error(raw: Seq<u8>, offset: int, c: Console) -> Option<
        Error,
    > {
        if offset + 0xE0 > raw.len() {
            Some(not_enough(0xE0, raw.len() as int, offset))
        } else {
            offsets_error(raw, word_at(raw, c, offset + 0x20), word_at(raw, c, offset + 0x24))
        }
    }

    /// Retrieve a list of offsets for a spitter's keyframes within the file,
    /// for the spitter that starts at `offset`.
    pub fn keyframe_offsets(raw: &[u8], offset: usize, console: Console) -> (r: Result<
        Vec<u32>,
        Error,
    >)
        ensures
            match r {
                Ok(v) => Self::keyframe_offsets_error(raw@, offset as int, console) is None && v@
                    == offsets_of(
                    raw@,
                    console,
                    word_at(raw@, console, offset + 0x20),
                    word_at(raw@, console, offset + 0x24),
                ),
                Err(e) => Self::keyframe_offsets_error(raw@, offset as int, console) == Some(e),
            },
    {
        let len: usize = raw.len();
        if len < 0xE0 || offset > len - 0xE0 {
            return Err(too_few_bytes(0xE0, len as u64, offset as u64));
        }
        // Offset 0x20 of the spitter contains an offset within the file to a
        // list of further offsets, each of which points to a keyframe. The
        // number of items in the list is located at offset 0x24.

        let keyframes_count = get_word(raw, console, offset + 0x24);
        let keyframes_offset = get_word(raw, console, offset + 0x20);
        read_offsets(raw, console, keyframes_offset, keyframes_count)
    }
}

impl SerialisedShrekSuperSlamGameObject for Spitter {
    open spec fn class_hash() -> u32 {
        0x90D8FCD6
    }

    open spec fn class_name() -> Seq<char> {
        "Game::Spitter"@
    }

    open spec fn class_size() -> nat {
        0xE0
    }

    open spec fn read_error(raw: Seq<u8>, c: Console, offset: int) -> Option<Error> {
        if offset + 0xE0 > raw.len() {
            Some(not_enough(0xE0, raw.len() as int, offset))
        } else {
            array_error::<SpitterKeyframe>(
                raw,
                c,
                word_at(raw, c, offset + 0x20),
                word_at(raw, c, offset + 0x24),
            )
        }
    }

    open spec fn is_read_of(&self, raw: Seq<u8>, c: Console, offset: int) -> bool {
        &&& self.keyframe_offsets@ == offsets_of(
            raw,
            c,
            word_at(raw, c, offset + 0x20),
            word_at(raw, c, offset + 0x24),
        )
        &&& are_objects_at(self.keyframes@, raw, c, self.keyframe_offsets@)
        &&& self.unknown_004 == word_at(raw, c, offset + 0x04)
        &&& self.unknown_038 == word_at(raw, c, offset + 0x38)
        &&& self.unknown_044 == raw[offset + 0x44]
        &&& self.unknown_045 == raw[offset + 0x45]
        &&& self.unknown_046 == raw[offset + 0x46]
        &&& self.unknown_047 == raw[offset + 0x47]
    }

    /// Returns the hashcode for the `Game::Spitter` in-game object.
    fn hash() -> (h: u32) {
        0x90D8FCD6
    }

    /// Returns the name of the in-game class.
    fn name() -> (n: &'static str) {
        "Game::Spitter"
    }

    /// Returns the size of a serialised `Game::Spitter` object.
    fn size() -> (s: usize) {
        0xE0
    }

    /// Return a new `Spitter` using data located at the given `offset` in
    /// the given `bin` file structure.
    ///
    /// Prefer calling [`Bin::get_object_from_offset`] rather than calling
    /// this method.
    fn new(bin: &Bin, offset: usize) -> (r: Result<Spitter, Error>) {
        let len: usize = bin.raw.len();
        if len < 0xE0 || offset > len - 0xE0 {
            return Err(too_few_bytes(0xE0, len as u64, offset as u64));
        }
        let raw = bin.raw.as_slice();
        let c = bin.console;

        // Read the list of keyframe offsets, and use those to read each
        // keyframe
        let keyframe_offsets = Spitter::keyframe_offsets(raw, offset, c)?;
        let keyframes = read_objects::<SpitterKeyframe>(bin, &keyframe_offsets)?;

        // Unknown fields
        let unknown_004 = get_word(raw, c, offset + 0x04);
        let unknown_038 = get_word(raw, c, offset + 0x38);
        let unknown_044 = raw[offset + 0x44];
        let unknown_045 = raw[offset + 0x45];
        let unknown_046 = raw[offset + 0x46];
        let unknown_047 = raw[offset + 0x47];

        Ok(
            Spitter {
                keyframes,
                keyframe_offsets,
                unknown_004,
                unknown_038,
                unknown_044,
                unknown_045,
                unknown_046,
                unknown_047,
            },
        )
    }

    proof fn lemma_registered() {
    }
}

impl WriteableShrekSuperSlamGameObject for Spitter {
    open spec fn written(&self, raw: Seq<u8>, c: Console, offset: int) -> (Seq<u8>, Option<Error>) {
        if offset + 0xE0 > raw.len() {
            (raw, Some(not_enough(0xE0, raw.len() as int, offset)))
        } else {
            let patched = self.fields_written(raw, c, offset);
            let table = word_at(patched, c, offset + 0x20);
            let count = word_at(patched, c, offset + 0x24);
            if count != self.keyframe_offsets@.len() && offsets_error(patched, table, count)
                is Some {
                (patched, offsets_error(patched, table, count))
            } else {
                let offsets = self.write_offsets(patched, c, offset);
                elements_written(
                    self.keyframes@,
                    offsets,
                    patched,
                    c,
                    smaller(self.keyframes@.len(), offsets.len()),
                )
            }
        }
    }

    open spec fn canonical(raw: Seq<u8>, c: Console, offset: int) -> bool {
        true
    }

    /// Writes the object back to its `bin` file at the given `offset`.
    ///
    /// Only the numbers of the spitter are written, and those of its
    /// keyframes: anything else would change the size of the file and
    /// invalidate all offsets.
    ///
    /// The keyframes are written where this spitter remembers to have read
    /// them. If it remembers another number of places than the spitter in
    /// the file has keyframes (it remembers none if it was not read from a
    /// file), the places are those of the keyframes of the spitter in the
    /// file. The keyframes are then matched to the places by position; what
    /// is left over of either is ignored.
    fn write(&self, bin: &mut Bin, offset: usize) -> (r: Result<(), Error>) {
        let len: usize = bin.raw.len();
        if len < 0xE0 || offset > len - 0xE0 {
            return Err(too_few_bytes(0xE0, len as u64, offset as u64));
        }
        let c = bin.console;
        self.write_fields(&mut bin.raw, c, offset);

        // Write the spitter's keyframes back to the file
        let keyframes_count = get_word(bin.raw.as_slice(), c, offset + 0x24);
        if keyframes_count as usize != self.keyframe_offsets.len() {
            let keyframe_offsets = Spitter::keyframe_offsets(bin.raw.as_slice(), offset, c)?;
            write_elements(bin, &self.keyframes, &keyframe_offsets)
        } else {
            write_elements(bin, &self.keyframes, &self.keyframe_offsets)
        }
    }

    proof fn lemma_write_read(&self, raw: Seq<u8>, c: Console, offset: int) {
        lemma_with_word_same(raw, c, offset + 0x04);
        lemma_with_word_same(raw, c, offset + 0x38);
        lemma_with_byte_same(raw, offset + 0x44);
        lemma_with_byte_same(raw, offset + 0x45);
        lemma_with_byte_same(raw, offset + 0x46);
        lemma_with_byte_same(raw, offset + 0x47);
        let offsets = self.keyframe_offsets@;
        let n = self.keyframes@.len();
        assert forall|i: int| 0 <= i < n implies SpitterKeyframe::canonical(
            raw,
            c,
            #[trigger] offsets[i] + 0x40,
        ) by {}
        lemma_elements_written_same(self.keyframes@, offsets, raw, c, n);
    }
}

/// Structure representing the in-game `Game::SpitterKeyframe` object type.
///
/// This represents an individual keyframe within a spitter animation.
#[derive(Debug)]
pub struct SpitterKeyframe {
    /// Unknown property at offset +00C.
    pub unknown_00c: u32,
    /// The event to run on the keyframe, if any.
    pub event: Option<EventSequence>,
}

impl SerialisedShrekSuperSlamGameObject for SpitterKeyframe {
    open spec fn class_hash() -> u32 {
        0x84AD7E70
    }

    open spec fn class_name() -> Seq<char> {
        "Game::SpitterKeyframe"@
    }

    open spec fn class_size() -> nat {
        0x100
    }

    open spec fn read_error(raw: Seq<u8>, c: Console, offset: int) -> Option<Error> {
        if offset + 0x100 > raw.len() {
            Some(not_enough(0x100, raw.len() as int, offset))
        } else {
            optional_error::<EventSequence>(raw, c, word_at(raw, c, offset + 0xBC))
        }
    }

    open spec fn is_read_of(&self, raw: Seq<u8>, c: Console, offset: int) -> bool {
        &&& self.unknown_00c == word_at(raw, c, offset + 0x0C)
        &&& is_optional_at(self.event, raw, c, word_at(raw, c, offset + 0xBC))
    }

    /// Returns the hashcode for the `Game::SpitterKeyframe` in-game object.
    fn hash() -> (h: u32) {
        0x84AD7E70
    }

    /// Returns the name of the in-game class.
    fn name() -> (n: &'static str) {
        "Game::SpitterKeyframe"
    }

    /// Returns the size of a serialised `Game::SpitterKeyframe` object.
    fn size() -> (s: usize) {
        0x100
    }

    /// Return a new `SpitterKeyframe` using data located at the given
    /// `offset` in the given `bin` file structure.
    ///
    /// Prefer calling [`Bin::get_object_from_offset`] rather than calling
    /// this method.
    fn new(bin: &Bin, offset: usize) -> (r: Result<SpitterKeyframe, Error>) {
        let len: usize = bin.raw.len();
        if len < 0x100 || offset > len - 0x100 {
            return Err(too_few_bytes(0x100, len as u64, offset as u64));
        }
        let raw = bin.raw.as_slice();
        let c = bin.console;

        // Unknown fields
        let unknown_00c = get_word(raw, c, offset + 0x0C);

        // The offset to an event sequence, if any, is at +BC
        let event = construct_optional_type::<EventSequence>(bin, offset, c, 0xBC)?;

        Ok(SpitterKeyframe { unknown_00c, event })
    }

    proof fn lemma_registered() {
    }
}

impl WriteableShrekSuperSlamGameObject for SpitterKeyframe {
    open spec fn written(&self, raw: Seq<u8>, c: Console, offset: int) -> (Seq<u8>, Option<Error>) {
        if offset + 0x100 > raw.len() {
            (raw, Some(not_enough(0x100, raw.len() as int, offset)))
        } else {
            (with_word(raw, c, offset + 0x0C, self.unknown_00c), None)
        }
    }

    open spec fn canonical(raw: Seq<u8>, c: Console, offset: int) -> bool {
        true
    }

    /// Writes the object back to its `bin` file at the given `offset`.
    ///
    /// Only the number of the keyframe is written, not its event.
    fn write(&self, bin: &mut Bin, offset: usize) -> (r: Result<(), Error>) {
        let len: usize = bin.raw.len();
        if len < 0x100 || offset > len - 0x100 {
            return Err(too_few_bytes(0x100, len as u64, offset as u64));
        }
        let c = bin.console;
        put_word(&mut bin.raw, c, offset + 0x0C, self.unknown_00c);
        Ok(())
    }

    proof fn lemma_write_read(&self, raw: Seq<u8>, c: Console, offset: int) {
        lemma_with_word_same(raw, c, offset + 0x0C);
    }
}

} // verus!
