//! Sequences of events.
use vstd::prelude::*;
use vstd::slice::{slice_subrange, slice_to_vec};
use crate::classes::util::{offsets_error, offsets_of, read_offsets};
use crate::classes::SerialisedShrekSuperSlamGameObject;
use crate::console::Console;
use crate::errors::{not_enough, too_few_bytes, Error};
use crate::files::bin::bin::Bin;
use crate::util::{get_word, word_at};

verus! {

/// Structure representing the in-game `Game::EventSequence` object type.
///
/// This contains a series of events to be executed in a sequence.
#[derive(Debug)]
pub struct EventSequence {
    /// The offsets to the events in the sequence. The events themselves are
    /// of many classes, and are not read.
    pub event_offsets: Vec<u32>,
    /// The raw bytes of the object.
    pub bytes: Vec<u8>,
}

impl SerialisedShrekSuperSlamGameObject for EventSequence {
    open spec fn class_hash() -> u32 {
        0xD24634FE
    }

    open spec fn class_name() -> Seq<char> {
        "Game::EventSequence"@
    }

    open spec fn class_size() -> nat {
        0x30
    }

    open spec fn read_error(raw: Seq<u8>, c: Console, offset: int) -> Option<Error> {
        if offset + 0x30 > raw.len() {
            Some(not_enough(0x30, raw.len() as int, offset))
        } else {
            offsets_error(raw, word_at(raw, c, offset + 0x04), word_at(raw, c, offset + 0x08))
        }
    }

    open spec fn is_read_of(&self, raw: Seq<u8>, c: Console, offset: int) -> bool {
        &&& self.bytes@ == raw.subrange(offset, offset + 0x30)
        &&& self.event_offsets@ == offsets_of(
            raw,
            c,
            word_at(raw, c, offset + 0x04),
            word_at(raw, c, offset + 0x08),
        )
    }

    /// Returns the hashcode for the `Game::EventSequence` in-game object.
    fn hash() -> (h: u32) {
        0xD24634FE
    }

    /// Returns the name of the in-game class.
    fn name() -> (n: &'static str) {
        "Game::EventSequence"
    }

    /// Returns the size of a serialised `Game::EventSequence` object.
    fn size() -> (s: usize) {
        0x30
    }

    /// Return a new `EventSequence` using data located at the given `offset`
    /// in the given `bin` file structure.
    ///
    /// Prefer calling [`Bin::get_object_from_offset`] rather than calling
    /// this method.
    fn new(bin: &Bin, offset: usize) -> (r: Result<EventSequence, Error>) {
        let len: usize = bin.raw.len();
        if len < 0x30 || offset > len - 0x30 {
            return Err(too_few_bytes(0x30, len as u64, offset as u64));
        }
        let raw = bin.raw.as_slice();
        let c = bin.console;
        let bytes = slice_to_vec(slice_subrange(raw, offset, offset + 0x30));

        // Read the number of events and the offset to the events array, then
        // read each offset in the events array
        let event_count = get_word(raw, c, offset + 0x08);
        let events_array_offset = get_word(raw, c, offset + 0x04);
        let event_offsets = read_offsets(raw, c, events_array_offset, event_count)?;

        Ok(EventSequence { event_offsets, bytes })
    }

    proof fn lemma_registered() {
    }
}

} // verus!
