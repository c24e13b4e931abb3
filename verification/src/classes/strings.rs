//! Objects that wrap a string.
use vstd::prelude::*;
use vstd::slice::{slice_subrange, slice_to_vec};
use crate::classes::SerialisedShrekSuperSlamGameObject;
use crate::console::Console;
use crate::errors::{not_enough, too_few_bytes, Error};
use crate::files::bin::bin::{string_at, string_error, Bin};
use crate::files::bin::header::push_word;
use crate::latin1::{encode, is_latin1, latin1_bytes};
use crate::util::{get_word, word_at};

verus! {

/// Structure representing the in-game `gf::LocalizedString` object type.
///
/// This type is a thin wrapper around regular string types.
#[derive(Debug)]
pub struct LocalizedString {
    /// The contents of the string.
    pub string: String,
    /// Unknown value that resides at +04, seems to be 0 if the string is
    /// empty.
    pub unknown: u32,
    /// The raw bytes of the object.
    pub bytes: Vec<u8>,
}

/// Structure representing the in-game `Game::EffectStringReference` object
/// type.
///
/// This type is a thin wrapper around a string that names an effect.
#[derive(Debug)]
pub struct EffectStringReference {
    /// The contents of the string.
    pub string: String,
    /// The raw bytes of the object.
    pub bytes: Vec<u8>,
}

/// The error that laying out a string object for `offset` ends in, if it
/// ends in one: the object must have its first eight bytes, the place behind
/// it must be within reach of a 32-bit offset, and the string must be
/// ISO 8859-1.
pub open spec fn layout_error(bytes: Seq<u8>, string: Seq<char>, offset: int) -> Option<Error> {
    if bytes.len() < 8 {
        Some(not_enough(8, bytes.len() as int, 0))
    } else if offset + 0x0C > u32::MAX {
        Some(Error::ConsoleNumberError)
    } else if !is_latin1(string) {
        Some(Error::StringDeserialiseError)
    } else {
        None
    }
}

/// The bytes of a string object that is laid out for `offset`: its first
/// eight bytes, the offset of the place behind it, and there the string.
pub open spec fn layout_bytes(bytes: Seq<u8>, string: Seq<char>, offset: int, c: Console) -> Seq<
    u8,
> {
    bytes.subrange(0, 8) + c.bytes_of((offset + 0x0C) as u32) + latin1_bytes(string)
}

/// Lays out a string object for `offset`.
fn layout(bytes: &Vec<u8>, string: &String, offset: usize, console: Console) -> (r: Result<
    Vec<u8>,
    Error,
>)
    ensures
        match r {
            Ok(b) => layout_error(bytes@, string@, offset as int) is None && b@ == layout_bytes(
                bytes@,
                string@,
                offset as int,
                console,
            ),
            Err(e) => layout_error(bytes@, string@, offset as int) == Some(e),
        },
{
    if bytes.len() < 8 {
        return Err(too_few_bytes(8, bytes.len() as u64, 0));
    }
    if offset > 0xFFFF_FFF3 {
        return Err(Error::ConsoleNumberError);
    }
    // The first eight bytes are those of the object as it was read
    let mut laid = slice_to_vec(slice_subrange(bytes.as_slice(), 0, 8));

    // The string is placed immediately after the object, so the offset to
    // the string is the given offset plus the size of the object
    push_word(&mut laid, console, (offset + 0x0C) as u32)?;

    // Write the string immediately after, encoded as ISO 8859-1
    let mut text = encode(string.as_str())?;
    laid.append(&mut text);
    Ok(laid)
}

impl SerialisedShrekSuperSlamGameObject for LocalizedString {
    open spec fn class_hash() -> u32 {
        0xBFC7788D
    }

    open spec fn class_name() -> Seq<char> {
        "gf::LocalizedString"@
    }

    open spec fn class_size() -> nat {
        0x0C
    }

    open spec fn read_error(raw: Seq<u8>, c: Console, offset: int) -> Option<Error> {
        if offset + 0x0C > raw.len() {
            Some(not_enough(0x0C, raw.len() as int, offset))
        } else {
            string_error(raw, word_at(raw, c, offset + 0x08))
        }
    }

    open spec fn is_read_of(&self, raw: Seq<u8>, c: Console, offset: int) -> bool {
        &&& self.string@ == string_at(raw, word_at(raw, c, offset + 0x08))
        &&& self.unknown == word_at(raw, c, offset + 0x04)
        &&& self.bytes@ == raw.subrange(offset, offset + 0x0C)
    }

    /// Returns the hashcode for the `gf::LocalizedString` in-game object.
    fn hash() -> (h: u32) {
        0xBFC7788D
    }

    /// Returns the name of the in-game class.
    fn name() -> (n: &'static str) {
        "gf::LocalizedString"
    }

    /// Returns the size of a serialised `gf::LocalizedString` object.
    fn size() -> (s: usize) {
        0x0C
    }

    /// Return a new `LocalizedString` using data located at the given
    /// `offset` in the given `bin` file structure.
    ///
    /// Prefer calling [`Bin::get_object_from_offset`] rather than calling
    /// this method.
    fn new(bin: &Bin, offset: usize) -> (r: Result<LocalizedString, Error>) {
        let len: usize = bin.raw.len();
        if len < 0x0C || offset > len - 0x0C {
            return Err(too_few_bytes(0x0C, len as u64, offset as u64));
        }
        let raw = bin.raw.as_slice();
        let c = bin.console;
        let bytes = slice_to_vec(slice_subrange(raw, offset, offset + 0x0C));
        let x = get_word(raw, c, offset + 0x04);
        let str_offset = get_word(raw, c, offset + 0x08);
        Ok(LocalizedString { string: bin.get_str_from_offset(str_offset)?, unknown: x, bytes })
    }

    proof fn lemma_registered() {
    }
}

impl LocalizedString {
    /// Determine if a `gf::LocalizedString` is empty or not.
    pub fn is_empty(&self) -> (r: bool)
        ensures
            r == (self.unknown == 0),
    {
        self.unknown == 0
    }

    /// Get the byte representation of the object for the given `offset`,
    /// with the contents of the string placed immediately after the object.
    pub fn to_bytes(&self, offset: usize, console: Console) -> (r: Result<Vec<u8>, Error>)
        ensures
            match r {
                Ok(b) => layout_error(self.bytes@, self.string@, offset as int) is None && b@
                    == layout_bytes(self.bytes@, self.string@, offset as int, console),
                Err(e) => layout_error(self.bytes@, self.string@, offset as int) == Some(e),
            },
    {
        layout(&self.bytes, &self.string, offset, console)
    }
}

impl SerialisedShrekSuperSlamGameObject for EffectStringReference {
    open spec fn class_hash() -> u32 {
        0xC43D420D
    }

    open spec fn class_name() -> Seq<char> {
        "Game::EffectStringReference"@
    }

    open spec fn class_size() -> nat {
        0x0C
    }

    open spec fn read_error(raw: Seq<u8>, c: Console, offset: int) -> Option<Error> {
        if offset + 0x0C > raw.len() {
            Some(not_enough(0x0C, raw.len() as int, offset))
        } else {
            string_error(raw, word_at(raw, c, offset + 0x04))
        }
    }

    open spec fn is_read_of(&self, raw: Seq<u8>, c: Console, offset: int) -> bool {
        &&& self.string@ == string_at(raw, word_at(raw, c, offset + 0x04))
        &&& self.bytes@ == raw.subrange(offset, offset + 0x0C)
    }

    /// Returns the hashcode for the `Game::EffectStringReference` in-game
    /// object.
    fn hash() -> (h: u32) {
        0xC43D420D
    }

    /// Returns the name of the in-game class.
    fn name() -> (n: &'static str) {
        "Game::EffectStringReference"
    }

    /// Returns the size of a serialised `Game::EffectStringReference` object.
    fn size() -> (s: usize) {
        0x0C
    }

    /// Return a new `EffectStringReference` using data located at the given
    /// `offset` in the given `bin` file structure.
    ///
    /// Prefer calling [`Bin::get_object_from_offset`] rather than calling
    /// this method.
    fn new(bin: &Bin, offset: usize) -> (r: Result<EffectStringReference, Error>) {
        let len: usize = bin.raw.len();
        if len < 0x0C || offset > len - 0x0C {
            return Err(too_few_bytes(0x0C, len as u64, offset as u64));
        }
        let raw = bin.raw.as_slice();
        let c = bin.console;
        let bytes = slice_to_vec(slice_subrange(raw, offset, offset + 0x0C));
        let str_offset = get_word(raw, c, offset + 0x04);
        Ok(EffectStringReference { string: bin.get_str_from_offset(str_offset)?, bytes })
    }

    proof fn lemma_registered() {
    }
}

impl EffectStringReference {
    /// Get the byte representation of the object for the given `offset`,
    /// with the contents of the string placed immediately after the object.
    pub fn to_bytes(&self, offset: usize, console: Console) -> (r: Result<Vec<u8>, Error>)
        ensures
            match r {
                Ok(b) => layout_error(self.bytes@, self.string@, offset as int) is None && b@
                    == layout_bytes(self.bytes@, self.string@, offset as int, console),
                Err(e) => layout_error(self.bytes@, self.string@, offset as int) == Some(e),
            },
    {
        layout(&self.bytes, &self.string, offset, console)
    }
}

} // verus!
