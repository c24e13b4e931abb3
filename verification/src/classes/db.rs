//! The directory object that maps out a container.
use vstd::prelude::*;
use vstd::slice::slice_subrange;
use crate::classes::SerialisedShrekSuperSlamGameObject;
use crate::console::Console;
use crate::errors::{not_enough, too_few_bytes, Error};
use crate::files::bin::bin::{
    lemma_word_at_subrange, string_at, string_error, stub_at, Bin, BinObject,
};
use crate::util::{get_word, word_at};

verus! {

/// The size in bytes of one entry of a directory.
pub const OBJECT_ENTRY_SIZE: usize = 0x10;

/// Structure representing the in-game `gf::DB` object type.
///
/// This type is the first object in every container, and maps out the rest
/// of the file.
#[derive(Debug)]
pub struct GfDb {
    /// Objects within the DB, each with its name, in the order of the file.
    pub entries: Vec<(String, BinObject)>,
}

/// Structure representing the in-game `GF_TEMP::ScriptDB` object type.
///
/// This type behaves very similarly to the `gf::DB`.
#[derive(Debug)]
pub struct ScriptDb {
    /// Objects within the DB, each with its name, in the order of the file.
    pub entries: Vec<(String, BinObject)>,
}

/// Where the entries of the directory at `offset` begin.
pub open spec fn entries_begin(raw: Seq<u8>, c: Console, offset: int) -> int {
    0x40 + word_at(raw, c, offset + 0x14)
}

/// The number of entries of the directory at `offset`.
pub open spec fn entries_count(raw: Seq<u8>, c: Console, offset: int) -> u32 {
    word_at(raw, c, offset + 0x18)
}

/// The error of reading the directory entry at `pos`, if there is one: its
/// first word is the offset of its name, its second word the offset of its
/// object.
pub open spec fn entry_error(raw: Seq<u8>, c: Console, pos: int) -> Option<Error> {
    match string_error(raw, word_at(raw, c, pos)) {
        Some(e) => Some(e),
        None => match stub_at(raw, c, word_at(raw, c, pos + 4)) {
            Err(e) => Some(e),
            Ok(_) => None,
        },
    }
}

/// Whether `entry` is the directory entry at `pos`.
pub open spec fn is_entry_at(entry: (String, BinObject), raw: Seq<u8>, c: Console, pos: int) -> bool {
    &&& entry.0@ == string_at(raw, word_at(raw, c, pos))
    &&& stub_at(raw, c, word_at(raw, c, pos + 4)) == Ok::<BinObject, Error>(entry.1)
}

/// The error of reading the first `n` entries of the directory whose entries
/// begin at `begin`, in their order, if there is one.
#[verifier::opaque]
pub open spec fn entries_error(raw: Seq<u8>, c: Console, begin: int, n: nat) -> Option<Error>
    decreases n,
{
    if n == 0 {
        None
    } else {
        match entries_error(raw, c, begin, (n - 1) as nat) {
            Some(e) => Some(e),
            None => entry_error(raw, c, begin + 0x10 * (n - 1)),
        }
    }
}

/// The error of reading the directory at `offset`, if there is one.
pub open spec fn directory_error(raw: Seq<u8>, c: Console, offset: int) -> Option<Error> {
    let begin = entries_begin(raw, c, offset);
    let count = entries_count(raw, c, offset);
    if offset + 0x24 > raw.len() {
        Some(not_enough(0x24, raw.len() as int, offset))
    } else if begin + 0x10 * count > raw.len() {
        Some(not_enough(0x10 * count, raw.len() as int, begin))
    } else {
        entries_error(raw, c, begin, count as nat)
    }
}

/// Whether `entries` are those of the directory at `offset`.
pub open spec fn is_directory_at(
    entries: Seq<(String, BinObject)>,
    raw: Seq<u8>,
    c: Console,
    offset: int,
) -> bool {
    &&& entries.len() == entries_count(raw, c, offset)
    &&& forall|i: int|
        0 <= i < entries.len() ==> is_entry_at(
            #[trigger] entries[i],
            raw,
            c,
            entries_begin(raw, c, offset) + 0x10 * i,
        )
}

/// How the error of reading `n + 1` entries comes from that of reading `n`
/// entries.
pub proof fn lemma_entries_error_step(raw: Seq<u8>, c: Console, begin: int, n: nat)
    ensures
        entries_error(raw, c, begin, 0) is None,
        entries_error(raw, c, begin, n + 1) == match entries_error(raw, c, begin, n) {
            Some(e) => Some(e),
            None => entry_error(raw, c, begin + 0x10 * n),
        },
{
    reveal_with_fuel(entries_error, 2);
}

/// An error among the first `n` entries is the error among the first `m`
/// entries, for `m` no less than `n`.
pub proof fn lemma_entries_error_stays(raw: Seq<u8>, c: Console, begin: int, n: nat, m: nat)
    requires
        n <= m,
        entries_error(raw, c, begin, n) is Some,
    ensures
        entries_error(raw, c, begin, m) == entries_error(raw, c, begin, n),
    decreases m - n,
{
    if n < m {
        lemma_entries_error_stays(raw, c, begin, n, (m - 1) as nat);
        lemma_entries_error_step(raw, c, begin, (m - 1) as nat);
    }
}

/// The error of reading a directory entry from the bytes of `entry`, in a
/// container of the bytes `raw`, if there is one.
pub open spec fn object_entry_error(entry: Seq<u8>, raw: Seq<u8>, c: Console) -> Option<Error> {
    if entry.len() < 8 {
        Some(not_enough(8, entry.len() as int, 0))
    } else {
        match string_error(raw, word_at(entry, c, 0)) {
            Some(e) => Some(e),
            None => match stub_at(raw, c, word_at(entry, c, 4)) {
                Err(e) => Some(e),
                Ok(_) => None,
            },
        }
    }
}

/// Extract the `raw` bytes of a single directory entry into its actual
/// parts, and resolve them using the rest of the `bin`.
pub fn create_object_entry(raw: &[u8], bin: &Bin, c: Console) -> (r: Result<
    (String, BinObject),
    Error,
>)
    ensures
        match r {
            Ok(entry) => {
                &&& object_entry_error(raw@, bin.raw@, c) is None
                &&& entry.0@ == string_at(bin.raw@, word_at(raw@, c, 0))
                &&& stub_at(bin.raw@, c, word_at(raw@, c, 4)) == Ok::<BinObject, Error>(entry.1)
            },
            Err(e) => object_entry_error(raw@, bin.raw@, c) == Some(e),
        },
{
    if raw.len() < 8 {
        return Err(too_few_bytes(8, raw.len() as u64, 0));
    }
    // +00 is the offset in the file to the name of the entry

    let name_offset = get_word(raw, c, 0x00);
    let name = bin.get_str_from_offset(name_offset)?;

    // +04 is the offset to the actual entry in the file
    let object_offset = get_word(raw, c, 0x04);
    let object = BinObject::new(bin.raw.as_slice(), object_offset, c)?;

    Ok((name, object))
}

/// Reads the entries of the directory at `offset`.
fn read_directory(bin: &Bin, offset: usize) -> (r: Result<Vec<(String, BinObject)>, Error>)
    ensures
        match r {
            Ok(entries) => directory_error(bin.raw@, bin.console, offset as int) is None
                && is_directory_at(entries@, bin.raw@, bin.console, offset as int),
            Err(e) => directory_error(bin.raw@, bin.console, offset as int) == Some(e),
        },
{
    let len: usize = bin.raw.len();
    if len < 0x24 || offset > len - 0x24 {
        return Err(too_few_bytes(0x24, len as u64, offset as u64));
    }
    let raw = bin.raw.as_slice();
    let c = bin.console;

    // +14 contains the offset to the start of the array of objects in the DB.
    // +18 contains a count of the number of objects in this array.
    let objects_initial_offset: u64 = 0x40 + get_word(raw, c, offset + 0x14) as u64;
    let objects_count: u32 = get_word(raw, c, offset + 0x18);
    let objects_size: u64 = objects_count as u64 * 0x10;
    if objects_size > len as u64 || objects_initial_offset > len as u64 - objects_size {
        return Err(too_few_bytes(objects_size, len as u64, objects_initial_offset));
    }
    let begin: usize = objects_initial_offset as usize;

    let mut objects: Vec<(String, BinObject)> = Vec::new();
    let mut i: u32 = 0;
    proof {
        lemma_entries_error_step(bin.raw@, c, begin as int, 0);
    }
    while i < objects_count
        invariant
            len == bin.raw@.len(),
            raw@ == bin.raw@,
            c == bin.console,
            i <= objects_count,
            offset + 0x24 <= len,
            begin == entries_begin(bin.raw@, c, offset as int),
            objects_count == entries_count(bin.raw@, c, offset as int),
            begin + 0x10 * objects_count <= len,
            objects@.len() == i,
            entries_error(bin.raw@, c, begin as int, i as nat) is None,
            forall|k: int|
                0 <= k < i ==> is_entry_at(#[trigger] objects@[k], bin.raw@, c, begin + 0x10 * k),
        decreases objects_count - i,
    {
        let pos: usize = begin + i as usize * 0x10;
        proof {
            lemma_entries_error_step(bin.raw@, c, begin as int, i as nat);
            lemma_word_at_subrange(bin.raw@, c, pos as int, pos + 0x10, 0);
            lemma_word_at_subrange(bin.raw@, c, pos as int, pos + 0x10, 4);
        }
        match create_object_entry(slice_subrange(raw, pos, pos + 0x10), bin, c) {
            Ok(entry) => {
                objects.push(entry);
            },
            Err(e) => {
                proof {
                    assert(entry_error(bin.raw@, c, begin + 0x10 * i) == Some(e));
                    assert(entries_error(bin.raw@, c, begin as int, (i + 1) as nat) == Some(e));
                    lemma_entries_error_stays(
                        bin.raw@,
                        c,
                        begin as int,
                        (i + 1) as nat,
                        objects_count as nat,
                    );
                }
                return Err(e);
            },
        }
        i += 1;
    }
    Ok(objects)
}

impl SerialisedShrekSuperSlamGameObject for GfDb {
    open spec fn class_hash() -> u32 {
        0x9B3DDBED
    }

    open spec fn class_name() -> Seq<char> {
        "gf::DB"@
    }

    open spec fn class_size() -> nat {
        0x24
    }

    open spec fn read_error(raw: Seq<u8>, c: Console, offset: int) -> Option<Error> {
        directory_error(raw, c, offset)
    }

    open spec fn is_read_of(&self, raw: Seq<u8>, c: Console, offset: int) -> bool {
        is_directory_at(self.entries@, raw, c, offset)
    }

    /// Returns the hashcode for the `gf::DB` in-game object.
    fn hash() -> (h: u32) {
        0x9B3DDBED
    }

    /// Returns the name of the in-game class.
    fn name() -> (n: &'static str) {
        "gf::DB"
    }

    /// Returns the size of a serialised `gf::DB` object.
    fn size() -> (s: usize) {
        0x24
    }

    /// Return a new `GfDb` using data located at the given `offset` in the
    /// given `bin` file structure.
    ///
    /// Prefer calling [`Bin::get_object_from_offset`] rather than calling
    /// this method.
    fn new(bin: &Bin, offset: usize) -> (r: Result<GfDb, Error>) {
        Ok(GfDb { entries: read_directory(bin, offset)? })
    }

    proof fn lemma_registered() {
    }
}

impl SerialisedShrekSuperSlamGameObject for ScriptDb {
    open spec fn class_hash() -> u32 {
        0xA128E61A
    }

    open spec fn class_name() -> Seq<char> {
        "GF_TEMP::ScriptDB"@
    }

    open spec fn class_size() -> nat {
        0x24
    }

    open spec fn read_error(raw: Seq<u8>, c: Console, offset: int) -> Option<Error> {
        directory_error(raw, c, offset)
    }

    open spec fn is_read_of(&self, raw: Seq<u8>, c: Console, offset: int) -> bool {
        is_directory_at(self.entries@, raw, c, offset)
    }

    /// Returns the hashcode for the `GF_TEMP::ScriptDB` in-game object.
    fn hash() -> (h: u32) {
        0xA128E61A
    }

    /// Returns the name of the in-game class.
    fn name() -> (n: &'static str) {
        "GF_TEMP::ScriptDB"
    }

    /// Returns the size of a serialised `GF_TEMP::ScriptDB` object.
    fn size() -> (s: usize) {
        0x24
    }

    /// Return a new `ScriptDb` using data located at the given `offset` in
    /// the given `bin` file structure.
    ///
    /// Prefer calling [`Bin::get_object_from_offset`] rather than calling
    /// this method.
    fn new(bin: &Bin, offset: usize) -> (r: Result<ScriptDb, Error>) {
        // This object works the same way as the gf::DB type
        let db = GfDb::new(bin, offset)?;

        Ok(ScriptDb { entries: db.entries })
    }

    proof fn lemma_registered() {
    }
}

} // verus!
