//! The file of meshes.
//!
//! A mesh file opens with a header of 32 bytes, which gives the number of
//! its entries and the place where they begin. Each entry of 12 bytes gives
//! the type and the place of one part of the file. A part opens with the hash
//! of its name and its name; its data follows.
use vstd::prelude::*;
use vstd::slice::{slice_subrange, slice_to_vec};
use crate::console::Console;
use crate::errors::{not_enough, too_few_bytes, Error};
use crate::files::bin::bin::lemma_word_at_subrange;
use crate::latin1::{decode, latin1_chars, trim_end_zeros, trimmed};
use crate::util::{get_word, word_at};

verus! {

/// Structure representing the header of an .ltimesh file
#[derive(Clone, Copy, PartialEq, Eq, Structural, Debug)]
pub struct LtimeshHeader {
    /// Number of entries in the ltimesh.
    pub entries: u32,
    /// The offset within the whole file that the entries start at.
    pub begin_offset: u32,
}

/// Enumeration of the different types of object within an .ltimesh.
#[derive(Copy, Clone, PartialEq, Eq, Structural, Debug)]
pub enum LtimeshEntryType {
    A,
    B,
    C,
}

/// Structure representing an entry in the .ltimesh file, which immediately
/// follows the header and describes a later section of the file.
#[derive(Clone, Copy, PartialEq, Eq, Structural, Debug)]
pub struct LtimeshEntry {
    /// The type of data the entry refers to.
    pub entry_type: LtimeshEntryType,
    /// Offset to the data of the entry, after the name at the beginning.
    pub data_offset: u32,
    /// The offset of the section within the file, which starts with the name.
    pub offset: u32,
}

/// Structure representing a single 'file' contained within an .ltimesh file,
/// referenced by an individual LtimeshEntry.
#[derive(Debug)]
pub struct LtimeshFile {
    /// The hash of the name of the file.
    pub hash: u32,
    /// The name of the file.
    pub name: String,
    /// The remaining data of the file.
    pub data: Vec<u8>,
    /// The type of the file.
    pub file_type: LtimeshEntryType,
}

/// Structure representing an .ltimesh file, and the entries contained within
/// it.
#[derive(Debug)]
pub struct Ltimesh {
    /// The header of the .ltimesh file.
    pub header: LtimeshHeader,
    /// Each of the entries immediately following the header.
    pub entries: Vec<LtimeshEntry>,
    /// Each of the files within the .ltimesh file.
    pub files: Vec<LtimeshFile>,
}

/// The header that the bytes of `raw` hold.
pub open spec fn header_of(raw: Seq<u8>, c: Console) -> LtimeshHeader {
    LtimeshHeader { entries: word_at(raw, c, 0x08), begin_offset: word_at(raw, c, 0x0C) }
}

/// The type that a byte of an entry stands for, if it stands for one.
pub open spec fn type_of(byte: u8) -> Option<LtimeshEntryType> {
    if byte == 1 {
        Some(LtimeshEntryType::A)
    } else if byte == 2 {
        Some(LtimeshEntryType::B)
    } else if byte == 3 {
        Some(LtimeshEntryType::C)
    } else {
        None
    }
}

/// The entry that the 12 bytes from `pos` on hold, if its type is known.
pub open spec fn entry_at(raw: Seq<u8>, c: Console, pos: int) -> Option<LtimeshEntry> {
    match type_of(raw[pos + 3]) {
        Some(entry_type) => Some(
            LtimeshEntry {
                entry_type,
                data_offset: word_at(raw, c, pos + 4),
                offset: word_at(raw, c, pos + 8),
            },
        ),
        None => None,
    }
}

/// The number of bytes that a part of the given type reads at the start of
/// its data.
pub open spec fn references_len(kind: LtimeshEntryType) -> int {
    match kind {
        LtimeshEntryType::A => 8,
        LtimeshEntryType::B => 4,
        LtimeshEntryType::C => 0,
    }
}

/// The error of reading a part from `raw`, whose data begins at
/// `data_offset`, if there is one.
pub open spec fn part_error(raw: Seq<u8>, kind: LtimeshEntryType, data_offset: int) -> Option<
    Error,
> {
    if raw.len() < 4 {
        Some(not_enough(4, raw.len() as int, 0))
    } else if data_offset < 4 {
        Some(Error::ConsoleNumberError)
    } else if data_offset > raw.len() {
        Some(not_enough(data_offset - 4, raw.len() as int, 4))
    } else if data_offset + references_len(kind) > raw.len() {
        Some(not_enough(references_len(kind), raw.len() as int, data_offset))
    } else {
        None
    }
}

/// Whether `file` is the part that `raw` holds, whose data begins at
/// `data_offset`.
pub open spec fn is_part_of(
    file: LtimeshFile,
    raw: Seq<u8>,
    kind: LtimeshEntryType,
    data_offset: int,
    c: Console,
) -> bool {
    &&& file.hash == word_at(raw, c, 0)
    &&& file.name@ == trimmed(latin1_chars(raw.subrange(4, data_offset)))
    &&& file.data@ == raw.subrange(data_offset, raw.len() as int)
    &&& file.file_type == kind
}

/// The place of entry `i` of a mesh file.
pub open spec fn entry_place(raw: Seq<u8>, c: Console, i: int) -> int {
    header_of(raw, c).begin_offset + 0x0C * i
}

/// The error of reading the first `n` entries of a mesh file, in their
/// order, if there is one.
#[verifier::opaque]
pub open spec fn entries_error(raw: Seq<u8>, c: Console, n: nat) -> Option<Error>
    decreases n,
{
    if n == 0 {
        None
    } else {
        match entries_error(raw, c, (n - 1) as nat) {
            Some(e) => Some(e),
            None => {
                let place = entry_place(raw, c, n - 1);
                if place + 0x0C > raw.len() {
                    Some(not_enough(0x0C, raw.len() as int, place))
                } else if entry_at(raw, c, place) is None {
                    Some(Error::ConsoleNumberError)
                } else {
                    None
                }
            },
        }
    }
}

/// Entry `i` of a mesh file.
pub open spec fn listed_entry(raw: Seq<u8>, c: Console, i: int) -> LtimeshEntry {
    entry_at(raw, c, entry_place(raw, c, i))->Some_0
}

/// Where part `i` of a mesh file of `n` parts ends: where the next part
/// begins, or at the end of the file.
pub open spec fn part_end(raw: Seq<u8>, c: Console, i: int, n: int) -> int {
    if i < n - 1 {
        listed_entry(raw, c, i + 1).offset as int
    } else {
        raw.len() as int
    }
}

/// The error of reading part `i` of a mesh file of `n` parts, if there is
/// one.
pub open spec fn listed_part_error(raw: Seq<u8>, c: Console, i: int, n: int) -> Option<Error> {
    let entry = listed_entry(raw, c, i);
    let end = part_end(raw, c, i, n);
    if entry.offset > end {
        Some(Error::ConsoleNumberError)
    } else if end > raw.len() {
        Some(not_enough(end - entry.offset, raw.len() as int, entry.offset as int))
    } else if entry.data_offset < entry.offset {
        Some(Error::ConsoleNumberError)
    } else {
        part_error(
            raw.subrange(entry.offset as int, end),
            entry.entry_type,
            entry.data_offset - entry.offset,
        )
    }
}

/// The error of reading the first `k` parts of a mesh file of `n` parts, in
/// their order, if there is one.
#[verifier::opaque]
pub open spec fn parts_error(raw: Seq<u8>, c: Console, k: nat, n: int) -> Option<Error>
    decreases k,
{
    if k == 0 {
        None
    } else {
        match parts_error(raw, c, (k - 1) as nat, n) {
            Some(e) => Some(e),
            None => listed_part_error(raw, c, k - 1, n),
        }
    }
}

/// The error that reading a mesh file ends in, if it ends in one: the header
/// and the entries are read first, then the parts.
pub open spec fn mesh_error(raw: Seq<u8>, c: Console) -> Option<Error> {
    let count = header_of(raw, c).entries;
    if raw.len() < 0x20 {
        Some(not_enough(0x20, raw.len() as int, 0))
    } else {
        match entries_error(raw, c, count as nat) {
            Some(e) => Some(e),
            None => parts_error(raw, c, count as nat, count as int),
        }
    }
}

impl LtimeshHeader {
    /// Create a new LtimeshHeader structure from the passed `raw` bytes from
    /// the given `console` version.
    pub fn new(raw: &[u8], console: Console) -> (r: Result<LtimeshHeader, Error>)
        ensures
            match r {
                Ok(h) => raw@.len() >= 0x20 && h == header_of(raw@, console),
                Err(e) => raw@.len() < 0x20 && e == not_enough(0x20, raw@.len() as int, 0),
            },
    {
        if raw.len() < 0x20 {
            return Err(too_few_bytes(0x20, raw.len() as u64, 0));
        }
        Ok(
            LtimeshHeader {
                entries: get_word(raw, console, 0x08),
                begin_offset: get_word(raw, console, 0x0C),
            },
        )
    }
}

impl LtimeshEntry {
    /// Create a new LtimeshEntry structure from the passed `raw` bytes from
    /// the given `console` version.
    pub fn new(raw: &[u8], console: Console) -> (r: Result<LtimeshEntry, Error>)
        ensures
            match r {
                Ok(e) => raw@.len() >= 0x0C && entry_at(raw@, console, 0) == Some(e),
                Err(e) => if raw@.len() < 0x0C {
                    e == not_enough(0x0C, raw@.len() as int, 0)
                } else {
                    entry_at(raw@, console, 0) is None && e == Error::ConsoleNumberError
                },
            },
    {
        if raw.len() < 0x0C {
            return Err(too_few_bytes(0x0C, raw.len() as u64, 0));
        }
        let kind: u8 = raw[0x03];
        let entry_type = if kind == 0x01 {
            LtimeshEntryType::A
        } else if kind == 0x02 {
            LtimeshEntryType::B
        } else if kind == 0x03 {
            LtimeshEntryType::C
        } else {
            return Err(Error::ConsoleNumberError);
        };
        Ok(
            LtimeshEntry {
                entry_type,
                data_offset: get_word(raw, console, 0x04),
                offset: get_word(raw, console, 0x08),
            },
        )
    }

    /// Return the size of an LtimeshEntry within the file.
    pub fn size() -> (s: usize)
        ensures
            s == 0x0C,
    {
        0x0C
    }
}

impl LtimeshFile {
    /// Create a new LtimeshFile structure of the given `file_type` from the
    /// passed `raw` bytes from the given `console` version. The
    /// `data_offset` is the offset from the start of the raw bytes passed
    /// that the name section ends and the rest of the data begins.
    pub fn new(raw: &[u8], file_type: LtimeshEntryType, data_offset: usize, console: Console) -> (r:
        Result<LtimeshFile, Error>)
        ensures
            match r {
                Ok(f) => part_error(raw@, file_type, data_offset as int) is None && is_part_of(
                    f,
                    raw@,
                    file_type,
                    data_offset as int,
                    console,
                ),
                Err(e) => part_error(raw@, file_type, data_offset as int) == Some(e),
            },
    {
        let len: usize = raw.len();
        if len < 4 {
            return Err(too_few_bytes(4, len as u64, 0));
        }
        if data_offset < 4 {
            return Err(Error::ConsoleNumberError);
        }
        if data_offset > len {
            return Err(too_few_bytes((data_offset - 4) as u64, len as u64, 4));
        }
        // These fields are constant no matter the type

        let hash = get_word(raw, console, 0x00);
        let full_name = decode(slice_subrange(raw, 0x04, data_offset))?;
        let name = trim_end_zeros(full_name.as_str());

        // From there, it depends on the file type: the data of the first
        // type opens with two references, that of the second with one
        let references: usize = match file_type {
            LtimeshEntryType::A => 8,
            LtimeshEntryType::B => 4,
            LtimeshEntryType::C => 0,
        };
        if references > len - data_offset {
            return Err(too_few_bytes(references as u64, len as u64, data_offset as u64));
        }
        Ok(
            LtimeshFile {
                hash,
                name,
                data: slice_to_vec(slice_subrange(raw, data_offset, len)),
                file_type,
            },
        )
    }
}

impl Ltimesh {
    /// Whether the parts of this mesh file are those that `raw` holds.
    pub open spec fn is_read_of(&self, raw: Seq<u8>, c: Console) -> bool {
        &&& self.header == header_of(raw, c)
        &&& self.entries@.len() == self.header.entries
        &&& forall|i: int|
            0 <= i < self.entries@.len() ==> #[trigger] self.entries@[i] == listed_entry(raw, c, i)
        &&& self.files@.len() == self.header.entries
        &&& forall|i: int|
            0 <= i < self.files@.len() ==> {
                let entry = listed_entry(raw, c, i);
                is_part_of(
                    #[trigger] self.files@[i],
                    raw.subrange(
                        entry.offset as int,
                        part_end(raw, c, i, self.header.entries as int),
                    ),
                    entry.entry_type,
                    entry.data_offset - entry.offset,
                    c,
                )
            }
    }

    /// Construct an Ltimesh from the passed `raw` bytes from the given
    /// `console` version.
    pub fn from_bytes(raw: &[u8], console: Console) -> (r: Result<Ltimesh, Error>)
        ensures
            match r {
                Ok(mesh) => mesh_error(raw@, console) is None && mesh.is_read_of(raw@, console),
                Err(e) => mesh_error(raw@, console) == Some(e),
            },
    {
        let len: usize = raw.len();
        // Read the header
        let header = LtimeshHeader::new(raw, console)?;
        let count: u32 = header.entries;

        // Parse each entry
        let mut entries: Vec<LtimeshEntry> = Vec::new();
        let mut i: u32 = 0;
        proof {
            reveal_with_fuel(entries_error, 2);
        }
        while i < count
            invariant
                len == raw@.len(),
                len >= 0x20,
                header == header_of(raw@, console),
                count == header.entries,
                i <= count,
                entries@.len() == i,
                entries_error(raw@, console, i as nat) is None,
                forall|k: int|
                    0 <= k < i ==> entry_at(raw@, console, entry_place(raw@, console, k))
                        is Some && #[trigger] entries@[k] == listed_entry(raw@, console, k),
            decreases count - i,
        {
            let begin: u64 = i as u64 * 0x0C + header.begin_offset as u64;
            proof {
                reveal_with_fuel(entries_error, 2);
            }
            if begin + 0x0C > len as u64 {
                proof {
                    lemma_entries_error_stays(raw@, console, (i + 1) as nat, count as nat);
                }
                return Err(too_few_bytes(0x0C, len as u64, begin));
            }
            proof {
                lemma_word_at_subrange(raw@, console, begin as int, begin + 0x0C, 4);
                lemma_word_at_subrange(raw@, console, begin as int, begin + 0x0C, 8);
            }
            match LtimeshEntry::new(
                slice_subrange(raw, begin as usize, (begin + 0x0C) as usize),
                console,
            ) {
                Ok(entry) => {
                    entries.push(entry);
                },
                Err(e) => {
                    proof {
                        lemma_entries_error_stays(raw@, console, (i + 1) as nat, count as nat);
                    }
                    return Err(e);
                },
            }
            i += 1;
        }

        // Use the entries to create a structure for each file
        let mut files: Vec<LtimeshFile> = Vec::new();
        let mut j: usize = 0;
        proof {
            reveal_with_fuel(parts_error, 2);
        }
        while j < entries.len()
            invariant
                len == raw@.len(),
                len >= 0x20,
                header == header_of(raw@, console),
                count == header.entries,
                entries@.len() == count,
                entries_error(raw@, console, count as nat) is None,
                forall|k: int|
                    0 <= k < count ==> #[trigger] entries@[k] == listed_entry(raw@, console, k),
                j <= entries@.len(),
                files@.len() == j,
                parts_error(raw@, console, j as nat, count as int) is None,
                forall|k: int|
                    0 <= k < j ==> {
                        let entry = listed_entry(raw@, console, k);
                        is_part_of(
                            #[trigger] files@[k],
                            raw@.subrange(
                                entry.offset as int,
                                part_end(raw@, console, k, count as int),
                            ),
                            entry.entry_type,
                            entry.data_offset - entry.offset,
                            console,
                        )
                    },
            decreases entries@.len() - j,
        {
            let entry = entries[j];
            proof {
                reveal_with_fuel(parts_error, 2);
                assert(entry == listed_entry(raw@, console, j as int));
            }
            // We need to know the offset of the next entry to determine
            // where this entry ends. If this is the last entry, then it ends
            // at the end of the file.
            let end: u64 = if j < entries.len() - 1 {
                entries[j + 1].offset as u64
            } else {
                len as u64
            };
            let failed: Option<Error> = if entry.offset as u64 > end {
                Some(Error::ConsoleNumberError)
            } else if end > len as u64 {
                Some(too_few_bytes(end - entry.offset as u64, len as u64, entry.offset as u64))
            } else if entry.data_offset < entry.offset {
                Some(Error::ConsoleNumberError)
            } else {
                None
            };
            match failed {
                Some(e) => {
                    proof {
                        lemma_parts_error_stays(
                            raw@,
                            console,
                            (j + 1) as nat,
                            count as nat,
                            count as int,
                        );
                    }
                    return Err(e);
                },
                None => {},
            }
            let file_raw_bytes = slice_subrange(raw, entry.offset as usize, end as usize);
            match LtimeshFile::new(
                file_raw_bytes,
                entry.entry_type,
                (entry.data_offset - entry.offset) as usize,
                console,
            ) {
                Ok(file) => {
                    files.push(file);
                },
                Err(e) => {
                    proof {
                        lemma_parts_error_stays(
                            raw@,
                            console,
                            (j + 1) as nat,
                            count as nat,
                            count as int,
                        );
                    }
                    return Err(e);
                },
            }
            j += 1;
        }

        Ok(Ltimesh { header, entries, files })
    }
}

/// An error among the first `n` entries is the error among the first `m`
/// entries, for `m` no less than `n`.
pub proof fn lemma_entries_error_stays(raw: Seq<u8>, c: Console, n: nat, m: nat)
    requires
        n <= m,
        entries_error(raw, c, n) is Some,
    ensures
        entries_error(raw, c, m) == entries_error(raw, c, n),
    decreases m - n,
{
    reveal_with_fuel(entries_error, 2);
    if n < m {
        lemma_entries_error_stays(raw, c, n, (m - 1) as nat);
    }
}

/// An error among the first `k` parts is the error among the first `m`
/// parts, for `m` no less than `k`.
pub proof fn lemma_parts_error_stays(raw: Seq<u8>, c: Console, k: nat, m: nat, n: int)
    requires
        k <= m,
        parts_error(raw, c, k, n) is Some,
    ensures
        parts_error(raw, c, m, n) == parts_error(raw, c, k, n),
    decreases m - k,
{
    reveal_with_fuel(parts_error, 2);
    if k < m {
        lemma_parts_error_stays(raw, c, k, (m - 1) as nat, n);
    }
}

} // verus!
