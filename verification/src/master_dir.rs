//! The directory of the archive that holds the game's files.
//!
//! The directory opens with a list of 32-bit offsets, one for each entry,
//! that ends with a zero. The entries follow: each gives the place and the
//! sizes of one compressed file in the archive, and its name.
use vstd::prelude::*;
use vstd::slice::{slice_subrange, slice_to_vec};
use vstd::utf8::{decode_utf8, encode_utf8, valid_utf8};
use crate::console::Console;
use crate::errors::{not_enough, too_few_bytes, Error};
use crate::files::bin::header::{push_word, push_zeros, zeros};
use crate::util::{checked_word, get_word, get_word_checked, word_at};

verus! {

/// Type representing a single entry in the game's MASTER.DIR file, which in
/// turn describes a single compressed file in the MASTER.DAT file.
#[derive(Debug)]
pub struct MasterDirEntry {
    /// The offset of the file in the MASTER.DAT file
    pub offset: u32,
    /// The decompressed size of the file
    pub decomp_size: u32,
    /// The compressed size of the file
    pub comp_size: u32,
    /// The path of the file, relative from data/
    pub name: String,
}

/// Structure representing the MASTER.DIR file, which details the contents of
/// the MASTER.DAT file.
#[derive(Debug)]
pub struct MasterDir {
    /// The entries within the MASTER.DIR
    pub entries: Vec<MasterDirEntry>,
    /// The console this MASTER.DIR is from or for
    pub console: Console,
}

/// Calls `String::from_utf8` of std, which gives the text that the bytes
/// encode as UTF-8, and fails on bytes that are not UTF-8.
#[verifier::external_body]
fn string_from_utf8(bytes: Vec<u8>) -> (r: Option<String>)
    ensures
        r is Some <==> valid_utf8(bytes@),
        r is Some ==> r->Some_0@ == decode_utf8(bytes@),
{
    String::from_utf8(bytes).ok()
}

/// The error of reading a directory entry from `entry`, if there is one.
pub open spec fn entry_error(entry: Seq<u8>) -> Option<Error> {
    if entry.len() < 12 {
        Some(not_enough(12, entry.len() as int, 0))
    } else if !valid_utf8(entry.subrange(12, entry.len() as int)) {
        Some(Error::StringDeserialiseError)
    } else {
        None
    }
}

/// Whether `e` is the directory entry that the bytes of `entry` hold: three
/// words, and the name as UTF-8 in the bytes behind them.
pub open spec fn is_entry_of(e: MasterDirEntry, entry: Seq<u8>, c: Console) -> bool {
    &&& e.offset == word_at(entry, c, 0)
    &&& e.decomp_size == word_at(entry, c, 4)
    &&& e.comp_size == word_at(entry, c, 8)
    &&& e.name@ == decode_utf8(entry.subrange(12, entry.len() as int))
}

/// The bytes of the name of a directory entry.
pub open spec fn name_bytes(e: MasterDirEntry) -> Seq<u8> {
    encode_utf8(e.name@)
}

/// The size in bytes of a directory entry: three words, the name, and a zero
/// byte. It is kept to 32 bits.
pub open spec fn entry_size(e: MasterDirEntry) -> u32 {
    (12 + name_bytes(e).len() + 1) as u32
}

/// The size in bytes of a directory entry after padding. It is kept to 32
/// bits.
pub open spec fn entry_padded_size(e: MasterDirEntry) -> u32 {
    (entry_size(e) + entry_size(e) % 4) as u32
}

/// The bytes of a directory entry with its padding.
pub open spec fn entry_bytes(e: MasterDirEntry, c: Console) -> Seq<u8> {
    c.bytes_of(e.offset) + c.bytes_of(e.decomp_size) + c.bytes_of(e.comp_size) + name_bytes(e)
        + seq![0u8] + zeros((entry_size(e) % 4) as nat)
}

/// What listing `k` of a directory stands for: nothing where the offset is
/// zero, else the bytes of an entry, from the offset up to the offset of the
/// next listing, or up to the end of the file where that is zero.
pub open spec fn listing_range(raw: Seq<u8>, c: Console, k: int) -> Result<
    Option<(int, int)>,
    Error,
> {
    match checked_word(raw, c, 4 * k) {
        Err(e) => Err(e),
        Ok(offset) => if offset == 0 {
            Ok(None)
        } else {
            match checked_word(raw, c, 4 * k + 4) {
                Err(e) => Err(e),
                Ok(next) => {
                    let end = if next == 0 {
                        raw.len() as int
                    } else {
                        next as int
                    };
                    if offset > end {
                        Err(Error::ConsoleNumberError)
                    } else if end > raw.len() {
                        Err(not_enough(end - offset, raw.len() as int, offset as int))
                    } else {
                        match entry_error(raw.subrange(offset as int, end)) {
                            Some(e) => Err(e),
                            None => Ok(Some((offset as int, end))),
                        }
                    }
                },
            }
        },
    }
}

/// The places of the entries that the first `n` listings of a directory
/// stand for, in their order.
#[verifier::opaque]
pub open spec fn listed_ranges(raw: Seq<u8>, c: Console, n: nat) -> Result<Seq<(int, int)>, Error>
    decreases n,
{
    if n == 0 {
        Ok(Seq::empty())
    } else {
        match listed_ranges(raw, c, (n - 1) as nat) {
            Err(e) => Err(e),
            Ok(before) => match listing_range(raw, c, n - 1) {
                Err(e) => Err(e),
                Ok(None) => Ok(before),
                Ok(Some(range)) => Ok(before.push(range)),
            },
        }
    }
}

/// The number of listings of a directory: the list ends where the first
/// entry begins.
pub open spec fn listing_count(raw: Seq<u8>, c: Console) -> nat {
    ((word_at(raw, c, 0) + 3) / 4) as nat
}

/// The places of the entries of a directory, or the error that reading it
/// ends in.
pub open spec fn directory_ranges(raw: Seq<u8>, c: Console) -> Result<Seq<(int, int)>, Error> {
    if raw.len() < 4 {
        Err(not_enough(4, raw.len() as int, 0))
    } else {
        listed_ranges(raw, c, listing_count(raw, c))
    }
}

/// The offset that the list of a directory holds at place `k`: that of the
/// first entry is the length of the list, that of each other entry lies
/// behind the entry before it. It is kept to 32 bits.
pub open spec fn listed_offset(entries: Seq<MasterDirEntry>, k: nat) -> u32
    decreases k,
{
    if k == 0 {
        ((entries.len() + 1) * 4) as u32
    } else {
        (listed_offset(entries, (k - 1) as nat) + entry_padded_size(entries[k - 1])) as u32
    }
}

/// The bytes of the first `n` offsets of the list of a directory.
#[verifier::opaque]
pub open spec fn list_bytes(entries: Seq<MasterDirEntry>, c: Console, n: nat) -> Seq<u8>
    decreases n,
{
    if n == 0 {
        Seq::empty()
    } else {
        list_bytes(entries, c, (n - 1) as nat) + c.bytes_of(listed_offset(entries, (n - 1) as nat))
    }
}

/// The bytes of the first `n` entries of a directory.
#[verifier::opaque]
pub open spec fn entries_bytes(entries: Seq<MasterDirEntry>, c: Console, n: nat) -> Seq<u8>
    decreases n,
{
    if n == 0 {
        Seq::empty()
    } else {
        entries_bytes(entries, c, (n - 1) as nat) + entry_bytes(entries[n - 1], c)
    }
}

/// The bytes of a directory: the list of offsets, which holds one offset
/// even where there is no entry, the zero that ends it, and the entries.
pub open spec fn directory_bytes(entries: Seq<MasterDirEntry>, c: Console) -> Seq<u8> {
    let listed = if entries.len() == 0 {
        1
    } else {
        entries.len()
    };
    list_bytes(entries, c, listed) + zeros(4) + entries_bytes(entries, c, entries.len())
}

impl MasterDirEntry {
    /// Create a new MasterDirEntry from the bytes making up the entry in the
    /// MASTER.DIR file.
    pub fn new(entry: &[u8], console: Console) -> (r: Result<MasterDirEntry, Error>)
        ensures
            match r {
                Ok(e) => entry_error(entry@) is None && is_entry_of(e, entry@, console),
                Err(e) => entry_error(entry@) == Some(e),
            },
    {
        let len: usize = entry.len();
        if len < 12 {
            return Err(too_few_bytes(12, len as u64, 0));
        }
        let offset = get_word(entry, console, 0);
        let decomp_size = get_word(entry, console, 4);
        let comp_size = get_word(entry, console, 8);
        match string_from_utf8(slice_to_vec(slice_subrange(entry, 12, len))) {
            Some(name) => Ok(MasterDirEntry { offset, decomp_size, comp_size, name }),
            None => Err(Error::StringDeserialiseError),
        }
    }

    /// Get the raw, padded bytes of the MASTER.DIR entry.
    pub fn padded(&self, console: Console) -> (padded: Vec<u8>)
        ensures
            padded@ == entry_bytes(*self, console),
    {
        let mut padded: Vec<u8> = Vec::new();
        let _ = push_word(&mut padded, console, self.offset);
        let _ = push_word(&mut padded, console, self.decomp_size);
        let _ = push_word(&mut padded, console, self.comp_size);
        let name = self.name.as_str().as_bytes();
        let mut i: usize = 0;
        let ghost head = padded@;
        while i < name.len()
            invariant
                i <= name@.len(),
                padded@ == head + name@.subrange(0, i as int),
            decreases name@.len() - i,
        {
            padded.push(name[i]);
            i += 1;
            assert(padded@ =~= head + name@.subrange(0, i as int));
        }
        assert(name@.subrange(0, i as int) =~= name@);
        padded.push(0);
        push_zeros(&mut padded, (self.size() % 4) as usize);
        assert(padded@ =~= entry_bytes(*self, console));
        padded
    }

    /// Returns the size in bytes of the MASTER.DIR entry after padding.
    pub fn padded_size(&self) -> (n: u32)
        ensures
            n == entry_padded_size(*self),
    {
        let size = self.size();
        #[verifier::truncate]
        ((size as u64 + (size % 4) as u64) as u32)
    }

    /// Returns the size in bytes of the MASTER.DIR entry.
    pub fn size(&self) -> (n: u32)
        ensures
            n == entry_size(*self),
    {
        #[verifier::truncate]
        ((self.name.as_str().as_bytes().len() as u128 + 13) as u32)
    }
}

impl MasterDir {
    /// Returns a new empty `MasterDir` object for the given `console`.
    pub fn new(console: Console) -> (d: MasterDir)
        ensures
            d.entries@.len() == 0,
            d.console == console,
    {
        MasterDir { entries: Vec::new(), console }
    }

    /// Whether the entries of this directory are those that `raw` holds at
    /// the given places.
    pub open spec fn is_read_of(&self, raw: Seq<u8>, ranges: Seq<(int, int)>) -> bool {
        &&& self.entries@.len() == ranges.len()
        &&& forall|i: int|
            0 <= i < ranges.len() ==> is_entry_of(
                #[trigger] self.entries@[i],
                raw.subrange(ranges[i].0, ranges[i].1),
                self.console,
            )
    }

    /// Returns a new `MasterDir` object for the given `console` from the
    /// passed `master_dir` bytes.
    pub fn from_bytes(master_dir: &[u8], console: Console) -> (r: Result<MasterDir, Error>)
        ensures
            match r {
                Ok(d) => directory_ranges(master_dir@, console) is Ok && d.console == console
                    && d.is_read_of(master_dir@, directory_ranges(master_dir@, console)->Ok_0),
                Err(e) => directory_ranges(master_dir@, console) == Err::<Seq<(int, int)>, Error>(
                    e,
                ),
            },
    {
        // The MASTER.DIR is split into two sections:
        // * The first is a list of 4-byte integers that serve as offsets in
        //   the file to each entry in the second section. It is terminated by
        //   an entry that is just 0.
        // * The second section is a list of entries, each describing a
        //   compressed file within the MASTER.DAT file
        //
        // The first entry in the first section marks the start of the second
        // section.
        let len: usize = master_dir.len();
        let first_section_length = get_word_checked(master_dir, console, 0)?;
        let count: u64 = (first_section_length as u64 + 3) / 4;

        let mut entries: Vec<MasterDirEntry> = Vec::new();
        let mut k: u64 = 0;
        proof {
            lemma_listed_ranges_step(master_dir@, console, 0);
        }
        while k < count
            invariant
                len == master_dir@.len(),
                len >= 4,
                count == listing_count(master_dir@, console),
                count <= 0x4000_0000,
                k <= count,
                listed_ranges(master_dir@, console, k as nat) is Ok,
                entries@.len() == listed_ranges(master_dir@, console, k as nat)->Ok_0.len(),
                forall|i: int|
                    0 <= i < entries@.len() ==> is_entry_of(
                        #[trigger] entries@[i],
                        master_dir@.subrange(
                            listed_ranges(master_dir@, console, k as nat)->Ok_0[i].0,
                            listed_ranges(master_dir@, console, k as nat)->Ok_0[i].1,
                        ),
                        console,
                    ),
            decreases count - k,
        {
            proof {
                lemma_listed_ranges_step(master_dir@, console, k as nat);
            }
            match MasterDir::listing(master_dir, console, k) {
                Ok(Some(entry)) => {
                    entries.push(entry);
                },
                Ok(None) => {},
                Err(e) => {
                    proof {
                        lemma_listed_ranges_stays(
                            master_dir@,
                            console,
                            (k + 1) as nat,
                            count as nat,
                        );
                    }
                    return Err(e);
                },
            }
            k += 1;
        }
        Ok(MasterDir { entries, console })
    }

    /// Reads the entry that listing `k` of the directory stands for, if it
    /// stands for one.
    fn listing(master_dir: &[u8], console: Console, k: u64) -> (r: Result<
        Option<MasterDirEntry>,
        Error,
    >)
        requires
            k < 0x4000_0000,
        ensures
            match r {
                Ok(Some(e)) => listing_range(master_dir@, console, k as int) matches Ok(Some(range))
                    && is_entry_of(e, master_dir@.subrange(range.0, range.1), console),
                Ok(None) => listing_range(master_dir@, console, k as int) == Ok::<
                    Option<(int, int)>,
                    Error,
                >(None),
                Err(e) => listing_range(master_dir@, console, k as int) == Err::<
                    Option<(int, int)>,
                    Error,
                >(e),
            },
    {
        let len: usize = master_dir.len();
        // Using the offset to this entry and the next entry, determine the
        // size of this entry to read. If the next offset is 0, then we are on
        // the last entry, which runs until the end of the file
        let entry_offset = get_word_checked(master_dir, console, 4 * k)?;
        if entry_offset == 0 {
            return Ok(None);
        }
        let next_entry_offset = get_word_checked(master_dir, console, 4 * k + 4)?;
        let end: u64 = if next_entry_offset == 0 {
            len as u64
        } else {
            next_entry_offset as u64
        };
        if entry_offset as u64 > end {
            return Err(Error::ConsoleNumberError);
        }
        if end > len as u64 {
            return Err(too_few_bytes(end - entry_offset as u64, len as u64, entry_offset as u64));
        }
        // Get the bytes of the entry using the offset and the size

        let entry_bytes = slice_subrange(master_dir, entry_offset as usize, end as usize);
        Ok(Some(MasterDirEntry::new(entry_bytes, console)?))
    }

    /// Get the raw bytes of the MASTER.DIR file.
    pub fn to_bytes(&self) -> (bytes: Vec<u8>)
        ensures
            bytes@ == directory_bytes(self.entries@, self.console),
    {
        let mut master_dir_bytes: Vec<u8> = Vec::new();
        let count: usize = self.entries.len();

        // The total size of the first section - which is a list of offsets
        // to each entry in the second section - is determined from the total
        // number of entries, plus one for the terminator offset. Since the
        // second section starts immediately after, the first offset is also
        // this value
        let mut offset: u32 = #[verifier::truncate]
        (((count as u128 + 1) * 4) as u32);
        let _ = push_word(&mut master_dir_bytes, self.console, offset);
        proof {
            reveal_with_fuel(list_bytes, 2);
            assert(master_dir_bytes@ =~= list_bytes(self.entries@, self.console, 1));
        }

        // Each subsequent offset is determined by adding the padded size of
        // the previous entry
        let offsets: usize = if count == 0 {
            1
        } else {
            count
        };
        let mut i: usize = 1;
        while i < offsets
            invariant
                count == self.entries@.len(),
                1 <= i <= offsets,
                offsets <= count || offsets == 1,
                offset == listed_offset(self.entries@, (i - 1) as nat),
                master_dir_bytes@ == list_bytes(self.entries@, self.console, i as nat),
            decreases offsets - i,
        {
            offset = #[verifier::truncate]
            ((offset as u64 + self.entries[i - 1].padded_size() as u64) as u32);
            let _ = push_word(&mut master_dir_bytes, self.console, offset);
            proof {
                reveal_with_fuel(list_bytes, 2);
            }
            i += 1;
        }
        let ghost listed = master_dir_bytes@;
        assert(listed == list_bytes(self.entries@, self.console, offsets as nat));

        // Write the terminating offset
        push_zeros(&mut master_dir_bytes, 4);

        // Now the actual entries need to be written
        let mut j: usize = 0;
        proof {
            reveal_with_fuel(entries_bytes, 2);
            assert(master_dir_bytes@ =~= listed + zeros(4) + entries_bytes(
                self.entries@,
                self.console,
                0,
            ));
        }
        while j < count
            invariant
                count == self.entries@.len(),
                j <= count,
                offsets == if count == 0 {
                    1
                } else {
                    count
                },
                listed == list_bytes(self.entries@, self.console, offsets as nat),
                master_dir_bytes@ == listed + zeros(4) + entries_bytes(
                    self.entries@,
                    self.console,
                    j as nat,
                ),
            decreases count - j,
        {
            let mut entry = self.entries[j].padded(self.console);
            master_dir_bytes.append(&mut entry);
            proof {
                reveal_with_fuel(entries_bytes, 2);
                assert(master_dir_bytes@ =~= listed + zeros(4) + entries_bytes(
                    self.entries@,
                    self.console,
                    (j + 1) as nat,
                ));
            }
            j += 1;
        }
        master_dir_bytes
    }
}

/// How the places of the entries of `n + 1` listings come from those of `n`
/// listings.
pub proof fn lemma_listed_ranges_step(raw: Seq<u8>, c: Console, n: nat)
    ensures
        listed_ranges(raw, c, 0) == Ok::<Seq<(int, int)>, Error>(Seq::empty()),
        listed_ranges(raw, c, n + 1) == match listed_ranges(raw, c, n) {
            Err(e) => Err(e),
            Ok(before) => match listing_range(raw, c, n as int) {
                Err(e) => Err(e),
                Ok(None) => Ok(before),
                Ok(Some(range)) => Ok(before.push(range)),
            },
        },
{
    reveal_with_fuel(listed_ranges, 2);
}

/// An error among the first `n` listings is the error among the first `m`
/// listings, for `m` no less than `n`.
pub proof fn lemma_listed_ranges_stays(raw: Seq<u8>, c: Console, n: nat, m: nat)
    requires
        n <= m,
        listed_ranges(raw, c, n) is Err,
    ensures
        listed_ranges(raw, c, m) == listed_ranges(raw, c, n),
    decreases m - n,
{
    if n < m {
        lemma_listed_ranges_stays(raw, c, n, (m - 1) as nat);
        lemma_listed_ranges_step(raw, c, (m - 1) as nat);
    }
}

} // verus!
