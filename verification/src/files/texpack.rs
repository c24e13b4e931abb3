//! The package of textures.
//!
//! A package opens with a header of 16 bytes and one entry of 48 bytes for
//! each file. The files follow from the next multiple of 4096 bytes on, each
//! padded to a multiple of 4096 bytes.
use vstd::prelude::*;
use vstd::slice::{slice_subrange, slice_to_vec};
use vstd::string::StringExecFns;
use vstd::utf8::encode_utf8;
use crate::console::Console;
use crate::errors::{not_enough, too_few_bytes, Error};
use crate::files::bin::bin::lemma_word_at_subrange;
use crate::files::bin::dependency::resized;
use crate::files::bin::header::{push_word, push_zeros, zeros};
use crate::files::order::{is_stable_order, sorted_places};
use crate::hash::{hash, hash_of};
use crate::latin1::{decode, latin1_chars, trim_end_zeros, trimmed};
use crate::util::{get_word, word_at};

verus! {

/// The different types of entry within a texpack
#[derive(Copy, Clone, PartialEq, Eq, Structural, Debug)]
pub enum TexpackEntryType {
    /// An actual texture file - DDS on PC, GCT on Gamecube
    Texture,
    /// Plain text file that contain lists of texture filenames, used to
    /// describe looping animations
    Tga,
}

/// Structure defining the header of a texpack
#[derive(Copy, Clone, Debug)]
pub struct TexpackHeader {
    /// The number of entries within the texpack
    pub entries: u32,
    /// The console version the data comes from
    pub console: Console,
}

/// Structure representing an entry in a texpack file, which describes one of
/// the files contained within the texpack
#[derive(Debug)]
pub struct TexpackEntry {
    /// Hash on the name
    pub hash: u32,
    /// The filename of the entry
    pub filename: String,
    /// The offset of the file this entry refers to within the same texpack
    pub offset: u32,
    /// The size of the file in bytes
    pub size: u32,
    /// The type of file this entry refers to
    pub filetype: TexpackEntryType,
    /// The console version this data comes from
    pub console: Console,
}

/// Structure for the files within a texpack
#[derive(Debug)]
pub struct TexpackFile {
    /// The filename of the file, without the extension (which differs by
    /// platform)
    pub filename: String,
    /// The console the file comes from
    pub console: Console,
    /// The type of the file
    pub filetype: TexpackEntryType,
    /// The data of the file
    pub data: Vec<u8>,
}

/// Structure for reading and managing a .texpack file from the extracted
/// game files
#[derive(Debug)]
pub struct Texpack {
    /// The files within the texpack
    pub files: Vec<TexpackFile>,
    /// The console version of the game this file comes from
    pub console: Console,
}

/// `n` bytes of the value that pads a package.
pub open spec fn fill(n: nat) -> Seq<u8> {
    Seq::new(n, |i: int| 0xEEu8)
}

/// The number of bytes that pad `len` bytes to the next multiple of 4096
/// above them.
pub open spec fn padding_len(len: int) -> int {
    0x1000 - len % 0x1000
}

/// The four bytes that a package opens with.
pub open spec fn magic(c: Console) -> Seq<u8> {
    if c.big_endian() {
        seq![0x54u8, 0x58u8, 0x50u8, 0x4Bu8]
    } else {
        seq![0x4Bu8, 0x50u8, 0x58u8, 0x54u8]
    }
}

/// The 16 bytes of the header of a package of `entries` files.
pub open spec fn header_bytes(entries: u32, c: Console) -> Seq<u8> {
    magic(c) + c.bytes_of(1) + c.bytes_of(entries) + c.bytes_of(0)
}

/// The type that a word of an entry stands for, if it stands for one.
pub open spec fn kind_of(word: u32) -> Option<TexpackEntryType> {
    if word == 0 {
        Some(TexpackEntryType::Texture)
    } else if word == 2 {
        Some(TexpackEntryType::Tga)
    } else {
        None
    }
}

/// The word that stands for a type in an entry.
pub open spec fn kind_word(kind: TexpackEntryType) -> u32 {
    match kind {
        TexpackEntryType::Texture => 0,
        TexpackEntryType::Tga => 2,
    }
}

/// The key by which the files of a package are ordered: textures come
/// first.
pub open spec fn kind_key(kind: TexpackEntryType) -> u8 {
    match kind {
        TexpackEntryType::Texture => 0,
        TexpackEntryType::Tga => 1,
    }
}

/// The name that is hashed for a file: its own, but for the few names that
/// the package holds cut short.
pub open spec fn hashed_name(name: Seq<char>) -> Seq<char> {
    if name == "levelrender_fairytalevillag"@ {
        "levelrender_fairytalevillage"@
    } else if name == "levelrender_gepettosworksho"@ {
        "levelrender_gepettosworkshop"@
    } else if name == "levelrender_gingerbreadhous"@ {
        "levelrender_gingerbreadhouse"@
    } else if name == "loadingscreen_gingerbreadho"@ {
        "loadingscreen_gingerbreadhouse"@
    } else {
        name
    }
}

/// Whether `e` is the entry that the 48 bytes of `raw` hold.
pub open spec fn is_entry_of(e: TexpackEntry, raw: Seq<u8>, c: Console) -> bool {
    &&& e.hash == word_at(raw, c, 0)
    &&& e.filename@ == trimmed(latin1_chars(raw.subrange(0x04, 0x20)))
    &&& e.offset == word_at(raw, c, 0x20)
    &&& e.size == word_at(raw, c, 0x24)
    &&& kind_of(word_at(raw, c, 0x28)) == Some(e.filetype)
    &&& e.console == c
}

/// The error of reading an entry from `raw`, if there is one.
pub open spec fn entry_error(raw: Seq<u8>, c: Console) -> Option<Error> {
    if raw.len() < 0x30 {
        Some(not_enough(0x30, raw.len() as int, 0))
    } else if kind_of(word_at(raw, c, 0x28)) is None {
        Some(Error::ConsoleNumberError)
    } else {
        None
    }
}

/// The 48 bytes of an entry: the hash, the name in 27 bytes and a zero
/// byte, the offset, the size, the type, and four zero bytes.
pub open spec fn entry_bytes(
    hash: u32,
    name: Seq<char>,
    offset: u32,
    size: u32,
    kind: TexpackEntryType,
    c: Console,
) -> Seq<u8> {
    c.bytes_of(hash) + resized(encode_utf8(name), 0x1B) + zeros(1) + c.bytes_of(offset)
        + c.bytes_of(size) + c.bytes_of(kind_word(kind)) + zeros(4)
}

/// The ending of the name of a file on disk.
pub open spec fn extension(kind: TexpackEntryType, c: Console) -> Seq<char> {
    match kind {
        TexpackEntryType::Texture => match c {
            Console::Gamecube => ".gct"@,
            Console::PC => ".dds"@,
            Console::PS2 => ".tm2"@,
            Console::Xbox => ".dds"@,
        },
        TexpackEntryType::Tga => ".tga"@,
    }
}

/// Whether data for the console opens with the four bytes of a texture.
pub open spec fn is_texture(data: Seq<u8>, c: Console) -> bool {
    &&& data.len() >= 4
    &&& match c {
        Console::Gamecube => data.subrange(0, 4) == seq![0x47u8, 0x43u8, 0x4Eu8, 0x54u8],
        Console::PC => data.subrange(0, 4) == seq![0x44u8, 0x44u8, 0x53u8, 0x20u8],
        Console::Xbox => data.subrange(0, 4) == seq![0x44u8, 0x44u8, 0x53u8, 0x20u8],
        Console::PS2 => data.subrange(0, 4) == seq![0x54u8, 0x49u8, 0x4Du8, 0x32u8],
    }
}

/// The place of entry `k` of a package.
pub open spec fn entry_place(k: int) -> int {
    0x10 + 0x30 * k
}

/// The error of reading the first `n` entries of a package, in their order,
/// if there is one.
#[verifier::opaque]
pub open spec fn entries_error(raw: Seq<u8>, c: Console, n: nat) -> Option<Error>
    decreases n,
{
    if n == 0 {
        None
    } else {
        match entries_error(raw, c, (n - 1) as nat) {
            Some(e) => Some(e),
            None => if kind_of(word_at(raw, c, entry_place(n - 1) + 0x28)) is None {
                Some(Error::ConsoleNumberError)
            } else {
                None
            },
        }
    }
}

/// The error of taking the files of the first `n` entries of a package out
/// of it, in their order, if there is one.
#[verifier::opaque]
pub open spec fn files_error(raw: Seq<u8>, c: Console, n: nat) -> Option<Error>
    decreases n,
{
    if n == 0 {
        None
    } else {
        match files_error(raw, c, (n - 1) as nat) {
            Some(e) => Some(e),
            None => {
                let offset = word_at(raw, c, entry_place(n - 1) + 0x20);
                let size = word_at(raw, c, entry_place(n - 1) + 0x24);
                if offset + size > raw.len() {
                    Some(not_enough(size as int, raw.len() as int, offset as int))
                } else {
                    None
                }
            },
        }
    }
}

/// The error that reading a package ends in, if it ends in one: the header
/// and the entries are read first, then the files.
pub open spec fn package_error(raw: Seq<u8>, c: Console) -> Option<Error> {
    let count = word_at(raw, c, 0x08);
    if raw.len() < 0x10 {
        Some(not_enough(0x10, raw.len() as int, 0))
    } else if 0x10 + 0x30 * count > raw.len() {
        Some(not_enough(0x30 * count, raw.len() as int, 0x10))
    } else {
        match entries_error(raw, c, count as nat) {
            Some(e) => Some(e),
            None => files_error(raw, c, count as nat),
        }
    }
}

/// Whether `file` is the file that entry `k` of a package describes.
pub open spec fn is_file_of(file: TexpackFile, raw: Seq<u8>, c: Console, k: int) -> bool {
    let place = entry_place(k);
    &&& file.filename@ == trimmed(latin1_chars(raw.subrange(place + 0x04, place + 0x20)))
    &&& kind_of(word_at(raw, c, place + 0x28)) == Some(file.filetype)
    &&& file.console == c
    &&& file.data@ == raw.subrange(
        word_at(raw, c, place + 0x20) as int,
        word_at(raw, c, place + 0x20) + word_at(raw, c, place + 0x24),
    )
}

/// The keys of the files of a package.
pub open spec fn keys_of(files: Seq<TexpackFile>) -> Seq<u8> {
    Seq::new(files.len(), |i: int| kind_key(files[i].filetype))
}

/// Where the data of the files begins in a package of `count` files: at the
/// next multiple of 4096 bytes above the entries.
pub open spec fn files_start(count: int) -> int {
    entry_place(count) + padding_len(entry_place(count))
}

/// Where the file at place `k` of the order begins in the package: the
/// padded files before it lie between it and the start of the files. It is
/// kept to 32 bits.
pub open spec fn placed_offset(files: Seq<TexpackFile>, order: Seq<usize>, k: nat) -> u32
    decreases k,
{
    if k == 0 {
        files_start(files.len() as int) as u32
    } else {
        let before = files[order[k - 1] as int].data@.len() as int;
        (placed_offset(files, order, (k - 1) as nat) + before + padding_len(before)) as u32
    }
}

/// The entries of the first `n` files of the order.
#[verifier::opaque]
pub open spec fn entries_part(files: Seq<TexpackFile>, order: Seq<usize>, c: Console, n: nat)
    -> Seq<u8>
    decreases n,
{
    if n == 0 {
        Seq::empty()
    } else {
        let file = files[order[n - 1] as int];
        entries_part(files, order, c, (n - 1) as nat) + entry_bytes(
            hash_of(hashed_name(file.filename@)),
            file.filename@,
            placed_offset(files, order, (n - 1) as nat),
            file.data@.len() as u32,
            file.filetype,
            c,
        )
    }
}

/// The padded data of the first `n` files of the order.
#[verifier::opaque]
pub open spec fn data_part(files: Seq<TexpackFile>, order: Seq<usize>, n: nat) -> Seq<u8>
    decreases n,
{
    if n == 0 {
        Seq::empty()
    } else {
        let data = files[order[n - 1] as int].data@;
        data_part(files, order, (n - 1) as nat) + data + fill(padding_len(data.len() as int) as nat)
    }
}

/// The bytes of a package whose files are written in the given order.
pub open spec fn package_bytes(files: Seq<TexpackFile>, order: Seq<usize>, c: Console) -> Seq<u8> {
    header_bytes(files.len() as u32, c) + entries_part(files, order, c, files.len()) + fill(
        padding_len(entry_place(files.len() as int)) as nat,
    ) + data_part(files, order, files.len())
}

/// Appends `n` bytes of the value that pads a package.
fn push_fill(bytes: &mut Vec<u8>, n: usize)
    ensures
        final(bytes)@ == old(bytes)@ + fill(n as nat),
{
    let mut i: usize = 0;
    while i < n
        invariant
            i <= n,
            bytes@ == old(bytes)@ + fill(i as nat),
        decreases n - i,
    {
        bytes.push(0xEE);
        i += 1;
        assert(bytes@ =~= old(bytes)@ + fill(i as nat));
    }
    assert(bytes@ =~= old(bytes)@ + fill(n as nat));
}

/// Appends the bytes of `other`.
fn push_all(bytes: &mut Vec<u8>, other: &[u8])
    ensures
        final(bytes)@ == old(bytes)@ + other@,
{
    let mut i: usize = 0;
    while i < other.len()
        invariant
            i <= other@.len(),
            bytes@ == old(bytes)@ + other@.subrange(0, i as int),
        decreases other@.len() - i,
    {
        bytes.push(other[i]);
        i += 1;
        assert(bytes@ =~= old(bytes)@ + other@.subrange(0, i as int));
    }
    assert(other@.subrange(0, i as int) =~= other@);
}

impl TexpackEntryType {
    /// The key by which the files of a package are ordered.
    fn key(&self) -> (k: u8)
        ensures
            k == kind_key(*self),
    {
        match self {
            TexpackEntryType::Texture => 0,
            TexpackEntryType::Tga => 1,
        }
    }
}

impl TexpackHeader {
    /// Construct a new Texpack header for the `console` version of the
    /// game, with a manually-set number of `entries`.
    pub fn new(entries: u32, console: Console) -> (h: TexpackHeader)
        ensures
            h.entries == entries,
            h.console == console,
    {
        TexpackHeader { entries, console }
    }

    /// Returns the size in bytes of a texpack header
    pub fn size() -> (s: usize)
        ensures
            s == 0x10,
    {
        0x10
    }

    /// Construct a new TexpackHeader from the passed `raw` bytes of a file
    /// from the `console` version of the game.
    pub fn from_bytes(raw: &[u8], console: Console) -> (r: Result<TexpackHeader, Error>)
        ensures
            match r {
                Ok(h) => raw@.len() >= 0x10 && h.entries == word_at(raw@, console, 0x08)
                    && h.console == console,
                Err(e) => raw@.len() < 0x10 && e == not_enough(0x10, raw@.len() as int, 0),
            },
    {
        if raw.len() < 0x10 {
            return Err(too_few_bytes(0x10, raw.len() as u64, 0));
        }
        Ok(TexpackHeader { entries: get_word(raw, console, 0x08), console })
    }

    /// Construct the bytes for the texpack header
    pub fn to_bytes(&self) -> (r: Result<Vec<u8>, Error>)
        ensures
            r is Ok,
            r->Ok_0@ == header_bytes(self.entries, self.console),
    {
        // Start with the constant 'KPXT' magic bytes. This constant is
        // backwards for Gamecube texpacks.
        let mut header_bytes: Vec<u8> = Vec::new();
        match self.console {
            Console::Gamecube => {
                header_bytes.push(0x54);
                header_bytes.push(0x58);
                header_bytes.push(0x50);
                header_bytes.push(0x4B);
            },
            _ => {
                header_bytes.push(0x4B);
                header_bytes.push(0x50);
                header_bytes.push(0x58);
                header_bytes.push(0x54);
            },
        }
        assert(header_bytes@ =~= magic(self.console));

        // Add the fields
        push_word(&mut header_bytes, self.console, 1)?;
        push_word(&mut header_bytes, self.console, self.entries)?;
        push_word(&mut header_bytes, self.console, 0)?;

        Ok(header_bytes)
    }
}

impl TexpackEntry {
    /// Create a new TexpackEntry structure with the fields manually set.
    pub fn new(
        filename: String,
        offset: u32,
        size: u32,
        filetype: TexpackEntryType,
        console: Console,
    ) -> (e: TexpackEntry)
        ensures
            e.hash == hash_of(hashed_name(filename@)),
            e.filename@ == filename@,
            e.offset == offset,
            e.size == size,
            e.filetype == filetype,
            e.console == console,
    {
        // Due to long filenames being truncated, we cannot accurately
        // recreate the hashes of names that have been truncated. We therefore
        // have to special case these names, thankfully there are not too
        // many.
        let name_hash = if filename == String::from_str("levelrender_fairytalevillag") {
            hash("levelrender_fairytalevillage")
        } else if filename == String::from_str("levelrender_gepettosworksho") {
            hash("levelrender_gepettosworkshop")
        } else if filename == String::from_str("levelrender_gingerbreadhous") {
            hash("levelrender_gingerbreadhouse")
        } else if filename == String::from_str("loadingscreen_gingerbreadho") {
            hash("loadingscreen_gingerbreadhouse")
        } else {
            hash(filename.as_str())
        };
        TexpackEntry { hash: name_hash, filename, offset, size, filetype, console }
    }

    /// Construct a new TexpackEntry structure from the given bytes from a
    /// texpack file from the given `console`.
    pub fn from_bytes(raw: &[u8], console: Console) -> (r: Result<TexpackEntry, Error>)
        ensures
            match r {
                Ok(e) => entry_error(raw@, console) is None && is_entry_of(e, raw@, console),
                Err(e) => entry_error(raw@, console) == Some(e),
            },
    {
        if raw.len() < 0x30 {
            return Err(too_few_bytes(0x30, raw.len() as u64, 0));
        }
        let hash = get_word(raw, console, 0x00);
        let name = decode(slice_subrange(raw, 0x04, 0x20))?;
        let filename = trim_end_zeros(name.as_str());
        let offset = get_word(raw, console, 0x20);
        let size = get_word(raw, console, 0x24);
        let kind = get_word(raw, console, 0x28);
        let filetype = if kind == 0x00 {
            TexpackEntryType::Texture
        } else if kind == 0x02 {
            TexpackEntryType::Tga
        } else {
            return Err(Error::ConsoleNumberError);
        };

        Ok(TexpackEntry { hash, filename, offset, size, filetype, console })
    }

    /// Returns the size of a single entry in the .texpack file, in bytes
    pub fn size() -> (s: usize)
        ensures
            s == 0x30,
    {
        0x30
    }

    /// Return the Texpack entry as raw bytes
    pub fn to_bytes(&self) -> (r: Result<Vec<u8>, Error>)
        ensures
            r is Ok,
            r->Ok_0@ == entry_bytes(
                self.hash,
                self.filename@,
                self.offset,
                self.size,
                self.filetype,
                self.console,
            ),
    {
        let mut entry_bytes: Vec<u8> = Vec::new();

        // Write in the hash of the name
        push_word(&mut entry_bytes, self.console, self.hash)?;

        // Write in the name. It is always exactly 28 bytes - shorter names
        // are padded with zeroes, longer names are truncated.
        let mut name_bytes = slice_to_vec(self.filename.as_str().as_bytes());
        let ghost full = name_bytes@;
        name_bytes.truncate(0x1B);
        let kept: usize = name_bytes.len();
        push_zeros(&mut name_bytes, 0x1B - kept);
        assert(name_bytes@ =~= resized(full, 0x1B));
        entry_bytes.append(&mut name_bytes);
        push_zeros(&mut entry_bytes, 1);

        // Write the remaining fields
        push_word(&mut entry_bytes, self.console, self.offset)?;
        push_word(&mut entry_bytes, self.console, self.size)?;
        match self.filetype {
            TexpackEntryType::Texture => push_word(&mut entry_bytes, self.console, 0x00)?,
            TexpackEntryType::Tga => push_word(&mut entry_bytes, self.console, 0x02)?,
        };
        push_zeros(&mut entry_bytes, 4);

        Ok(entry_bytes)
    }
}

impl TexpackFile {
    /// Construct a new TexpackFile structure.
    pub fn new(
        filename: String,
        filetype: TexpackEntryType,
        data: &[u8],
        console: Console,
    ) -> (f: TexpackFile)
        ensures
            f.filename@ == filename@,
            f.filetype == filetype,
            f.data@ == data@,
            f.console == console,
    {
        TexpackFile { filename, console, filetype, data: slice_to_vec(data) }
    }

    /// Returns the full filename of the file, including extension.
    pub fn filename(&self) -> (name: String)
        ensures
            name@ == self.filename@ + extension(self.filetype, self.console),
    {
        let stem = self.filename.clone();
        match self.filetype {
            TexpackEntryType::Texture => match self.console {
                Console::Gamecube => stem.concat(".gct"),
                Console::PC => stem.concat(".dds"),
                Console::PS2 => stem.concat(".tm2"),
                Console::Xbox => stem.concat(".dds"),
            },
            TexpackEntryType::Tga => stem.concat(".tga"),
        }
    }

    /// Return the padded form of the file, for writing back to a texpack
    /// file.
    pub fn padded(&self) -> (padded: Vec<u8>)
        ensures
            padded@ == self.data@ + fill(padding_len(self.data@.len() as int) as nat),
    {
        let mut padded = self.data.clone();
        assert(padded@ =~= self.data@);
        push_fill(&mut padded, 0x1000 - self.data.len() % 0x1000);
        padded
    }

    /// Returns the size of the padded form of the file
    pub fn padded_size(&self) -> (n: usize)
        requires
            self.data@.len() + 0x1000 <= usize::MAX,
        ensures
            n == self.data@.len() + padding_len(self.data@.len() as int),
    {
        self.data.len() + (0x1000 - (self.data.len() % 0x1000))
    }
}

impl Texpack {
    /// Construct an empty Texpack structure for the given `console` version.
    pub fn new(console: Console) -> (t: Texpack)
        ensures
            t.files@.len() == 0,
            t.console == console,
    {
        Texpack { files: Vec::new(), console }
    }

    /// Construct a new Texpack structure from the `raw` bytes of a .texpack
    /// file from the given `console` version.
    pub fn from_bytes(raw: &[u8], console: Console) -> (r: Result<Texpack, Error>)
        ensures
            match r {
                Ok(t) => {
                    &&& package_error(raw@, console) is None
                    &&& t.console == console
                    &&& t.files@.len() == word_at(raw@, console, 0x08)
                    &&& forall|k: int|
                        0 <= k < t.files@.len() ==> is_file_of(
                            #[trigger] t.files@[k],
                            raw@,
                            console,
                            k,
                        )
                },
                Err(e) => package_error(raw@, console) == Some(e),
            },
    {
        let len: usize = raw.len();
        // Read the header
        let header = TexpackHeader::from_bytes(raw, console)?;
        let count: u32 = header.entries;
        let entries_size: u64 = count as u64 * 0x30;
        if 0x10 + entries_size > len as u64 {
            return Err(too_few_bytes(entries_size, len as u64, 0x10));
        }
        // Parse each entry from the header

        let mut entries: Vec<TexpackEntry> = Vec::new();
        let mut i: u32 = 0;
        proof {
            reveal_with_fuel(entries_error, 2);
        }
        while i < count
            invariant
                len == raw@.len(),
                i <= count,
                count == word_at(raw@, console, 0x08),
                0x10 + 0x30 * count <= len,
                entries@.len() == i,
                entries_error(raw@, console, i as nat) is None,
                forall|k: int|
                    0 <= k < i ==> is_entry_of(
                        #[trigger] entries@[k],
                        raw@.subrange(entry_place(k), entry_place(k) + 0x30),
                        console,
                    ),
            decreases count - i,
        {
            let begin: usize = i as usize * 0x30 + 0x10;
            let end: usize = begin + 0x30;
            proof {
                reveal_with_fuel(entries_error, 2);
                lemma_word_at_subrange(raw@, console, begin as int, end as int, 0x28);
            }
            match TexpackEntry::from_bytes(slice_subrange(raw, begin, end), console) {
                Ok(entry) => {
                    entries.push(entry);
                },
                Err(e) => {
                    proof {
                        lemma_entries_error_stays(raw@, console, (i + 1) as nat, count as nat);
                    }
                    return Err(e);
                },
            }
            i += 1;
        }

        // Use the entries to pull out each file from the texpack
        let mut files: Vec<TexpackFile> = Vec::new();
        let mut j: usize = 0;
        proof {
            reveal_with_fuel(files_error, 2);
        }
        while j < entries.len()
            invariant
                len == raw@.len(),
                count == word_at(raw@, console, 0x08),
                0x10 + 0x30 * count <= len,
                entries@.len() == count,
                entries_error(raw@, console, count as nat) is None,
                forall|k: int|
                    0 <= k < count ==> is_entry_of(
                        #[trigger] entries@[k],
                        raw@.subrange(entry_place(k), entry_place(k) + 0x30),
                        console,
                    ),
                j <= entries@.len(),
                files@.len() == j,
                files_error(raw@, console, j as nat) is None,
                forall|k: int|
                    0 <= k < j ==> is_file_of(#[trigger] files@[k], raw@, console, k),
            decreases entries@.len() - j,
        {
            let e = &entries[j];
            proof {
                reveal_with_fuel(files_error, 2);
                let place = entry_place(j as int);
                assert(is_entry_of(entries@[j as int], raw@.subrange(place, place + 0x30), console));
                lemma_word_at_subrange(raw@, console, place, place + 0x30, 0x20);
                lemma_word_at_subrange(raw@, console, place, place + 0x30, 0x24);
                lemma_word_at_subrange(raw@, console, place, place + 0x30, 0x28);
                assert(raw@.subrange(place, place + 0x30).subrange(0x04, 0x20) =~= raw@.subrange(
                    place + 0x04,
                    place + 0x20,
                ));
            }
            let begin: u64 = e.offset as u64;
            let end: u64 = begin + e.size as u64;
            if end > len as u64 {
                proof {
                    lemma_files_error_stays(raw@, console, (j + 1) as nat, count as nat);
                }
                return Err(too_few_bytes(e.size as u64, len as u64, begin));
            }
            files.push(
                TexpackFile::new(
                    e.filename.clone(),
                    e.filetype,
                    slice_subrange(raw, begin as usize, end as usize),
                    console,
                ),
            );
            j += 1;
        }

        Ok(Texpack { files, console })
    }

    /// Add a new file with the given `name` and `data` to the texpack. Its
    /// type is told from the bytes it opens with: a texture opens with the
    /// four bytes that name the texture format of the console.
    pub fn add_file(&mut self, name: String, data: &[u8])
        ensures
            final(self).console == old(self).console,
            final(self).files@.len() == old(self).files@.len() + 1,
            forall|k: int|
                0 <= k < old(self).files@.len() ==> final(self).files@[k] == old(self).files@[k],
            ({
                let added = final(self).files@[old(self).files@.len() as int];
                &&& added.filename@ == name@
                &&& added.data@ == data@
                &&& added.console == old(self).console
                &&& added.filetype == if is_texture(data@, old(self).console) {
                    TexpackEntryType::Texture
                } else {
                    TexpackEntryType::Tga
                }
            }),
    {
        // Determine the filetype based on the console version and the header
        let texture: bool = data.len() >= 4 && match self.console {
            Console::Gamecube => data[0] == 0x47 && data[1] == 0x43 && data[2] == 0x4E && data[3]
                == 0x54,
            Console::PC => data[0] == 0x44 && data[1] == 0x44 && data[2] == 0x53 && data[3]
                == 0x20,
            Console::Xbox => data[0] == 0x44 && data[1] == 0x44 && data[2] == 0x53 && data[3]
                == 0x20,
            Console::PS2 => data[0] == 0x54 && data[1] == 0x49 && data[2] == 0x4D && data[3]
                == 0x32,
        };
        proof {
            if data@.len() >= 4 {
                let head = data@.subrange(0, 4);
                assert(head[0] == data@[0] && head[1] == data@[1] && head[2] == data@[2]
                    && head[3] == data@[3]);
                if texture {
                    match self.console {
                        Console::Gamecube => {
                            assert(head =~= seq![0x47u8, 0x43u8, 0x4Eu8, 0x54u8]);
                        },
                        Console::PC => {
                            assert(head =~= seq![0x44u8, 0x44u8, 0x53u8, 0x20u8]);
                        },
                        Console::Xbox => {
                            assert(head =~= seq![0x44u8, 0x44u8, 0x53u8, 0x20u8]);
                        },
                        Console::PS2 => {
                            assert(head =~= seq![0x54u8, 0x49u8, 0x4Du8, 0x32u8]);
                        },
                    }
                }
            }
        }
        let filetype = if texture {
            TexpackEntryType::Texture
        } else {
            TexpackEntryType::Tga
        };

        // Add the new file to the list of files
        let console = self.console;
        self.files.push(TexpackFile::new(name, filetype, data, console));
    }

    /// Returns the list of files within the texpack
    pub fn files(&self) -> (r: &Vec<TexpackFile>)
        ensures
            r == &self.files,
    {
        &self.files
    }

    /// Convert the Texpack object to its on-disk byte representation.
    ///
    /// The text files need to be after the files they reference, so the
    /// files are written by their type: the textures first, then the text
    /// files, each group in the order of the package.
    pub fn to_bytes(&self) -> (r: Result<Vec<u8>, Error>)
        ensures
            r is Ok,
            exists|order: Seq<usize>|
                is_stable_order(order, keys_of(self.files@)) && r->Ok_0@ == package_bytes(
                    self.files@,
                    order,
                    self.console,
                ),
    {
        let count: usize = self.files.len();
        let mut keys: Vec<u8> = Vec::new();
        let mut i: usize = 0;
        while i < count
            invariant
                count == self.files@.len(),
                i <= count,
                keys@.len() == i,
                forall|k: int| 0 <= k < i ==> keys@[k] == kind_key(self.files@[k].filetype),
            decreases count - i,
        {
            keys.push(self.files[i].filetype.key());
            i += 1;
        }
        assert(keys@ =~= keys_of(self.files@));
        let order = sorted_places(&keys);

        // Write the header
        let header = TexpackHeader::new(#[verifier::truncate]
        (count as u32), self.console);
        let mut texpack_bytes = header.to_bytes()?;
        let ghost head = texpack_bytes@;

        // Calculations to determine where the offset of each texture file
        // will begin within the texpack, needed for each metadata entry.
        let entries_end: u128 = 0x10 + count as u128 * 0x30;
        let header_padding_size: usize = 0x1000 - (entries_end % 0x1000) as usize;
        let mut cumulative_offset: u32 = #[verifier::truncate]
        ((entries_end + header_padding_size as u128) as u32);

        // Create each entry to point to the actual files
        let mut k: usize = 0;
        proof {
            reveal_with_fuel(entries_part, 2);
            assert(texpack_bytes@ =~= head + entries_part(self.files@, order@, self.console, 0));
        }
        while k < count
            invariant
                count == self.files@.len(),
                is_stable_order(order@, keys_of(self.files@)),
                k <= count,
                cumulative_offset == placed_offset(self.files@, order@, k as nat),
                texpack_bytes@ == head + entries_part(
                    self.files@,
                    order@,
                    self.console,
                    k as nat,
                ),
            decreases count - k,
        {
            let file = &self.files[order[k]];
            let entry = TexpackEntry::new(
                file.filename.clone(),
                cumulative_offset,
                #[verifier::truncate]
                (file.data.len() as u32),
                file.filetype,
                self.console,
            );
            let mut entry_bytes = entry.to_bytes()?;
            texpack_bytes.append(&mut entry_bytes);
            proof {
                reveal_with_fuel(entries_part, 2);
                assert(texpack_bytes@ =~= head + entries_part(
                    self.files@,
                    order@,
                    self.console,
                    (k + 1) as nat,
                ));
            }
            let size: usize = file.data.len();
            cumulative_offset = #[verifier::truncate]
            ((cumulative_offset as u128 + size as u128 + (0x1000 - size % 0x1000) as u128) as u32);
            k += 1;
        }
        let ghost listed = texpack_bytes@;

        // Add the padding between the header and the files
        push_fill(&mut texpack_bytes, header_padding_size);
        let ghost padded = texpack_bytes@;

        // Add the contents of each file
        let mut k: usize = 0;
        proof {
            reveal_with_fuel(data_part, 2);
            assert(texpack_bytes@ =~= padded + data_part(self.files@, order@, 0));
        }
        while k < count
            invariant
                count == self.files@.len(),
                is_stable_order(order@, keys_of(self.files@)),
                k <= count,
                texpack_bytes@ == padded + data_part(self.files@, order@, k as nat),
            decreases count - k,
        {
            let mut data = self.files[order[k]].padded();
            texpack_bytes.append(&mut data);
            proof {
                reveal_with_fuel(data_part, 2);
                assert(texpack_bytes@ =~= padded + data_part(
                    self.files@,
                    order@,
                    (k + 1) as nat,
                ));
            }
            k += 1;
        }
        proof {
            assert(texpack_bytes@ =~= package_bytes(self.files@, order@, self.console));
        }
        Ok(texpack_bytes)
    }
}

/// An error among the first `n` entries is the error among the first `m`
/// entries, for `m` no less than `n`.
pub proof fn lemma_entries_error_stays(raw: Seq<u8>, c: Console, n: nat, m: nat)
    requires
        n <= m,
        entries_error(raw, c, n) is Some,
    ensures
        entries_error(raw, c, m) == entries_error(raw, c, n),
    decreases m - n,
{
    reveal_with_fuel(entries_error, 2);
    if n < m {
        lemma_entries_error_stays(raw, c, n, (m - 1) as nat);
    }
}

/// An error among the files of the first `n` entries is the error among
/// those of the first `m` entries, for `m` no less than `n`.
pub proof fn lemma_files_error_stays(raw: Seq<u8>, c: Console, n: nat, m: nat)
    requires
        n <= m,
        files_error(raw, c, n) is Some,
    ensures
        files_error(raw, c, m) == files_error(raw, c, n),
    decreases m - n,
{
    reveal_with_fuel(files_error, 2);
    if n < m {
        lemma_files_error_stays(raw, c, n, (m - 1) as nat);
    }
}

} // verus!
