//! The archive that holds the game's files in compressed form.
//!
//! The archive is a sequence of compressed files, each padded to a multiple
//! of 2048 bytes. Where each file lies, and what it is called, is recorded in
//! the directory that belongs to the archive.
use vstd::prelude::*;
use vstd::pervasive::unreached;
use vstd::slice::{slice_subrange, slice_to_vec};
use crate::compression::{compress, decoded, decompress, encoded};
use crate::console::Console;
use crate::errors::{not_enough, too_few_bytes, ClassError, Error};
use crate::latin1::{trim_end_zeros, trimmed};
use crate::master_dir::{MasterDir, MasterDirEntry};

verus! {

/// Structure representing the MASTER.DAT file, which contains all of the
/// compressed files of the game.
#[derive(Debug)]
pub struct MasterDat {
    /// The files within the MASTER.DAT, each with its name and its
    /// compressed data, in the order in which their names came in.
    pub files: Vec<(String, Vec<u8>)>,
    /// The associated MASTER.DIR file
    pub master_dir: MasterDir,
}

/// The place of the first among the first `n` files that is called `name`,
/// if there is one.
#[verifier::opaque]
pub open spec fn position_of(files: Seq<(String, Vec<u8>)>, name: Seq<char>, n: nat) -> Option<
    int,
>
    decreases n,
{
    if n == 0 {
        None
    } else {
        match position_of(files, name, (n - 1) as nat) {
            Some(i) => Some(i),
            None => if files[n - 1].0@ == name {
                Some(n - 1)
            } else {
                None
            },
        }
    }
}

/// The compressed data of the file that is called `name`, if there is one.
pub open spec fn stored(files: Seq<(String, Vec<u8>)>, name: Seq<char>) -> Option<Seq<u8>> {
    match position_of(files, name, files.len()) {
        Some(i) => Some(files[i].1@),
        None => None,
    }
}

/// Whether `after` is `before` with `data` stored under `name`: in the
/// place of the file of that name if there is one, else behind all files.
pub open spec fn is_stored_in(
    after: Seq<(String, Vec<u8>)>,
    before: Seq<(String, Vec<u8>)>,
    name: Seq<char>,
    data: Seq<u8>,
) -> bool {
    match position_of(before, name, before.len()) {
        Some(i) => {
            &&& after.len() == before.len()
            &&& after[i].0@ == name
            &&& after[i].1@ == data
            &&& forall|k: int| 0 <= k < before.len() && k != i ==> after[k] == before[k]
        },
        None => {
            &&& after.len() == before.len() + 1
            &&& after[before.len() as int].0@ == name
            &&& after[before.len() as int].1@ == data
            &&& forall|k: int| 0 <= k < before.len() ==> after[k] == before[k]
        },
    }
}

/// The size that a compressed file of `size` bytes takes up in the archive:
/// the next multiple of 2048 bytes above it.
pub open spec fn spec_padded_size(size: int) -> int {
    size + (2048 - size % 2048)
}

/// The byte that pads a file at place `i` of its padding: the letters of
/// `SHAB`, over and over.
pub open spec fn padding_byte(i: int) -> u8 {
    if i % 4 == 0 {
        0x53
    } else if i % 4 == 1 {
        0x48
    } else if i % 4 == 2 {
        0x41
    } else {
        0x42
    }
}

/// A compressed file with its padding.
pub open spec fn padded(data: Seq<u8>) -> Seq<u8> {
    data + Seq::new((2048 - data.len() % 2048) as nat, |i: int| padding_byte(i))
}

/// Where the file behind the first `n` files begins in the archive: behind
/// the padded files before it. It is kept to 32 bits.
pub open spec fn packed_offset(files: Seq<(String, Vec<u8>)>, n: nat) -> u32
    decreases n,
{
    if n == 0 {
        0
    } else {
        (packed_offset(files, (n - 1) as nat) + spec_padded_size(files[n - 1].1@.len() as int))
            as u32
    }
}

/// Where the file behind `n` files of the given compressed sizes begins in
/// the archive. It is kept to 32 bits.
pub open spec fn entry_offset(entries: Seq<MasterDirEntry>, n: int) -> u32
    decreases n,
{
    if n <= 0 {
        0
    } else {
        (entry_offset(entries, n - 1) + spec_padded_size(
            entries[n - 1].comp_size as int,
        )) as u32
    }
}

/// The place of the first among the first `n` entries of a directory whose
/// name is `name` but for zero characters at its end, if there is one.
pub open spec fn entry_position(entries: Seq<MasterDirEntry>, name: Seq<char>, n: nat) -> Option<
    int,
>
    decreases n,
{
    if n == 0 {
        None
    } else {
        match entry_position(entries, name, (n - 1) as nat) {
            Some(i) => Some(i),
            None => if trimmed(entries[n - 1].name@) == name {
                Some(n - 1)
            } else {
                None
            },
        }
    }
}

/// The place of the first among the first `n` entries of a directory whose
/// name is `name` but for zero characters at its end, or `n` if there is
/// none.
pub open spec fn first_entry(entries: Seq<MasterDirEntry>, name: Seq<char>, n: nat) -> int {
    match entry_position(entries, name, n) {
        Some(i) => i,
        None => n as int,
    }
}

/// The files that the first `n` entries of a directory take from the bytes
/// of an archive, or the error of taking them: each entry gives the place
/// and the size of one file, and its name, of which the zero characters at
/// the end are dropped.
pub open spec fn loading_error(raw: Seq<u8>, entries: Seq<MasterDirEntry>, n: nat) -> Option<
    Error,
>
    decreases n,
{
    if n == 0 {
        None
    } else {
        match loading_error(raw, entries, (n - 1) as nat) {
            Some(e) => Some(e),
            None => {
                let entry = entries[n - 1];
                if entry.offset + entry.comp_size > raw.len() {
                    Some(not_enough(entry.comp_size as int, raw.len() as int, entry.offset as int))
                } else {
                    None
                }
            },
        }
    }
}

/// The bytes of the file that the entry gives the place of.
pub open spec fn entry_file(raw: Seq<u8>, entry: MasterDirEntry) -> Seq<u8> {
    raw.subrange(entry.offset as int, entry.offset + entry.comp_size)
}

/// Whether `files` are those that the first `n` entries take from the bytes
/// of an archive: the file of each name is that of the last entry of that
/// name, there is no other file, and the files stand in the order in which
/// their names come first among the entries.
pub open spec fn is_loaded(
    files: Seq<(String, Vec<u8>)>,
    raw: Seq<u8>,
    entries: Seq<MasterDirEntry>,
    n: nat,
) -> bool {
    &&& forall|k: int|
        0 <= k < n ==> #[trigger] stored(files, trimmed(entries[k].name@)) is Some
    &&& forall|k: int|
        0 <= k < n && (forall|j: int| k < j < n ==> trimmed(entries[j].name@) != trimmed(
            entries[k].name@,
        )) ==> #[trigger] stored(files, trimmed(entries[k].name@)) == Some(
            entry_file(raw, entries[k]),
        )
    &&& forall|i: int|
        0 <= i < files.len() ==> exists|k: int|
            0 <= k < n && trimmed(entries[k].name@) == (#[trigger] files[i]).0@
    &&& forall|i: int, j: int|
        0 <= i < j < files.len() ==> first_entry(entries, (#[trigger] files[i]).0@, n)
            < first_entry(entries, (#[trigger] files[j]).0@, n)
}

/// The bytes of an archive with the files of the first `n` entries.
#[verifier::opaque]
pub open spec fn archive_bytes(files: Seq<(String, Vec<u8>)>, entries: Seq<MasterDirEntry>, n: nat)
    -> Seq<u8>
    decreases n,
{
    if n == 0 {
        Seq::empty()
    } else {
        archive_bytes(files, entries, (n - 1) as nat) + padded(
            stored(files, trimmed(entries[n - 1].name@))->Some_0,
        )
    }
}

/// Finds the place of the file that is called `name`.
fn find_file(files: &Vec<(String, Vec<u8>)>, name: &String) -> (r: Option<usize>)
    ensures
        match r {
            Some(i) => position_of(files@, name@, files@.len()) == Some(i as int) && i
                < files@.len() && files@[i as int].0@ == name@,
            None => position_of(files@, name@, files@.len()) is None,
        },
{
    let mut i: usize = 0;
    proof {
        reveal_with_fuel(position_of, 2);
    }
    while i < files.len()
        invariant
            i <= files@.len(),
            position_of(files@, name@, i as nat) is None,
        decreases files@.len() - i,
    {
        proof {
            reveal_with_fuel(position_of, 2);
        }
        if files[i].0 == *name {
            proof {
                lemma_position_stays(files@, name@, (i + 1) as nat, files@.len());
            }
            return Some(i);
        }
        i += 1;
    }
    None
}

/// Stores `data` under `name`: in the place of the file of that name if
/// there is one, else behind all files.
fn store(files: &mut Vec<(String, Vec<u8>)>, name: String, data: Vec<u8>)
    ensures
        is_stored_in(final(files)@, old(files)@, name@, data@),
{
    match find_file(files, &name) {
        Some(i) => {
            files.set(i, (name, data));
        },
        None => {
            files.push((name, data));
        },
    }
}

/// Get the padded size of a compressed file: the size the compressed file
/// would be after padding in the MASTER.DAT.
pub fn padded_size(size: usize) -> (r: usize)
    requires
        size + 2048 <= usize::MAX,
    ensures
        r == spec_padded_size(size as int),
{
    size + (2048 - (size % 2048))
}

/// Pads a compressed file from the MASTER.DAT.
pub fn pad(data: &[u8]) -> (r: Vec<u8>)
    ensures
        r@ == padded(data@),
{
    let mut result: Vec<u8> = slice_to_vec(data);
    let count: usize = 2048 - data.len() % 2048;
    let mut i: usize = 0;
    while i < count
        invariant
            i <= count,
            count == 2048 - data@.len() % 2048,
            result@ == data@ + Seq::new(i as nat, |k: int| padding_byte(k)),
        decreases count - i,
    {
        let b: u8 = if i % 4 == 0 {
            0x53
        } else if i % 4 == 1 {
            0x48
        } else if i % 4 == 2 {
            0x41
        } else {
            0x42
        };
        result.push(b);
        i += 1;
        assert(result@ =~= data@ + Seq::new(i as nat, |k: int| padding_byte(k)));
    }
    result
}

/// The offset behind a file of `size` bytes that begins at `offset`, kept to
/// 32 bits.
fn next_offset(offset: u32, size: usize) -> (r: u32)
    ensures
        r == (offset + spec_padded_size(size as int)) as u32,
{
    #[verifier::truncate]
    ((offset as u128 + size as u128 + (2048 - (size % 2048)) as u128) as u32)
}

impl MasterDat {
    /// Whether the archive holds a file for every entry of its directory.
    pub open spec fn complete(&self) -> bool {
        forall|k: int|
            0 <= k < self.master_dir.entries@.len() ==> #[trigger] stored(
                self.files@,
                trimmed(self.master_dir.entries@[k].name@),
            ) is Some
    }

    /// Returns a new empty `MasterDat` object for the given `console`.
    pub fn new(console: Console) -> (d: MasterDat)
        ensures
            d.files@.len() == 0,
            d.master_dir.entries@.len() == 0,
            d.master_dir.console == console,
            d.complete(),
    {
        MasterDat { files: Vec::new(), master_dir: MasterDir::new(console) }
    }

    /// Load an existing MASTER.DAT from the bytes that make up the file,
    /// using the given `master_dir` file for the mapping.
    pub fn from_bytes(master_dat: &[u8], master_dir: MasterDir) -> (r: Result<MasterDat, Error>)
        ensures
            match r {
                Ok(d) => {
                    &&& loading_error(master_dat@, master_dir.entries@, master_dir.entries@.len())
                        is None
                    &&& d.master_dir == master_dir
                    &&& is_loaded(
                        d.files@,
                        master_dat@,
                        master_dir.entries@,
                        master_dir.entries@.len(),
                    )
                    &&& d.complete()
                },
                Err(e) => loading_error(
                    master_dat@,
                    master_dir.entries@,
                    master_dir.entries@.len(),
                ) == Some(e),
            },
    {
        // Iterate over the entries within the associated MASTER.DIR, and use
        // it to read out each compressed file from the MASTER.DAT
        let len: usize = master_dat.len();
        let count: usize = master_dir.entries.len();
        let mut files: Vec<(String, Vec<u8>)> = Vec::new();
        let mut i: usize = 0;
        proof {
            reveal_with_fuel(position_of, 2);
        }
        while i < count
            invariant
                len == master_dat@.len(),
                count == master_dir.entries@.len(),
                i <= count,
                loading_error(master_dat@, master_dir.entries@, i as nat) is None,
                is_loaded(files@, master_dat@, master_dir.entries@, i as nat),
            decreases count - i,
        {
            let entry = &master_dir.entries[i];
            let o: u64 = entry.offset as u64;
            let size: u64 = entry.comp_size as u64;
            if o + size > len as u64 {
                proof {
                    lemma_loading_error_stays(
                        master_dat@,
                        master_dir.entries@,
                        (i + 1) as nat,
                        count as nat,
                    );
                }
                return Err(too_few_bytes(size, len as u64, o));
            }
            let file = slice_to_vec(slice_subrange(master_dat, o as usize, (o + size) as usize));
            let name = trim_end_zeros(entry.name.as_str());
            let ghost before = files@;
            store(&mut files, name, file);
            proof {
                lemma_loaded_step(before, files@, master_dat@, master_dir.entries@, i as nat);
            }
            i += 1;
        }
        Ok(MasterDat { files, master_dir })
    }

    /// Add a new file at the given `path` with the given `data` to the
    /// MASTER.DAT. The file is compressed, and an entry for it is added to
    /// the directory.
    pub fn add_file(&mut self, path: String, data: &[u8])
        ensures
            final(self).master_dir.console == old(self).master_dir.console,
            is_stored_in(final(self).files@, old(self).files@, path@, encoded(data@)),
            final(self).master_dir.entries@.len() == old(self).master_dir.entries@.len() + 1,
            forall|k: int|
                0 <= k < old(self).master_dir.entries@.len() ==> final(self).master_dir.entries@[k]
                    == old(self).master_dir.entries@[k],
            ({
                let added = final(self).master_dir.entries@[old(self).master_dir.entries@.len() as int];
                &&& added.offset == packed_offset(old(self).files@, old(self).files@.len())
                &&& added.decomp_size == data@.len() as u32
                &&& added.comp_size == encoded(data@).len() as u32
                &&& added.name@ == path@
            }),
            old(self).complete() && trimmed(path@) == path@ ==> final(self).complete(),
    {
        // Compress the file
        let compressed = compress(data);

        // Create an entry for the file in the MASTER.DAT. The offset of the
        // file within the MASTER.DAT (which is a field in the MASTER.DIR) is
        // determined by the sum of all the padded sizes of the current files.
        let mut offset: u32 = 0;
        let mut i: usize = 0;
        while i < self.files.len()
            invariant
                i <= self.files@.len(),
                offset == packed_offset(self.files@, i as nat),
            decreases self.files@.len() - i,
        {
            offset = next_offset(offset, self.files[i].1.len());
            i += 1;
        }
        let entry = MasterDirEntry {
            offset,
            decomp_size: #[verifier::truncate]
            (data.len() as u32),
            comp_size: #[verifier::truncate]
            (compressed.len() as u32),
            name: path.clone(),
        };
        self.master_dir.entries.push(entry);

        // Add the compressed file to the MASTER.DAT
        let ghost before = self.files@;
        store(&mut self.files, path, compressed);
        proof {
            if old(self).complete() && trimmed(path@) == path@ {
                assert forall|k: int|
                    0 <= k < self.master_dir.entries@.len() implies #[trigger] stored(
                    self.files@,
                    trimmed(self.master_dir.entries@[k].name@),
                ) is Some by {
                    lemma_stored_after(
                        before,
                        self.files@,
                        path@,
                        encoded(data@),
                        trimmed(self.master_dir.entries@[k].name@),
                    );
                }
            }
        }
    }

    /// Returns the compressed file at the given `path` in the MASTER.DAT if
    /// it exists.
    pub fn compressed_file(&self, path: &str) -> (r: Option<Vec<u8>>)
        ensures
            match r {
                Some(f) => stored(self.files@, path@) == Some(f@),
                None => stored(self.files@, path@) is None,
            },
    {
        match find_file(&self.files, &path.to_owned()) {
            Some(i) => Some(self.files[i].1.clone()),
            None => None,
        }
    }

    /// Returns the decompressed file at the given `path` in the MASTER.DAT
    /// if it exists, or the error of decompressing it.
    pub fn decompressed_file(&self, path: &str) -> (r: Result<Option<Vec<u8>>, Error>)
        ensures
            match stored(self.files@, path@) {
                None => r matches Ok(None),
                Some(f) => match decoded(f) {
                    Ok(data) => r matches Ok(Some(d)) && d@ == data,
                    Err(e) => r matches Err(err) && err == Error::ClassDeserialiseError(e),
                },
            },
    {
        match find_file(&self.files, &path.to_owned()) {
            Some(i) => Ok(Some(decompress(self.files[i].1.as_slice())?)),
            None => Ok(None),
        }
    }

    /// Returns the filenames within the MASTER.DAT file, in the order in
    /// which they came in.
    pub fn files(&self) -> (names: Vec<String>)
        ensures
            names@.len() == self.files@.len(),
            forall|i: int| 0 <= i < names@.len() ==> (#[trigger] names@[i])@ == self.files@[i].0@,
    {
        let mut names: Vec<String> = Vec::new();
        let mut i: usize = 0;
        while i < self.files.len()
            invariant
                i <= self.files@.len(),
                names@.len() == i,
                forall|k: int| 0 <= k < i ==> (#[trigger] names@[k])@ == self.files@[k].0@,
            decreases self.files@.len() - i,
        {
            names.push(self.files[i].0.clone());
            i += 1;
        }
        names
    }

    /// Returns the raw bytes of the MASTER.DAT file and its associated
    /// MASTER.DIR. The pair contains the MASTER.DAT first, then the
    /// MASTER.DIR bytes.
    pub fn to_bytes(&self) -> (r: (Vec<u8>, Vec<u8>))
        requires
            self.complete(),
        ensures
            r.0@ == archive_bytes(
                self.files@,
                self.master_dir.entries@,
                self.master_dir.entries@.len(),
            ),
            r.1@ == crate::master_dir::directory_bytes(
                self.master_dir.entries@,
                self.master_dir.console,
            ),
    {
        let mut master_dat_bytes: Vec<u8> = Vec::new();
        let count: usize = self.master_dir.entries.len();
        let mut i: usize = 0;
        proof {
            reveal_with_fuel(archive_bytes, 2);
        }
        while i < count
            invariant
                count == self.master_dir.entries@.len(),
                i <= count,
                self.complete(),
                master_dat_bytes@ == archive_bytes(
                    self.files@,
                    self.master_dir.entries@,
                    i as nat,
                ),
            decreases count - i,
        {
            let trimmed_name = trim_end_zeros(self.master_dir.entries[i].name.as_str());
            proof {
                reveal_with_fuel(archive_bytes, 2);
                assert(stored(self.files@, trimmed(self.master_dir.entries@[i as int].name@))
                    is Some);
            }
            match find_file(&self.files, &trimmed_name) {
                Some(at) => {
                    let mut file = pad(self.files[at].1.as_slice());
                    master_dat_bytes.append(&mut file);
                },
                None => unreached(),
            }
            i += 1;
        }
        (master_dat_bytes, self.master_dir.to_bytes())
    }

    /// The size of the decompressed file that is stored under `name`, or
    /// zero if there is none.
    pub open spec fn existing_length(&self, name: Seq<char>) -> nat {
        match stored(self.files@, name) {
            Some(f) => decoded(f)->Ok_0.len(),
            None => 0,
        }
    }

    /// Whether the file that is stored under `name`, if there is one, can be
    /// decompressed.
    pub open spec fn can_decompress(&self, name: Seq<char>) -> bool {
        match stored(self.files@, name) {
            Some(f) => decoded(f) is Ok,
            None => true,
        }
    }

    /// Whether `after` are the entries `before` with the compressed size of
    /// entry `at` set to `size`, and the files laid out anew one behind the
    /// other.
    pub open spec fn is_resized(
        after: Seq<MasterDirEntry>,
        before: Seq<MasterDirEntry>,
        at: int,
        size: u32,
    ) -> bool {
        &&& after.len() == before.len()
        &&& forall|k: int|
            0 <= k < after.len() ==> {
                &&& (#[trigger] after[k]).name@ == before[k].name@
                &&& after[k].decomp_size == before[k].decomp_size
                &&& after[k].comp_size == if k == at {
                    size
                } else {
                    before[k].comp_size
                }
                &&& after[k].offset == entry_offset(after, k)
            }
    }

    /// Update a file located at `path` contained within the MASTER.DAT with
    /// the new supplied `data`.
    ///
    /// The new `data` must be of the same size as the file it is replacing,
    /// or empty if there is no such file. If it is not, the size of the file
    /// being replaced is given as the error, and nothing changes.
    ///
    /// The file that is replaced must be one that can be decompressed.
    pub fn update_file(&mut self, path: &str, data: &[u8]) -> (r: Result<(), usize>)
        requires
            old(self).can_decompress(path@),
        ensures
            final(self).master_dir.console == old(self).master_dir.console,
            old(self).complete() ==> final(self).complete(),
            match r {
                Err(size) => size == old(self).existing_length(path@) && size != data@.len()
                    && final(self).files == old(self).files && final(self).master_dir == old(
                    self,
                ).master_dir,
                Ok(_) => {
                    &&& data@.len() == old(self).existing_length(path@)
                    &&& is_stored_in(final(self).files@, old(self).files@, path@, encoded(data@))
                    &&& match entry_position(
                        old(self).master_dir.entries@,
                        path@,
                        old(self).master_dir.entries@.len(),
                    ) {
                        Some(at) => Self::is_resized(
                            final(self).master_dir.entries@,
                            old(self).master_dir.entries@,
                            at,
                            encoded(data@).len() as u32,
                        ),
                        None => final(self).master_dir.entries == old(self).master_dir.entries,
                    }
                },
            },
    {
        // Ensure the file to replace exists in the first place
        let key = path.to_owned();
        let existing_length: usize = match find_file(&self.files, &key) {
            Some(i) => match decompress(self.files[i].1.as_slice()) {
                Ok(f) => f.len(),
                Err(_) => unreached(),
            },
            None => 0,
        };

        // Ensure the filesize of the new file is the same as the old
        if data.len() != existing_length {
            return Err(existing_length);
        }
        // The compressed size of the new data is not that of the file it
        // replaces, so the record of the compressed size in the MASTER.DIR is
        // updated too

        let compressed = compress(data);
        let count: usize = self.master_dir.entries.len();
        let mut at: usize = 0;
        let mut found: bool = false;
        while at < count && !found
            invariant
                count == self.master_dir.entries@.len(),
                at <= count,
                key@ == path@,
                self.master_dir == old(self).master_dir,
                self.files == old(self).files,
                !found ==> entry_position(self.master_dir.entries@, path@, at as nat)
                    is None,
                found ==> at < count && entry_position(
                    self.master_dir.entries@,
                    path@,
                    count as nat,
                ) == Some(at as int),
            decreases count - at + if found { 0int } else { 1int },
        {
            let name = trim_end_zeros(self.master_dir.entries[at].name.as_str());
            if name == key {
                found = true;
                proof {
                    assert(entry_position(
                        self.master_dir.entries@,
                        path@,
                        (at + 1) as nat,
                    ) == Some(at as int));
                    Self::lemma_entry_position_stays(
                        self.master_dir.entries@,
                        path@,
                        (at + 1) as nat,
                        count as nat,
                    );
                }
            } else {
                at += 1;
            }
        }
        if found {
            // Having updated the size of this entry, the offsets to all
            // subsequent entries will now be invalidated, as the new file
            // may take up more space. We therefore recalculate each offset
            let size: u32 = #[verifier::truncate]
            (compressed.len() as u32);
            let mut entries: Vec<MasterDirEntry> = Vec::new();
            let mut total_size: u32 = 0;
            let mut k: usize = 0;
            while k < count
                invariant
                    count == self.master_dir.entries@.len(),
                    self.master_dir == old(self).master_dir,
                    self.files == old(self).files,
                    k <= count,
                    at < count,
                    entries@.len() == k,
                    total_size == entry_offset(entries@, k as int),
                    forall|j: int|
                        0 <= j < k ==> {
                            &&& (#[trigger] entries@[j]).name@ == self.master_dir.entries@[j].name@
                            &&& entries@[j].decomp_size == self.master_dir.entries@[j].decomp_size
                            &&& entries@[j].comp_size == if j == at {
                                size
                            } else {
                                self.master_dir.entries@[j].comp_size
                            }
                            &&& entries@[j].offset == entry_offset(entries@, j)
                        },
                decreases count - k,
            {
                let entry = &self.master_dir.entries[k];
                let comp_size: u32 = if k == at {
                    size
                } else {
                    entry.comp_size
                };
                let ghost before = entries@;
                entries.push(
                    MasterDirEntry {
                        offset: total_size,
                        decomp_size: entry.decomp_size,
                        comp_size,
                        name: entry.name.clone(),
                    },
                );
                proof {
                    assert forall|j: int| 0 <= j <= k implies #[trigger] entry_offset(entries@, j)
                        == entry_offset(before, j) by {
                        Self::lemma_entry_offset_prefix(before, entries@, j);
                    }
                }
                proof {
                    assert(entry_offset(entries@, k as int) == entry_offset(before, k as int));
                    assert(entries@[k as int].comp_size == comp_size);
                }
                total_size = next_offset(total_size, comp_size as usize);
                assert(total_size == entry_offset(entries@, k + 1));
                k += 1;
            }
            self.master_dir.entries = entries;
        }
        // Update the contents of the existing file

        let ghost before = self.files@;
        store(&mut self.files, key, compressed);
        proof {
            if old(self).complete() {
                assert forall|k: int|
                    0 <= k < self.master_dir.entries@.len() implies #[trigger] stored(
                    self.files@,
                    trimmed(self.master_dir.entries@[k].name@),
                ) is Some by {
                    assert(self.master_dir.entries@[k].name@ == old(
                        self,
                    ).master_dir.entries@[k].name@);
                    assert(stored(before, trimmed(old(self).master_dir.entries@[k].name@))
                        is Some);
                    lemma_stored_after(
                        before,
                        self.files@,
                        path@,
                        encoded(data@),
                        trimmed(self.master_dir.entries@[k].name@),
                    );
                }
            }
        }

        Ok(())
    }

    /// A match among the first `n` entries is the match among the first `m`
    /// entries, for `m` no less than `n`.
    pub proof fn lemma_entry_position_stays(
        entries: Seq<MasterDirEntry>,
        name: Seq<char>,
        n: nat,
        m: nat,
    )
        requires
            n <= m,
            entry_position(entries, name, n) is Some,
        ensures
            entry_position(entries, name, m) == entry_position(entries, name, n),
        decreases m - n,
    {
        if n < m {
            Self::lemma_entry_position_stays(entries, name, n, (m - 1) as nat);
        }
    }

    /// Where the file behind `n` entries begins depends on the first `n`
    /// entries only.
    pub proof fn lemma_entry_offset_prefix(a: Seq<MasterDirEntry>, b: Seq<MasterDirEntry>, n: int)
        requires
            0 <= n <= a.len(),
            n <= b.len(),
            forall|k: int| 0 <= k < n ==> a[k] == b[k],
        ensures
            entry_offset(a, n) == entry_offset(b, n),
        decreases n,
    {
        if n > 0 {
            Self::lemma_entry_offset_prefix(a, b, n - 1);
        }
    }
}

/// A match among the first `n` files is the match among the first `m` files,
/// for `m` no less than `n`.
pub proof fn lemma_position_stays(files: Seq<(String, Vec<u8>)>, name: Seq<char>, n: nat, m: nat)
    requires
        n <= m,
        position_of(files, name, n) is Some,
    ensures
        position_of(files, name, m) == position_of(files, name, n),
    decreases m - n,
{
    reveal_with_fuel(position_of, 2);
    if n < m {
        lemma_position_stays(files, name, n, (m - 1) as nat);
    }
}

/// What the match among the first `n` files says: it is a file of that name,
/// and no file before it has that name; and where there is no match, no file
/// has that name.
pub proof fn lemma_position_of(files: Seq<(String, Vec<u8>)>, name: Seq<char>, n: nat)
    requires
        n <= files.len(),
    ensures
        match position_of(files, name, n) {
            Some(i) => 0 <= i < n && files[i].0@ == name && forall|k: int|
                0 <= k < i ==> files[k].0@ != name,
            None => forall|k: int| 0 <= k < n ==> files[k].0@ != name,
        },
    decreases n,
{
    reveal_with_fuel(position_of, 2);
    if n > 0 {
        lemma_position_of(files, name, (n - 1) as nat);
    }
}

/// The match among the first `n` files is the first file of that name, if
/// there is one.
pub proof fn lemma_position_is_first(
    files: Seq<(String, Vec<u8>)>,
    name: Seq<char>,
    n: nat,
    i: int,
)
    requires
        n <= files.len(),
        0 <= i < n,
        files[i].0@ == name,
        forall|k: int| 0 <= k < i ==> files[k].0@ != name,
    ensures
        position_of(files, name, n) == Some(i),
    decreases n,
{
    reveal_with_fuel(position_of, 2);
    if i < n - 1 {
        lemma_position_is_first(files, name, (n - 1) as nat, i);
    } else {
        lemma_position_of(files, name, (n - 1) as nat);
    }
}

/// What is stored under a name after `data` was stored under `name`: `data`
/// under `name`, and under any other name what was stored before.
pub proof fn lemma_stored_after(
    before: Seq<(String, Vec<u8>)>,
    after: Seq<(String, Vec<u8>)>,
    name: Seq<char>,
    data: Seq<u8>,
    other: Seq<char>,
)
    requires
        is_stored_in(after, before, name, data),
    ensures
        stored(after, name) == Some(data),
        other != name ==> stored(after, other) == stored(before, other),
{
    lemma_position_of(before, name, before.len());
    lemma_position_of(before, other, before.len());
    match position_of(before, name, before.len()) {
        Some(i) => {
            lemma_position_is_first(after, name, after.len(), i);
            if other != name {
                match position_of(before, other, before.len()) {
                    Some(j) => {
                        lemma_position_is_first(after, other, after.len(), j);
                    },
                    None => {
                        lemma_position_of(after, other, after.len());
                    },
                }
            }
        },
        None => {
            lemma_position_is_first(after, name, after.len(), before.len() as int);
            if other != name {
                match position_of(before, other, before.len()) {
                    Some(j) => {
                        lemma_position_is_first(after, other, after.len(), j);
                    },
                    None => {
                        lemma_position_of(after, other, after.len());
                    },
                }
            }
        },
    }
}

/// An error among the first `n` entries is the error among the first `m`
/// entries, for `m` no less than `n`.
pub proof fn lemma_loading_error_stays(
    raw: Seq<u8>,
    entries: Seq<MasterDirEntry>,
    n: nat,
    m: nat,
)
    requires
        n <= m,
        loading_error(raw, entries, n) is Some,
    ensures
        loading_error(raw, entries, m) == loading_error(raw, entries, n),
    decreases m - n,
{
    if n < m {
        lemma_loading_error_stays(raw, entries, n, (m - 1) as nat);
    }
}

/// What the match among the first `n` entries says: it is an entry of that
/// name, and no entry before it has that name; and where there is no match,
/// no entry has that name.
pub proof fn lemma_entry_position(entries: Seq<MasterDirEntry>, name: Seq<char>, n: nat)
    requires
        n <= entries.len(),
    ensures
        match entry_position(entries, name, n) {
            Some(i) => 0 <= i < n && trimmed(entries[i].name@) == name && forall|k: int|
                0 <= k < i ==> trimmed(entries[k].name@) != name,
            None => forall|k: int| 0 <= k < n ==> trimmed(entries[k].name@) != name,
        },
    decreases n,
{
    if n > 0 {
        lemma_entry_position(entries, name, (n - 1) as nat);
    }
}

/// The files of `n + 1` entries are those of `n` entries with the file of
/// the last entry stored under its name.
pub proof fn lemma_loaded_step(
    before: Seq<(String, Vec<u8>)>,
    after: Seq<(String, Vec<u8>)>,
    raw: Seq<u8>,
    entries: Seq<MasterDirEntry>,
    n: nat,
)
    requires
        n < entries.len(),
        is_loaded(before, raw, entries, n),
        is_stored_in(after, before, trimmed(entries[n as int].name@), entry_file(
            raw,
            entries[n as int],
        )),
    ensures
        is_loaded(after, raw, entries, n + 1),
{
    let name = trimmed(entries[n as int].name@);
    let data = entry_file(raw, entries[n as int]);
    assert forall|k: int| 0 <= k < n + 1 implies #[trigger] stored(
        after,
        trimmed(entries[k].name@),
    ) is Some by {
        lemma_stored_after(before, after, name, data, trimmed(entries[k].name@));
    }
    assert forall|k: int|
        0 <= k < n + 1 && (forall|j: int|
            k < j < n + 1 ==> trimmed(entries[j].name@) != trimmed(
                entries[k].name@,
            )) implies #[trigger] stored(after, trimmed(entries[k].name@)) == Some(
        entry_file(raw, entries[k]),
    ) by {
        lemma_stored_after(before, after, name, data, trimmed(entries[k].name@));
        if k < n {
            assert(trimmed(entries[n as int].name@) != trimmed(entries[k].name@));
            assert(forall|j: int|
                k < j < n ==> trimmed(entries[j].name@) != trimmed(entries[k].name@));
        }
    }
    lemma_position_of(before, name, before.len());
    assert forall|i: int, j: int| 0 <= i < j < after.len() implies first_entry(
        entries,
        (#[trigger] after[i]).0@,
        n + 1,
    ) < first_entry(entries, (#[trigger] after[j]).0@, n + 1) by {
        // a file that was there before is named by an entry before the last
        assert forall|f: int| 0 <= f < before.len() implies entry_position(
            entries,
            (#[trigger] before[f]).0@,
            n,
        ) is Some && first_entry(entries, before[f].0@, n + 1) == first_entry(
            entries,
            before[f].0@,
            n,
        ) && first_entry(entries, before[f].0@, n) < n by {
            let k = choose|k: int|
                0 <= k < n && trimmed(entries[k].name@) == (#[trigger] before[f]).0@;
            lemma_entry_position(entries, before[f].0@, n);
        }
        match position_of(before, name, before.len()) {
            Some(at) => {
                assert(before[at].0@ == name);
                assert(after[i].0@ == before[i].0@);
                assert(after[j].0@ == before[j].0@);
                assert(first_entry(entries, before[i].0@, n) < first_entry(
                    entries,
                    before[j].0@,
                    n,
                ));
            },
            None => {
                assert(after[i] == before[i]);
                if j == before.len() {
                    // the name of the last entry is new: no entry before it
                    // has it, as the file of each is there
                    lemma_entry_position(entries, name, n);
                    if entry_position(entries, name, n) is Some {
                        let k = entry_position(entries, name, n)->Some_0;
                        assert(stored(before, trimmed(entries[k].name@)) is Some);
                    }
                    assert(first_entry(entries, name, n + 1) == n);
                } else {
                    assert(after[j] == before[j]);
                    assert(first_entry(entries, before[i].0@, n) < first_entry(
                        entries,
                        before[j].0@,
                        n,
                    ));
                }
            },
        }
    }
    assert forall|i: int| 0 <= i < after.len() implies exists|k: int|
        0 <= k < n + 1 && trimmed(entries[k].name@) == (#[trigger] after[i]).0@ by {
        match position_of(before, name, before.len()) {
            Some(at) => {
                if i == at {
                    assert(trimmed(entries[n as int].name@) == after[i].0@);
                } else {
                    assert(after[i] == before[i]);
                    let k = choose|k: int|
                        0 <= k < n && trimmed(entries[k].name@) == (#[trigger] before[i]).0@;
                    assert(trimmed(entries[k].name@) == after[i].0@);
                }
            },
            None => {
                if i == before.len() {
                    assert(trimmed(entries[n as int].name@) == after[i].0@);
                } else {
                    assert(after[i] == before[i]);
                    let k = choose|k: int|
                        0 <= k < n && trimmed(entries[k].name@) == (#[trigger] before[i]).0@;
                    assert(trimmed(entries[k].name@) == after[i].0@);
                }
            },
        }
    }
}

/// The error of taking the file of `entry` out of the bytes of an archive,
/// if there is one: the file must lie within the archive and, where it is to
/// be decompressed, be a stream that can be decompressed.
pub open spec fn dump_error(raw: Seq<u8>, entry: MasterDirEntry, expand: bool) -> Option<Error> {
    if entry.offset + entry.comp_size > raw.len() {
        Some(not_enough(entry.comp_size as int, raw.len() as int, entry.offset as int))
    } else if expand && decoded(entry_file(raw, entry)) is Err {
        Some(Error::ClassDeserialiseError(decoded(entry_file(raw, entry))->Err_0))
    } else {
        None
    }
}

/// What is taken out of the bytes of an archive for `entry`: the bytes of
/// its file as they are stored, or decompressed.
pub open spec fn dumped(raw: Seq<u8>, entry: MasterDirEntry, expand: bool) -> Seq<u8> {
    if expand {
        decoded(entry_file(raw, entry))->Ok_0
    } else {
        entry_file(raw, entry)
    }
}

/// Takes the files that a directory lists out of the bytes of an archive,
/// each with its name as the directory has it: as it is stored, or
/// decompressed if `expand` is set. The first file that cannot be taken ends
/// it with an error.
pub fn dump_master_dat(master_dat: &[u8], master_dir: &MasterDir, expand: bool) -> (r: Result<
    Vec<(String, Vec<u8>)>,
    Error,
>)
    ensures
        match r {
            Ok(files) => {
                &&& files@.len() == master_dir.entries@.len()
                &&& forall|i: int|
                    0 <= i < files@.len() ==> {
                        let entry = master_dir.entries@[i];
                        &&& dump_error(master_dat@, entry, expand) is None
                        &&& (#[trigger] files@[i]).0@ == entry.name@
                        &&& files@[i].1@ == dumped(master_dat@, entry, expand)
                    }
            },
            Err(e) => exists|i: int|
                0 <= i < master_dir.entries@.len() && dump_error(
                    master_dat@,
                    #[trigger] master_dir.entries@[i],
                    expand,
                ) == Some(e) && forall|k: int|
                    0 <= k < i ==> dump_error(
                        master_dat@,
                        #[trigger] master_dir.entries@[k],
                        expand,
                    ) is None,
        },
{
    let len: usize = master_dat.len();
    let count: usize = master_dir.entries.len();
    let mut files: Vec<(String, Vec<u8>)> = Vec::new();
    let mut i: usize = 0;
    while i < count
        invariant
            len == master_dat@.len(),
            count == master_dir.entries@.len(),
            i <= count,
            files@.len() == i,
            forall|k: int|
                0 <= k < i ==> dump_error(
                    master_dat@,
                    #[trigger] master_dir.entries@[k],
                    expand,
                ) is None,
            forall|k: int|
                0 <= k < i ==> {
                    let entry = master_dir.entries@[k];
                    &&& (#[trigger] files@[k]).0@ == entry.name@
                    &&& files@[k].1@ == dumped(master_dat@, entry, expand)
                },
        decreases count - i,
    {
        let entry = &master_dir.entries[i];
        // Get the compressed bytes for this entry
        let lower: u64 = entry.offset as u64;
        let size: u64 = entry.comp_size as u64;
        if lower + size > len as u64 {
            return Err(too_few_bytes(size, len as u64, lower));
        }
        let stored_bytes = slice_subrange(master_dat, lower as usize, (lower + size) as usize);

        // Decompress the entry if requested
        let data = if expand {
            match decompress(stored_bytes) {
                Ok(data) => data,
                Err(e) => {
                    return Err(e);
                },
            }
        } else {
            slice_to_vec(stored_bytes)
        };
        files.push((entry.name.clone(), data));
        i += 1;
    }
    Ok(files)
}

} // verus!
