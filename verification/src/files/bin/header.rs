//! The header of a container.
use vstd::prelude::*;
use crate::console::Console;
use crate::errors::{not_enough, too_few_bytes, Error};
use crate::util::{get_word, word_at};

verus! {

/// Structure representing the header (the first 64 bytes) of a container.
#[derive(Clone, Copy, PartialEq, Eq, Structural, Debug)]
pub struct BinHeader {
    /// The size in bytes of the root directory object, including its
    /// entries.
    pub gf_db_size: u32,
    /// The number of section descriptors.
    pub sections: u32,
    /// Unknown field.
    pub unknown: u32,
    /// The number of dependency descriptors.
    pub dependencies: u32,
    /// The number of descriptors of the fourth kind.
    pub offset4_count: u32,
}

/// `n` zero bytes.
pub open spec fn zeros(n: nat) -> Seq<u8> {
    Seq::new(n, |i: int| 0u8)
}

/// The header that the first 64 bytes of `raw` hold.
pub open spec fn header_of(raw: Seq<u8>, c: Console) -> BinHeader {
    BinHeader {
        gf_db_size: word_at(raw, c, 0x10),
        sections: word_at(raw, c, 0x18),
        unknown: word_at(raw, c, 0x1C),
        dependencies: word_at(raw, c, 0x24),
        offset4_count: word_at(raw, c, 0x2C),
    }
}

/// The 64 bytes of a header: its five fields, and zero everywhere else.
pub open spec fn header_bytes(h: BinHeader, c: Console) -> Seq<u8> {
    zeros(0x10) + c.bytes_of(h.gf_db_size) + zeros(4) + c.bytes_of(h.sections) + c.bytes_of(
        h.unknown,
    ) + zeros(4) + c.bytes_of(h.dependencies) + zeros(4) + c.bytes_of(h.offset4_count) + zeros(
        0x10,
    )
}

/// Whether the header bytes that no field occupies are all zero.
pub open spec fn reserved_clear(raw: Seq<u8>) -> bool {
    forall|i: int|
        (0 <= i < 0x10 || 0x14 <= i < 0x18 || 0x20 <= i < 0x24 || 0x28 <= i < 0x2C || 0x30 <= i
            < 0x40) ==> #[trigger] raw[i] == 0
}

/// Appends `n` zero bytes.
pub(crate) fn push_zeros(bytes: &mut Vec<u8>, n: usize)
    ensures
        final(bytes)@ == old(bytes)@ + zeros(n as nat),
{
    let mut i: usize = 0;
    while i < n
        invariant
            i <= n,
            bytes@ == old(bytes)@ + zeros(i as nat),
        decreases n - i,
    {
        bytes.push(0x00);
        i += 1;
        assert(bytes@ =~= old(bytes)@ + zeros(i as nat));
    }
    assert(bytes@ =~= old(bytes)@ + zeros(n as nat));
}

/// Appends the four bytes of `n` as the console stores them.
pub(crate) fn push_word(bytes: &mut Vec<u8>, c: Console, n: u32) -> (r: Result<(), Error>)
    ensures
        r is Ok,
        final(bytes)@ == old(bytes)@ + c.bytes_of(n),
{
    let mut word = c.write_u32(n)?;
    bytes.append(&mut word);
    Ok(())
}

impl BinHeader {
    /// The size in bytes of a container header.
    pub fn size() -> (s: usize)
        ensures
            s == 0x40,
    {
        0x40
    }

    /// Create a new BinHeader struct from the given `raw` header bytes from
    /// the given `console` platform.
    pub fn new(raw: &[u8], console: Console) -> (r: Result<BinHeader, Error>)
        ensures
            raw@.len() >= 0x40 ==> r == Ok::<BinHeader, Error>(header_of(raw@, console)),
            raw@.len() < 0x40 ==> r == Err::<BinHeader, Error>(
                not_enough(0x40, raw@.len() as int, 0),
            ),
    {
        if raw.len() < 0x40 {
            return Err(too_few_bytes(0x40, raw.len() as u64, 0));
        }
        Ok(
            BinHeader {
                gf_db_size: get_word(raw, console, 0x10),
                sections: get_word(raw, console, 0x18),
                unknown: get_word(raw, console, 0x1C),
                dependencies: get_word(raw, console, 0x24),
                offset4_count: get_word(raw, console, 0x2C),
            },
        )
    }

    /// Get a representation of the header as raw bytes.
    pub fn to_bytes(&self, console: Console) -> (r: Result<Vec<u8>, Error>)
        ensures
            r is Ok,
            r->Ok_0@ == header_bytes(*self, console),
            r->Ok_0@.len() == 0x40,
    {
        let mut bytes: Vec<u8> = Vec::new();
        push_zeros(&mut bytes, 0x10);
        push_word(&mut bytes, console, self.gf_db_size)?;
        push_zeros(&mut bytes, 4);
        push_word(&mut bytes, console, self.sections)?;
        push_word(&mut bytes, console, self.unknown)?;
        push_zeros(&mut bytes, 4);
        push_word(&mut bytes, console, self.dependencies)?;
        push_zeros(&mut bytes, 4);
        push_word(&mut bytes, console, self.offset4_count)?;
        push_zeros(&mut bytes, 0x10);
        assert(bytes@ =~= header_bytes(*self, console));
        Ok(bytes)
    }
}

/// Where the words of a header lie among its bytes.
proof fn lemma_header_layout(w1: Seq<u8>, w2: Seq<u8>, w3: Seq<u8>, w4: Seq<u8>, w5: Seq<u8>)
    requires
        w1.len() == 4,
        w2.len() == 4,
        w3.len() == 4,
        w4.len() == 4,
        w5.len() == 4,
    ensures
        ({
            let b = zeros(0x10) + w1 + zeros(4) + w2 + w3 + zeros(4) + w4 + zeros(4) + w5 + zeros(
                0x10,
            );
            &&& b.len() == 0x40
            &&& b.subrange(0x10, 0x14) == w1
            &&& b.subrange(0x18, 0x1C) == w2
            &&& b.subrange(0x1C, 0x20) == w3
            &&& b.subrange(0x24, 0x28) == w4
            &&& b.subrange(0x2C, 0x30) == w5
            &&& forall|i: int|
                (0 <= i < 0x10 || 0x14 <= i < 0x18 || 0x20 <= i < 0x24 || 0x28 <= i < 0x2C || 0x30
                    <= i < 0x40) ==> #[trigger] b[i] == 0
        }),
{
    let b = zeros(0x10) + w1 + zeros(4) + w2 + w3 + zeros(4) + w4 + zeros(4) + w5 + zeros(0x10);
    assert(b.subrange(0x10, 0x14) =~= w1);
    assert(b.subrange(0x18, 0x1C) =~= w2);
    assert(b.subrange(0x1C, 0x20) =~= w3);
    assert(b.subrange(0x24, 0x28) =~= w4);
    assert(b.subrange(0x2C, 0x30) =~= w5);
}

/// A header that is written and read back is unchanged.
pub proof fn lemma_header_of_bytes(h: BinHeader, c: Console)
    ensures
        header_bytes(h, c).len() == 0x40,
        header_of(header_bytes(h, c), c) == h,
{
    reveal(word_at);
    crate::console::lemma_read_write_u32(c, h.gf_db_size);
    crate::console::lemma_read_write_u32(c, h.sections);
    crate::console::lemma_read_write_u32(c, h.unknown);
    crate::console::lemma_read_write_u32(c, h.dependencies);
    crate::console::lemma_read_write_u32(c, h.offset4_count);
    lemma_header_layout(
        c.bytes_of(h.gf_db_size),
        c.bytes_of(h.sections),
        c.bytes_of(h.unknown),
        c.bytes_of(h.dependencies),
        c.bytes_of(h.offset4_count),
    );
}

/// The bytes of the header that was read from `raw` are the first 64 bytes
/// of `raw`, where the bytes that no field occupies are zero.
pub proof fn lemma_header_bytes_of(raw: Seq<u8>, c: Console)
    requires
        raw.len() >= 0x40,
        reserved_clear(raw),
    ensures
        header_bytes(header_of(raw, c), c) == raw.subrange(0, 0x40),
{
    reveal(word_at);
    let h = header_of(raw, c);
    let b = header_bytes(h, c);
    let r1 = raw.subrange(0x10, 0x14);
    let r2 = raw.subrange(0x18, 0x1C);
    let r3 = raw.subrange(0x1C, 0x20);
    let r4 = raw.subrange(0x24, 0x28);
    let r5 = raw.subrange(0x2C, 0x30);
    crate::console::lemma_write_read_u32(c, r1);
    crate::console::lemma_write_read_u32(c, r2);
    crate::console::lemma_write_read_u32(c, r3);
    crate::console::lemma_write_read_u32(c, r4);
    crate::console::lemma_write_read_u32(c, r5);
    lemma_header_layout(r1, r2, r3, r4, r5);
    assert forall|i: int| 0 <= i < 0x40 implies b[i] == raw[i] by {
        if 0x10 <= i < 0x14 {
            assert(b.subrange(0x10, 0x14)[i - 0x10] == b[i]);
            assert(r1[i - 0x10] == raw[i]);
        } else if 0x18 <= i < 0x1C {
            assert(b.subrange(0x18, 0x1C)[i - 0x18] == b[i]);
            assert(r2[i - 0x18] == raw[i]);
        } else if 0x1C <= i < 0x20 {
            assert(b.subrange(0x1C, 0x20)[i - 0x1C] == b[i]);
            assert(r3[i - 0x1C] == raw[i]);
        } else if 0x24 <= i < 0x28 {
            assert(b.subrange(0x24, 0x28)[i - 0x24] == b[i]);
            assert(r4[i - 0x24] == raw[i]);
        } else if 0x2C <= i < 0x30 {
            assert(b.subrange(0x2C, 0x30)[i - 0x2C] == b[i]);
            assert(r5[i - 0x2C] == raw[i]);
        } else {
            assert(raw[i] == 0);
            assert(b[i] == 0);
        }
    }
    assert(b =~= raw.subrange(0, 0x40));
}

} // verus!
