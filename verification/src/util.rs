//! Reading and patching words, bytes and flags in a buffer.
use vstd::prelude::*;
use vstd::pervasive::unreached;
use vstd::slice::slice_subrange;
use crate::console::{lemma_read_write_u32, lemma_write_read_u32, Console, FloatBits};
use crate::errors::{not_enough, too_few_bytes, Error};

verus! {

/// The word that the four bytes from `pos` on stand for.
#[verifier::opaque]
pub open spec fn word_at(raw: Seq<u8>, c: Console, pos: int) -> u32 {
    c.word(raw.subrange(pos, pos + 4))
}

/// The bit pattern of the floating-point number in the four bytes from `pos`
/// on.
pub open spec fn float_at(raw: Seq<u8>, c: Console, pos: int) -> FloatBits {
    FloatBits { bits: word_at(raw, c, pos) }
}

/// Whether the byte at `pos` is set.
pub open spec fn flag_at(raw: Seq<u8>, pos: int) -> bool {
    raw[pos] != 0
}

/// The byte that a flag is stored as.
#[verifier::opaque]
pub open spec fn flag_byte(flag: bool) -> u8 {
    if flag {
        1
    } else {
        0
    }
}

/// The signed number that a byte stands for in two's complement.
pub open spec fn signed_of(b: u8) -> i8 {
    if b < 128 {
        b as i8
    } else {
        (b - 256) as i8
    }
}

/// The byte that stands for a signed number in two's complement.
pub open spec fn unsigned_of(v: i8) -> u8 {
    if v >= 0 {
        v as u8
    } else {
        (v + 256) as u8
    }
}

/// `raw` with the bytes from `pos` on replaced by those of `b`.
#[verifier::opaque]
pub open spec fn with_bytes(raw: Seq<u8>, pos: int, b: Seq<u8>) -> Seq<u8> {
    Seq::new(
        raw.len(),
        |i: int|
            if pos <= i < pos + b.len() {
                b[i - pos]
            } else {
                raw[i]
            },
    )
}

/// `raw` with the four bytes from `pos` on replaced by those of `v`.
#[verifier::opaque]
pub open spec fn with_word(raw: Seq<u8>, c: Console, pos: int, v: u32) -> Seq<u8> {
    with_bytes(raw, pos, c.bytes_of(v))
}

/// `raw` with the four bytes from `pos` on replaced by those of `v`.
pub open spec fn with_float(raw: Seq<u8>, c: Console, pos: int, v: FloatBits) -> Seq<u8> {
    with_word(raw, c, pos, v.bits)
}

/// `raw` with the byte at `pos` replaced by `b`.
#[verifier::opaque]
pub open spec fn with_byte(raw: Seq<u8>, pos: int, b: u8) -> Seq<u8> {
    with_bytes(raw, pos, seq![b])
}

/// What a checked read of the word at `pos` gives.
pub open spec fn checked_word(raw: Seq<u8>, c: Console, pos: int) -> Result<u32, Error> {
    if pos + 4 > raw.len() {
        Err(not_enough(4, raw.len() as int, pos))
    } else {
        Ok(word_at(raw, c, pos))
    }
}

/// Writing back the word that stands at a place changes nothing.
pub proof fn lemma_with_word_same(raw: Seq<u8>, c: Console, pos: int)
    requires
        0 <= pos,
        pos + 4 <= raw.len(),
    ensures
        with_word(raw, c, pos, word_at(raw, c, pos)) == raw,
{
    reveal(word_at);
    reveal(with_word);
    reveal(with_bytes);
    let b = raw.subrange(pos, pos + 4);
    lemma_write_read_u32(c, b);
    assert(with_word(raw, c, pos, word_at(raw, c, pos)) =~= raw);
}

/// Writing back the byte that stands at a place changes nothing.
pub proof fn lemma_with_byte_same(raw: Seq<u8>, pos: int)
    requires
        0 <= pos < raw.len(),
    ensures
        with_byte(raw, pos, raw[pos]) == raw,
{
    reveal(with_byte);
    reveal(with_bytes);
    assert(with_byte(raw, pos, raw[pos]) =~= raw);
}

/// Writing back a flag changes nothing where the byte it was read from is
/// zero or one.
pub proof fn lemma_with_flag_same(raw: Seq<u8>, pos: int)
    requires
        0 <= pos < raw.len(),
        raw[pos] <= 1,
    ensures
        with_byte(raw, pos, flag_byte(flag_at(raw, pos))) == raw,
{
    reveal(flag_byte);
    reveal(with_byte);
    reveal(with_bytes);
    assert(with_byte(raw, pos, flag_byte(flag_at(raw, pos))) =~= raw);
}

/// A word that was written at a place is read back from it.
pub proof fn lemma_word_at_with_word(raw: Seq<u8>, c: Console, pos: int, v: u32)
    requires
        0 <= pos,
        pos + 4 <= raw.len(),
    ensures
        word_at(with_word(raw, c, pos, v), c, pos) == v,
{
    reveal(word_at);
    reveal(with_word);
    reveal(with_bytes);
    lemma_read_write_u32(c, v);
    assert(with_word(raw, c, pos, v).subrange(pos, pos + 4) =~= c.bytes_of(v));
}

/// A byte and the signed number it stands for determine each other.
pub proof fn lemma_signed_unsigned(b: u8)
    ensures
        unsigned_of(signed_of(b)) == b,
{
}

/// Reads the word at `pos`, which lies within the buffer.
pub(crate) fn get_word(raw: &[u8], c: Console, pos: usize) -> (v: u32)
    requires
        pos + 4 <= raw@.len(),
    ensures
        v == word_at(raw@, c, pos as int),
{
    proof {
        reveal(word_at);
    }
    assert(raw.len() == raw@.len());
    match c.read_u32(slice_subrange(raw, pos, pos + 4)) {
        Ok(v) => v,
        Err(_) => unreached(),
    }
}

/// Reads the bit pattern of the floating-point number at `pos`, which lies
/// within the buffer.
pub(crate) fn get_float(raw: &[u8], c: Console, pos: usize) -> (v: FloatBits)
    requires
        pos + 4 <= raw@.len(),
    ensures
        v == float_at(raw@, c, pos as int),
{
    proof {
        reveal(word_at);
    }
    assert(raw.len() == raw@.len());
    match c.read_f32(slice_subrange(raw, pos, pos + 4)) {
        Ok(v) => v,
        Err(_) => unreached(),
    }
}

/// Reads the word at `pos`, or fails where the buffer ends before it does.
pub fn get_word_checked(raw: &[u8], c: Console, pos: u64) -> (r: Result<u32, Error>)
    ensures
        r == checked_word(raw@, c, pos as int),
{
    let len: usize = raw.len();
    if len < 4 || pos > (len - 4) as u64 {
        return Err(too_few_bytes(4, len as u64, pos));
    }
    Ok(get_word(raw, c, pos as usize))
}

/// Reads the signed number in the byte at `pos`.
pub(crate) fn get_signed(raw: &[u8], pos: usize) -> (v: i8)
    requires
        pos < raw@.len(),
    ensures
        v == signed_of(raw@[pos as int]),
{
    let b: u8 = raw[pos];
    if b < 128 {
        b as i8
    } else {
        (b as i16 - 256) as i8
    }
}

/// Overwrites the four bytes from `pos` on with those of `v`.
pub(crate) fn put_word(raw: &mut Vec<u8>, c: Console, pos: usize, v: u32)
    requires
        pos + 4 <= old(raw)@.len(),
    ensures
        final(raw)@ == with_word(old(raw)@, c, pos as int, v),
        final(raw)@.len() == old(raw)@.len(),
{
    proof {
        reveal(with_word);
        reveal(with_bytes);
    }
    let bytes = match c.write_u32(v) {
        Ok(bytes) => bytes,
        Err(_) => unreached(),
    };
    let mut i: usize = 0;
    assert(raw.len() == raw@.len());
    while i < 4
        invariant
            i <= 4,
            raw@.len() <= usize::MAX,
            bytes@ == c.bytes_of(v),
            bytes@.len() == 4,
            pos + 4 <= raw@.len(),
            raw@.len() == old(raw)@.len(),
            forall|k: int|
                0 <= k < raw@.len() ==> raw@[k] == if pos <= k < pos + i {
                    bytes@[k - pos]
                } else {
                    old(raw)@[k]
                },
        decreases 4 - i,
    {
        raw.set(pos + i, bytes[i]);
        i += 1;
    }
    assert(raw@ =~= with_word(old(raw)@, c, pos as int, v));
}

/// Overwrites the four bytes from `pos` on with those of `v`.
pub(crate) fn put_float(raw: &mut Vec<u8>, c: Console, pos: usize, v: FloatBits)
    requires
        pos + 4 <= old(raw)@.len(),
    ensures
        final(raw)@ == with_float(old(raw)@, c, pos as int, v),
        final(raw)@.len() == old(raw)@.len(),
{
    put_word(raw, c, pos, v.bits);
}

/// Overwrites the byte at `pos`.
pub(crate) fn put_byte(raw: &mut Vec<u8>, pos: usize, b: u8)
    requires
        pos < old(raw)@.len(),
    ensures
        final(raw)@ == with_byte(old(raw)@, pos as int, b),
        final(raw)@.len() == old(raw)@.len(),
{
    proof {
        reveal(with_byte);
        reveal(with_bytes);
    }
    raw.set(pos, b);
    assert(raw@ =~= with_byte(old(raw)@, pos as int, b));
}

/// The byte that a flag is stored as: one for a set flag, zero for a clear
/// one.
pub(crate) fn byte_of_flag(flag: bool) -> (b: u8)
    ensures
        b == flag_byte(flag),
{
    proof {
        reveal(flag_byte);
    }
    if flag {
        1
    } else {
        0
    }
}

/// Overwrites the byte at `pos` with that of a signed number.
pub(crate) fn put_signed(raw: &mut Vec<u8>, pos: usize, v: i8)
    requires
        pos < old(raw)@.len(),
    ensures
        final(raw)@ == with_byte(old(raw)@, pos as int, unsigned_of(v)),
        final(raw)@.len() == old(raw)@.len(),
{
    let b: u8 = if v >= 0 {
        v as u8
    } else {
        (v as i16 + 256) as u8
    };
    put_byte(raw, pos, b);
}

/// Read a 32-bit unsigned integer from the first four of the given bytes,
/// as the given console stores it.
pub fn read32(bytes: &[u8], console: Console) -> (r: u32)
    requires
        bytes@.len() >= 4,
    ensures
        r == console.word(bytes@),
{
    match console.read_u32(bytes) {
        Ok(n) => n,
        Err(_) => unreached(),
    }
}

} // verus!
