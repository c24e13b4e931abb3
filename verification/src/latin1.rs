//! Text in the game's files: one byte per character, ISO 8859-1, padded
//! with zero bytes where its place has a fixed length.
use vstd::prelude::*;
use vstd::string::StrSliceExecFns;
use encoding::all::ISO_8859_1;
use encoding::{DecoderTrap, EncoderTrap, Encoding};
use std::borrow::Cow;
use crate::errors::Error;

verus! {

/// The characters that bytes stand for: each byte is the code point of one
/// character.
pub open spec fn latin1_chars(b: Seq<u8>) -> Seq<char> {
    Seq::new(b.len(), |i: int| b[i] as char)
}

/// Whether every character has a code point that fits in one byte.
pub open spec fn is_latin1(s: Seq<char>) -> bool {
    forall|i: int| 0 <= i < s.len() ==> (#[trigger] s[i]) as u32 <= 0xFF
}

/// The bytes that stand for characters with code points of one byte.
pub open spec fn latin1_bytes(s: Seq<char>) -> Seq<u8> {
    Seq::new(s.len(), |i: int| s[i] as u8)
}

/// Calls `ISO_8859_1.decode` of the `encoding` crate with the strict trap.
/// Every byte is the code point of one character, so that no input is
/// refused.
#[verifier::external_body]
fn decode_iso_8859_1(bytes: &[u8]) -> (r: Result<String, Cow<'static, str>>)
    ensures
        r is Ok,
        r->Ok_0@ == latin1_chars(bytes@),
{
    ISO_8859_1.decode(bytes, DecoderTrap::Strict)
}

/// Calls `ISO_8859_1.encode` of the `encoding` crate with the strict trap.
/// It gives one byte for each character, and refuses a string that holds a
/// character whose code point does not fit in one byte.
#[verifier::external_body]
fn encode_iso_8859_1(s: &str) -> (r: Result<Vec<u8>, Cow<'static, str>>)
    ensures
        r is Ok <==> is_latin1(s@),
        r is Ok ==> r->Ok_0@ == latin1_bytes(s@),
{
    ISO_8859_1.encode(s, EncoderTrap::Strict)
}

/// Decodes ISO 8859-1 text.
pub fn decode(bytes: &[u8]) -> (r: Result<String, Error>)
    ensures
        r is Ok,
        r->Ok_0@ == latin1_chars(bytes@),
{
    match decode_iso_8859_1(bytes) {
        Ok(s) => Ok(s),
        Err(_) => Err(Error::StringDeserialiseError),
    }
}

/// Encodes text as ISO 8859-1, or fails where a character has no byte.
pub fn encode(s: &str) -> (r: Result<Vec<u8>, Error>)
    ensures
        match r {
            Ok(b) => is_latin1(s@) && b@ == latin1_bytes(s@),
            Err(e) => !is_latin1(s@) && e == Error::StringDeserialiseError,
        },
{
    match encode_iso_8859_1(s) {
        Ok(b) => Ok(b),
        Err(_) => Err(Error::StringDeserialiseError),
    }
}

/// A character of one byte is the character of its byte.
proof fn lemma_char_of_byte(c: char)
    requires
        c as u32 <= 0xFF,
    ensures
        (c as u8) as char == c,
{
}

/// The character of a byte has that byte.
proof fn lemma_byte_of_char(b: u8)
    ensures
        (b as char) as u32 <= 0xFF,
        (b as char) as u8 == b,
{
}

/// Text of one-byte characters that is encoded and decoded is unchanged.
pub proof fn lemma_decode_encode(s: Seq<char>)
    requires
        is_latin1(s),
    ensures
        latin1_chars(latin1_bytes(s)) == s,
{
    assert forall|i: int| 0 <= i < s.len() implies (s[i] as u8) as char == s[i] by {
        lemma_char_of_byte(s[i]);
    }
    assert(latin1_chars(latin1_bytes(s)) =~= s);
}

/// Bytes that are decoded and encoded are unchanged.
pub proof fn lemma_encode_decode(b: Seq<u8>)
    ensures
        is_latin1(latin1_chars(b)),
        latin1_bytes(latin1_chars(b)) == b,
{
    assert forall|i: int| 0 <= i < b.len() implies (b[i] as char) as u32 <= 0xFF && (
    b[i] as char) as u8 == b[i] by {
        lemma_byte_of_char(b[i]);
    }
    assert(latin1_bytes(latin1_chars(b)) =~= b);
}

/// `s` without the zero characters at its end.
pub open spec fn trimmed(s: Seq<char>) -> Seq<char>
    decreases s.len(),
{
    if s.len() > 0 && s.last() == '\0' {
        trimmed(s.drop_last())
    } else {
        s
    }
}

/// Gives `s` without the zero characters at its end.
pub fn trim_end_zeros(s: &str) -> (r: String)
    ensures
        r@ == trimmed(s@),
{
    let mut n: usize = s.unicode_len();
    proof {
        assert(s@.subrange(0, n as int) =~= s@);
    }
    while n > 0 && s.get_char(n - 1) == '\0'
        invariant
            n <= s@.len(),
            trimmed(s@.subrange(0, n as int)) == trimmed(s@),
        decreases n,
    {
        proof {
            assert(s@.subrange(0, n as int).drop_last() =~= s@.subrange(0, n - 1));
        }
        n -= 1;
    }
    proof {
        assert(s@.subrange(0, s@.len() as int) =~= s@);
    }
    s.substring_char(0, n).to_owned()
}

} // verus!
