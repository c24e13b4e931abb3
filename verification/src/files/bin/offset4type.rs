//! The fourth kind of descriptor of a container.
use vstd::prelude::*;
use vstd::slice::slice_subrange;
use crate::console::Console;
use crate::errors::{not_enough, too_few_bytes, Error};
use crate::files::bin::dependency::{encode_fixed, resized, STRLEN};
use crate::files::bin::header::push_word;
use crate::latin1::{decode, is_latin1, latin1_bytes, latin1_chars};
use crate::util::{get_word, word_at};

verus! {

/// Structure that comes after the dependencies in a container. What it is
/// for is not known.
#[derive(Debug)]
pub struct BinOffset4Struct {
    /// Some kind of string.
    pub s: String,
    /// Some kind of number.
    pub n: u32,
}

/// Whether `d` is what the 64 bytes from `pos` on describe.
pub open spec fn is_offset4_at(d: BinOffset4Struct, raw: Seq<u8>, c: Console, pos: int) -> bool {
    &&& d.s@ == latin1_chars(raw.subrange(pos, pos + STRLEN))
    &&& d.n == word_at(raw, c, pos + STRLEN)
}

/// The 64 bytes of a descriptor.
pub open spec fn offset4_bytes(d: BinOffset4Struct, c: Console) -> Seq<u8> {
    resized(latin1_bytes(d.s@), STRLEN as nat) + c.bytes_of(d.n)
}

impl BinOffset4Struct {
    /// Get the size in bytes of a single entry.
    pub fn size() -> (s: usize)
        ensures
            s == 0x40,
    {
        0x40
    }

    /// Create a collection of BinOffset4Struct structs from the given `raw`
    /// section bytes from a container for the given `console` platform. The
    /// bytes must hold whole descriptors.
    pub fn new(raw: &[u8], console: Console) -> (r: Result<Vec<BinOffset4Struct>, Error>)
        ensures
            match r {
                Ok(v) => {
                    &&& raw@.len() % 0x40 == 0
                    &&& v@.len() == raw@.len() / 0x40
                    &&& forall|i: int|
                        0 <= i < v@.len() ==> is_offset4_at(
                            #[trigger] v@[i],
                            raw@,
                            console,
                            i * 0x40,
                        )
                },
                Err(e) => raw@.len() % 0x40 != 0 && e == not_enough(
                    0x40,
                    raw@.len() as int,
                    raw@.len() as int / 0x40 * 0x40,
                ),
            },
    {
        let len: usize = raw.len();
        let whole: usize = len / 0x40;
        let mut entries: Vec<BinOffset4Struct> = Vec::new();
        let mut i: usize = 0;
        while i < whole
            invariant
                len == raw@.len(),
                whole == len / 0x40,
                i <= whole,
                entries@.len() == i,
                forall|k: int|
                    0 <= k < i ==> is_offset4_at(#[trigger] entries@[k], raw@, console, k * 0x40),
            decreases whole - i,
        {
            let pos: usize = i * 0x40;
            let s = decode(slice_subrange(raw, pos, pos + STRLEN))?;
            let n = get_word(raw, console, pos + STRLEN);
            entries.push(BinOffset4Struct { s, n });
            i += 1;
        }
        if len % 0x40 != 0 {
            return Err(too_few_bytes(0x40, len as u64, (whole * 0x40) as u64));
        }
        Ok(entries)
    }

    /// Convert the structure back to a byte representation. This fails where
    /// the string holds a character that ISO 8859-1 lacks.
    pub fn to_bytes(&self, console: Console) -> (r: Result<Vec<u8>, Error>)
        ensures
            match r {
                Ok(b) => is_latin1(self.s@) && b@ == offset4_bytes(*self, console) && b@.len()
                    == 0x40,
                Err(e) => !is_latin1(self.s@) && e == Error::StringDeserialiseError,
            },
    {
        let mut bytes = encode_fixed(self.s.as_str(), STRLEN)?;
        push_word(&mut bytes, console, self.n)?;
        assert(bytes@ =~= offset4_bytes(*self, console));
        Ok(bytes)
    }
}

} // verus!
