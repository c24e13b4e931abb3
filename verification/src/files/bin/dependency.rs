//! The dependency descriptors of a container.
use vstd::prelude::*;
use vstd::slice::slice_subrange;
use crate::console::Console;
use crate::errors::{not_enough, too_few_bytes, Error};
use crate::files::bin::header::{push_word, push_zeros, zeros};
use crate::latin1::{decode, encode, is_latin1, latin1_bytes, latin1_chars};
use crate::util::{get_word, word_at};

verus! {

/// Length of both strings within the structure.
pub const STRLEN: usize = 0x3C;

/// Structure describing the dependency of a container on another one.
#[derive(Debug)]
pub struct BinDependency {
    /// The path within the archive to the dependency.
    pub path: String,
    /// Another string.
    pub desc: String,
    /// Some kind of offset.
    pub offset: u32,
}

/// `b` cut or filled up with zero bytes to a length of `n`.
pub open spec fn resized(b: Seq<u8>, n: nat) -> Seq<u8> {
    Seq::new(
        n,
        |i: int|
            if i < b.len() {
                b[i]
            } else {
                0u8
            },
    )
}

/// Whether `d` is what the 128 bytes from `pos` on describe.
pub open spec fn is_dependency_at(d: BinDependency, raw: Seq<u8>, c: Console, pos: int) -> bool {
    &&& d.path@ == latin1_chars(raw.subrange(pos, pos + STRLEN))
    &&& d.desc@ == latin1_chars(raw.subrange(pos + STRLEN, pos + 2 * STRLEN))
    &&& d.offset == word_at(raw, c, pos + 0x7C)
}

/// The 128 bytes of a dependency descriptor.
pub open spec fn dependency_bytes(d: BinDependency, c: Console) -> Seq<u8> {
    resized(latin1_bytes(d.path@), STRLEN as nat) + resized(latin1_bytes(d.desc@), STRLEN as nat)
        + zeros(4) + c.bytes_of(d.offset)
}

/// Encodes `s` as ISO 8859-1, cut or filled up with zero bytes to `n` bytes.
pub(crate) fn encode_fixed(s: &str, n: usize) -> (r: Result<Vec<u8>, Error>)
    ensures
        match r {
            Ok(b) => is_latin1(s@) && b@ == resized(latin1_bytes(s@), n as nat),
            Err(e) => !is_latin1(s@) && e == Error::StringDeserialiseError,
        },
{
    let mut bytes = encode(s)?;
    let ghost full = bytes@;
    bytes.truncate(n);
    let kept: usize = bytes.len();
    push_zeros(&mut bytes, n - kept);
    assert(bytes@ =~= resized(full, n as nat));
    Ok(bytes)
}

impl BinDependency {
    /// Get the size in bytes of a single dependency descriptor.
    pub fn size() -> (s: usize)
        ensures
            s == 0x80,
    {
        0x80
    }

    /// Create a collection of BinDependency structs from the given `raw`
    /// section bytes from a container for the given `console` platform. The
    /// bytes must hold whole descriptors.
    pub fn new(raw: &[u8], console: Console) -> (r: Result<Vec<BinDependency>, Error>)
        ensures
            match r {
                Ok(v) => {
                    &&& raw@.len() % 0x80 == 0
                    &&& v@.len() == raw@.len() / 0x80
                    &&& forall|i: int|
                        0 <= i < v@.len() ==> is_dependency_at(
                            #[trigger] v@[i],
                            raw@,
                            console,
                            i * 0x80,
                        )
                },
                Err(e) => raw@.len() % 0x80 != 0 && e == not_enough(
                    0x80,
                    raw@.len() as int,
                    raw@.len() as int / 0x80 * 0x80,
                ),
            },
    {
        let len: usize = raw.len();
        let whole: usize = len / 0x80;
        let mut dependencies: Vec<BinDependency> = Vec::new();
        let mut i: usize = 0;
        while i < whole
            invariant
                len == raw@.len(),
                whole == len / 0x80,
                i <= whole,
                dependencies@.len() == i,
                forall|k: int|
                    0 <= k < i ==> is_dependency_at(
                        #[trigger] dependencies@[k],
                        raw@,
                        console,
                        k * 0x80,
                    ),
            decreases whole - i,
        {
            let pos: usize = i * 0x80;
            let path = decode(slice_subrange(raw, pos, pos + STRLEN))?;
            let desc = decode(slice_subrange(raw, pos + STRLEN, pos + 2 * STRLEN))?;
            let offset = get_word(raw, console, pos + 0x7C);
            dependencies.push(BinDependency { path, desc, offset });
            i += 1;
        }
        if len % 0x80 != 0 {
            return Err(too_few_bytes(0x80, len as u64, (whole * 0x80) as u64));
        }
        Ok(dependencies)
    }

    /// Convert the structure back to a byte representation. This fails where
    /// one of the strings holds a character that ISO 8859-1 lacks.
    pub fn to_bytes(&self, console: Console) -> (r: Result<Vec<u8>, Error>)
        ensures
            match r {
                Ok(b) => is_latin1(self.path@) && is_latin1(self.desc@) && b@ == dependency_bytes(
                    *self,
                    console,
                ) && b@.len() == 0x80,
                Err(e) => !(is_latin1(self.path@) && is_latin1(self.desc@)) && e
                    == Error::StringDeserialiseError,
            },
    {
        let mut bytes = encode_fixed(self.path.as_str(), STRLEN)?;
        let mut second_str = encode_fixed(self.desc.as_str(), STRLEN)?;
        bytes.append(&mut second_str);
        push_zeros(&mut bytes, 4);
        push_word(&mut bytes, console, self.offset)?;
        assert(bytes@ =~= dependency_bytes(*self, console));
        Ok(bytes)
    }
}

} // verus!
