//! The section descriptors of a container.
use vstd::prelude::*;
use crate::console::Console;
use crate::errors::{not_enough, too_few_bytes, Error};
use crate::files::bin::header::{push_word, push_zeros, zeros};
use crate::util::{get_word, word_at};

verus! {

/// The description of a 'section' within a container: a small 16-byte area
/// that describes and points to a list of offsets to entries of a certain
/// type within the file.
#[derive(Clone, Copy, PartialEq, Eq, Structural, Debug)]
pub struct BinSection {
    /// Determines the type of each thing being pointed to.
    pub number: u32,
    /// The number of pointers in the section.
    pub count: u32,
    /// The offset the collection of pointers begins within the file. It is
    /// not stored in the file.
    pub offset: u32,
}

/// The section that the 16 bytes from `pos` on describe, before its table
/// of offsets is located.
pub open spec fn section_at(raw: Seq<u8>, c: Console, pos: int) -> BinSection {
    BinSection { number: word_at(raw, c, pos), count: word_at(raw, c, pos + 4), offset: 0 }
}

/// The 16 bytes of a section descriptor.
pub open spec fn section_bytes(s: BinSection, c: Console) -> Seq<u8> {
    c.bytes_of(s.number) + c.bytes_of(s.count) + c.bytes_of(s.offset) + zeros(4)
}

impl BinSection {
    /// Get the size in bytes of a single section.
    pub fn size() -> (s: usize)
        ensures
            s == 0x10,
    {
        0x10
    }

    /// Create a collection of BinSection structs from the given `raw` section
    /// bytes from a container for the given `console` platform. The bytes
    /// must hold whole descriptors.
    pub fn new(raw: &[u8], console: Console) -> (r: Result<Vec<BinSection>, Error>)
        ensures
            match r {
                Ok(v) => {
                    &&& raw@.len() % 0x10 == 0
                    &&& v@.len() == raw@.len() / 0x10
                    &&& forall|i: int|
                        0 <= i < v@.len() ==> #[trigger] v@[i] == section_at(
                            raw@,
                            console,
                            i * 0x10,
                        )
                },
                Err(e) => raw@.len() % 0x10 != 0 && e == not_enough(
                    0x10,
                    raw@.len() as int,
                    raw@.len() as int / 0x10 * 0x10,
                ),
            },
    {
        let len: usize = raw.len();
        let whole: usize = len / 0x10;
        let mut sections: Vec<BinSection> = Vec::new();
        let mut i: usize = 0;
        while i < whole
            invariant
                len == raw@.len(),
                whole == len / 0x10,
                i <= whole,
                sections@.len() == i,
                forall|k: int|
                    0 <= k < i ==> #[trigger] sections@[k] == section_at(raw@, console, k * 0x10),
            decreases whole - i,
        {
            let pos: usize = i * 0x10;
            sections.push(
                BinSection {
                    number: get_word(raw, console, pos),
                    count: get_word(raw, console, pos + 4),
                    offset: 0,
                },
            );
            i += 1;
        }
        if len % 0x10 != 0 {
            return Err(too_few_bytes(0x10, len as u64, (whole * 0x10) as u64));
        }
        Ok(sections)
    }

    /// Convert the structure back to a byte representation.
    pub fn to_bytes(&self, console: Console) -> (r: Result<Vec<u8>, Error>)
        ensures
            r is Ok,
            r->Ok_0@ == section_bytes(*self, console),
            r->Ok_0@.len() == 0x10,
    {
        let mut bytes: Vec<u8> = Vec::new();
        push_word(&mut bytes, console, self.number)?;
        push_word(&mut bytes, console, self.count)?;
        push_word(&mut bytes, console, self.offset)?;
        push_zeros(&mut bytes, 4);
        assert(bytes@ =~= section_bytes(*self, console));
        Ok(bytes)
    }
}

} // verus!
