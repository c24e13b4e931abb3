//! Errors of reading and writing serialised game classes.
use vstd::prelude::*;

verus! {

/// Error type for errors caused by trying to read or write serialised game
/// classes from a container.
#[derive(Debug)]
pub enum Error {
    /// A read would run past the end of the buffer: `requested` bytes at
    /// `offset` of a buffer of `file_size` bytes.
    NotEnoughBytes { requested: u64, file_size: u64, offset: u64 },
    /// The hash found at a location is not the hash of the expected class.
    IncorrectType { hash: u32 },
    /// The hash found at a location belongs to no known class.
    UnknownClass { hash: u32 },
}

} // verus!
