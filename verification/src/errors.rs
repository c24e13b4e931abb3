//! The library's top-level error type.
use vstd::prelude::*;
pub use crate::classes::error::Error as ClassError;

verus! {

/// Top-level error type for all errors generated by the library.
#[derive(Debug)]
pub enum Error {
    /// An error generated when trying to deserialise a class from a container.
    ClassDeserialiseError(ClassError),
    /// Too few bytes for a number, or a number that does not fit its field.
    ConsoleNumberError,
    /// A string that cannot be converted to or from ISO 8859-1.
    StringDeserialiseError,
    /// The class is known by name but has no codec. Holds the class name.
    NotImplementedError(&'static str),
}

/// The error of a read of `requested` bytes at `offset` from a buffer of
/// `available` bytes.
pub open spec fn short_of(requested: int, available: int, offset: int) -> ClassError {
    ClassError::NotEnoughBytes {
        requested: requested as u64,
        file_size: available as u64,
        offset: offset as u64,
    }
}

/// The library's error for a read of `requested` bytes at `offset` from a
/// buffer of `available` bytes.
pub open spec fn not_enough(requested: int, available: int, offset: int) -> Error {
    Error::ClassDeserialiseError(short_of(requested, available, offset))
}

/// Builds the error for a read of `requested` bytes at `offset` from a buffer
/// of `available` bytes.
pub fn too_few_bytes(requested: u64, available: u64, offset: u64) -> (e: Error)
    ensures
        e == not_enough(requested as int, available as int, offset as int),
{
    Error::ClassDeserialiseError(
        ClassError::NotEnoughBytes { requested, file_size: available, offset },
    )
}

} // verus!
