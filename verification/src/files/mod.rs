//! Parsers for the file types within the decompressed game files.
pub mod bin;
pub mod ltimesh;
pub mod order;
pub mod texpack;

pub use bin::bin::{Bin, BinObject};
pub use ltimesh::{Ltimesh, LtimeshEntryType, LtimeshFile};
pub use texpack::{Texpack, TexpackEntryType, TexpackFile};
