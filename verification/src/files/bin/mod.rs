//! The container of serialised objects.
//!
//! A container opens with a header of 64 bytes. The root directory object
//! follows, then the section descriptors, the dependency descriptors and a
//! fourth kind of descriptor, then one table of offsets for each section.
//! Every offset stored in the file counts from the end of the header.
pub mod dependency;
pub mod header;
pub mod offset4type;
pub mod section;
pub mod bin;
