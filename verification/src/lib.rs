//! Reading and rewriting the game files of Shrek SuperSlam.
//!
//! The library covers the four console releases of the game, which differ in
//! byte order: numbers are stored most significant byte first on the
//! Gamecube, and least significant byte first on the PC, the PS2 and the
//! Xbox.
//!
//! * [`compression`] decodes and encodes the game's compression format.
//! * [`hash`] is the hash that the game identifies files by.
//! * [`files::bin`] parses a container into its directory of objects, each
//!   of which begins with the hash of its class, and patches the numbers of
//!   such objects back in place. [`classes`] holds the classes.
//! * [`master_dir`] and [`master_dat`] are the archive that holds all files
//!   of the game, and its directory.
//! * [`files::texpack`] and [`files::ltimesh`] are the package of textures
//!   and the file of meshes.
//!
//! Every offset that a container stores counts from the end of its header
//! of 64 bytes. The functions of the library take such offsets where they
//! take a `u32`, and places that count from the start of the file where they
//! take a `usize`.
//!
//! Floating-point numbers are held as their bit patterns, in [`FloatBits`]:
//! the library moves them between files and never computes with them.
//!
//! No function of the library panics: what cannot be read is refused with an
//! [`Error`] that names the read that failed.
pub mod classes;
pub mod compression;
pub mod console;
pub mod errors;
pub mod files;
pub mod hash;
pub mod latin1;
pub mod master_dat;
pub mod master_dir;
pub mod players;
pub mod util;

pub use console::Console;
pub use console::FloatBits;
pub use errors::Error;
pub use master_dat::MasterDat;
pub use master_dir::MasterDir;
