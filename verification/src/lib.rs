//! A decoder for the header structure of RAR archives.
//!
//! RAR is a family of three incompatible on-disk formats:
//!
//! - RAR14: written by RAR 1.4
//! - RAR15: written by RAR 1.5 up to 4.x
//! - RAR50: written by RAR 5.0 onwards
//!
//! The library locates the archive signature, then walks the sequence of
//! header blocks and exposes their metadata. It never decompresses or
//! decrypts payload data.
//!
//! The decoders read from a [`read::Reader`], a byte source held in memory.
//! They are verified: the contract of each states, over the bytes of the
//! source, which value is returned and where the cursor ends up, and the
//! iterators over blocks are proved to yield contiguous blocks, to end, and
//! to yield nothing after an error.
//!
//! A few conversions are left to other crates: the calendar to `time`, the
//! search for signatures to `aho-corasick`, UTF-8 to the standard library.
//! Each such call stands in a small function of its own, whose
//! documentation says what is taken on trust.
pub mod compat;
pub mod dos_time;
pub mod error;
pub mod format;
pub mod rar14;
pub mod rar15;
pub mod rar50;
pub mod rar_file;
pub mod read;
pub mod signature;
pub mod size;
pub mod text;
pub mod time_conv;

pub use signature::Signature;
