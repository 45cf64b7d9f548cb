//! RAR archive compressed with RAR 1.4x.
//!
//! The RAR14 archive format was introduced in 1994 with RAR version 1.40
//! and only supported MS-DOS. RAR14 archives contain the signature,
//! followed by the main block, followed by one or more file blocks.
//!
//! Since RAR14 only supported MS-DOS, some care must be taken to correctly handle filenames
//! and comments, which are encoded using an ANSI/OEM code page and may contain characters not
//! in the ASCII range.
pub mod block_iterator;
pub mod blocks;
pub mod helpers;

pub use block_iterator::BlockIterator;
pub use blocks::Block;
pub use blocks::DosFileAttributes;
pub use blocks::FileBlock;
pub use blocks::FileBlockFlags;
pub use blocks::MainBlock;
pub use blocks::MainBlockFlags;
pub use blocks::OemString;
pub use helpers::conv_dos_filename;
