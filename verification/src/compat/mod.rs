//! One type for the blocks of all three formats.
pub mod blocks;

pub use blocks::Block;
pub use blocks::HashKind;
