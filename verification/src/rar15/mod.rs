//! RAR archive compressed with RAR 1.50 up to RAR 4.x.
//!
//! RAR15 was introduced with RAR 1.50 in 1994 and was used up to version 4.20 in 2012.
//! This version of the format has many revisions and "deprecated" fields and block types.
pub mod block;
pub mod block_iterator;
pub mod blocks;
pub mod decode_file_name;
pub mod extended_time;
pub mod file_blocks;

pub use block::Block;
pub use block::BlockKind;
pub use block_iterator::BlockIterator;
pub use blocks::AvBlock;
pub use blocks::CommentBlock;
pub use blocks::EncryptionMethod;
pub use blocks::EndArchiveBlock;
pub use blocks::EndArchiveBlockFlags;
pub use blocks::ExtendedAttributesFs;
pub use blocks::ExtendedAttributesSubBlock;
pub use blocks::HostOs;
pub use blocks::MacOsInfoSubBlock;
pub use blocks::MainBlock;
pub use blocks::MainBlockFlags;
pub use blocks::NtfsStreamSubBlock;
pub use blocks::ProtectBlock;
pub use blocks::SignBlock;
pub use blocks::SubBlock;
pub use blocks::SubBlockKind;
pub use blocks::SubBlockType;
pub use blocks::UnixOwnerSubBlock;
pub use blocks::UnknownBlock;
pub use blocks::UnknownBlockFlags;
pub use decode_file_name::decode_file_name;
pub use extended_time::ExtendedTime;
pub use extended_time::ExtendedTimeFlags;
pub use file_blocks::FileBlock;
pub use file_blocks::FileBlockFlags;
pub use file_blocks::Filename;
pub use file_blocks::ServiceBlock;
pub use file_blocks::ServiceBlockFlags;
pub use file_blocks::ServiceBlockKind;
pub use file_blocks::ServiceBlockType;
pub use file_blocks::SubHeadFlags;
