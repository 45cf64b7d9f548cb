use crate::rar14;
use crate::rar15;
use crate::rar50;
use crate::size::BlockSize;
use vstd::prelude::*;

verus! {

/// A block of an archive of any of the three formats.
#[derive(Debug)]
pub enum Block {
    Rar14(rar14::blocks::Block),
    Rar15(rar15::block::Block),
    Rar50(Box<rar50::block::Block>),
}

/// The checksum of the header of a block.
#[derive(Debug, Clone, Copy, PartialEq, Eq, Structural)]
pub enum HashKind {
    Crc16(u16),
    Crc32(u32),
}

impl BlockSize for Block {
    open spec fn spec_offset(&self) -> u64 {
        match *self {
            Block::Rar14(b) => b.spec_offset(),
            Block::Rar15(b) => b.spec_offset(),
            Block::Rar50(b) => b.spec_offset(),
        }
    }

    open spec fn spec_header_size(&self) -> u64 {
        match *self {
            Block::Rar14(b) => b.spec_header_size(),
            Block::Rar15(b) => b.spec_header_size(),
            Block::Rar50(b) => b.spec_header_size(),
        }
    }

    open spec fn spec_data_size(&self) -> u64 {
        match *self {
            Block::Rar14(b) => b.spec_data_size(),
            Block::Rar15(b) => b.spec_data_size(),
            Block::Rar50(b) => b.spec_data_size(),
        }
    }

    fn offset(&self) -> u64 {
        match self {
            Block::Rar14(b) => b.offset(),
            Block::Rar15(b) => b.offset(),
            Block::Rar50(b) => b.offset(),
        }
    }

    fn header_size(&self) -> u64 {
        match self {
            Block::Rar14(b) => b.header_size(),
            Block::Rar15(b) => b.header_size(),
            Block::Rar50(b) => b.header_size(),
        }
    }

    fn data_size(&self) -> u64 {
        match self {
            Block::Rar14(b) => b.data_size(),
            Block::Rar15(b) => b.data_size(),
            Block::Rar50(b) => b.data_size(),
        }
    }
}

impl Block {
    /// The checksum of the header, in the formats that store one.
    pub fn header_hash(&self) -> (hash: Option<HashKind>)
        ensures
            hash == match *self {
                Block::Rar14(_) => None,
                Block::Rar15(b) => Some(HashKind::Crc16(b.header_crc16)),
                Block::Rar50(b) => Some(HashKind::Crc32(b.header_crc32)),
            },
    {
        match self {
            Block::Rar14(_) => None,
            Block::Rar15(b) => Some(HashKind::Crc16(b.header_crc16)),
            Block::Rar50(b) => Some(HashKind::Crc32(b.header_crc32)),
        }
    }
}

} // verus!
