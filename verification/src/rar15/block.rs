//! The generic block of a RAR15 archive: the common header of 7 bytes and
//! the part that is particular to the type of block.
use crate::error::Error;
use crate::rar15::blocks::AvBlock;
use crate::rar15::blocks::CommentBlock;
use crate::rar15::blocks::EndArchiveBlock;
use crate::rar15::blocks::MainBlock;
use crate::rar15::blocks::ProtectBlock;
use crate::rar15::blocks::SignBlock;
use crate::rar15::blocks::SubBlock;
use crate::rar15::blocks::UnknownBlock;
use crate::rar15::file_blocks::FileBlock;
use crate::rar15::file_blocks::ServiceBlock;
use crate::read::in_bounds;
use crate::rar15::file_blocks::extended_size;
use crate::read::le_u16;
use crate::read::le_u32;
use crate::read::read_checked;
use crate::read::read_u16;
use crate::read::read_u8;
use crate::read::Reader;
use crate::size::BlockSize;
use vstd::prelude::*;

verus! {

/// Type code of the main block.
pub const MAIN: u8 = 0x73;

/// Type code of a file block.
pub const FILE: u8 = 0x74;

/// Type code of an old-style comment block.
pub const COMMENT: u8 = 0x75;

/// Type code of an old-style authenticity block.
pub const AV: u8 = 0x76;

/// Type code of an old-style sub-block.
pub const SUB: u8 = 0x77;

/// Type code of an old-style recovery block.
pub const PROTECT: u8 = 0x78;

/// Type code of an old-style signature block.
pub const SIGN: u8 = 0x79;

/// Type code of a service block.
pub const SERVICE: u8 = 0x7a;

/// Type code of the block that ends the archive.
pub const ENDARC: u8 = 0x7b;

/// Concrete block type.
#[derive(Debug)]
pub enum BlockKind {
    Main(MainBlock),
    File(FileBlock),
    Service(ServiceBlock),
    EndArchive(EndArchiveBlock),
    Comment(CommentBlock),
    Av(AvBlock),
    Sub(SubBlock),
    Protect(ProtectBlock),
    Sign(SignBlock),
    Unknown(UnknownBlock),
}

impl BlockKind {
    /// Number of bytes that the decoder of a block of the given type needs
    /// at offset `p`, after the common header.
    pub open spec fn size_at(
        s: Seq<u8>,
        p: int,
        block_type: u8,
        flags: u16,
        header_size: u16,
    ) -> int {
        if block_type == MAIN {
            MainBlock::size_at(flags)
        } else if block_type == FILE {
            FileBlock::size_at(s, p, flags)
        } else if block_type == SERVICE {
            ServiceBlock::size_at(s, p, flags, header_size)
        } else if block_type == COMMENT {
            6
        } else if block_type == AV {
            7
        } else if block_type == SUB {
            SubBlock::size_at(s, p)
        } else if block_type == PROTECT {
            19
        } else if block_type == SIGN {
            8
        } else if block_type == ENDARC {
            EndArchiveBlock::size_at(flags)
        } else {
            UnknownBlock::size_at(flags)
        }
    }

    /// The block at offset `p` is one whose header is too small for its fields.
    pub open spec fn malformed(
        s: Seq<u8>,
        p: int,
        block_type: u8,
        flags: u16,
        header_size: u16,
    ) -> bool {
        block_type == SERVICE && ServiceBlock::malformed(s, p, flags, header_size)
    }

    /// The block is the one of the given type stored at offset `p`, after
    /// the common header.
    pub open spec fn decodes(
        &self,
        s: Seq<u8>,
        p: int,
        block_type: u8,
        flags: u16,
        header_size: u16,
    ) -> bool {
        if block_type == MAIN {
            *self matches BlockKind::Main(b) && b.decodes(s, p, flags)
        } else if block_type == FILE {
            *self matches BlockKind::File(b) && b.decodes(s, p, flags)
        } else if block_type == SERVICE {
            *self matches BlockKind::Service(b) && b.decodes(s, p, flags, header_size)
        } else if block_type == COMMENT {
            *self matches BlockKind::Comment(b) && b.decodes(s, p)
        } else if block_type == AV {
            *self matches BlockKind::Av(b) && b.decodes(s, p)
        } else if block_type == SUB {
            *self matches BlockKind::Sub(b) && b.decodes(s, p)
        } else if block_type == PROTECT {
            *self matches BlockKind::Protect(b) && b.decodes(s, p)
        } else if block_type == SIGN {
            *self matches BlockKind::Sign(b) && b.decodes(s, p)
        } else if block_type == ENDARC {
            *self matches BlockKind::EndArchive(b) && b.decodes(s, p, flags)
        } else {
            *self matches BlockKind::Unknown(b) && b.decodes(s, p, flags, block_type)
        }
    }

    /// Size of the data that follows the header of the block.
    pub open spec fn spec_data_size(&self) -> u64 {
        match *self {
            BlockKind::File(b) => b.packed_data_size,
            BlockKind::Service(b) => b.packed_data_size,
            BlockKind::Sub(b) => b.data_size as u64,
            BlockKind::Protect(b) => b.data_size as u64,
            BlockKind::Unknown(b) => match b.data_size {
                Some(size) => size as u64,
                None => 0,
            },
            _ => 0,
        }
    }

    /// Read the part of a block of the given type that follows the common header.
    pub fn read(r: &mut Reader, block_type: u8, flags: u16, header_size: u16) -> (res: Result<
        Self,
        Error,
    >)
        ensures
            read_checked(
                *old(r),
                *final(r),
                res,
                Self::size_at(old(r).bytes(), old(r).pos(), block_type, flags, header_size),
                Self::malformed(old(r).bytes(), old(r).pos(), block_type, flags, header_size),
            ),
            res matches Ok(kind) ==> kind.decodes(
                old(r).bytes(),
                old(r).pos(),
                block_type,
                flags,
                header_size,
            ),
    {
        if block_type == MAIN {
            Ok(BlockKind::Main(MainBlock::read(r, flags)?))
        } else if block_type == FILE {
            Ok(BlockKind::File(FileBlock::read(r, flags)?))
        } else if block_type == SERVICE {
            Ok(BlockKind::Service(ServiceBlock::read(r, flags, header_size)?))
        } else if block_type == COMMENT {
            Ok(BlockKind::Comment(CommentBlock::read(r, flags)?))
        } else if block_type == AV {
            Ok(BlockKind::Av(AvBlock::read(r, flags)?))
        } else if block_type == SUB {
            Ok(BlockKind::Sub(SubBlock::read(r, flags)?))
        } else if block_type == PROTECT {
            Ok(BlockKind::Protect(ProtectBlock::read(r, flags)?))
        } else if block_type == SIGN {
            Ok(BlockKind::Sign(SignBlock::read(r, flags)?))
        } else if block_type == ENDARC {
            Ok(BlockKind::EndArchive(EndArchiveBlock::read(r, flags)?))
        } else {
            Ok(BlockKind::Unknown(UnknownBlock::read(r, flags, block_type)?))
        }
    }
}

/// A generic RAR15 block.
#[derive(Debug)]
pub struct Block {
    /// Offset of this block from the start of the file.
    pub offset: u64,
    /// CRC16 hash of the header.
    pub header_crc16: u16,
    /// Size of the header.
    pub header_size: u16,
    /// Specific type of this block.
    pub kind: BlockKind,
}

impl Block {
    /// Number of bytes that the decoder needs for the block at offset `p`.
    pub open spec fn size_at(s: Seq<u8>, p: int) -> int {
        7 + BlockKind::size_at(s, p + 7, s[p + 2], le_u16(s, p + 3), le_u16(s, p + 5))
    }

    /// The block at offset `p` is one whose header is too small for its fields.
    pub open spec fn malformed(s: Seq<u8>, p: int) -> bool {
        BlockKind::malformed(s, p + 7, s[p + 2], le_u16(s, p + 3), le_u16(s, p + 5))
    }

    /// The block is the one stored at offset `p`: a checksum, the type, the
    /// flags and the size of the header, then the part particular to the type.
    pub open spec fn decodes(&self, s: Seq<u8>, p: int) -> bool {
        &&& self.offset == p
        &&& self.header_crc16 == le_u16(s, p)
        &&& self.header_size == le_u16(s, p + 5)
        &&& self.kind.decodes(s, p + 7, s[p + 2], le_u16(s, p + 3), le_u16(s, p + 5))
    }

    /// Size of the header that the block stored at offset `p` declares.
    pub open spec fn header_size_at(s: Seq<u8>, p: int) -> int {
        le_u16(s, p + 5) as int
    }

    /// Size of the data that the block stored at offset `p` declares.
    pub open spec fn data_size_at(s: Seq<u8>, p: int) -> int {
        let block_type = s[p + 2];
        let flags = le_u16(s, p + 3);
        if block_type == FILE || block_type == SERVICE {
            extended_size(s, p + 7, p + 32, flags)
        } else if block_type == SUB || block_type == PROTECT {
            le_u32(s, p + 7) as int
        } else if block_type == MAIN || block_type == COMMENT || block_type == AV || block_type
            == SIGN || block_type == ENDARC {
            0
        } else if flags & 0x8000 != 0 {
            le_u32(s, p + 7) as int
        } else {
            0
        }
    }

    /// The block stored at offset `p` declares a header, and header and data
    /// lie within a file of `file_size` bytes.
    pub open spec fn fits_at(s: Seq<u8>, p: int, file_size: u64) -> bool {
        &&& Self::header_size_at(s, p) > 0
        &&& p + Self::header_size_at(s, p) + Self::data_size_at(s, p) <= file_size
    }

    /// The error that reading the block at offset `p` of a file of
    /// `file_size` bytes meets, if it meets one: the end of the data, a
    /// header that is too small for its fields or declares no size, or a
    /// block that does not lie within the file.
    pub open spec fn failure_at(s: Seq<u8>, p: int, file_size: u64) -> Option<Error> {
        if !in_bounds(s, p, Self::size_at(s, p)) {
            Some(Error::UnexpectedEof)
        } else if Self::malformed(s, p) || !Self::fits_at(s, p, file_size) {
            Some(Error::CorruptHeader)
        } else {
            None
        }
    }

    /// The block stored at offset `p` ends the archive.
    pub open spec fn is_last_at(s: Seq<u8>, p: int) -> bool {
        s[p + 2] == ENDARC
    }

    /// A block has the sizes that the bytes it was decoded from declare.
    pub proof fn lemma_sizes(&self, s: Seq<u8>, p: int)
        requires
            self.decodes(s, p),
        ensures
            self.spec_offset() == p,
            self.spec_header_size() == Self::header_size_at(s, p),
            self.spec_data_size() == Self::data_size_at(s, p),
            self.kind is EndArchive == Self::is_last_at(s, p),
    {
    }

    /// Read the block at the cursor.
    pub fn read(r: &mut Reader) -> (res: Result<Self, Error>)
        ensures
            read_checked(
                *old(r),
                *final(r),
                res,
                Self::size_at(old(r).bytes(), old(r).pos()),
                Self::malformed(old(r).bytes(), old(r).pos()),
            ),
            res matches Ok(b) ==> b.decodes(old(r).bytes(), old(r).pos()),
    {
        let offset = r.stream_position();
        let header_crc16 = read_u16(r)?;
        let block_type = read_u8(r)?;
        let flags = read_u16(r)?;
        let header_size = read_u16(r)?;
        let kind = BlockKind::read(r, block_type, flags, header_size)?;
        Ok(Block { offset, header_crc16, header_size, kind })
    }
}

impl BlockSize for Block {
    open spec fn spec_offset(&self) -> u64 {
        self.offset
    }

    open spec fn spec_header_size(&self) -> u64 {
        self.header_size as u64
    }

    open spec fn spec_data_size(&self) -> u64 {
        self.kind.spec_data_size()
    }

    fn offset(&self) -> u64 {
        self.offset
    }

    fn header_size(&self) -> u64 {
        self.header_size as u64
    }

    fn data_size(&self) -> u64 {
        match &self.kind {
            BlockKind::File(b) => b.packed_data_size,
            BlockKind::Service(b) => b.packed_data_size,
            BlockKind::Sub(b) => b.data_size as u64,
            BlockKind::Protect(b) => b.data_size as u64,
            BlockKind::Unknown(b) => match b.data_size {
                Some(size) => size as u64,
                None => 0,
            },
            BlockKind::Main(_)
            | BlockKind::EndArchive(_)
            | BlockKind::Comment(_)
            | BlockKind::Av(_)
            | BlockKind::Sign(_) => 0,
        }
    }
}

} // verus!
