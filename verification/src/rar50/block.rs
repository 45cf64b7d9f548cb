//! The generic block of a RAR50 archive: the common header and the part
//! that is particular to the type of block.
use crate::error::Error;
use crate::rar50::blocks::CommonFlags;
use crate::rar50::blocks::MainBlock;
use crate::rar50::entries::FileBlock;
use crate::rar50::records::check_value_at;
use crate::rar50::records::read_check_value;
use crate::rar50::service::ServiceBlock;
use crate::read::in_bounds;
use crate::read::le_u32;
use crate::read::low_byte;
use crate::read::low_word;
use crate::read::optional_vint;
use crate::read::optional_vint_len;
use crate::read::read_const_bytes;
use crate::read::read_optional_vint;
use crate::read::read_outcome;
use crate::read::read_u32;
use crate::read::read_u8;
use crate::read::read_vint;
use crate::read::read_vint_value;
use crate::read::truncate_u16;
use crate::read::truncate_u8;
use crate::read::vint_end;
use crate::read::vint_len;
use crate::read::vint_value;
use crate::read::window;
use crate::read::Outcome;
use crate::read::Reader;
use crate::size::BlockSize;
use vstd::prelude::*;

verus! {

/// Type code of the main block.
pub const MAIN: u64 = 0x01;

/// Type code of a file block.
pub const FILE: u64 = 0x02;

/// Type code of a service block.
pub const SERVICE: u64 = 0x03;

/// Type code of the block that tells how the headers are encrypted.
pub const CRYPT: u64 = 0x04;

/// Type code of the block that ends the archive.
pub const ENDARC: u64 = 0x05;

/// Version of the encryption of the headers.
#[derive(Debug, Clone, Copy, PartialEq, Eq, Structural)]
pub enum EncryptionVersion {
    Aes256,
    /// A value that this library does not know.
    Unknown(u8),
}

impl EncryptionVersion {
    /// The variant that stands for `value`; a value without a variant of its
    /// own is kept as it is.
    pub open spec fn of(value: u8) -> EncryptionVersion {
        if value == 0 {
            EncryptionVersion::Aes256
        } else {
            EncryptionVersion::Unknown(value)
        }
    }

    /// The variant that stands for `value`.
    pub fn from(value: u8) -> (res: Self)
        ensures
            res == EncryptionVersion::of(value),
    {
        if value == 0 {
            EncryptionVersion::Aes256
        } else {
            EncryptionVersion::Unknown(value)
        }
    }
}

/// [`CryptBlock`] flags.
#[derive(Debug, Clone, Copy)]
pub struct CryptBlockFlags {
    bits: u16,
}

impl CryptBlockFlags {
    /// The flag word as it was stored.
    pub closed spec fn bits(&self) -> u16 {
        self.bits
    }

    /// Wrap a flag word.
    pub fn new(flags: u16) -> (res: Self)
        ensures
            res.bits() == flags,
    {
        Self { bits: flags }
    }

    /// A value to check the password with is present.
    pub fn has_password_check(&self) -> (set: bool)
        ensures
            set == (self.bits() & 0x0001 != 0),
    {
        self.bits & 0x0001 != 0
    }
}


/// Block that tells how the headers that follow it are encrypted.
#[derive(Debug, Clone, Copy)]
pub struct CryptBlock {
    pub encryption_version: EncryptionVersion,
    pub kdf_count: u8,
    pub salt: [u8; 16],
    pub check_value: Option<[u8; 12]>,
}

impl CryptBlock {
    /// Offset of the count of key derivations, for a block whose part after
    /// the common header starts at offset `p`.
    pub open spec fn count_at(s: Seq<u8>, p: int) -> int {
        vint_end(s, vint_end(s, p))
    }

    /// The flags of the block stored at offset `p`.
    pub open spec fn flags_of(s: Seq<u8>, p: int) -> u16 {
        low_word(vint_value(s, vint_end(s, p)))
    }

    /// Number of bytes that the block occupies at offset `p`.
    pub open spec fn size_at(s: Seq<u8>, p: int) -> int {
        Self::count_at(s, p) + 17 + (if Self::flags_of(s, p) & 0x0001 != 0 {
            12int
        } else {
            0int
        }) - p
    }

    /// The fields are those stored at offset `p`.
    pub open spec fn decodes(&self, s: Seq<u8>, p: int) -> bool {
        let q = Self::count_at(s, p);
        &&& self.encryption_version == EncryptionVersion::of(low_byte(vint_value(s, p)))
        &&& self.kdf_count == s[q]
        &&& self.salt@ == window(s, q + 1, 16)
        &&& check_value_at(s, q + 17, Self::flags_of(s, p) & 0x0001 != 0, self.check_value)
    }

    /// Read the part of a crypt block that follows the common header.
    pub fn read(r: &mut Reader) -> (res: Result<Self, Error>)
        ensures
            read_outcome(*old(r), *final(r), res, Self::size_at(old(r).bytes(), old(r).pos())),
            res matches Ok(b) ==> b.decodes(old(r).bytes(), old(r).pos()),
    {
        let encryption_version = EncryptionVersion::from(truncate_u8(read_vint_value(r)?));
        let flags = CryptBlockFlags::new(truncate_u16(read_vint_value(r)?));
        let kdf_count = read_u8(r)?;
        let salt = read_const_bytes::<16>(r)?;
        let check_value = read_check_value(r, flags.has_password_check())?;
        Ok(CryptBlock { encryption_version, kdf_count, salt, check_value })
    }
}

/// [`EndArchiveBlock`] flags.
#[derive(Debug, Clone, Copy)]
pub struct EndArchiveBlockFlags {
    bits: u16,
}

impl EndArchiveBlockFlags {
    /// The flag word as it was stored.
    pub closed spec fn bits(&self) -> u16 {
        self.bits
    }

    /// Wrap a flag word.
    pub fn new(flags: u16) -> (res: Self)
        ensures
            res.bits() == flags,
    {
        Self { bits: flags }
    }

    /// Archive continues in the next volume.
    pub fn has_next_volume(&self) -> (set: bool)
        ensures
            set == (self.bits() & 0x0001 != 0),
    {
        self.bits & 0x0001 != 0
    }
}


/// Block signaling the end of the archive.
#[derive(Debug, Clone, Copy)]
pub struct EndArchiveBlock {
    pub flags: EndArchiveBlockFlags,
}

impl EndArchiveBlock {
    /// The flags are those stored at offset `p`.
    pub open spec fn decodes(&self, s: Seq<u8>, p: int) -> bool {
        self.flags.bits() == low_word(vint_value(s, p))
    }

    /// Read the part of an end-of-archive block that follows the common header.
    pub fn read(r: &mut Reader) -> (res: Result<Self, Error>)
        ensures
            read_outcome(*old(r), *final(r), res, vint_len(old(r).bytes(), old(r).pos()) as int),
            res matches Ok(b) ==> b.decodes(old(r).bytes(), old(r).pos()),
    {
        let flags = EndArchiveBlockFlags::new(truncate_u16(read_vint_value(r)?));
        Ok(EndArchiveBlock { flags })
    }
}

/// Block that couldn't be decoded.
#[derive(Debug, Clone, Copy, PartialEq, Eq, Structural)]
pub struct UnknownBlock {
    /// Tag identifying the block.
    pub tag: u64,
}

impl UnknownBlock {
    /// Keep the tag of a block of unknown type; nothing is read.
    pub fn read(r: &mut Reader, tag: u64) -> (res: Result<Self, Error>)
        ensures
            *final(r) == *old(r),
            res == Ok::<Self, Error>(UnknownBlock { tag }),
    {
        Ok(UnknownBlock { tag })
    }
}

/// Concrete block type.
#[derive(Debug)]
pub enum BlockKind {
    Main(MainBlock),
    File(FileBlock),
    Service(ServiceBlock),
    Crypt(CryptBlock),
    EndArchive(EndArchiveBlock),
    Unknown(UnknownBlock),
}

impl BlockKind {
    /// How decoding the part at offset `p` of a block of the given type ends.
    pub open spec fn outcome_at(
        s: Seq<u8>,
        p: int,
        header_type: u64,
        extra_area_size: Option<u64>,
    ) -> Outcome {
        if header_type == MAIN {
            MainBlock::outcome_at(s, p, extra_area_size)
        } else if header_type == FILE {
            FileBlock::outcome_at(s, p, extra_area_size)
        } else if header_type == SERVICE {
            ServiceBlock::outcome_at(s, p, extra_area_size)
        } else if header_type == CRYPT {
            Outcome::of_size(s, p, CryptBlock::size_at(s, p))
        } else if header_type == ENDARC {
            Outcome::of_size(s, p, vint_len(s, p) as int)
        } else {
            Outcome::Complete { end: p }
        }
    }

    /// The block is the one of the given type stored at offset `p`, after
    /// the common header.
    pub open spec fn decodes(
        &self,
        s: Seq<u8>,
        p: int,
        header_type: u64,
        extra_area_size: Option<u64>,
    ) -> bool {
        if header_type == MAIN {
            *self matches BlockKind::Main(b) && b.decodes(s, p, extra_area_size)
        } else if header_type == FILE {
            *self matches BlockKind::File(b) && b.decodes(s, p, extra_area_size)
        } else if header_type == SERVICE {
            *self matches BlockKind::Service(b) && b.decodes(s, p, extra_area_size)
        } else if header_type == CRYPT {
            *self matches BlockKind::Crypt(b) && b.decodes(s, p)
        } else if header_type == ENDARC {
            *self matches BlockKind::EndArchive(b) && b.decodes(s, p)
        } else {
            *self matches BlockKind::Unknown(b) && b.tag == header_type
        }
    }

    /// Read the part of a block of the given type that follows the common header.
    pub fn read(r: &mut Reader, header_type: u64, extra_area_size: Option<u64>) -> (res: Result<
        Self,
        Error,
    >)
        ensures
            Self::outcome_at(old(r).bytes(), old(r).pos(), header_type, extra_area_size).describes(
                *old(r),
                *final(r),
                res,
            ),
            res matches Ok(kind) ==> kind.decodes(
                old(r).bytes(),
                old(r).pos(),
                header_type,
                extra_area_size,
            ),
    {
        if header_type == MAIN {
            Ok(BlockKind::Main(MainBlock::read(r, extra_area_size)?))
        } else if header_type == FILE {
            Ok(BlockKind::File(FileBlock::read(r, extra_area_size)?))
        } else if header_type == SERVICE {
            Ok(BlockKind::Service(ServiceBlock::read(r, extra_area_size)?))
        } else if header_type == CRYPT {
            Ok(BlockKind::Crypt(CryptBlock::read(r)?))
        } else if header_type == ENDARC {
            Ok(BlockKind::EndArchive(EndArchiveBlock::read(r)?))
        } else {
            Ok(BlockKind::Unknown(UnknownBlock::read(r, header_type)?))
        }
    }
}

/// The fields that every block starts with.
#[derive(Debug, Clone, Copy)]
pub struct CommonHeader {
    pub header_crc32: u32,
    /// Size of the header, the checksum and the size field itself included.
    pub header_size: u64,
    pub header_type: u64,
    pub flags: u16,
    pub extra_area_size: Option<u64>,
    pub data_size: Option<u64>,
}

impl CommonHeader {
    /// Offset of the type, for a block at offset `p`: behind the checksum
    /// and the size of the header.
    pub open spec fn type_at(s: Seq<u8>, p: int) -> int {
        vint_end(s, p + 4)
    }

    /// Offset of the size of the extra area: behind the type and the flags.
    pub open spec fn extra_at(s: Seq<u8>, p: int) -> int {
        vint_end(s, vint_end(s, Self::type_at(s, p)))
    }

    /// The flags of the block at offset `p`.
    pub open spec fn flags_of(s: Seq<u8>, p: int) -> u16 {
        low_word(vint_value(s, vint_end(s, Self::type_at(s, p))))
    }

    /// Offset of the size of the data.
    pub open spec fn data_at(s: Seq<u8>, p: int) -> int {
        Self::extra_at(s, p) + optional_vint_len(
            s,
            Self::extra_at(s, p),
            Self::flags_of(s, p) & 0x0001 != 0,
        )
    }

    /// Offset of the part of the block that is particular to its type.
    pub open spec fn end_at(s: Seq<u8>, p: int) -> int {
        Self::data_at(s, p) + optional_vint_len(
            s,
            Self::data_at(s, p),
            Self::flags_of(s, p) & 0x0002 != 0,
        )
    }

    /// Size of the header that the block at offset `p` declares: the size
    /// that it stores counts the bytes behind the size field.
    pub open spec fn header_size_at(s: Seq<u8>, p: int) -> int {
        vint_value(s, p + 4) + vint_len(s, p + 4) + 4
    }

    /// The size of the extra area that the block at offset `p` declares.
    pub open spec fn extra_area_size_at(s: Seq<u8>, p: int) -> Option<u64> {
        optional_vint(s, Self::extra_at(s, p), Self::flags_of(s, p) & 0x0001 != 0)
    }

    /// How decoding the common header at offset `p` ends: a size of the
    /// header beyond 64 bits is refused once it is read.
    pub open spec fn outcome_at(s: Seq<u8>, p: int) -> Outcome {
        if !in_bounds(s, p, Self::type_at(s, p) - p) {
            Outcome::Failed { error: Error::UnexpectedEof, cursor: s.len() as int }
        } else if Self::header_size_at(s, p) > u64::MAX {
            Outcome::Failed { error: Error::CorruptHeader, cursor: Self::type_at(s, p) }
        } else {
            Outcome::of_size(s, p, Self::end_at(s, p) - p)
        }
    }

    /// The fields are those stored at offset `p`.
    pub open spec fn decodes(&self, s: Seq<u8>, p: int) -> bool {
        &&& self.header_crc32 == le_u32(s, p)
        &&& self.header_size == Self::header_size_at(s, p)
        &&& self.header_type == vint_value(s, Self::type_at(s, p))
        &&& self.flags == Self::flags_of(s, p)
        &&& self.extra_area_size == Self::extra_area_size_at(s, p)
        &&& self.data_size == optional_vint(
            s,
            Self::data_at(s, p),
            Self::flags_of(s, p) & 0x0002 != 0,
        )
    }

    /// Read the common header at the cursor.
    pub fn read(r: &mut Reader) -> (res: Result<Self, Error>)
        ensures
            Self::outcome_at(old(r).bytes(), old(r).pos()).describes(*old(r), *final(r), res),
            res matches Ok(header) ==> header.decodes(old(r).bytes(), old(r).pos()),
    {
        let header_crc32 = read_u32(r)?;
        let (header_size, vint_size) = read_vint(r)?;
        if header_size > u64::MAX - vint_size as u64 - 4 {
            return Err(Error::CorruptHeader);
        }
        let header_size = header_size + vint_size as u64 + 4;
        let header_type = read_vint_value(r)?;
        let flags = truncate_u16(read_vint_value(r)?);
        let extra_area_size = read_optional_vint(r, flags & 0x0001 != 0)?;
        let data_size = read_optional_vint(r, flags & 0x0002 != 0)?;
        Ok(CommonHeader { header_crc32, header_size, header_type, flags, extra_area_size, data_size })
    }
}

/// A generic RAR50 block.
#[derive(Debug)]
pub struct Block {
    /// Offset of this block from the start of the file.
    pub offset: u64,
    pub flags: CommonFlags,
    /// CRC32 hash of the header.
    pub header_crc32: u32,
    /// Size of the header.
    pub header_size: u64,
    /// Size of the extra area at the end of the header.
    pub extra_area_size: Option<u64>,
    /// Size of the data that follows the header.
    pub data_size: Option<u64>,
    /// Specific type of this block.
    pub kind: BlockKind,
}

impl Block {
    /// How decoding the block at offset `p` ends.
    pub open spec fn outcome_at(s: Seq<u8>, p: int) -> Outcome {
        match CommonHeader::outcome_at(s, p) {
            Outcome::Complete { end } => BlockKind::outcome_at(
                s,
                end,
                vint_value(s, CommonHeader::type_at(s, p)),
                CommonHeader::extra_area_size_at(s, p),
            ),
            failed => failed,
        }
    }

    /// The block is the one stored at offset `p`.
    pub open spec fn decodes(&self, s: Seq<u8>, p: int) -> bool {
        &&& self.offset == p
        &&& self.flags.bits() == CommonHeader::flags_of(s, p)
        &&& self.header_crc32 == le_u32(s, p)
        &&& self.header_size == CommonHeader::header_size_at(s, p)
        &&& self.extra_area_size == CommonHeader::extra_area_size_at(s, p)
        &&& self.data_size == optional_vint(
            s,
            CommonHeader::data_at(s, p),
            CommonHeader::flags_of(s, p) & 0x0002 != 0,
        )
        &&& self.kind.decodes(
            s,
            CommonHeader::end_at(s, p),
            vint_value(s, CommonHeader::type_at(s, p)),
            CommonHeader::extra_area_size_at(s, p),
        )
    }

    /// Size of the header that the block stored at offset `p` declares.
    pub open spec fn header_size_at(s: Seq<u8>, p: int) -> int {
        CommonHeader::header_size_at(s, p)
    }

    /// Size of the data that the block stored at offset `p` declares.
    pub open spec fn data_size_at(s: Seq<u8>, p: int) -> int {
        match optional_vint(s, CommonHeader::data_at(s, p), CommonHeader::flags_of(s, p) & 0x0002 != 0) {
            Some(size) => size as int,
            None => 0,
        }
    }

    /// The block stored at offset `p` declares a header, and header and data
    /// lie within a file of `file_size` bytes.
    pub open spec fn fits_at(s: Seq<u8>, p: int, file_size: u64) -> bool {
        &&& Self::header_size_at(s, p) > 0
        &&& p + Self::header_size_at(s, p) + Self::data_size_at(s, p) <= file_size
    }

    /// The error that reading the block at offset `p` of a file of
    /// `file_size` bytes meets, if it meets one: the one that decoding
    /// fails with, or a block that declares no header or does not lie
    /// within the file.
    pub open spec fn failure_at(s: Seq<u8>, p: int, file_size: u64) -> Option<Error> {
        match Self::outcome_at(s, p) {
            Outcome::Failed { error, .. } => Some(error),
            Outcome::Complete { .. } => if Self::fits_at(s, p, file_size) {
                None
            } else {
                Some(Error::CorruptHeader)
            },
        }
    }

    /// The block stored at offset `p` ends the archive.
    pub open spec fn is_last_at(s: Seq<u8>, p: int) -> bool {
        vint_value(s, CommonHeader::type_at(s, p)) == ENDARC
    }

    /// A block has the sizes that the bytes it was decoded from declare.
    pub proof fn lemma_sizes(&self, s: Seq<u8>, p: int)
        requires
            self.decodes(s, p),
        ensures
            self.spec_offset() == p,
            self.spec_header_size() == Self::header_size_at(s, p),
            self.spec_data_size() == Self::data_size_at(s, p),
            self.kind is EndArchive == Self::is_last_at(s, p),
    {
    }

    /// Read the block at the cursor.
    pub fn read(r: &mut Reader) -> (res: Result<Self, Error>)
        ensures
            Self::outcome_at(old(r).bytes(), old(r).pos()).describes(*old(r), *final(r), res),
            res matches Ok(b) ==> b.decodes(old(r).bytes(), old(r).pos()),
    {
        let offset = r.stream_position();
        let header = CommonHeader::read(r)?;
        let kind = BlockKind::read(r, header.header_type, header.extra_area_size)?;
        Ok(
            Block {
                offset,
                flags: CommonFlags::new(header.flags),
                header_crc32: header.header_crc32,
                header_size: header.header_size,
                extra_area_size: header.extra_area_size,
                data_size: header.data_size,
                kind,
            },
        )
    }
}

impl BlockSize for Block {
    open spec fn spec_offset(&self) -> u64 {
        self.offset
    }

    open spec fn spec_header_size(&self) -> u64 {
        self.header_size
    }

    open spec fn spec_data_size(&self) -> u64 {
        match self.data_size {
            Some(size) => size,
            None => 0,
        }
    }

    fn offset(&self) -> u64 {
        self.offset
    }

    fn header_size(&self) -> u64 {
        self.header_size
    }

    fn data_size(&self) -> u64 {
        match self.data_size {
            Some(size) => size,
            None => 0,
        }
    }
}

} // verus!
