//! The header blocks of a RAR15 archive, without the file and service blocks.
//!
//! Every decoder reads at the cursor of a [`Reader`]. Its contract states
//! how many bytes the encoding occupies and which value they hold.
use crate::error::Error;
use crate::read::le_u16;
use crate::read::le_u32;
use crate::read::read_const_bytes;
use crate::read::read_outcome;
use crate::read::read_u16;
use crate::read::read_u32;
use crate::read::read_u8;
use crate::read::read_vec;
use crate::read::window;
use crate::read::join_u32;
use crate::read::Reader;
use vstd::prelude::*;

verus! {

/// Largest size, less one, of a name in a sub-block: longer ones are cut.
pub const NAME_MAX_SIZE: u16 = 1000;

/// A 16-bit size as it counts for a name: cut to 999.
pub open spec fn clamped(size: u16) -> int {
    if size > 999 {
        999
    } else {
        size as int
    }
}

/// Cut a stored size to the largest size of a name.
pub fn clamp_name_size(size: u16) -> (cut: usize)
    ensures
        cut == clamped(size),
{
    if size > NAME_MAX_SIZE - 1 {
        (NAME_MAX_SIZE - 1) as usize
    } else {
        size as usize
    }
}

/// [`MainBlock`] flags.
#[derive(Debug, Clone, Copy)]
pub struct MainBlockFlags {
    bits: u16,
}

impl MainBlockFlags {
    /// The flag word as it was stored.
    pub closed spec fn bits(&self) -> u16 {
        self.bits
    }

    /// Wrap a flag word.
    pub fn new(flags: u16) -> (res: Self)
        ensures
            res.bits() == flags,
    {
        Self { bits: flags }
    }

    /// Archive spans [multiple volumes][1].
    ///
    /// [1]: https://www.win-rar.com/split-files-archive.html?&L=0
    pub fn is_volume(&self) -> (set: bool)
        ensures
            set == (self.bits() & 0x0001 != 0),
    {
        self.bits & 0x0001 != 0
    }

    /// Main header contains a comment.
    ///
    /// This is an old-style (up to RAR 2.90) comment.
    pub fn has_comment(&self) -> (set: bool)
        ensures
            set == (self.bits() & 0x0002 != 0),
    {
        self.bits & 0x0002 != 0
    }

    /// A locked archive is just an archive with this flag set,
    /// and it only serves to prevent WinRAR from modifying it.
    pub fn is_locked(&self) -> (set: bool)
        ensures
            set == (self.bits() & 0x0004 != 0),
    {
        self.bits & 0x0004 != 0
    }

    /// Archive uses [solid compression][1].
    ///
    /// [1]: https://en.wikipedia.org/wiki/Solid_compression
    pub fn is_solid(&self) -> (set: bool)
        ensures
            set == (self.bits() & 0x0008 != 0),
    {
        self.bits & 0x0008 != 0
    }

    /// In a multi-volume archive, indicates that the filenames end with
    /// `{.part01.rar, .part02.rar, ..., .partNN.rar}` rather than with
    /// `{.rar, .r00, .r01, ... .rNN}`
    pub fn uses_new_numbering(&self) -> (set: bool)
        ensures
            set == (self.bits() & 0x0010 != 0),
    {
        self.bits & 0x0010 != 0
    }

    /// The archive includes some additional metadata like archive name,
    /// creation date and owner of the WinRAR license.
    pub fn has_authenticity_verification(&self) -> (set: bool)
        ensures
            set == (self.bits() & 0x0020 != 0),
    {
        self.bits & 0x0020 != 0
    }

    /// Archive contains a recovery record.
    pub fn is_protected(&self) -> (set: bool)
        ensures
            set == (self.bits() & 0x0040 != 0),
    {
        self.bits & 0x0040 != 0
    }

    /// Block headers are encrypted.
    pub fn is_encrypted(&self) -> (set: bool)
        ensures
            set == (self.bits() & 0x0080 != 0),
    {
        self.bits & 0x0080 != 0
    }

    /// Archive is the first volume in a multi-volume archive.
    /// Set only by RAR 3.0+
    pub fn is_first_volume(&self) -> (set: bool)
        ensures
            set == (self.bits() & 0x0100 != 0),
    {
        self.bits & 0x0100 != 0
    }

    /// Indicates whether encryption is present in the archive.
    pub fn has_encrypt_version(&self) -> (set: bool)
        ensures
            set == (self.bits() & 0x0200 != 0),
    {
        self.bits & 0x0200 != 0
    }
}


/// Main block containing archive metadata.
///
/// This should be the first block in the archive.
#[derive(Debug, Clone, Copy)]
pub struct MainBlock {
    /// Flags containing archive metadata.
    pub flags: MainBlockFlags,
    /// Offset of the authenticity verification block in the archive.
    pub av_block_offset: Option<u64>,
    /// Version of the encryption used to encrypt the archive.
    pub encrypt_version: Option<u8>,
}

impl MainBlock {
    /// The offset of the authenticity verification block as it is stored at
    /// offset `p`: 16 high bits, then 32 low bits.
    pub open spec fn av_offset(s: Seq<u8>, p: int) -> int {
        le_u32(s, p + 2) + 0x1_0000_0000 * le_u16(s, p)
    }

    /// Number of bytes that the block occupies after the common header.
    pub open spec fn size_at(flags: u16) -> int {
        if flags & 0x0200 != 0 {
            7
        } else {
            6
        }
    }

    /// The fields are those stored at offset `p`.
    pub open spec fn decodes(&self, s: Seq<u8>, p: int, flags: u16) -> bool {
        &&& self.flags.bits() == flags
        &&& self.av_block_offset == if Self::av_offset(s, p) == 0 {
            None
        } else {
            Some(Self::av_offset(s, p) as u64)
        }
        &&& self.encrypt_version == if flags & 0x0200 != 0 {
            Some(s[p + 6])
        } else {
            None
        }
    }

    /// Read the part of a main block that follows the common header.
    pub fn read(r: &mut Reader, flags: u16) -> (res: Result<Self, Error>)
        ensures
            read_outcome(*old(r), *final(r), res, Self::size_at(flags)),
            res matches Ok(b) ==> b.decodes(old(r).bytes(), old(r).pos(), flags),
    {
        let flags = MainBlockFlags::new(flags);
        let high_av_offset = read_u16(r)?;
        let low_av_offset = read_u32(r)?;
        let av_offset = join_u32(low_av_offset, high_av_offset as u32);
        let av_block_offset = if av_offset == 0 {
            None
        } else {
            Some(av_offset)
        };
        // This is not even read in newer versions of unrar.
        let encrypt_version = if flags.has_encrypt_version() {
            Some(read_u8(r)?)
        } else {
            None
        };
        Ok(MainBlock { flags, av_block_offset, encrypt_version })
    }
}

/// OS of the host system used to add the file to the archive.
#[derive(Debug, Clone, Copy, PartialEq, Eq, Structural)]
pub enum HostOs {
    /// MS-DOS
    MsDos,
    /// OS/2
    Os2,
    /// Windows
    Win32,
    /// Unix-like (Linux, OS X/macOS)
    Unix,
    /// Classic Mac OS (not to be confused with OS X/macOS)
    MacOs,
    /// BeOS
    BeOs,
    /// A value that this library does not know.
    Unknown(u8),
}

impl HostOs {
    /// The variant that stands for `value`; a value without a variant of its
    /// own is kept as it is.
    pub open spec fn of(value: u8) -> HostOs {
        if value == 0 {
            HostOs::MsDos
        } else if value == 1 {
            HostOs::Os2
        } else if value == 2 {
            HostOs::Win32
        } else if value == 3 {
            HostOs::Unix
        } else if value == 4 {
            HostOs::MacOs
        } else if value == 5 {
            HostOs::BeOs
        } else {
            HostOs::Unknown(value)
        }
    }

    /// The variant that stands for `value`.
    pub fn from(value: u8) -> (res: Self)
        ensures
            res == HostOs::of(value),
    {
        if value == 0 {
            HostOs::MsDos
        } else if value == 1 {
            HostOs::Os2
        } else if value == 2 {
            HostOs::Win32
        } else if value == 3 {
            HostOs::Unix
        } else if value == 4 {
            HostOs::MacOs
        } else if value == 5 {
            HostOs::BeOs
        } else {
            HostOs::Unknown(value)
        }
    }
}


/// Encryption method used to encrypt the files in the archive.
#[derive(Debug, Clone, Copy, PartialEq, Eq, Structural)]
pub enum EncryptionMethod {
    Rar13,
    Rar15,
    Rar20,
    Rar30,
}

impl EncryptionMethod {
    /// The method that the given version of the unpacker stands for.
    pub open spec fn of(value: u8) -> EncryptionMethod {
        if value == 13 {
            EncryptionMethod::Rar13
        } else if value == 15 {
            EncryptionMethod::Rar15
        } else if value == 20 || value == 26 {
            EncryptionMethod::Rar20
        } else {
            EncryptionMethod::Rar30
        }
    }

    /// The method that the given version of the unpacker stands for.
    pub fn from(value: u8) -> (res: Self)
        ensures
            res == EncryptionMethod::of(value),
    {
        if value == 13 {
            EncryptionMethod::Rar13
        } else if value == 15 {
            EncryptionMethod::Rar15
        } else if value == 20 || value == 26 {
            EncryptionMethod::Rar20
        } else {
            EncryptionMethod::Rar30
        }
    }
}


/// Block containing the archive comment.
#[derive(Debug, Clone, Copy)]
pub struct CommentBlock {
    /// Size of the comment after decompression.
    pub unpacked_data_size: u16,
    pub unpack_version: u8,
    pub method: u8,
    /// CRC16 hash of the comment.
    pub crc16: u16,
}

impl CommentBlock {
    /// The fields are those stored at offset `p`.
    pub open spec fn decodes(&self, s: Seq<u8>, p: int) -> bool {
        &&& self.unpacked_data_size == le_u16(s, p)
        &&& self.unpack_version == s[p + 2]
        &&& self.method == s[p + 3]
        &&& self.crc16 == le_u16(s, p + 4)
    }

    /// Read the 6 bytes of a comment block that follow the common header.
    pub fn read(r: &mut Reader, _flags: u16) -> (res: Result<Self, Error>)
        ensures
            read_outcome(*old(r), *final(r), res, 6),
            res matches Ok(b) ==> b.decodes(old(r).bytes(), old(r).pos()),
    {
        let unpacked_data_size = read_u16(r)?;
        let unpack_version = read_u8(r)?;
        let method = read_u8(r)?;
        let crc16 = read_u16(r)?;
        Ok(CommentBlock { unpacked_data_size, unpack_version, method, crc16 })
    }
}

/// Block announcing recovery data.
#[derive(Debug, Clone, Copy)]
pub struct ProtectBlock {
    pub data_size: u32,
    pub version: u8,
    pub recovery_sectors: u16,
    pub total_blocks: u32,
    pub mark: [u8; 8],
}

impl ProtectBlock {
    /// The fields are those stored at offset `p`.
    pub open spec fn decodes(&self, s: Seq<u8>, p: int) -> bool {
        &&& self.data_size == le_u32(s, p)
        &&& self.version == s[p + 4]
        &&& self.recovery_sectors == le_u16(s, p + 5)
        &&& self.total_blocks == le_u32(s, p + 7)
        &&& self.mark@ == window(s, p + 11, 8)
    }

    /// Read the 19 bytes of a protect block that follow the common header.
    pub fn read(r: &mut Reader, _flags: u16) -> (res: Result<Self, Error>)
        ensures
            read_outcome(*old(r), *final(r), res, 19),
            res matches Ok(b) ==> b.decodes(old(r).bytes(), old(r).pos()),
    {
        let data_size = read_u32(r)?;
        let version = read_u8(r)?;
        let recovery_sectors = read_u16(r)?;
        let total_blocks = read_u32(r)?;
        let mark = read_const_bytes::<8>(r)?;
        Ok(ProtectBlock { data_size, version, recovery_sectors, total_blocks, mark })
    }
}

/// Type of a sub-block.
#[derive(Debug, Clone, Copy, PartialEq, Eq, Structural)]
pub enum SubBlockType {
    /// OS/2 extended attributes.
    Os2ExtendedAttributes,
    /// Owner of the file on Unix.
    UnixOwner,
    /// Type and creator of the file on classic Mac OS.
    MacOsInfo,
    /// BeOS extended attributes.
    BeOsExtendedAttributes,
    /// NTFS file permissions.
    NtfsFilePermissions,
    /// NTFS alternate data stream.
    NtfsAlternateDataStream,
    /// A value that this library does not know.
    Unknown(u16),
}

impl SubBlockType {
    /// The variant that stands for `value`; a value without a variant of its
    /// own is kept as it is.
    pub open spec fn of(value: u16) -> SubBlockType {
        if value == 0x100 {
            SubBlockType::Os2ExtendedAttributes
        } else if value == 0x101 {
            SubBlockType::UnixOwner
        } else if value == 0x102 {
            SubBlockType::MacOsInfo
        } else if value == 0x103 {
            SubBlockType::BeOsExtendedAttributes
        } else if value == 0x104 {
            SubBlockType::NtfsFilePermissions
        } else if value == 0x105 {
            SubBlockType::NtfsAlternateDataStream
        } else {
            SubBlockType::Unknown(value)
        }
    }

    /// The variant that stands for `value`.
    pub fn from(value: u16) -> (res: Self)
        ensures
            res == SubBlockType::of(value),
    {
        if value == 0x100 {
            SubBlockType::Os2ExtendedAttributes
        } else if value == 0x101 {
            SubBlockType::UnixOwner
        } else if value == 0x102 {
            SubBlockType::MacOsInfo
        } else if value == 0x103 {
            SubBlockType::BeOsExtendedAttributes
        } else if value == 0x104 {
            SubBlockType::NtfsFilePermissions
        } else if value == 0x105 {
            SubBlockType::NtfsAlternateDataStream
        } else {
            SubBlockType::Unknown(value)
        }
    }
}


/// Owner of a file on Unix.
#[derive(Debug)]
pub struct UnixOwnerSubBlock {
    pub user: Vec<u8>,
    pub group: Vec<u8>,
}

impl UnixOwnerSubBlock {
    /// Number of bytes that the sub-block at offset `p` occupies.
    pub open spec fn size_at(s: Seq<u8>, p: int) -> int {
        4 + clamped(le_u16(s, p)) + clamped(le_u16(s, p + 2))
    }

    /// The fields are those stored at offset `p`.
    pub open spec fn decodes(&self, s: Seq<u8>, p: int) -> bool {
        &&& self.user@ == window(s, p + 4, clamped(le_u16(s, p)))
        &&& self.group@ == window(
            s,
            p + 4 + clamped(le_u16(s, p)),
            clamped(le_u16(s, p + 2)),
        )
    }

    /// Read the names of the owning user and group, each cut to 999 bytes.
    pub fn read(r: &mut Reader) -> (res: Result<Self, Error>)
        ensures
            read_outcome(*old(r), *final(r), res, Self::size_at(old(r).bytes(), old(r).pos())),
            res matches Ok(b) ==> b.decodes(old(r).bytes(), old(r).pos()),
    {
        let user_size = clamp_name_size(read_u16(r)?);
        let group_size = clamp_name_size(read_u16(r)?);
        let user = read_vec(r, user_size)?;
        let group = read_vec(r, group_size)?;
        Ok(UnixOwnerSubBlock { user, group })
    }
}

/// Type and creator of a file on classic Mac OS.
#[derive(Debug, Clone, Copy)]
pub struct MacOsInfoSubBlock {
    pub file_type: u16,
    pub file_creator: u16,
}

impl MacOsInfoSubBlock {
    /// The fields are those stored at offset `p`.
    pub open spec fn decodes(&self, s: Seq<u8>, p: int) -> bool {
        &&& self.file_type == le_u16(s, p)
        &&& self.file_creator == le_u16(s, p + 2)
    }

    /// Read the 4 bytes of the sub-block.
    pub fn read(r: &mut Reader) -> (res: Result<Self, Error>)
        ensures
            read_outcome(*old(r), *final(r), res, 4),
            res matches Ok(b) ==> b.decodes(old(r).bytes(), old(r).pos()),
    {
        let file_type = read_u16(r)?;
        let file_creator = read_u16(r)?;
        Ok(MacOsInfoSubBlock { file_type, file_creator })
    }
}

/// File system whose extended attributes a sub-block holds.
#[derive(Debug, Clone, Copy, PartialEq, Eq, Structural)]
pub enum ExtendedAttributesFs {
    Os2,
    BeOs,
    Ntfs,
}

/// Extended attributes of a file.
#[derive(Debug, Clone, Copy)]
pub struct ExtendedAttributesSubBlock {
    pub filesystem: ExtendedAttributesFs,
    pub unpacked_data_size: u32,
    pub unpack_version: u8,
    pub method: u8,
    pub extended_attributes_crc32: u32,
}

impl ExtendedAttributesSubBlock {
    /// The fields are those stored at offset `p`, for the file system given.
    pub open spec fn decodes(&self, s: Seq<u8>, p: int, filesystem: ExtendedAttributesFs) -> bool {
        &&& self.filesystem == filesystem
        &&& self.unpacked_data_size == le_u32(s, p)
        &&& self.unpack_version == s[p + 4]
        &&& self.method == s[p + 5]
        &&& self.extended_attributes_crc32 == le_u32(s, p + 6)
    }

    /// Read the 10 bytes of the sub-block.
    pub fn read(r: &mut Reader, filesystem: ExtendedAttributesFs) -> (res: Result<Self, Error>)
        ensures
            read_outcome(*old(r), *final(r), res, 10),
            res matches Ok(b) ==> b.decodes(old(r).bytes(), old(r).pos(), filesystem),
    {
        let unpacked_data_size = read_u32(r)?;
        let unpack_version = read_u8(r)?;
        let method = read_u8(r)?;
        let extended_attributes_crc32 = read_u32(r)?;
        Ok(
            ExtendedAttributesSubBlock {
                filesystem,
                unpacked_data_size,
                unpack_version,
                method,
                extended_attributes_crc32,
            },
        )
    }
}

/// An NTFS alternate data stream.
#[derive(Debug)]
pub struct NtfsStreamSubBlock {
    pub unpacked_data_size: u32,
    pub unpack_version: u8,
    pub method: u8,
    pub stream_crc32: u32,
    pub stream_name: Vec<u8>,
}

impl NtfsStreamSubBlock {
    /// Number of bytes that the sub-block at offset `p` occupies.
    pub open spec fn size_at(s: Seq<u8>, p: int) -> int {
        12 + clamped(le_u16(s, p + 10))
    }

    /// The fields are those stored at offset `p`.
    pub open spec fn decodes(&self, s: Seq<u8>, p: int) -> bool {
        &&& self.unpacked_data_size == le_u32(s, p)
        &&& self.unpack_version == s[p + 4]
        &&& self.method == s[p + 5]
        &&& self.stream_crc32 == le_u32(s, p + 6)
        &&& self.stream_name@ == window(s, p + 12, clamped(le_u16(s, p + 10)))
    }

    /// Read the sub-block; the name of the stream is cut to 999 bytes.
    pub fn read(r: &mut Reader) -> (res: Result<Self, Error>)
        ensures
            read_outcome(*old(r), *final(r), res, Self::size_at(old(r).bytes(), old(r).pos())),
            res matches Ok(b) ==> b.decodes(old(r).bytes(), old(r).pos()),
    {
        let unpacked_data_size = read_u32(r)?;
        let unpack_version = read_u8(r)?;
        let method = read_u8(r)?;
        let stream_crc32 = read_u32(r)?;
        let stream_name_size = clamp_name_size(read_u16(r)?);
        let stream_name = read_vec(r, stream_name_size)?;
        Ok(
            NtfsStreamSubBlock {
                unpacked_data_size,
                unpack_version,
                method,
                stream_crc32,
                stream_name,
            },
        )
    }
}

/// Concrete sub-block type.
#[derive(Debug)]
pub enum SubBlockKind {
    UnixOwner(UnixOwnerSubBlock),
    MacOsInfo(MacOsInfoSubBlock),
    ExtendedAttributes(ExtendedAttributesSubBlock),
    NtfsStream(NtfsStreamSubBlock),
    Unknown(u16),
}

impl SubBlockKind {
    /// Number of bytes that a sub-block of the given type occupies at offset `p`.
    pub open spec fn size_at(s: Seq<u8>, p: int, sub_type: u16) -> int {
        match SubBlockType::of(sub_type) {
            SubBlockType::UnixOwner => UnixOwnerSubBlock::size_at(s, p),
            SubBlockType::MacOsInfo => 4,
            SubBlockType::Os2ExtendedAttributes => 10,
            SubBlockType::BeOsExtendedAttributes => 10,
            SubBlockType::NtfsFilePermissions => 10,
            SubBlockType::NtfsAlternateDataStream => NtfsStreamSubBlock::size_at(s, p),
            SubBlockType::Unknown(_) => 0,
        }
    }

    /// The sub-block is the one of the given type stored at offset `p`.
    pub open spec fn decodes(&self, s: Seq<u8>, p: int, sub_type: u16) -> bool {
        match SubBlockType::of(sub_type) {
            SubBlockType::UnixOwner => *self matches SubBlockKind::UnixOwner(b) && b.decodes(s, p),
            SubBlockType::MacOsInfo => *self matches SubBlockKind::MacOsInfo(b) && b.decodes(s, p),
            SubBlockType::Os2ExtendedAttributes => *self matches SubBlockKind::ExtendedAttributes(b)
                && b.decodes(s, p, ExtendedAttributesFs::Os2),
            SubBlockType::BeOsExtendedAttributes => *self matches SubBlockKind::ExtendedAttributes(
                b,
            ) && b.decodes(s, p, ExtendedAttributesFs::BeOs),
            SubBlockType::NtfsFilePermissions => *self matches SubBlockKind::ExtendedAttributes(b)
                && b.decodes(s, p, ExtendedAttributesFs::Ntfs),
            SubBlockType::NtfsAlternateDataStream => *self matches SubBlockKind::NtfsStream(b)
                && b.decodes(s, p),
            SubBlockType::Unknown(_) => *self == SubBlockKind::Unknown(sub_type),
        }
    }
}

/// Block that holds metadata of the file before it, in the older way.
#[derive(Debug)]
pub struct SubBlock {
    pub data_size: u32,
    pub level: u8,
    pub kind: SubBlockKind,
}

impl SubBlock {
    /// Number of bytes that the block occupies at offset `p`, after the common header.
    pub open spec fn size_at(s: Seq<u8>, p: int) -> int {
        7 + SubBlockKind::size_at(s, p + 7, le_u16(s, p + 4))
    }

    /// The fields are those stored at offset `p`.
    pub open spec fn decodes(&self, s: Seq<u8>, p: int) -> bool {
        &&& self.data_size == le_u32(s, p)
        &&& self.level == s[p + 6]
        &&& self.kind.decodes(s, p + 7, le_u16(s, p + 4))
    }

    /// Read the part of a sub-block that follows the common header.
    pub fn read(r: &mut Reader, _flags: u16) -> (res: Result<Self, Error>)
        ensures
            read_outcome(*old(r), *final(r), res, Self::size_at(old(r).bytes(), old(r).pos())),
            res matches Ok(b) ==> b.decodes(old(r).bytes(), old(r).pos()),
    {
        let data_size = read_u32(r)?;
        let sub_type = read_u16(r)?;
        let level = read_u8(r)?;
        let kind = match SubBlockType::from(sub_type) {
            SubBlockType::UnixOwner => SubBlockKind::UnixOwner(UnixOwnerSubBlock::read(r)?),
            SubBlockType::MacOsInfo => SubBlockKind::MacOsInfo(MacOsInfoSubBlock::read(r)?),
            SubBlockType::Os2ExtendedAttributes => SubBlockKind::ExtendedAttributes(
                ExtendedAttributesSubBlock::read(r, ExtendedAttributesFs::Os2)?,
            ),
            SubBlockType::BeOsExtendedAttributes => SubBlockKind::ExtendedAttributes(
                ExtendedAttributesSubBlock::read(r, ExtendedAttributesFs::BeOs)?,
            ),
            SubBlockType::NtfsFilePermissions => SubBlockKind::ExtendedAttributes(
                ExtendedAttributesSubBlock::read(r, ExtendedAttributesFs::Ntfs)?,
            ),
            SubBlockType::NtfsAlternateDataStream => SubBlockKind::NtfsStream(
                NtfsStreamSubBlock::read(r)?,
            ),
            SubBlockType::Unknown(_) => SubBlockKind::Unknown(sub_type),
        };
        Ok(SubBlock { data_size, level, kind })
    }
}

/// Block that signs the archive. Little is known about it.
#[derive(Debug, Clone, Copy)]
pub struct SignBlock {
    pub creation_time: u32,
    pub archive_name_size: u16,
    pub user_name_size: u16,
}

impl SignBlock {
    /// The fields are those stored at offset `p`.
    pub open spec fn decodes(&self, s: Seq<u8>, p: int) -> bool {
        &&& self.creation_time == le_u32(s, p)
        &&& self.archive_name_size == le_u16(s, p + 4)
        &&& self.user_name_size == le_u16(s, p + 6)
    }

    /// Read the 8 bytes of a sign block that follow the common header.
    pub fn read(r: &mut Reader, _flags: u16) -> (res: Result<Self, Error>)
        ensures
            read_outcome(*old(r), *final(r), res, 8),
            res matches Ok(b) ==> b.decodes(old(r).bytes(), old(r).pos()),
    {
        let creation_time = read_u32(r)?;
        let archive_name_size = read_u16(r)?;
        let user_name_size = read_u16(r)?;
        Ok(SignBlock { creation_time, archive_name_size, user_name_size })
    }
}

/// Block for the authenticity verification of the archive.
#[derive(Debug, Clone, Copy)]
pub struct AvBlock {
    pub unpack_version: u8,
    pub method: u8,
    pub av_version: u8,
    pub av_info_crc32: u32,
}

impl AvBlock {
    /// The fields are those stored at offset `p`.
    pub open spec fn decodes(&self, s: Seq<u8>, p: int) -> bool {
        &&& self.unpack_version == s[p]
        &&& self.method == s[p + 1]
        &&& self.av_version == s[p + 2]
        &&& self.av_info_crc32 == le_u32(s, p + 3)
    }

    /// Read the 7 bytes of an authenticity block that follow the common header.
    pub fn read(r: &mut Reader, _flags: u16) -> (res: Result<Self, Error>)
        ensures
            read_outcome(*old(r), *final(r), res, 7),
            res matches Ok(b) ==> b.decodes(old(r).bytes(), old(r).pos()),
    {
        let unpack_version = read_u8(r)?;
        let method = read_u8(r)?;
        let av_version = read_u8(r)?;
        let av_info_crc32 = read_u32(r)?;
        Ok(AvBlock { unpack_version, method, av_version, av_info_crc32 })
    }
}

/// [`EndArchiveBlock`] flags.
#[derive(Debug, Clone, Copy)]
pub struct EndArchiveBlockFlags {
    bits: u16,
}

impl EndArchiveBlockFlags {
    /// The flag word as it was stored.
    pub closed spec fn bits(&self) -> u16 {
        self.bits
    }

    /// Wrap a flag word.
    pub fn new(flags: u16) -> (res: Self)
        ensures
            res.bits() == flags,
    {
        Self { bits: flags }
    }

    /// Archive continues in the next volume.
    pub fn has_next_volume(&self) -> (set: bool)
        ensures
            set == (self.bits() & 0x0001 != 0),
    {
        self.bits & 0x0001 != 0
    }

    /// Store CRC32 of RAR archive (only used in volumes).
    pub fn has_crc32(&self) -> (set: bool)
        ensures
            set == (self.bits() & 0x0002 != 0),
    {
        self.bits & 0x0002 != 0
    }

    /// Reserve space for end of REV file 7 byte record.
    pub fn reserve_space(&self) -> (set: bool)
        ensures
            set == (self.bits() & 0x0004 != 0),
    {
        self.bits & 0x0004 != 0
    }

    /// Store the number of the current volume.
    pub fn has_volume_number(&self) -> (set: bool)
        ensures
            set == (self.bits() & 0x0008 != 0),
    {
        self.bits & 0x0008 != 0
    }
}


/// Block signaling the end of the archive.
///
/// Typically added in multi-volume archives or when there is trailing data not part of the
/// archive in the file.
#[derive(Debug, Clone, Copy)]
pub struct EndArchiveBlock {
    /// End archive block flags.
    pub flags: EndArchiveBlockFlags,
    /// CRC32 of the archive, where it is stored.
    pub archive_data_crc32: Option<u32>,
    /// Number of the current volume.
    pub volume_number: Option<u16>,
}

impl EndArchiveBlock {
    /// Number of bytes of the CRC32 field.
    pub open spec fn crc_size(flags: u16) -> int {
        if flags & 0x0002 != 0 {
            4
        } else {
            0
        }
    }

    /// Number of bytes that the block occupies after the common header.
    pub open spec fn size_at(flags: u16) -> int {
        Self::crc_size(flags) + if flags & 0x0008 != 0 {
            2int
        } else {
            0int
        }
    }

    /// The fields are those stored at offset `p`.
    pub open spec fn decodes(&self, s: Seq<u8>, p: int, flags: u16) -> bool {
        &&& self.flags.bits() == flags
        &&& self.archive_data_crc32 == if flags & 0x0002 != 0 {
            Some(le_u32(s, p))
        } else {
            None
        }
        &&& self.volume_number == if flags & 0x0008 != 0 {
            Some(le_u16(s, p + Self::crc_size(flags)))
        } else {
            None
        }
    }

    /// Read the part of an end-of-archive block that follows the common header.
    pub fn read(r: &mut Reader, flags: u16) -> (res: Result<Self, Error>)
        ensures
            read_outcome(*old(r), *final(r), res, Self::size_at(flags)),
            res matches Ok(b) ==> b.decodes(old(r).bytes(), old(r).pos(), flags),
    {
        let flags = EndArchiveBlockFlags::new(flags);
        let archive_data_crc32 = if flags.has_crc32() {
            Some(read_u32(r)?)
        } else {
            None
        };
        let volume_number = if flags.has_volume_number() {
            Some(read_u16(r)?)
        } else {
            None
        };
        Ok(EndArchiveBlock { flags, archive_data_crc32, volume_number })
    }
}

/// Flags that are common to all blocks.
#[derive(Debug, Clone, Copy)]
pub struct UnknownBlockFlags {
    bits: u16,
}

impl UnknownBlockFlags {
    /// The flag word as it was stored.
    pub closed spec fn bits(&self) -> u16 {
        self.bits
    }

    /// Wrap a flag word.
    pub fn new(flags: u16) -> (res: Self)
        ensures
            res.bits() == flags,
    {
        Self { bits: flags }
    }

    /// Unknown blocks with this flag must be skipped when updating
    /// an archive.
    pub fn skip_if_unknown(&self) -> (set: bool)
        ensures
            set == (self.bits() & 0x4000 != 0),
    {
        self.bits & 0x4000 != 0
    }

    /// Data area is present in the end of block header.
    pub fn contains_data(&self) -> (set: bool)
        ensures
            set == (self.bits() & 0x8000 != 0),
    {
        self.bits & 0x8000 != 0
    }
}


/// Block that couldn't be decoded.
#[derive(Debug, Clone, Copy)]
pub struct UnknownBlock {
    /// Tag identifying the block.
    pub tag: u8,
    /// Generic flags.
    pub flags: UnknownBlockFlags,
    /// Size of the data section.
    pub data_size: Option<u32>,
}

impl UnknownBlock {
    /// Number of bytes that the block occupies after the common header.
    pub open spec fn size_at(flags: u16) -> int {
        if flags & 0x8000 != 0 {
            4
        } else {
            0
        }
    }

    /// The fields are those stored at offset `p`, for the tag given.
    pub open spec fn decodes(&self, s: Seq<u8>, p: int, flags: u16, tag: u8) -> bool {
        &&& self.tag == tag
        &&& self.flags.bits() == flags
        &&& self.data_size == if flags & 0x8000 != 0 {
            Some(le_u32(s, p))
        } else {
            None
        }
    }

    /// Read the part of a block of unknown type that follows the common header.
    pub fn read(r: &mut Reader, flags: u16, tag: u8) -> (res: Result<Self, Error>)
        ensures
            read_outcome(*old(r), *final(r), res, Self::size_at(flags)),
            res matches Ok(b) ==> b.decodes(old(r).bytes(), old(r).pos(), flags, tag),
    {
        let flags = UnknownBlockFlags::new(flags);
        let data_size = if flags.contains_data() {
            Some(read_u32(r)?)
        } else {
            None
        };
        Ok(UnknownBlock { tag, flags, data_size })
    }
}

} // verus!
