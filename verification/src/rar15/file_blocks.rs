//! The file and service blocks of a RAR15 archive.
//!
//! Both start with the same 21 bytes and may extend their sizes to 64 bits,
//! carry a salt and refine their timestamps.
use crate::error::Error;
use crate::rar15::blocks::HostOs;
use crate::rar15::decode_file_name::decode_file_name;
use crate::rar15::decode_file_name::is_decoded_name;
use crate::rar15::extended_time::ExtendedTime;
use crate::read::join_u32;
use crate::read::le_u16;
use crate::read::le_u32;
use crate::read::read_checked;
use crate::read::read_const_bytes;
use crate::read::read_outcome;
use crate::read::read_u16;
use crate::read::read_u32;
use crate::read::read_u8;
use crate::read::read_vec;
use crate::read::window;
use crate::read::Reader;
use crate::text::all_ascii;
use crate::text::is_ascii;
use crate::text::widen;
use crate::text::widen_to_string;
use crate::time_conv::dos_datetime;
use crate::time_conv::dos_valid;
use crate::time_conv::parse_dos_datetime;
use crate::time_conv::DateTime;
use vstd::prelude::*;

verus! {

/// Number of bytes of a salt.
pub const SALT_SIZE: usize = 8;

/// A size of 64 bits: its lower half is stored at offset `low`, and where
/// the flags announce large sizes its upper half at offset `high`.
pub open spec fn extended_size(s: Seq<u8>, low: int, high: int, flags: u16) -> int {
    le_u32(s, low) + if flags & 0x0100 != 0 {
        0x1_0000_0000 * le_u32(s, high)
    } else {
        0
    }
}

/// Number of bytes of the upper halves of the two sizes.
pub open spec fn extension_size(flags: u16) -> int {
    if flags & 0x0100 != 0 {
        8
    } else {
        0
    }
}

/// Number of bytes of the salt.
pub open spec fn salt_size(flags: u16) -> int {
    if flags & 0x0400 != 0 {
        8
    } else {
        0
    }
}

/// The salt stored at offset `p`, where the flags announce one.
pub open spec fn salt_at(s: Seq<u8>, p: int, flags: u16, salt: Option<[u8; 8]>) -> bool {
    if flags & 0x0400 != 0 {
        salt matches Some(bytes) && bytes@ == window(s, p, 8)
    } else {
        salt is None
    }
}

/// The timestamp in MS-DOS format stored at offset `p`; a value that is no
/// instant of the calendar is kept as it is.
pub open spec fn dos_time_at(s: Seq<u8>, p: int) -> Result<DateTime, u32> {
    if dos_valid(le_u32(s, p)) {
        Ok(dos_datetime(le_u32(s, p)))
    } else {
        Err(le_u32(s, p))
    }
}

/// Number of bytes of the extended time field at offset `p`, where the flags
/// announce one.
pub open spec fn times_size(s: Seq<u8>, p: int, flags: u16, base: Result<DateTime, u32>) -> int {
    if flags & 0x1000 != 0 {
        ExtendedTime::size_at(s, p, base)
    } else {
        0
    }
}

/// The four timestamps are those of the extended time field stored at
/// offset `p`, where the flags announce one, and else the base time alone.
pub open spec fn times_at(
    s: Seq<u8>,
    p: int,
    flags: u16,
    base: Result<DateTime, u32>,
    modification_time: Result<DateTime, u32>,
    creation_time: Option<Result<DateTime, u32>>,
    access_time: Option<Result<DateTime, u32>>,
    archive_time: Option<Result<DateTime, u32>>,
) -> bool {
    if flags & 0x1000 != 0 {
        (ExtendedTime { modification_time, creation_time, access_time, archive_time }).decodes(
            s,
            p,
            base,
        )
    } else {
        modification_time == base && creation_time is None && access_time is None
            && archive_time is None
    }
}

/// Read the upper halves of the packed and the unpacked size, where the
/// flags announce them, and join them to the lower halves.
fn read_sizes(r: &mut Reader, large: bool, low_packed: u32, low_unpacked: u32) -> (res: Result<
    (u64, u64),
    Error,
>)
    ensures
        read_outcome(*old(r), *final(r), res, if large {
            8int
        } else {
            0int
        }),
        res matches Ok((packed, unpacked)) ==> if large {
            packed == low_packed + 0x1_0000_0000 * le_u32(old(r).bytes(), old(r).pos())
                && unpacked == low_unpacked + 0x1_0000_0000 * le_u32(
                old(r).bytes(),
                old(r).pos() + 4,
            )
        } else {
            packed == low_packed && unpacked == low_unpacked
        },
{
    if large {
        let high_packed = read_u32(r)?;
        let high_unpacked = read_u32(r)?;
        Ok((join_u32(low_packed, high_packed), join_u32(low_unpacked, high_unpacked)))
    } else {
        Ok((low_packed as u64, low_unpacked as u64))
    }
}

/// Read the salt, where it is present.
fn read_salt(r: &mut Reader, present: bool) -> (res: Result<Option<[u8; 8]>, Error>)
    ensures
        read_outcome(*old(r), *final(r), res, if present {
            8int
        } else {
            0int
        }),
        res matches Ok(salt) ==> if present {
            salt matches Some(bytes) && bytes@ == window(old(r).bytes(), old(r).pos(), 8)
        } else {
            salt is None
        },
{
    if present {
        Ok(Some(read_const_bytes::<8>(r)?))
    } else {
        Ok(None)
    }
}

/// [`FileBlock`] flags.
#[derive(Debug, Clone, Copy)]
pub struct FileBlockFlags {
    bits: u16,
}

impl FileBlockFlags {
    /// The flag word as it was stored.
    pub closed spec fn bits(&self) -> u16 {
        self.bits
    }

    /// Wrap a flag word.
    pub fn new(flags: u16) -> (res: Self)
        ensures
            res.bits() == flags,
    {
        Self { bits: flags }
    }

    /// File block contains a comment in the header.
    pub fn has_comment(&self) -> (set: bool)
        ensures
            set == (self.bits() & 0x0002 != 0),
    {
        self.bits & 0x0002 != 0
    }

    /// The file size is larger than u32::MAX.
    pub fn has_large_size(&self) -> (set: bool)
        ensures
            set == (self.bits() & 0x0100 != 0),
    {
        self.bits & 0x0100 != 0
    }

    /// Filename contains bytecode to decode it to Unicode.
    pub fn has_unicode_filename(&self) -> (set: bool)
        ensures
            set == (self.bits() & 0x0200 != 0),
    {
        self.bits & 0x0200 != 0
    }

    /// File is encrypted with salt.
    pub fn has_salt(&self) -> (set: bool)
        ensures
            set == (self.bits() & 0x0400 != 0),
    {
        self.bits & 0x0400 != 0
    }

    /// The name of the file ends with a version number.
    pub fn parse_version(&self) -> (set: bool)
        ensures
            set == (self.bits() & 0x0800 != 0),
    {
        self.bits & 0x0800 != 0
    }

    /// File may contain modification time, ctime and atime info in the header.
    pub fn has_extended_time(&self) -> (set: bool)
        ensures
            set == (self.bits() & 0x1000 != 0),
    {
        self.bits & 0x1000 != 0
    }

    /// The header has an extra area.
    pub fn has_extended_area(&self) -> (set: bool)
        ensures
            set == (self.bits() & 0x2000 != 0),
    {
        self.bits & 0x2000 != 0
    }
}


/// Filename encoded either in Unicode or using the OEM code page.
#[derive(Debug)]
pub enum Filename {
    /// Filename is encoded in Unicode and can be correctly decoded into UTF-8;
    /// where decoding failed, the bytes of the field are kept.
    Unicode(Result<String, Vec<u8>>),
    /// Filename was encoded using the current OEM code page but only contains
    /// characters in the ASCII range, so it can be safely decoded into UTF-8.
    Ascii(String),
    /// Filename was encoded using the current OEM code page and cannot be decoded
    /// on its own. The user must select an encoding to decode it correctly.
    Oem(Vec<u8>),
}

impl Filename {
    /// The name is what the bytes `raw` of the name field stand for.
    pub open spec fn decodes(&self, raw: Seq<u8>, unicode: bool) -> bool {
        if unicode {
            *self matches Filename::Unicode(decoded) && is_decoded_name(raw, decoded)
        } else if all_ascii(raw) {
            *self matches Filename::Ascii(text) && text@ == widen(raw)
        } else {
            *self matches Filename::Oem(kept) && kept@ == raw
        }
    }

    /// Decode the bytes of a name field.
    pub fn parse(file_name: Vec<u8>, unicode: bool) -> (name: Filename)
        ensures
            name.decodes(file_name@, unicode),
    {
        if unicode {
            Filename::Unicode(decode_file_name(file_name))
        } else if is_ascii(&file_name) {
            Filename::Ascii(widen_to_string(&file_name))
        } else {
            Filename::Oem(file_name)
        }
    }
}

/// Block containing a file or a directory.
///
/// The blocks following this one may contain additional metadata for the file.
#[derive(Debug)]
pub struct FileBlock {
    /// File block flags.
    pub flags: FileBlockFlags,
    /// Size of the data section of the block.
    pub packed_data_size: u64,
    /// Size of the file after decompression.
    pub unpacked_data_size: u64,
    /// OS used to add this file the archive.
    pub host_os: HostOs,
    /// CRC32 hash of the file.
    pub file_crc32: u32,
    /// Modification time of the file.
    pub modification_time: Result<DateTime, u32>,
    /// Creation time of the file.
    pub creation_time: Option<Result<DateTime, u32>>,
    /// Access time of the file.
    pub access_time: Option<Result<DateTime, u32>>,
    /// Timestamp at which the file was added to or updated in the archive.
    pub archive_time: Option<Result<DateTime, u32>>,
    pub unpack_version: u8,
    pub method: u8,
    /// File attributes, dependent on the OS.
    pub attributes: u32,
    /// Filename of the file.
    pub file_name: Filename,
    /// Salt of the encryption, where the file is encrypted with one.
    pub salt: Option<[u8; 8]>,
}

impl FileBlock {
    /// Offset of the name, for a block whose part after the common header
    /// starts at offset `p`.
    pub open spec fn name_at(p: int, flags: u16) -> int {
        p + 25 + extension_size(flags)
    }

    /// Offset of the salt.
    pub open spec fn salt_at(s: Seq<u8>, p: int, flags: u16) -> int {
        Self::name_at(p, flags) + le_u16(s, p + 19)
    }

    /// Offset of the extended time field.
    pub open spec fn times_at(s: Seq<u8>, p: int, flags: u16) -> int {
        Self::salt_at(s, p, flags) + salt_size(flags)
    }

    /// Number of bytes that the block occupies at offset `p`, after the common header.
    pub open spec fn size_at(s: Seq<u8>, p: int, flags: u16) -> int {
        Self::times_at(s, p, flags) - p + times_size(
            s,
            Self::times_at(s, p, flags),
            flags,
            dos_time_at(s, p + 13),
        )
    }

    /// The fields are those stored at offset `p`.
    pub open spec fn decodes(&self, s: Seq<u8>, p: int, flags: u16) -> bool {
        &&& self.flags.bits() == flags
        &&& self.packed_data_size == extended_size(s, p, p + 25, flags)
        &&& self.unpacked_data_size == extended_size(s, p + 4, p + 29, flags)
        &&& self.host_os == HostOs::of(s[p + 8])
        &&& self.file_crc32 == le_u32(s, p + 9)
        &&& self.unpack_version == s[p + 17]
        &&& self.method == s[p + 18]
        &&& self.attributes == le_u32(s, p + 21)
        &&& self.file_name.decodes(
            window(s, Self::name_at(p, flags), le_u16(s, p + 19) as int),
            flags & 0x0200 != 0,
        )
        &&& salt_at(s, Self::salt_at(s, p, flags), flags, self.salt)
        &&& times_at(
            s,
            Self::times_at(s, p, flags),
            flags,
            dos_time_at(s, p + 13),
            self.modification_time,
            self.creation_time,
            self.access_time,
            self.archive_time,
        )
    }

    /// Read the part of a file block that follows the common header.
    pub fn read(r: &mut Reader, flags: u16) -> (res: Result<Self, Error>)
        ensures
            read_outcome(
                *old(r),
                *final(r),
                res,
                Self::size_at(old(r).bytes(), old(r).pos(), flags),
            ),
            res matches Ok(b) ==> b.decodes(old(r).bytes(), old(r).pos(), flags),
    {
        let fields = FileFields::read(r, flags)?;
        let flags = FileBlockFlags::new(flags);
        let salt = read_salt(r, flags.has_salt())?;
        let mut modification_time = fields.modification_time;
        let mut creation_time = None;
        let mut access_time = None;
        let mut archive_time = None;
        if flags.has_extended_time() {
            let ext = ExtendedTime::read(r, modification_time)?;
            modification_time = ext.modification_time;
            creation_time = ext.creation_time;
            access_time = ext.access_time;
            archive_time = ext.archive_time;
        }
        Ok(
            FileBlock {
                flags,
                packed_data_size: fields.packed_data_size,
                unpacked_data_size: fields.unpacked_data_size,
                host_os: fields.host_os,
                file_crc32: fields.file_crc32,
                modification_time,
                creation_time,
                access_time,
                archive_time,
                unpack_version: fields.unpack_version,
                method: fields.method,
                attributes: fields.attributes,
                file_name: fields.file_name,
                salt,
            },
        )
    }
}

/// The fields of a file block up to the end of its name.
struct FileFields {
    packed_data_size: u64,
    unpacked_data_size: u64,
    host_os: HostOs,
    file_crc32: u32,
    modification_time: Result<DateTime, u32>,
    unpack_version: u8,
    method: u8,
    attributes: u32,
    file_name: Filename,
}

impl FileFields {
    /// The fields are those stored at offset `p`.
    spec fn decodes(&self, s: Seq<u8>, p: int, flags: u16) -> bool {
        &&& self.packed_data_size == extended_size(s, p, p + 25, flags)
        &&& self.unpacked_data_size == extended_size(s, p + 4, p + 29, flags)
        &&& self.host_os == HostOs::of(s[p + 8])
        &&& self.file_crc32 == le_u32(s, p + 9)
        &&& self.modification_time == dos_time_at(s, p + 13)
        &&& (self.modification_time matches Ok(t) ==> t.wf())
        &&& self.unpack_version == s[p + 17]
        &&& self.method == s[p + 18]
        &&& self.attributes == le_u32(s, p + 21)
        &&& self.file_name.decodes(
            window(s, FileBlock::name_at(p, flags), le_u16(s, p + 19) as int),
            flags & 0x0200 != 0,
        )
    }

    /// Read the fields of a file block up to the end of its name.
    fn read(r: &mut Reader, flags: u16) -> (res: Result<Self, Error>)
        ensures
            read_outcome(
                *old(r),
                *final(r),
                res,
                FileBlock::salt_at(old(r).bytes(), old(r).pos(), flags) - old(r).pos(),
            ),
            res matches Ok(b) ==> b.decodes(old(r).bytes(), old(r).pos(), flags),
    {
        let flags = FileBlockFlags::new(flags);
        let low_packed_data_size = read_u32(r)?;
        let low_unpacked_data_size = read_u32(r)?;
        let host_os = HostOs::from(read_u8(r)?);
        let file_crc32 = read_u32(r)?;
        let modification_time = read_u32(r)?;
        let modification_time = parse_dos_datetime(modification_time);
        let unpack_version = read_u8(r)?;
        let method = read_u8(r)?;
        let name_size = read_u16(r)? as usize;
        let attributes = read_u32(r)?;
        let (packed_data_size, unpacked_data_size) = read_sizes(
            r,
            flags.has_large_size(),
            low_packed_data_size,
            low_unpacked_data_size,
        )?;
        let file_name = read_vec(r, name_size)?;
        let file_name = Filename::parse(file_name, flags.has_unicode_filename());
        Ok(
            FileFields {
                packed_data_size,
                unpacked_data_size,
                host_os,
                file_crc32,
                modification_time,
                unpack_version,
                method,
                attributes,
                file_name,
            },
        )
    }
}

/// [`ServiceBlock`] flags.
#[derive(Debug, Clone, Copy)]
pub struct ServiceBlockFlags {
    bits: u16,
}

impl ServiceBlockFlags {
    /// The flag word as it was stored.
    pub closed spec fn bits(&self) -> u16 {
        self.bits
    }

    /// Wrap a flag word.
    pub fn new(flags: u16) -> (res: Self)
        ensures
            res.bits() == flags,
    {
        Self { bits: flags }
    }

    /// Service block contains a comment in the header.
    pub fn has_comment(&self) -> (set: bool)
        ensures
            set == (self.bits() & 0x0002 != 0),
    {
        self.bits & 0x0002 != 0
    }

    /// The file size is larger than u32::MAX.
    pub fn has_large_size(&self) -> (set: bool)
        ensures
            set == (self.bits() & 0x0100 != 0),
    {
        self.bits & 0x0100 != 0
    }

    /// Data is encrypted with salt.
    pub fn has_salt(&self) -> (set: bool)
        ensures
            set == (self.bits() & 0x0400 != 0),
    {
        self.bits & 0x0400 != 0
    }

    /// The name ends with a version number.
    pub fn parse_version(&self) -> (set: bool)
        ensures
            set == (self.bits() & 0x0800 != 0),
    {
        self.bits & 0x0800 != 0
    }

    /// Data may contain modification time, ctime and atime info in the header.
    pub fn has_extended_time(&self) -> (set: bool)
        ensures
            set == (self.bits() & 0x1000 != 0),
    {
        self.bits & 0x1000 != 0
    }

    /// The header has an extra area.
    pub fn has_extended_area(&self) -> (set: bool)
        ensures
            set == (self.bits() & 0x2000 != 0),
    {
        self.bits & 0x2000 != 0
    }
}

/// Flags that are common to all service block headers.
#[derive(Debug, Clone, Copy)]
pub struct SubHeadFlags {
    bits: u32,
}

impl SubHeadFlags {
    /// The flag word as it was stored.
    pub closed spec fn bits(&self) -> u32 {
        self.bits
    }

    /// Wrap a flag word.
    pub fn new(flags: u32) -> (res: Self)
        ensures
            res.bits() == flags,
    {
        Self { bits: flags }
    }

    /// The block is kept when the file it belongs to is updated.
    pub fn is_inherited(&self) -> (set: bool)
        ensures
            set == (self.bits() & 0x80000000 != 0),
    {
        self.bits & 0x80000000 != 0
    }

    /// The comment that the block holds is in Unicode.
    pub fn is_comment_unicode(&self) -> (set: bool)
        ensures
            set == (self.bits() & 0x01 != 0),
    {
        self.bits & 0x01 != 0
    }
}


/// The kinds of service block that this library knows by name.
#[derive(Debug, Clone, Copy, PartialEq, Eq, Structural)]
pub enum ServiceBlockType {
    Comment,
    NtfsFilePermissions,
    NtfsAlternateDataStream,
    UnixOwner,
    AuthenticationVerification,
    RecoveryRecord,
    Os2ExtendedAttributes,
    BeOsExtendedAttributes,
}

/// The bytes of the name `CMT`.
pub open spec fn name_cmt() -> Seq<u8> {
    seq![0x43u8, 0x4d, 0x54]
}

/// The bytes of the name `ACL`.
pub open spec fn name_acl() -> Seq<u8> {
    seq![0x41u8, 0x43, 0x4c]
}

/// The bytes of the name `STM`.
pub open spec fn name_stm() -> Seq<u8> {
    seq![0x53u8, 0x54, 0x4d]
}

/// The bytes of the name `UOW`.
pub open spec fn name_uow() -> Seq<u8> {
    seq![0x55u8, 0x4f, 0x57]
}

/// The bytes of the name `AV`.
pub open spec fn name_av() -> Seq<u8> {
    seq![0x41u8, 0x56]
}

/// The bytes of the name `RR`.
pub open spec fn name_rr() -> Seq<u8> {
    seq![0x52u8, 0x52]
}

/// The bytes of the name `EA2`.
pub open spec fn name_ea2() -> Seq<u8> {
    seq![0x45u8, 0x41, 0x32]
}

/// The bytes of the name `EABE`.
pub open spec fn name_eabe() -> Seq<u8> {
    seq![0x45u8, 0x41, 0x42, 0x45]
}

impl ServiceBlockType {
    /// The kind of service block with the given name, if it is a known one.
    pub open spec fn of(bytes: Seq<u8>) -> Option<ServiceBlockType> {
        if bytes == name_cmt() {
            Some(ServiceBlockType::Comment)
        } else if bytes == name_acl() {
            Some(ServiceBlockType::NtfsFilePermissions)
        } else if bytes == name_stm() {
            Some(ServiceBlockType::NtfsAlternateDataStream)
        } else if bytes == name_uow() {
            Some(ServiceBlockType::UnixOwner)
        } else if bytes == name_av() {
            Some(ServiceBlockType::AuthenticationVerification)
        } else if bytes == name_rr() {
            Some(ServiceBlockType::RecoveryRecord)
        } else if bytes == name_ea2() {
            Some(ServiceBlockType::Os2ExtendedAttributes)
        } else if bytes == name_eabe() {
            Some(ServiceBlockType::BeOsExtendedAttributes)
        } else {
            None
        }
    }

    /// Tell the kind of a service block by its name.
    pub fn from_bytes(bytes: &Vec<u8>) -> (kind: Option<Self>)
        ensures
            kind == Self::of(bytes@),
    {
        let n = bytes.len();
        let b0 = if n > 0 {
            bytes[0]
        } else {
            0
        };
        let b1 = if n > 1 {
            bytes[1]
        } else {
            0
        };
        let b2 = if n > 2 {
            bytes[2]
        } else {
            0
        };
        let b3 = if n > 3 {
            bytes[3]
        } else {
            0
        };
        let kind = if n == 3 && b0 == 0x43 && b1 == 0x4d && b2 == 0x54 {
            Some(ServiceBlockType::Comment)
        } else if n == 3 && b0 == 0x41 && b1 == 0x43 && b2 == 0x4c {
            Some(ServiceBlockType::NtfsFilePermissions)
        } else if n == 3 && b0 == 0x53 && b1 == 0x54 && b2 == 0x4d {
            Some(ServiceBlockType::NtfsAlternateDataStream)
        } else if n == 3 && b0 == 0x55 && b1 == 0x4f && b2 == 0x57 {
            Some(ServiceBlockType::UnixOwner)
        } else if n == 2 && b0 == 0x41 && b1 == 0x56 {
            Some(ServiceBlockType::AuthenticationVerification)
        } else if n == 2 && b0 == 0x52 && b1 == 0x52 {
            Some(ServiceBlockType::RecoveryRecord)
        } else if n == 3 && b0 == 0x45 && b1 == 0x41 && b2 == 0x32 {
            Some(ServiceBlockType::Os2ExtendedAttributes)
        } else if n == 4 && b0 == 0x45 && b1 == 0x41 && b2 == 0x42 && b3 == 0x45 {
            Some(ServiceBlockType::BeOsExtendedAttributes)
        } else {
            None
        };
        proof {
            let s = bytes@;
            assert(s == name_cmt() <==> (n == 3 && b0 == 0x43 && b1 == 0x4d && b2 == 0x54)) by {
                if n == 3 && b0 == 0x43 && b1 == 0x4d && b2 == 0x54 {
                    assert(s =~= name_cmt());
                }
            }
            assert(s == name_acl() <==> (n == 3 && b0 == 0x41 && b1 == 0x43 && b2 == 0x4c)) by {
                if n == 3 && b0 == 0x41 && b1 == 0x43 && b2 == 0x4c {
                    assert(s =~= name_acl());
                }
            }
            assert(s == name_stm() <==> (n == 3 && b0 == 0x53 && b1 == 0x54 && b2 == 0x4d)) by {
                if n == 3 && b0 == 0x53 && b1 == 0x54 && b2 == 0x4d {
                    assert(s =~= name_stm());
                }
            }
            assert(s == name_uow() <==> (n == 3 && b0 == 0x55 && b1 == 0x4f && b2 == 0x57)) by {
                if n == 3 && b0 == 0x55 && b1 == 0x4f && b2 == 0x57 {
                    assert(s =~= name_uow());
                }
            }
            assert(s == name_av() <==> (n == 2 && b0 == 0x41 && b1 == 0x56)) by {
                if n == 2 && b0 == 0x41 && b1 == 0x56 {
                    assert(s =~= name_av());
                }
            }
            assert(s == name_rr() <==> (n == 2 && b0 == 0x52 && b1 == 0x52)) by {
                if n == 2 && b0 == 0x52 && b1 == 0x52 {
                    assert(s =~= name_rr());
                }
            }
            assert(s == name_ea2() <==> (n == 3 && b0 == 0x45 && b1 == 0x41 && b2 == 0x32)) by {
                if n == 3 && b0 == 0x45 && b1 == 0x41 && b2 == 0x32 {
                    assert(s =~= name_ea2());
                }
            }
            assert(s == name_eabe() <==> (n == 4 && b0 == 0x45 && b1 == 0x41 && b2 == 0x42 && b3
                == 0x45)) by {
                if n == 4 && b0 == 0x45 && b1 == 0x41 && b2 == 0x42 && b3 == 0x45 {
                    assert(s =~= name_eabe());
                }
            }
        }
        kind
    }
}

/// Concrete service block type.
#[derive(Debug)]
pub enum ServiceBlockKind {
    Comment,
    NtfsFilePermissions,
    NtfsAlternateDataStream,
    UnixOwner,
    AuthenticationVerification,
    RecoveryRecord,
    Os2ExtendedAttributes,
    BeOsExtendedAttributes,
    /// A kind that this library does not know, with its name.
    Unknown(Vec<u8>),
}

impl ServiceBlockKind {
    /// The kind is the one that the name `bytes` stands for.
    pub open spec fn decodes(&self, bytes: Seq<u8>) -> bool {
        match ServiceBlockType::of(bytes) {
            Some(ServiceBlockType::Comment) => *self is Comment,
            Some(ServiceBlockType::NtfsFilePermissions) => *self is NtfsFilePermissions,
            Some(ServiceBlockType::NtfsAlternateDataStream) => *self is NtfsAlternateDataStream,
            Some(ServiceBlockType::UnixOwner) => *self is UnixOwner,
            Some(ServiceBlockType::AuthenticationVerification) => *self
                is AuthenticationVerification,
            Some(ServiceBlockType::RecoveryRecord) => *self is RecoveryRecord,
            Some(ServiceBlockType::Os2ExtendedAttributes) => *self is Os2ExtendedAttributes,
            Some(ServiceBlockType::BeOsExtendedAttributes) => *self is BeOsExtendedAttributes,
            None => *self matches ServiceBlockKind::Unknown(kept) && kept@ == bytes,
        }
    }

    /// Tell the kind of a service block by its name; an unknown name is kept.
    pub fn parse(name: Vec<u8>) -> (kind: ServiceBlockKind)
        ensures
            kind.decodes(name@),
    {
        match ServiceBlockType::from_bytes(&name) {
            Some(ServiceBlockType::Comment) => ServiceBlockKind::Comment,
            Some(ServiceBlockType::NtfsFilePermissions) => ServiceBlockKind::NtfsFilePermissions,
            Some(ServiceBlockType::NtfsAlternateDataStream) => {
                ServiceBlockKind::NtfsAlternateDataStream
            },
            Some(ServiceBlockType::UnixOwner) => ServiceBlockKind::UnixOwner,
            Some(ServiceBlockType::AuthenticationVerification) => {
                ServiceBlockKind::AuthenticationVerification
            },
            Some(ServiceBlockType::RecoveryRecord) => ServiceBlockKind::RecoveryRecord,
            Some(ServiceBlockType::Os2ExtendedAttributes) => ServiceBlockKind::Os2ExtendedAttributes,
            Some(ServiceBlockType::BeOsExtendedAttributes) => {
                ServiceBlockKind::BeOsExtendedAttributes
            },
            None => ServiceBlockKind::Unknown(name),
        }
    }
}

/// Block containing metadata for the previous file block.
#[derive(Debug)]
pub struct ServiceBlock {
    /// Service block flags.
    pub flags: ServiceBlockFlags,
    /// Size of the data section of the block.
    pub packed_data_size: u64,
    /// Size of the data section after decompression.
    pub unpacked_data_size: u64,
    /// OS used to add this block to the archive.
    pub host_os: HostOs,
    /// CRC32 hash of the data section.
    pub data_crc32: u32,
    /// Modification time of the file.
    pub modification_time: Result<DateTime, u32>,
    /// Creation time of the file.
    pub creation_time: Option<Result<DateTime, u32>>,
    /// Access time of the file.
    pub access_time: Option<Result<DateTime, u32>>,
    /// Timestamp at which the file was added to the archive.
    pub archive_time: Option<Result<DateTime, u32>>,
    pub unpack_version: u8,
    pub method: u8,
    /// Generic flags for all service block types.
    pub sub_flags: SubHeadFlags,
    /// Concrete type of this service block.
    pub kind: ServiceBlockKind,
    /// Data of the header that is particular to the kind of block.
    pub sub_data: Option<Vec<u8>>,
    /// Salt of the encryption, where the data is encrypted with one.
    pub salt: Option<[u8; 8]>,
}

impl ServiceBlock {
    /// Size of the header without name, particular data and salt, the common
    /// header of 7 bytes included.
    pub const SIZE: usize = 32;

    /// Offset of the name, for a block whose part after the common header
    /// starts at offset `p`.
    pub open spec fn name_at(p: int, flags: u16) -> int {
        p + 25 + extension_size(flags)
    }

    /// Offset of the data that is particular to the kind of block.
    pub open spec fn sub_data_at(s: Seq<u8>, p: int, flags: u16) -> int {
        Self::name_at(p, flags) + le_u16(s, p + 19)
    }

    /// Number of bytes of the particular data: what the size of the header
    /// leaves after the fixed fields, the name and the salt. A negative
    /// number tells of a header that is too small for its own fields.
    pub open spec fn sub_data_size(s: Seq<u8>, p: int, flags: u16, header_size: u16) -> int {
        header_size - le_u16(s, p + 19) - 32 - salt_size(flags)
    }

    /// Offset of the salt.
    pub open spec fn salt_at(s: Seq<u8>, p: int, flags: u16, header_size: u16) -> int {
        Self::sub_data_at(s, p, flags) + Self::sub_data_size(s, p, flags, header_size)
    }

    /// Offset of the extended time field.
    pub open spec fn times_at(s: Seq<u8>, p: int, flags: u16, header_size: u16) -> int {
        Self::salt_at(s, p, flags, header_size) + salt_size(flags)
    }

    /// The size of the header is too small for the fields of the block.
    pub open spec fn malformed(s: Seq<u8>, p: int, flags: u16, header_size: u16) -> bool {
        Self::sub_data_size(s, p, flags, header_size) < 0
    }

    /// Number of bytes that the decoder needs at offset `p`, after the common
    /// header: the whole block, or for a malformed one the part up to the
    /// end of the name.
    pub open spec fn size_at(s: Seq<u8>, p: int, flags: u16, header_size: u16) -> int {
        if Self::malformed(s, p, flags, header_size) {
            Self::sub_data_at(s, p, flags) - p
        } else {
            Self::times_at(s, p, flags, header_size) - p + times_size(
                s,
                Self::times_at(s, p, flags, header_size),
                flags,
                dos_time_at(s, p + 13),
            )
        }
    }

    /// The fields are those stored at offset `p`.
    pub open spec fn decodes(&self, s: Seq<u8>, p: int, flags: u16, header_size: u16) -> bool {
        &&& self.flags.bits() == flags
        &&& self.packed_data_size == extended_size(s, p, p + 25, flags)
        &&& self.unpacked_data_size == extended_size(s, p + 4, p + 29, flags)
        &&& self.host_os == HostOs::of(s[p + 8])
        &&& self.data_crc32 == le_u32(s, p + 9)
        &&& self.unpack_version == s[p + 17]
        &&& self.method == s[p + 18]
        &&& self.sub_flags.bits() == le_u32(s, p + 21)
        &&& self.kind.decodes(window(s, Self::name_at(p, flags), le_u16(s, p + 19) as int))
        &&& if Self::sub_data_size(s, p, flags, header_size) > 0 {
            self.sub_data matches Some(data) && data@ == window(
                s,
                Self::sub_data_at(s, p, flags),
                Self::sub_data_size(s, p, flags, header_size),
            )
        } else {
            self.sub_data is None
        }
        &&& salt_at(s, Self::salt_at(s, p, flags, header_size), flags, self.salt)
        &&& times_at(
            s,
            Self::times_at(s, p, flags, header_size),
            flags,
            dos_time_at(s, p + 13),
            self.modification_time,
            self.creation_time,
            self.access_time,
            self.archive_time,
        )
    }

    /// Read the part of a service block that follows the common header;
    /// `header_size` is the size that the common header gave.
    pub fn read(r: &mut Reader, flags: u16, header_size: u16) -> (res: Result<Self, Error>)
        ensures
            read_checked(
                *old(r),
                *final(r),
                res,
                Self::size_at(old(r).bytes(), old(r).pos(), flags, header_size),
                Self::malformed(old(r).bytes(), old(r).pos(), flags, header_size),
            ),
            res matches Ok(b) ==> b.decodes(old(r).bytes(), old(r).pos(), flags, header_size),
    {
        let ghost s = r.bytes();
        let ghost p = r.pos();
        let fields = ServiceFields::read(r, flags)?;
        let flags = ServiceBlockFlags::new(flags);
        let fixed_size = fields.name_size as usize + Self::SIZE + if flags.has_salt() {
            SALT_SIZE
        } else {
            0
        };
        if (header_size as usize) < fixed_size {
            return Err(Error::CorruptHeader);
        }
        let sub_data_size = (header_size as usize) - fixed_size;
        let sub_data = if sub_data_size > 0 {
            Some(read_vec(r, sub_data_size)?)
        } else {
            None
        };
        let salt = read_salt(r, flags.has_salt())?;
        let mut modification_time = fields.modification_time;
        let mut creation_time = None;
        let mut access_time = None;
        let mut archive_time = None;
        if flags.has_extended_time() {
            let ext = ExtendedTime::read(r, modification_time)?;
            modification_time = ext.modification_time;
            creation_time = ext.creation_time;
            access_time = ext.access_time;
            archive_time = ext.archive_time;
        }
        Ok(
            ServiceBlock {
                flags,
                packed_data_size: fields.packed_data_size,
                unpacked_data_size: fields.unpacked_data_size,
                host_os: fields.host_os,
                data_crc32: fields.data_crc32,
                modification_time,
                creation_time,
                access_time,
                archive_time,
                unpack_version: fields.unpack_version,
                method: fields.method,
                sub_flags: fields.sub_flags,
                kind: fields.kind,
                sub_data,
                salt,
            },
        )
    }
}

/// The fields of a service block up to the end of its name.
struct ServiceFields {
    packed_data_size: u64,
    unpacked_data_size: u64,
    host_os: HostOs,
    data_crc32: u32,
    modification_time: Result<DateTime, u32>,
    unpack_version: u8,
    method: u8,
    name_size: u16,
    sub_flags: SubHeadFlags,
    kind: ServiceBlockKind,
}

impl ServiceFields {
    /// The fields are those stored at offset `p`.
    spec fn decodes(&self, s: Seq<u8>, p: int, flags: u16) -> bool {
        &&& self.packed_data_size == extended_size(s, p, p + 25, flags)
        &&& self.unpacked_data_size == extended_size(s, p + 4, p + 29, flags)
        &&& self.host_os == HostOs::of(s[p + 8])
        &&& self.data_crc32 == le_u32(s, p + 9)
        &&& self.modification_time == dos_time_at(s, p + 13)
        &&& (self.modification_time matches Ok(t) ==> t.wf())
        &&& self.unpack_version == s[p + 17]
        &&& self.method == s[p + 18]
        &&& self.name_size == le_u16(s, p + 19)
        &&& self.sub_flags.bits() == le_u32(s, p + 21)
        &&& self.kind.decodes(window(s, ServiceBlock::name_at(p, flags), le_u16(s, p + 19) as int))
    }

    /// Read the fields of a service block up to the end of its name.
    fn read(r: &mut Reader, flags: u16) -> (res: Result<Self, Error>)
        ensures
            read_outcome(
                *old(r),
                *final(r),
                res,
                ServiceBlock::sub_data_at(old(r).bytes(), old(r).pos(), flags) - old(r).pos(),
            ),
            res matches Ok(b) ==> b.decodes(old(r).bytes(), old(r).pos(), flags),
    {
        let flags = ServiceBlockFlags::new(flags);
        let low_packed_data_size = read_u32(r)?;
        let low_unpacked_data_size = read_u32(r)?;
        let host_os = HostOs::from(read_u8(r)?);
        let data_crc32 = read_u32(r)?;
        let modification_time = read_u32(r)?;
        let modification_time = parse_dos_datetime(modification_time);
        let unpack_version = read_u8(r)?;
        let method = read_u8(r)?;
        let name_size = read_u16(r)?;
        let sub_flags = SubHeadFlags::new(read_u32(r)?);
        let (packed_data_size, unpacked_data_size) = read_sizes(
            r,
            flags.has_large_size(),
            low_packed_data_size,
            low_unpacked_data_size,
        )?;
        let kind = read_vec(r, name_size as usize)?;
        let kind = ServiceBlockKind::parse(kind);
        Ok(
            ServiceFields {
                packed_data_size,
                unpacked_data_size,
                host_os,
                data_crc32,
                modification_time,
                unpack_version,
                method,
                name_size,
                sub_flags,
                kind,
            },
        )
    }
}

} // verus!
