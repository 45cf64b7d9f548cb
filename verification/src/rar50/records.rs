//! The records that the extra area of a RAR50 block may hold.
//!
//! Each record is decoded from a buffer of its own, so a decoder reads at
//! offset 0 of the data of the record and cannot read past it.
use crate::error::Error;
use crate::rar50::helpers::read_unix_time_nanos;
use crate::rar50::helpers::read_unix_time_sec;
use crate::rar50::helpers::read_windows_time;
use crate::rar50::helpers::unix_nanos_time;
use crate::rar50::helpers::windows_time;
use crate::read::le_u32;
use crate::read::le_u64;
use crate::read::low_byte;
use crate::read::low_word;
use crate::read::optional_vint;
use crate::read::optional_vint_len;
use crate::read::read_const_bytes;
use crate::read::read_optional_vint;
use crate::read::read_outcome;
use crate::read::read_to_end;
use crate::read::read_u8;
use crate::read::read_vec_u64;
use crate::read::read_vint_value;
use crate::read::truncate_u16;
use crate::read::truncate_u8;
use crate::read::vint_end;
use crate::read::vint_len;
use crate::read::vint_value;
use crate::read::window;
use crate::read::Reader;
use crate::text::is_decoded;
use crate::text::string_from_utf8;
use crate::time_conv::unix_datetime;
use crate::time_conv::DateTime;
use vstd::prelude::*;

verus! {

/// A record that is decoded from the data of a record of the extra area.
pub trait RecordRead: Sized {
    /// Number of bytes that the record occupies at offset `p` of `s`.
    spec fn record_size(s: Seq<u8>, p: int) -> int;

    /// The record is the one stored at offset `p` of `s`.
    spec fn record_decodes(&self, s: Seq<u8>, p: int) -> bool;

    /// Read the record at the cursor.
    fn read_record(r: &mut Reader) -> (res: Result<Self, Error>)
        ensures
            read_outcome(*old(r), *final(r), res, Self::record_size(old(r).bytes(), old(r).pos())),
            res matches Ok(record) ==> record.record_decodes(old(r).bytes(), old(r).pos()),
    ;
}

/// Number of bytes of a text that is stored at offset `p`, behind its
/// length, only where it is `present`.
pub open spec fn optional_text_len(s: Seq<u8>, p: int, present: bool) -> nat {
    if present {
        vint_len(s, p) + vint_value(s, p) as nat
    } else {
        0
    }
}

/// `text` is the text stored at offset `p`, behind its length, where it
/// is `present`: decoded as UTF-8, or kept as bytes that are no UTF-8.
pub open spec fn optional_text_at(
    s: Seq<u8>,
    p: int,
    present: bool,
    text: Option<Result<String, Vec<u8>>>,
) -> bool {
    if present {
        text matches Some(decoded) && is_decoded(
            window(s, vint_end(s, p), vint_value(s, p) as int),
            decoded,
        )
    } else {
        text is None
    }
}

/// Read a text behind its length, where it is `present`.
pub fn read_optional_text(r: &mut Reader, present: bool) -> (res: Result<
    Option<Result<String, Vec<u8>>>,
    Error,
>)
    ensures
        read_outcome(
            *old(r),
            *final(r),
            res,
            optional_text_len(old(r).bytes(), old(r).pos(), present) as int,
        ),
        res matches Ok(text) ==> optional_text_at(old(r).bytes(), old(r).pos(), present, text),
{
    if present {
        let size = read_vint_value(r)?;
        let raw = read_vec_u64(r, size)?;
        Ok(Some(string_from_utf8(raw)))
    } else {
        Ok(None)
    }
}

/// An offset that is stored as 0 where it is not known.
pub open spec fn nonzero(value: Option<u64>) -> Option<u64> {
    match value {
        Some(v) => if v == 0 {
            None
        } else {
            Some(v)
        },
        None => None,
    }
}

/// Record of the main block that tells where other blocks are.
#[derive(Debug, Clone, Copy)]
pub struct LocatorRecord {
    pub quick_open_record_offset: Option<u64>,
    pub recovery_record_offset: Option<u64>,
}

/// [`LocatorRecord`] flags.
#[derive(Debug, Clone, Copy)]
pub struct LocatorRecordFlags {
    bits: u8,
}

impl LocatorRecordFlags {
    /// The flag word as it was stored.
    pub closed spec fn bits(&self) -> u8 {
        self.bits
    }

    /// Wrap a flag word.
    pub fn new(flags: u8) -> (res: Self)
        ensures
            res.bits() == flags,
    {
        Self { bits: flags }
    }

    /// The offset of the quick open record is present.
    pub fn has_quick_open_record_offset(&self) -> (set: bool)
        ensures
            set == (self.bits() & 0x01 != 0),
    {
        self.bits & 0x01 != 0
    }

    /// The offset of the recovery record is present.
    pub fn has_recovery_record_offset(&self) -> (set: bool)
        ensures
            set == (self.bits() & 0x02 != 0),
    {
        self.bits & 0x02 != 0
    }
}


impl LocatorRecord {
    /// Offset of the second field, for a record at offset `p`.
    pub open spec fn second_at(s: Seq<u8>, p: int) -> int {
        let flags = low_byte(vint_value(s, p));
        vint_end(s, p) + optional_vint_len(s, vint_end(s, p), flags & 0x01 != 0)
    }

    /// Number of bytes that the record occupies at offset `p`.
    pub open spec fn size_at(s: Seq<u8>, p: int) -> int {
        let flags = low_byte(vint_value(s, p));
        Self::second_at(s, p) + optional_vint_len(s, Self::second_at(s, p), flags & 0x02 != 0) - p
    }

    /// The fields are those stored at offset `p`.
    pub open spec fn decodes(&self, s: Seq<u8>, p: int) -> bool {
        let flags = low_byte(vint_value(s, p));
        &&& self.quick_open_record_offset == nonzero(
            optional_vint(s, vint_end(s, p), flags & 0x01 != 0),
        )
        &&& self.recovery_record_offset == nonzero(
            optional_vint(s, Self::second_at(s, p), flags & 0x02 != 0),
        )
    }

    /// Read the record at the cursor.
    pub fn read(r: &mut Reader) -> (res: Result<Self, Error>)
        ensures
            read_outcome(*old(r), *final(r), res, Self::size_at(old(r).bytes(), old(r).pos())),
            res matches Ok(record) ==> record.decodes(old(r).bytes(), old(r).pos()),
    {
        let flags = LocatorRecordFlags::new(truncate_u8(read_vint_value(r)?));
        let quick_open_record_offset = match read_optional_vint(
            r,
            flags.has_quick_open_record_offset(),
        )? {
            Some(0) => None,
            offset => offset,
        };
        let recovery_record_offset = match read_optional_vint(
            r,
            flags.has_recovery_record_offset(),
        )? {
            Some(0) => None,
            offset => offset,
        };
        Ok(LocatorRecord { quick_open_record_offset, recovery_record_offset })
    }
}

impl RecordRead for LocatorRecord {
    open spec fn record_size(s: Seq<u8>, p: int) -> int {
        Self::size_at(s, p)
    }

    open spec fn record_decodes(&self, s: Seq<u8>, p: int) -> bool {
        self.decodes(s, p)
    }

    fn read_record(r: &mut Reader) -> (res: Result<Self, Error>) {
        Self::read(r)
    }
}

/// Record of the main block that holds the name and the age of the archive.
#[derive(Debug)]
pub struct MetadataRecord {
    /// Name of the archive: its text, or its bytes where they are no UTF-8.
    pub name: Option<Result<String, Vec<u8>>>,
    pub creation_time: Option<Result<DateTime, u64>>,
}

/// [`MetadataRecord`] flags.
#[derive(Debug, Clone, Copy)]
pub struct MetadataRecordFlags {
    bits: u8,
}

impl MetadataRecordFlags {
    /// The flag word as it was stored.
    pub closed spec fn bits(&self) -> u8 {
        self.bits
    }

    /// Wrap a flag word.
    pub fn new(flags: u8) -> (res: Self)
        ensures
            res.bits() == flags,
    {
        Self { bits: flags }
    }

    /// The name of the archive is present.
    pub fn has_archive_name(&self) -> (set: bool)
        ensures
            set == (self.bits() & 0x01 != 0),
    {
        self.bits & 0x01 != 0
    }

    /// The creation time is present.
    pub fn has_creation_time(&self) -> (set: bool)
        ensures
            set == (self.bits() & 0x02 != 0),
    {
        self.bits & 0x02 != 0
    }

    /// The creation time counts from the Unix epoch.
    pub fn uses_unix_time(&self) -> (set: bool)
        ensures
            set == (self.bits() & 0x04 != 0),
    {
        self.bits & 0x04 != 0
    }

    /// The creation time counts nanoseconds.
    pub fn is_unix_time_nanoseconds(&self) -> (set: bool)
        ensures
            set == (self.bits() & 0x08 != 0),
    {
        self.bits & 0x08 != 0
    }
}


/// `name` is what `stored` holds up to its first 0 byte, or all of it
/// where it has none.
pub open spec fn is_until_zero(stored: Seq<u8>, name: Seq<u8>) -> bool {
    &&& name.len() <= stored.len()
    &&& forall|j: int| 0 <= j < name.len() ==> name[j] == stored[j] && name[j] != 0
    &&& name.len() < stored.len() ==> stored[name.len() as int] == 0
}

/// The bytes of `stored` up to its first 0 byte.
pub fn until_zero(stored: Vec<u8>) -> (name: Vec<u8>)
    ensures
        is_until_zero(stored@, name@),
{
    let mut name: Vec<u8> = Vec::new();
    let mut i: usize = 0;
    while i < stored.len() && stored[i] != 0
        invariant
            i <= stored.len(),
            name.len() == i,
            forall|j: int| 0 <= j < i ==> name@[j] == stored@[j] && name@[j] != 0,
        decreases stored.len() - i,
    {
        name.push(stored[i]);
        i = i + 1;
    }
    name
}

/// `name` is the name of an archive as the bytes `stored` give it: nothing
/// where they start with a 0 byte or are empty, else their part before
/// the first 0 byte, decoded as UTF-8.
pub open spec fn is_archive_name(stored: Seq<u8>, name: Option<Result<String, Vec<u8>>>) -> bool {
    if stored.len() == 0 || stored[0] == 0 {
        name is None
    } else {
        name matches Some(decoded) && exists|cut: Seq<u8>| #[trigger]
            is_until_zero(stored, cut) && is_decoded(cut, decoded)
    }
}

impl MetadataRecord {
    /// Offset of the creation time, for a record at offset `p`.
    pub open spec fn time_at(s: Seq<u8>, p: int) -> int {
        let flags = low_byte(vint_value(s, p));
        vint_end(s, p) + optional_text_len(s, vint_end(s, p), flags & 0x01 != 0)
    }

    /// Number of bytes of the creation time.
    pub open spec fn time_size(flags: u8) -> int {
        if flags & 0x02 == 0 {
            0
        } else if flags & 0x04 != 0 && flags & 0x08 == 0 {
            4
        } else {
            8
        }
    }

    /// The creation time stored at offset `p`.
    pub open spec fn time(s: Seq<u8>, p: int, flags: u8) -> Option<Result<DateTime, u64>> {
        if flags & 0x02 == 0 {
            None
        } else if flags & 0x04 != 0 {
            if flags & 0x08 != 0 {
                Some(unix_nanos_time(le_u64(s, p)))
            } else {
                Some(Ok(unix_datetime(le_u32(s, p) as int)))
            }
        } else {
            Some(windows_time(le_u64(s, p)))
        }
    }

    /// Number of bytes that the record occupies at offset `p`.
    pub open spec fn size_at(s: Seq<u8>, p: int) -> int {
        Self::time_at(s, p) + Self::time_size(low_byte(vint_value(s, p))) - p
    }

    /// The fields are those stored at offset `p`.
    pub open spec fn decodes(&self, s: Seq<u8>, p: int) -> bool {
        let flags = low_byte(vint_value(s, p));
        let q = vint_end(s, p);
        &&& if flags & 0x01 != 0 {
            is_archive_name(window(s, vint_end(s, q), vint_value(s, q) as int), self.name)
        } else {
            self.name is None
        }
        &&& self.creation_time == Self::time(s, Self::time_at(s, p), flags)
    }

    /// Read the name of the archive behind its length, where it is present.
    fn read_name(r: &mut Reader, present: bool) -> (res: Result<
        Option<Result<String, Vec<u8>>>,
        Error,
    >)
        ensures
            read_outcome(
                *old(r),
                *final(r),
                res,
                optional_text_len(old(r).bytes(), old(r).pos(), present) as int,
            ),
            res matches Ok(name) ==> if present {
                is_archive_name(
                    window(
                        old(r).bytes(),
                        vint_end(old(r).bytes(), old(r).pos()),
                        vint_value(old(r).bytes(), old(r).pos()) as int,
                    ),
                    name,
                )
            } else {
                name is None
            },
    {
        if !present {
            return Ok(None);
        }
        let name_size = read_vint_value(r)?;
        let stored = read_vec_u64(r, name_size)?;
        let ghost kept = stored@;
        let name = until_zero(stored);
        if name.len() == 0 {
            Ok(None)
        } else {
            let ghost cut = name@;
            let decoded = string_from_utf8(name);
            assert(is_until_zero(kept, cut) && is_decoded(cut, decoded));
            Ok(Some(decoded))
        }
    }

    /// Read the record at the cursor.
    pub fn read(r: &mut Reader) -> (res: Result<Self, Error>)
        ensures
            read_outcome(*old(r), *final(r), res, Self::size_at(old(r).bytes(), old(r).pos())),
            res matches Ok(record) ==> record.decodes(old(r).bytes(), old(r).pos()),
    {
        let flags = MetadataRecordFlags::new(truncate_u8(read_vint_value(r)?));
        let name = Self::read_name(r, flags.has_archive_name())?;
        let creation_time = if flags.has_creation_time() {
            if flags.uses_unix_time() {
                if flags.is_unix_time_nanoseconds() {
                    Some(read_unix_time_nanos(r)?)
                } else {
                    Some(widen_error(read_unix_time_sec(r)?))
                }
            } else {
                Some(read_windows_time(r)?)
            }
        } else {
            None
        };
        Ok(MetadataRecord { name, creation_time })
    }
}

/// The same timestamp with the raw value of a failed conversion widened to
/// 64 bits.
pub fn widen_error(t: Result<DateTime, u32>) -> (wide: Result<DateTime, u64>)
    ensures
        wide == match t {
            Ok(instant) => Ok::<DateTime, u64>(instant),
            Err(raw) => Err::<DateTime, u64>(raw as u64),
        },
{
    match t {
        Ok(instant) => Ok(instant),
        Err(raw) => Err(raw as u64),
    }
}

impl RecordRead for MetadataRecord {
    open spec fn record_size(s: Seq<u8>, p: int) -> int {
        Self::size_at(s, p)
    }

    open spec fn record_decodes(&self, s: Seq<u8>, p: int) -> bool {
        self.decodes(s, p)
    }

    fn read_record(r: &mut Reader) -> (res: Result<Self, Error>) {
        Self::read(r)
    }
}

/// [`FileEncryptionRecord`] flags.
#[derive(Debug, Clone, Copy)]
pub struct FileEncryptionRecordFlags {
    bits: u8,
}

impl FileEncryptionRecordFlags {
    /// The flag word as it was stored.
    pub closed spec fn bits(&self) -> u8 {
        self.bits
    }

    /// Wrap a flag word.
    pub fn new(flags: u8) -> (res: Self)
        ensures
            res.bits() == flags,
    {
        Self { bits: flags }
    }

    /// A value to check the password with is present.
    pub fn has_password_check(&self) -> (set: bool)
        ensures
            set == (self.bits() & 0x01 != 0),
    {
        self.bits & 0x01 != 0
    }

    /// The checksums of the file depend on the key.
    pub fn uses_mac_checksum(&self) -> (set: bool)
        ensures
            set == (self.bits() & 0x02 != 0),
    {
        self.bits & 0x02 != 0
    }
}


/// Record that tells how a file is encrypted.
#[derive(Debug, Clone, Copy)]
pub struct FileEncryptionRecord {
    pub flags: FileEncryptionRecordFlags,
    pub kdf_count: u8,
    pub salt: [u8; 16],
    pub iv: [u8; 16],
    pub check_value: Option<[u8; 12]>,
}

/// `value` is the check value stored at offset `p`, where it is `present`.
pub open spec fn check_value_at(s: Seq<u8>, p: int, present: bool, value: Option<[u8; 12]>) -> bool {
    if present {
        value matches Some(bytes) && bytes@ == window(s, p, 12)
    } else {
        value is None
    }
}

/// Read the check value, where it is `present`.
pub fn read_check_value(r: &mut Reader, present: bool) -> (res: Result<Option<[u8; 12]>, Error>)
    ensures
        read_outcome(*old(r), *final(r), res, if present {
            12int
        } else {
            0int
        }),
        res matches Ok(value) ==> check_value_at(old(r).bytes(), old(r).pos(), present, value),
{
    if present {
        Ok(Some(read_const_bytes::<12>(r)?))
    } else {
        Ok(None)
    }
}

impl FileEncryptionRecord {
    /// Number of bytes that the record occupies at offset `p`.
    pub open spec fn size_at(s: Seq<u8>, p: int) -> int {
        vint_len(s, p) + 33 + if low_byte(vint_value(s, p)) & 0x01 != 0 {
            12int
        } else {
            0int
        }
    }

    /// The fields are those stored at offset `p`.
    pub open spec fn decodes(&self, s: Seq<u8>, p: int) -> bool {
        let q = vint_end(s, p);
        &&& self.flags.bits() == low_byte(vint_value(s, p))
        &&& self.kdf_count == s[q]
        &&& self.salt@ == window(s, q + 1, 16)
        &&& self.iv@ == window(s, q + 17, 16)
        &&& check_value_at(s, q + 33, low_byte(vint_value(s, p)) & 0x01 != 0, self.check_value)
    }

    /// Read the record at the cursor.
    pub fn read(r: &mut Reader) -> (res: Result<Self, Error>)
        ensures
            read_outcome(*old(r), *final(r), res, Self::size_at(old(r).bytes(), old(r).pos())),
            res matches Ok(record) ==> record.decodes(old(r).bytes(), old(r).pos()),
    {
        let flags = FileEncryptionRecordFlags::new(truncate_u8(read_vint_value(r)?));
        let kdf_count = read_u8(r)?;
        let salt = read_const_bytes::<16>(r)?;
        let iv = read_const_bytes::<16>(r)?;
        let check_value = read_check_value(r, flags.has_password_check())?;
        Ok(FileEncryptionRecord { flags, kdf_count, salt, iv, check_value })
    }
}

impl RecordRead for FileEncryptionRecord {
    open spec fn record_size(s: Seq<u8>, p: int) -> int {
        Self::size_at(s, p)
    }

    open spec fn record_decodes(&self, s: Seq<u8>, p: int) -> bool {
        self.decodes(s, p)
    }

    fn read_record(r: &mut Reader) -> (res: Result<Self, Error>) {
        Self::read(r)
    }
}

/// Hash of an unpacked file.
#[derive(Debug, Clone, Copy)]
pub enum FileHash {
    Blake2Sp([u8; 32]),
    /// A kind of hash that this library does not know, with its tag.
    Unknown(u64),
}

/// Tag of the BLAKE2sp hash.
pub const BLAKE2SP: u64 = 0x00;

/// Record that holds the hash of a file.
#[derive(Debug, Clone, Copy)]
pub struct FileHashRecord {
    pub hash: FileHash,
}

impl FileHashRecord {
    /// Number of bytes that the record occupies at offset `p`.
    pub open spec fn size_at(s: Seq<u8>, p: int) -> int {
        vint_len(s, p) + if vint_value(s, p) == BLAKE2SP {
            32int
        } else {
            0int
        }
    }

    /// The hash is the one stored at offset `p`.
    pub open spec fn decodes(&self, s: Seq<u8>, p: int) -> bool {
        if vint_value(s, p) == BLAKE2SP {
            self.hash matches FileHash::Blake2Sp(bytes) && bytes@ == window(s, vint_end(s, p), 32)
        } else {
            self.hash matches FileHash::Unknown(tag) && tag == vint_value(s, p)
        }
    }

    /// Read the record at the cursor.
    pub fn read(r: &mut Reader) -> (res: Result<Self, Error>)
        ensures
            read_outcome(*old(r), *final(r), res, Self::size_at(old(r).bytes(), old(r).pos())),
            res matches Ok(record) ==> record.decodes(old(r).bytes(), old(r).pos()),
    {
        let hash_type = read_vint_value(r)?;
        let hash = if hash_type == BLAKE2SP {
            FileHash::Blake2Sp(read_const_bytes::<32>(r)?)
        } else {
            FileHash::Unknown(hash_type)
        };
        Ok(FileHashRecord { hash })
    }
}

impl RecordRead for FileHashRecord {
    open spec fn record_size(s: Seq<u8>, p: int) -> int {
        Self::size_at(s, p)
    }

    open spec fn record_decodes(&self, s: Seq<u8>, p: int) -> bool {
        self.decodes(s, p)
    }

    fn read_record(r: &mut Reader) -> (res: Result<Self, Error>) {
        Self::read(r)
    }
}

/// Record that holds the version of a file.
#[derive(Debug, Clone, Copy)]
pub struct FileVersionRecord {
    pub version_number: u64,
}

impl FileVersionRecord {
    /// Number of bytes that the record occupies at offset `p`.
    pub open spec fn size_at(s: Seq<u8>, p: int) -> int {
        (vint_len(s, p) + vint_len(s, vint_end(s, p))) as int
    }

    /// The version is the one stored at offset `p`, behind flags without meaning.
    pub open spec fn decodes(&self, s: Seq<u8>, p: int) -> bool {
        self.version_number == vint_value(s, vint_end(s, p))
    }

    /// Read the record at the cursor.
    pub fn read(r: &mut Reader) -> (res: Result<Self, Error>)
        ensures
            read_outcome(*old(r), *final(r), res, Self::size_at(old(r).bytes(), old(r).pos())),
            res matches Ok(record) ==> record.decodes(old(r).bytes(), old(r).pos()),
    {
        // Unused as of now.
        let _flags = read_vint_value(r)?;
        let version_number = read_vint_value(r)?;
        Ok(FileVersionRecord { version_number })
    }
}

impl RecordRead for FileVersionRecord {
    open spec fn record_size(s: Seq<u8>, p: int) -> int {
        Self::size_at(s, p)
    }

    open spec fn record_decodes(&self, s: Seq<u8>, p: int) -> bool {
        self.decodes(s, p)
    }

    fn read_record(r: &mut Reader) -> (res: Result<Self, Error>) {
        Self::read(r)
    }
}

/// Kind of link that a file stands for.
#[derive(Debug, Clone, Copy, PartialEq, Eq, Structural)]
pub enum FileSystemRedirectionType {
    UnixSymlink,
    WindowsSymlink,
    WindowsJunction,
    HardLink,
    FileCopy,
    /// A value that this library does not know.
    Unknown(u16),
}

impl FileSystemRedirectionType {
    /// The variant that stands for `value`; a value without a variant of its
    /// own is kept as it is.
    pub open spec fn of(value: u16) -> FileSystemRedirectionType {
        if value == 0x0001 {
            FileSystemRedirectionType::UnixSymlink
        } else if value == 0x0002 {
            FileSystemRedirectionType::WindowsSymlink
        } else if value == 0x0003 {
            FileSystemRedirectionType::WindowsJunction
        } else if value == 0x0004 {
            FileSystemRedirectionType::HardLink
        } else if value == 0x0005 {
            FileSystemRedirectionType::FileCopy
        } else {
            FileSystemRedirectionType::Unknown(value)
        }
    }

    /// The variant that stands for `value`.
    pub fn from(value: u16) -> (res: Self)
        ensures
            res == FileSystemRedirectionType::of(value),
    {
        if value == 0x0001 {
            FileSystemRedirectionType::UnixSymlink
        } else if value == 0x0002 {
            FileSystemRedirectionType::WindowsSymlink
        } else if value == 0x0003 {
            FileSystemRedirectionType::WindowsJunction
        } else if value == 0x0004 {
            FileSystemRedirectionType::HardLink
        } else if value == 0x0005 {
            FileSystemRedirectionType::FileCopy
        } else {
            FileSystemRedirectionType::Unknown(value)
        }
    }
}

/// [`FileSystemRedirectionRecord`] flags.
#[derive(Debug, Clone, Copy)]
pub struct FileSystemRedirectionRecordFlags {
    bits: u16,
}

impl FileSystemRedirectionRecordFlags {
    /// The flag word as it was stored.
    pub closed spec fn bits(&self) -> u16 {
        self.bits
    }

    /// Wrap a flag word.
    pub fn new(flags: u16) -> (res: Self)
        ensures
            res.bits() == flags,
    {
        Self { bits: flags }
    }

    /// The link points to a directory.
    pub fn is_directory(&self) -> (set: bool)
        ensures
            set == (self.bits() & 0x0001 != 0),
    {
        self.bits & 0x0001 != 0
    }
}


/// Record that tells where a link points to.
#[derive(Debug)]
pub struct FileSystemRedirectionRecord {
    pub redirection_type: FileSystemRedirectionType,
    pub flags: FileSystemRedirectionRecordFlags,
    /// Target of the link: its text, or its bytes where they are no UTF-8.
    pub name: Result<String, Vec<u8>>,
}

impl FileSystemRedirectionRecord {
    /// Offset of the length of the name, for a record at offset `p`.
    pub open spec fn name_at(s: Seq<u8>, p: int) -> int {
        vint_end(s, vint_end(s, p))
    }

    /// Number of bytes that the record occupies at offset `p`.
    pub open spec fn size_at(s: Seq<u8>, p: int) -> int {
        Self::name_at(s, p) + optional_text_len(s, Self::name_at(s, p), true) - p
    }

    /// The fields are those stored at offset `p`.
    pub open spec fn decodes(&self, s: Seq<u8>, p: int) -> bool {
        &&& self.redirection_type == FileSystemRedirectionType::of(low_word(vint_value(s, p)))
        &&& self.flags.bits() == low_word(vint_value(s, vint_end(s, p)))
        &&& optional_text_at(s, Self::name_at(s, p), true, Some(self.name))
    }

    /// Read the record at the cursor.
    pub fn read(r: &mut Reader) -> (res: Result<Self, Error>)
        ensures
            read_outcome(*old(r), *final(r), res, Self::size_at(old(r).bytes(), old(r).pos())),
            res matches Ok(record) ==> record.decodes(old(r).bytes(), old(r).pos()),
    {
        let redirection_type = FileSystemRedirectionType::from(
            truncate_u16(read_vint_value(r)?),
        );
        let flags = FileSystemRedirectionRecordFlags::new(truncate_u16(read_vint_value(r)?));
        let name_length = read_vint_value(r)?;
        let name = string_from_utf8(read_vec_u64(r, name_length)?);
        Ok(FileSystemRedirectionRecord { redirection_type, flags, name })
    }
}

impl RecordRead for FileSystemRedirectionRecord {
    open spec fn record_size(s: Seq<u8>, p: int) -> int {
        Self::size_at(s, p)
    }

    open spec fn record_decodes(&self, s: Seq<u8>, p: int) -> bool {
        self.decodes(s, p)
    }

    fn read_record(r: &mut Reader) -> (res: Result<Self, Error>) {
        Self::read(r)
    }
}

/// [`UnixOwnerRecord`] flags.
#[derive(Debug, Clone, Copy)]
pub struct UnixOwnerRecordFlags {
    bits: u8,
}

impl UnixOwnerRecordFlags {
    /// The flag word as it was stored.
    pub closed spec fn bits(&self) -> u8 {
        self.bits
    }

    /// Wrap a flag word.
    pub fn new(flags: u8) -> (res: Self)
        ensures
            res.bits() == flags,
    {
        Self { bits: flags }
    }

    /// The name of the user is present.
    pub fn has_user_name(&self) -> (set: bool)
        ensures
            set == (self.bits() & 0x01 != 0),
    {
        self.bits & 0x01 != 0
    }

    /// The name of the group is present.
    pub fn has_group_name(&self) -> (set: bool)
        ensures
            set == (self.bits() & 0x02 != 0),
    {
        self.bits & 0x02 != 0
    }

    /// The number of the user is present.
    pub fn has_user_id(&self) -> (set: bool)
        ensures
            set == (self.bits() & 0x04 != 0),
    {
        self.bits & 0x04 != 0
    }

    /// The number of the group is present.
    pub fn has_group_id(&self) -> (set: bool)
        ensures
            set == (self.bits() & 0x08 != 0),
    {
        self.bits & 0x08 != 0
    }
}


/// Record that tells who owns a file on Unix.
#[derive(Debug)]
pub struct UnixOwnerRecord {
    pub user_name: Option<Result<String, Vec<u8>>>,
    pub group_name: Option<Result<String, Vec<u8>>>,
    pub user_id: Option<u64>,
    pub group_id: Option<u64>,
}

impl UnixOwnerRecord {
    /// Offset of the name of the group, for a record at offset `p`.
    pub open spec fn group_name_at(s: Seq<u8>, p: int) -> int {
        let flags = low_byte(vint_value(s, p));
        vint_end(s, p) + optional_text_len(s, vint_end(s, p), flags & 0x01 != 0)
    }

    /// Offset of the number of the user.
    pub open spec fn user_id_at(s: Seq<u8>, p: int) -> int {
        let flags = low_byte(vint_value(s, p));
        Self::group_name_at(s, p) + optional_text_len(
            s,
            Self::group_name_at(s, p),
            flags & 0x02 != 0,
        )
    }

    /// Offset of the number of the group.
    pub open spec fn group_id_at(s: Seq<u8>, p: int) -> int {
        let flags = low_byte(vint_value(s, p));
        Self::user_id_at(s, p) + optional_vint_len(s, Self::user_id_at(s, p), flags & 0x04 != 0)
    }

    /// Number of bytes that the record occupies at offset `p`.
    pub open spec fn size_at(s: Seq<u8>, p: int) -> int {
        let flags = low_byte(vint_value(s, p));
        Self::group_id_at(s, p) + optional_vint_len(s, Self::group_id_at(s, p), flags & 0x08 != 0)
            - p
    }

    /// The fields are those stored at offset `p`.
    pub open spec fn decodes(&self, s: Seq<u8>, p: int) -> bool {
        let flags = low_byte(vint_value(s, p));
        &&& optional_text_at(s, vint_end(s, p), flags & 0x01 != 0, self.user_name)
        &&& optional_text_at(s, Self::group_name_at(s, p), flags & 0x02 != 0, self.group_name)
        &&& self.user_id == optional_vint(s, Self::user_id_at(s, p), flags & 0x04 != 0)
        &&& self.group_id == optional_vint(s, Self::group_id_at(s, p), flags & 0x08 != 0)
    }

    /// Read the record at the cursor.
    pub fn read(r: &mut Reader) -> (res: Result<Self, Error>)
        ensures
            read_outcome(*old(r), *final(r), res, Self::size_at(old(r).bytes(), old(r).pos())),
            res matches Ok(record) ==> record.decodes(old(r).bytes(), old(r).pos()),
    {
        let flags = UnixOwnerRecordFlags::new(truncate_u8(read_vint_value(r)?));
        let user_name = read_optional_text(r, flags.has_user_name())?;
        let group_name = read_optional_text(r, flags.has_group_name())?;
        let user_id = read_optional_vint(r, flags.has_user_id())?;
        let group_id = read_optional_vint(r, flags.has_group_id())?;
        Ok(UnixOwnerRecord { user_name, group_name, user_id, group_id })
    }
}

impl RecordRead for UnixOwnerRecord {
    open spec fn record_size(s: Seq<u8>, p: int) -> int {
        Self::size_at(s, p)
    }

    open spec fn record_decodes(&self, s: Seq<u8>, p: int) -> bool {
        self.decodes(s, p)
    }

    fn read_record(r: &mut Reader) -> (res: Result<Self, Error>) {
        Self::read(r)
    }
}

/// What is known of a recovery record.
///
/// The recovery record is not used by WinRAR itself.
#[derive(Debug)]
pub struct RecoveryRecordInfo {
    /// Percentage of the record size in relation to the archive.
    pub percentage: u8,
    /// Usually two bytes, unrelated to the size of the archive.
    pub unknown: Vec<u8>,
}

impl RecoveryRecordInfo {
    /// Number of bytes that the record occupies at offset `p`: all that is left.
    pub open spec fn size_at(s: Seq<u8>, p: int) -> int {
        if p < s.len() {
            s.len() - p
        } else {
            1
        }
    }

    /// The fields are those stored at offset `p`.
    pub open spec fn decodes(&self, s: Seq<u8>, p: int) -> bool {
        &&& self.percentage == s[p]
        &&& self.unknown@ == window(s, p + 1, s.len() - p - 1)
    }

    /// Read the record at the cursor: a byte, and all that follows it.
    pub fn read(r: &mut Reader) -> (res: Result<Self, Error>)
        ensures
            read_outcome(*old(r), *final(r), res, Self::size_at(old(r).bytes(), old(r).pos())),
            res matches Ok(record) ==> record.decodes(old(r).bytes(), old(r).pos()),
    {
        let percentage = read_u8(r)?;
        let unknown = read_to_end(r);
        Ok(RecoveryRecordInfo { percentage, unknown })
    }
}

impl RecordRead for RecoveryRecordInfo {
    open spec fn record_size(s: Seq<u8>, p: int) -> int {
        Self::size_at(s, p)
    }

    open spec fn record_decodes(&self, s: Seq<u8>, p: int) -> bool {
        self.decodes(s, p)
    }

    fn read_record(r: &mut Reader) -> (res: Result<Self, Error>) {
        Self::read(r)
    }
}

/// A record that was not decoded: one of a type that the block does not
/// know, or a further record of a type that it has decoded already.
#[derive(Debug, Clone, Copy, PartialEq, Eq, Structural)]
pub struct UnknownRecord {
    pub tag: u64,
}

impl UnknownRecord {
    /// Keep the tag of a record.
    pub fn new(tag: u64) -> (record: Self)
        ensures
            record.tag == tag,
    {
        Self { tag }
    }
}

} // verus!
