//! The record that holds the timestamps of a RAR50 file with high precision.
use crate::error::Error;
use crate::rar50::helpers::read_unix_time_sec;
use crate::rar50::helpers::read_windows_time;
use crate::rar50::helpers::windows_time;
use crate::rar50::records::widen_error;
use crate::rar50::records::RecordRead;
use crate::read::le_u32;
use crate::read::le_u64;
use crate::read::low_byte;
use crate::read::read_outcome;
use crate::read::read_u32;
use crate::read::read_vint_value;
use crate::read::truncate_u8;
use crate::read::vint_end;
use crate::read::vint_value;
use crate::read::Reader;
use crate::time_conv::datetime_plus_nanos;
use crate::time_conv::saturating_add_nanos;
use crate::time_conv::unix_datetime;
use crate::time_conv::DateTime;
use vstd::prelude::*;

verus! {

/// [`FileTimeRecord`] flags.
#[derive(Debug, Clone, Copy)]
pub struct FileTimeRecordFlags {
    bits: u8,
}

impl FileTimeRecordFlags {
    /// The flag word as it was stored.
    pub closed spec fn bits(&self) -> u8 {
        self.bits
    }

    /// Wrap a flag word.
    pub fn new(flags: u8) -> (res: Self)
        ensures
            res.bits() == flags,
    {
        Self { bits: flags }
    }

    /// The timestamps count seconds from the Unix epoch; else they are Windows FILETIMEs.
    pub fn uses_unix_time(&self) -> (set: bool)
        ensures
            set == (self.bits() & 0x01 != 0),
    {
        self.bits & 0x01 != 0
    }

    /// The modification time is present.
    pub fn has_modification_time(&self) -> (set: bool)
        ensures
            set == (self.bits() & 0x02 != 0),
    {
        self.bits & 0x02 != 0
    }

    /// The creation time is present.
    pub fn has_creation_time(&self) -> (set: bool)
        ensures
            set == (self.bits() & 0x04 != 0),
    {
        self.bits & 0x04 != 0
    }

    /// The access time is present.
    pub fn has_access_time(&self) -> (set: bool)
        ensures
            set == (self.bits() & 0x08 != 0),
    {
        self.bits & 0x08 != 0
    }

    /// Each Unix timestamp is refined by a count of nanoseconds.
    pub fn has_unix_time_nanoseconds(&self) -> (set: bool)
        ensures
            set == (self.bits() & 0x10 != 0),
    {
        self.bits & 0x10 != 0
    }
}


/// Record that holds the timestamps of a file.
#[derive(Debug, Clone, Copy)]
pub struct FileTimeRecord {
    pub modification_time: Option<Result<DateTime, u64>>,
    pub creation_time: Option<Result<DateTime, u64>>,
    pub access_time: Option<Result<DateTime, u64>>,
}

/// Number of bytes of a field of `size` bytes that is there only where
/// the flags have the bit `mask`.
pub open spec fn width(flags: u8, mask: u8, size: nat) -> nat {
    if flags & mask != 0 {
        size
    } else {
        0
    }
}

/// The Unix timestamp stored at offset `at`, where the flags have the bit
/// `mask`; where they also announce nanoseconds, those stored at offset
/// `nanos_at` are added.
pub open spec fn unix_stamp(s: Seq<u8>, flags: u8, mask: u8, at: int, nanos_at: int) -> Option<
    Result<DateTime, u64>,
> {
    if flags & mask == 0 {
        None
    } else if flags & 0x10 != 0 {
        Some(Ok(datetime_plus_nanos(unix_datetime(le_u32(s, at) as int), le_u32(s, nanos_at) as int)))
    } else {
        Some(Ok(unix_datetime(le_u32(s, at) as int)))
    }
}

/// The Windows FILETIME stored at offset `at`, where the flags have the bit `mask`.
pub open spec fn windows_stamp(s: Seq<u8>, flags: u8, mask: u8, at: int) -> Option<
    Result<DateTime, u64>,
> {
    if flags & mask == 0 {
        None
    } else {
        Some(windows_time(le_u64(s, at)))
    }
}

/// Read a Unix timestamp of 32 bits, where it is `present`.
fn read_optional_seconds(r: &mut Reader, present: bool) -> (res: Result<
    Option<Result<DateTime, u64>>,
    Error,
>)
    ensures
        read_outcome(*old(r), *final(r), res, if present {
            4int
        } else {
            0int
        }),
        res matches Ok(t) ==> t == (if present {
            Some(Ok::<DateTime, u64>(unix_datetime(le_u32(old(r).bytes(), old(r).pos()) as int)))
        } else {
            None
        }) && (t matches Some(Ok(instant)) ==> instant.wf()),
{
    if present {
        Ok(Some(widen_error(read_unix_time_sec(r)?)))
    } else {
        Ok(None)
    }
}

/// Read a Windows FILETIME, where it is `present`.
fn read_optional_filetime(r: &mut Reader, present: bool) -> (res: Result<
    Option<Result<DateTime, u64>>,
    Error,
>)
    ensures
        read_outcome(*old(r), *final(r), res, if present {
            8int
        } else {
            0int
        }),
        res matches Ok(t) ==> t == (if present {
            Some(windows_time(le_u64(old(r).bytes(), old(r).pos())))
        } else {
            None
        }),
{
    if present {
        Ok(Some(read_windows_time(r)?))
    } else {
        Ok(None)
    }
}

/// Read a count of nanoseconds for a timestamp that is present, and add it
/// where the timestamp is an instant.
fn read_nanoseconds(r: &mut Reader, t: Option<Result<DateTime, u64>>) -> (res: Result<
    Option<Result<DateTime, u64>>,
    Error,
>)
    requires
        t matches Some(Ok(instant)) ==> instant.wf(),
    ensures
        read_outcome(*old(r), *final(r), res, if t is Some {
            4int
        } else {
            0int
        }),
        res matches Ok(sum) ==> sum == match t {
            Some(Ok(instant)) => Some(
                Ok::<DateTime, u64>(
                    datetime_plus_nanos(instant, le_u32(old(r).bytes(), old(r).pos()) as int),
                ),
            ),
            other => other,
        },
{
    match t {
        Some(t) => {
            let nanos = read_u32(r)? as i64;
            match t {
                Ok(instant) => Ok(Some(Ok(saturating_add_nanos(instant, nanos)))),
                Err(raw) => Ok(Some(Err(raw))),
            }
        },
        None => Ok(None),
    }
}

impl FileTimeRecord {
    /// Number of bytes of one timestamp.
    pub open spec fn stamp_size(flags: u8) -> nat {
        if flags & 0x01 != 0 {
            4
        } else {
            8
        }
    }

    /// Offset of the creation time, for a record at offset `p`.
    pub open spec fn creation_at(s: Seq<u8>, p: int) -> int {
        let flags = low_byte(vint_value(s, p));
        vint_end(s, p) + width(flags, 0x02, Self::stamp_size(flags))
    }

    /// Offset of the access time.
    pub open spec fn access_at(s: Seq<u8>, p: int) -> int {
        let flags = low_byte(vint_value(s, p));
        Self::creation_at(s, p) + width(flags, 0x04, Self::stamp_size(flags))
    }

    /// Offset of the nanoseconds of the modification time.
    pub open spec fn nanos_at(s: Seq<u8>, p: int) -> int {
        let flags = low_byte(vint_value(s, p));
        Self::access_at(s, p) + width(flags, 0x08, Self::stamp_size(flags))
    }

    /// Offset of the nanoseconds of the creation time.
    pub open spec fn creation_nanos_at(s: Seq<u8>, p: int) -> int {
        Self::nanos_at(s, p) + width(low_byte(vint_value(s, p)), 0x02, 4)
    }

    /// Offset of the nanoseconds of the access time.
    pub open spec fn access_nanos_at(s: Seq<u8>, p: int) -> int {
        Self::creation_nanos_at(s, p) + width(low_byte(vint_value(s, p)), 0x04, 4)
    }

    /// Number of bytes that the record occupies at offset `p`. Nanoseconds
    /// are stored for Unix timestamps alone.
    pub open spec fn size_at(s: Seq<u8>, p: int) -> int {
        let flags = low_byte(vint_value(s, p));
        if flags & 0x01 != 0 && flags & 0x10 != 0 {
            Self::access_nanos_at(s, p) + width(flags, 0x08, 4) - p
        } else {
            Self::nanos_at(s, p) - p
        }
    }

    /// The timestamps are those stored at offset `p`.
    pub open spec fn decodes(&self, s: Seq<u8>, p: int) -> bool {
        let flags = low_byte(vint_value(s, p));
        if flags & 0x01 != 0 {
            &&& self.modification_time == unix_stamp(
                s,
                flags,
                0x02,
                vint_end(s, p),
                Self::nanos_at(s, p),
            )
            &&& self.creation_time == unix_stamp(
                s,
                flags,
                0x04,
                Self::creation_at(s, p),
                Self::creation_nanos_at(s, p),
            )
            &&& self.access_time == unix_stamp(
                s,
                flags,
                0x08,
                Self::access_at(s, p),
                Self::access_nanos_at(s, p),
            )
        } else {
            &&& self.modification_time == windows_stamp(s, flags, 0x02, vint_end(s, p))
            &&& self.creation_time == windows_stamp(s, flags, 0x04, Self::creation_at(s, p))
            &&& self.access_time == windows_stamp(s, flags, 0x08, Self::access_at(s, p))
        }
    }

    /// Read the record at the cursor.
    pub fn read(r: &mut Reader) -> (res: Result<Self, Error>)
        ensures
            read_outcome(*old(r), *final(r), res, Self::size_at(old(r).bytes(), old(r).pos())),
            res matches Ok(record) ==> record.decodes(old(r).bytes(), old(r).pos()),
    {
        let flags = FileTimeRecordFlags::new(truncate_u8(read_vint_value(r)?));
        if flags.uses_unix_time() {
            let modification_time = read_optional_seconds(r, flags.has_modification_time())?;
            let creation_time = read_optional_seconds(r, flags.has_creation_time())?;
            let access_time = read_optional_seconds(r, flags.has_access_time())?;
            if !flags.has_unix_time_nanoseconds() {
                return Ok(FileTimeRecord { modification_time, creation_time, access_time });
            }
            let modification_time = read_nanoseconds(r, modification_time)?;
            let creation_time = read_nanoseconds(r, creation_time)?;
            let access_time = read_nanoseconds(r, access_time)?;
            Ok(FileTimeRecord { modification_time, creation_time, access_time })
        } else {
            let modification_time = read_optional_filetime(r, flags.has_modification_time())?;
            let creation_time = read_optional_filetime(r, flags.has_creation_time())?;
            let access_time = read_optional_filetime(r, flags.has_access_time())?;
            Ok(FileTimeRecord { modification_time, creation_time, access_time })
        }
    }
}

impl RecordRead for FileTimeRecord {
    open spec fn record_size(s: Seq<u8>, p: int) -> int {
        Self::size_at(s, p)
    }

    open spec fn record_decodes(&self, s: Seq<u8>, p: int) -> bool {
        self.decodes(s, p)
    }

    fn read_record(r: &mut Reader) -> (res: Result<Self, Error>) {
        Self::read(r)
    }
}

} // verus!
