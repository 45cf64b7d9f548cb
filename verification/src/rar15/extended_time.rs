//! "Extended time" refines the timestamps of RAR15, which are stored in
//! MS-DOS format and so have a precision of two seconds.
//!
//! First comes a 16-bit word that holds four groups of flags, one for each
//! timestamp:
//!
//! | Bits  | Timestamp         |
//! | ----- | ----------------- |
//! | 15-12 | modification time |
//! | 11-8  | creation time     |
//! | 7-4   | access time       |
//! | 3-0   | archive time      |
//!
//! Each group has this format:
//!
//! | Mask | Meaning                               |
//! | ---- | ------------------------------------- |
//! | 0x08 | Timestamp is present                  |
//! | 0x04 | Add one second to the timestamp       |
//! | 0x03 | Number of bytes of the increment      |
//!
//! For a timestamp that is present, and is not the modification time (which
//! was read before), a 32-bit timestamp in MS-DOS format follows. After it
//! come the bytes of an increment in units of 100 ns, most significant bytes
//! only: an increment of N bytes is shifted up by 3 - N bytes.
use crate::error::Error;
use crate::read::le_u16;
use crate::read::le_u32;
use crate::read::le_uint;
use crate::read::lemma_le_uint_bound;
use crate::read::read_outcome;
use crate::read::read_u16;
use crate::read::read_u32;
use crate::read::read_vint_sized;
use crate::read::Reader;
use crate::time_conv::datetime_plus_nanos;
use crate::time_conv::dos_datetime;
use crate::time_conv::dos_valid;
use crate::time_conv::parse_dos_datetime;
use crate::time_conv::saturating_add_nanos;
use crate::time_conv::DateTime;
use vstd::prelude::*;

verus! {

/// The timestamps of a file, refined to a precision of 100 ns.
#[derive(Debug, Clone, Copy)]
pub struct ExtendedTime {
    pub modification_time: Result<DateTime, u32>,
    pub creation_time: Option<Result<DateTime, u32>>,
    pub access_time: Option<Result<DateTime, u32>>,
    /// Said never to be used, but it is read where it is present.
    pub archive_time: Option<Result<DateTime, u32>>,
}

/// The group of flags of one timestamp.
#[derive(Debug, Clone, Copy)]
pub struct ExtendedTimeFlags {
    bits: u8,
}

/// The group of flags with the given index in the flag word: 3 for the
/// modification time down to 0 for the archive time.
pub open spec fn time_flags(all_flags: u16, index: int) -> u8 {
    if index == 3 {
        (all_flags / 0x1000) as u8
    } else if index == 2 {
        ((all_flags / 0x100) % 0x10) as u8
    } else if index == 1 {
        ((all_flags / 0x10) % 0x10) as u8
    } else {
        (all_flags % 0x10) as u8
    }
}

/// Number of bytes of the increment that a group of flags announces.
pub open spec fn precision(group: u8) -> int {
    (group & 0x3) as int
}

/// The increment, in units of 100 ns, stored in `size` bytes at offset `p`:
/// the bytes are the most significant of three.
pub open spec fn hundred_nanos(s: Seq<u8>, p: int, size: int) -> int {
    if size >= 3 {
        le_uint(s, p, 3)
    } else if size == 2 {
        le_uint(s, p, 2) * 0x100
    } else if size == 1 {
        le_uint(s, p, 1) * 0x1_0000
    } else {
        0
    }
}

/// The timestamp `t` with the increments applied that its group of flags
/// announces and that are stored at offset `p`: first the second, then the
/// fraction.
pub open spec fn incremented(s: Seq<u8>, p: int, t: DateTime, group: u8) -> DateTime {
    let base = if group & 0x4 != 0 {
        datetime_plus_nanos(t, 1_000_000_000)
    } else {
        t
    };
    datetime_plus_nanos(base, hundred_nanos(s, p, precision(group)) * 100)
}

/// Number of bytes that an optional timestamp with its increment occupies at
/// offset `p`. The increment is absent where the timestamp is no instant of
/// the calendar.
pub open spec fn stamp_size(s: Seq<u8>, p: int, group: u8) -> int {
    if group & 0x8 == 0 {
        0
    } else if dos_valid(le_u32(s, p)) {
        4 + precision(group)
    } else {
        4
    }
}

/// The optional timestamp stored at offset `p`.
pub open spec fn stamp(s: Seq<u8>, p: int, group: u8) -> Option<Result<DateTime, u32>> {
    if group & 0x8 == 0 {
        None
    } else if dos_valid(le_u32(s, p)) {
        Some(Ok(incremented(s, p + 4, dos_datetime(le_u32(s, p)), group)))
    } else {
        Some(Err(le_u32(s, p)))
    }
}

/// Number of bytes that the increment of the modification time occupies.
pub open spec fn refinement_size(modification_time: Result<DateTime, u32>, group: u8) -> int {
    if modification_time is Ok && group & 0x8 != 0 {
        precision(group)
    } else {
        0
    }
}

/// The modification time after its increment, stored at offset `p`, was
/// applied. A time that is no instant of the calendar stays as it is.
pub open spec fn refined(
    s: Seq<u8>,
    p: int,
    modification_time: Result<DateTime, u32>,
    group: u8,
) -> Result<DateTime, u32> {
    match modification_time {
        Ok(t) => if group & 0x8 != 0 {
            Ok(incremented(s, p, t, group))
        } else {
            modification_time
        },
        Err(_) => modification_time,
    }
}

impl ExtendedTimeFlags {
    /// The four bits of the group.
    pub closed spec fn bits(&self) -> u8 {
        self.bits
    }

    /// The group with index `shift` of the flag word: 3 for the modification
    /// time down to 0 for the archive time.
    pub fn shifted(flags: u16, shift: u8) -> (group: Self)
        requires
            shift <= 3,
        ensures
            group.bits() == time_flags(flags, shift as int),
    {
        assert((flags >> 12) & 0xf == flags / 0x1000 && (flags >> 8) & 0xf == (flags / 0x100) % 0x10
            && (flags >> 4) & 0xf == (flags / 0x10) % 0x10 && flags & 0xf == flags % 0x10)
            by (bit_vector);
        let bits = if shift == 3 {
            (flags >> 12) & 0xf
        } else if shift == 2 {
            (flags >> 8) & 0xf
        } else if shift == 1 {
            (flags >> 4) & 0xf
        } else {
            flags & 0xf
        };
        Self { bits: bits as u8 }
    }

    /// The timestamp is present.
    pub fn is_present(&self) -> (set: bool)
        ensures
            set == (self.bits() & 0x8 != 0),
    {
        self.bits & 0x8 != 0
    }

    /// One second is to be added to the timestamp.
    pub fn add_second(&self) -> (set: bool)
        ensures
            set == (self.bits() & 0x4 != 0),
    {
        self.bits & 0x4 != 0
    }

    /// Number of bytes of the increment, at most 3.
    pub fn hundred_nanos_increment_precision(&self) -> (size: u8)
        ensures
            size == precision(self.bits()),
            size <= 3,
    {
        let bits = self.bits;
        assert(bits & 0x3 <= 3) by (bit_vector);
        self.bits & 0x3
    }
}

impl ExtendedTime {
    /// Offset of the creation time within the field at offset `p`.
    pub open spec fn creation_at(
        s: Seq<u8>,
        p: int,
        modification_time: Result<DateTime, u32>,
    ) -> int {
        p + 2 + refinement_size(modification_time, time_flags(le_u16(s, p), 3))
    }

    /// Offset of the access time within the field at offset `p`.
    pub open spec fn access_at(s: Seq<u8>, p: int, modification_time: Result<DateTime, u32>) -> int {
        let at = Self::creation_at(s, p, modification_time);
        at + stamp_size(s, at, time_flags(le_u16(s, p), 2))
    }

    /// Offset of the archive time within the field at offset `p`.
    pub open spec fn archive_at(s: Seq<u8>, p: int, modification_time: Result<DateTime, u32>) -> int {
        let at = Self::access_at(s, p, modification_time);
        at + stamp_size(s, at, time_flags(le_u16(s, p), 1))
    }

    /// Number of bytes that the field at offset `p` occupies.
    pub open spec fn size_at(s: Seq<u8>, p: int, modification_time: Result<DateTime, u32>) -> int {
        let at = Self::archive_at(s, p, modification_time);
        at + stamp_size(s, at, time_flags(le_u16(s, p), 0)) - p
    }

    /// The timestamps are those stored in the field at offset `p`, the
    /// modification time being the one given with its increment applied.
    pub open spec fn decodes(
        &self,
        s: Seq<u8>,
        p: int,
        modification_time: Result<DateTime, u32>,
    ) -> bool {
        let all_flags = le_u16(s, p);
        &&& self.modification_time == refined(s, p + 2, modification_time, time_flags(all_flags, 3))
        &&& self.creation_time == stamp(
            s,
            Self::creation_at(s, p, modification_time),
            time_flags(all_flags, 2),
        )
        &&& self.access_time == stamp(
            s,
            Self::access_at(s, p, modification_time),
            time_flags(all_flags, 1),
        )
        &&& self.archive_time == stamp(
            s,
            Self::archive_at(s, p, modification_time),
            time_flags(all_flags, 0),
        )
    }

    /// Every timestamp that is an instant names one of the calendar.
    pub open spec fn wf(&self) -> bool {
        &&& self.modification_time matches Ok(t) ==> t.wf()
        &&& self.creation_time matches Some(Ok(t)) ==> t.wf()
        &&& self.access_time matches Some(Ok(t)) ==> t.wf()
        &&& self.archive_time matches Some(Ok(t)) ==> t.wf()
    }

    /// Read the extended time field; `modification_time` is the
    /// modification time that the header gave before.
    pub fn read(r: &mut Reader, modification_time: Result<DateTime, u32>) -> (res: Result<
        Self,
        Error,
    >)
        requires
            modification_time matches Ok(t) ==> t.wf(),
        ensures
            read_outcome(
                *old(r),
                *final(r),
                res,
                Self::size_at(old(r).bytes(), old(r).pos(), modification_time),
            ),
            res matches Ok(ext) ==> ext.decodes(old(r).bytes(), old(r).pos(), modification_time)
                && ext.wf(),
    {
        let all_flags = read_u16(r)?;
        // The modification time itself was read before: only its increment is here.
        let flags = ExtendedTimeFlags::shifted(all_flags, 3);
        let modification_time = match modification_time {
            Ok(t) => if flags.is_present() {
                Ok(read_extended_time_increments(r, t, flags)?)
            } else {
                modification_time
            },
            Err(_) => modification_time,
        };
        let creation_time = read_extended_time(r, ExtendedTimeFlags::shifted(all_flags, 2))?;
        let access_time = read_extended_time(r, ExtendedTimeFlags::shifted(all_flags, 1))?;
        let archive_time = read_extended_time(r, ExtendedTimeFlags::shifted(all_flags, 0))?;
        Ok(ExtendedTime { modification_time, creation_time, access_time, archive_time })
    }
}

/// Read a timestamp in MS-DOS format and add the extended time increments.
pub fn read_extended_time(r: &mut Reader, flags: ExtendedTimeFlags) -> (res: Result<
    Option<Result<DateTime, u32>>,
    Error,
>)
    ensures
        read_outcome(
            *old(r),
            *final(r),
            res,
            stamp_size(old(r).bytes(), old(r).pos(), flags.bits()),
        ),
        res matches Ok(t) ==> t == stamp(old(r).bytes(), old(r).pos(), flags.bits()) && (
        t matches Some(Ok(instant)) ==> instant.wf()),
{
    if flags.is_present() {
        let time = read_u32(r)?;
        match parse_dos_datetime(time) {
            Ok(t) => Ok(Some(Ok(read_extended_time_increments(r, t, flags)?))),
            Err(_) => Ok(Some(Err(time))),
        }
    } else {
        Ok(None)
    }
}

/// Read the extended time increments and add them to the timestamp.
pub fn read_extended_time_increments(r: &mut Reader, t: DateTime, flags: ExtendedTimeFlags) -> (res:
    Result<DateTime, Error>)
    requires
        t.wf(),
    ensures
        read_outcome(*old(r), *final(r), res, precision(flags.bits())),
        res matches Ok(sum) ==> sum == incremented(old(r).bytes(), old(r).pos(), t, flags.bits())
            && sum.wf(),
{
    let mut t = t;
    if flags.add_second() {
        t = saturating_add_nanos(t, 1_000_000_000);
    }
    let precision = flags.hundred_nanos_increment_precision();
    let hundred_nanos = read_extended_time_hundred_nanos(r, precision)?;
    let nanos = hundred_nanos * 100;
    Ok(saturating_add_nanos(t, nanos as i64))
}

/// Read an integer of `size` bytes and shift it up by `3 - size` bytes.
pub fn read_extended_time_hundred_nanos(r: &mut Reader, size: u8) -> (res: Result<u32, Error>)
    requires
        size <= 3,
    ensures
        read_outcome(*old(r), *final(r), res, size as int),
        res matches Ok(v) ==> v == hundred_nanos(old(r).bytes(), old(r).pos(), size as int) && v
            < 0x100_0000,
{
    proof {
        lemma_le_uint_bound(r.bytes(), r.pos(), size as int);
    }
    let num = read_vint_sized(r, size)? as u32;
    assert((num < 0x1_0000 ==> (num << 8) == num * 0x100) && (num < 0x100 ==> (num << 16) == num
        * 0x1_0000)) by (bit_vector);
    let shifted = if size == 3 {
        num
    } else if size == 2 {
        num << 8
    } else if size == 1 {
        num << 16
    } else {
        0
    };
    Ok(shifted)
}

} // verus!
