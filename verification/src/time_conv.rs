//! Conversions from the packed timestamps found in archives to calendar time.
//!
//! A conversion that fails hands back the number that was stored, so that no
//! information is lost.
use vstd::prelude::*;

verus! {

/// A calendar date and time of day, without a time zone.
///
/// Timestamps counted from an epoch are given in UTC.
#[derive(Debug, Clone, Copy, PartialEq, Eq, Structural)]
pub struct DateTime {
    pub year: i32,
    /// Month of the year, from 1 for January to 12 for December.
    pub month: u8,
    /// Day of the month, from 1.
    pub day: u8,
    pub hour: u8,
    pub minute: u8,
    pub second: u8,
    pub nanosecond: u32,
}

/// Whether `year` is a leap year of the proleptic Gregorian calendar.
pub open spec fn is_leap_year(year: int) -> bool {
    year % 4 == 0 && (year % 100 != 0 || year % 400 == 0)
}

/// Number of days of the given month of `year`.
pub open spec fn days_in_month(year: int, month: int) -> int {
    if month == 2 {
        if is_leap_year(year) {
            29
        } else {
            28
        }
    } else if month == 4 || month == 6 || month == 9 || month == 11 {
        30
    } else {
        31
    }
}

/// Whether the three numbers name a day of the calendar, in the years that
/// a [`DateTime`] can hold.
pub open spec fn valid_date(year: int, month: int, day: int) -> bool {
    &&& -9999 <= year <= 9999
    &&& 1 <= month <= 12
    &&& 1 <= day <= days_in_month(year, month)
}

/// Whether the three numbers name a second of the day.
pub open spec fn valid_time(hour: int, minute: int, second: int) -> bool {
    &&& 0 <= hour < 24
    &&& 0 <= minute < 60
    &&& 0 <= second < 60
}

impl DateTime {
    /// The fields name an instant of the calendar.
    pub open spec fn wf(&self) -> bool {
        &&& valid_date(self.year as int, self.month as int, self.day as int)
        &&& valid_time(self.hour as int, self.minute as int, self.second as int)
        &&& self.nanosecond < 1_000_000_000
    }
}

/// Seconds field of an MS-DOS timestamp: the low 5 bits count pairs of seconds.
pub open spec fn dos_second(dos_time: u32) -> int {
    (dos_time % 32) * 2
}

/// Minutes field of an MS-DOS timestamp: 6 bits above the seconds.
pub open spec fn dos_minute(dos_time: u32) -> int {
    ((dos_time / 0x20) % 64) as int
}

/// Hours field of an MS-DOS timestamp: 5 bits above the minutes.
pub open spec fn dos_hour(dos_time: u32) -> int {
    ((dos_time / 0x800) % 32) as int
}

/// Day field of an MS-DOS timestamp: the low 5 bits of the upper half.
pub open spec fn dos_day(dos_time: u32) -> int {
    ((dos_time / 0x1_0000) % 32) as int
}

/// Month field of an MS-DOS timestamp: 4 bits above the day.
pub open spec fn dos_month(dos_time: u32) -> int {
    ((dos_time / 0x20_0000) % 16) as int
}

/// Year of an MS-DOS timestamp: the top 7 bits count years from 1980.
pub open spec fn dos_year(dos_time: u32) -> int {
    dos_time / 0x200_0000 + 1980
}

/// Whether the fields of an MS-DOS timestamp name an instant of the calendar.
pub open spec fn dos_valid(dos_time: u32) -> bool {
    &&& valid_time(dos_hour(dos_time), dos_minute(dos_time), dos_second(dos_time))
    &&& valid_date(dos_year(dos_time), dos_month(dos_time), dos_day(dos_time))
}

/// The instant that the fields of an MS-DOS timestamp name.
pub open spec fn dos_datetime(dos_time: u32) -> DateTime {
    DateTime {
        year: dos_year(dos_time) as i32,
        month: dos_month(dos_time) as u8,
        day: dos_day(dos_time) as u8,
        hour: dos_hour(dos_time) as u8,
        minute: dos_minute(dos_time) as u8,
        second: dos_second(dos_time) as u8,
        nanosecond: 0,
    }
}

/// Validates a time of day through `time::Time::from_hms`, which accepts an
/// hour below 24 with a minute and a second below 60, and nothing else. The
/// accepted time is read back from the value that the call built.
#[verifier::external_body]
fn checked_hms(hour: u8, minute: u8, second: u8) -> (res: Option<(u8, u8, u8)>)
    ensures
        res == if valid_time(hour as int, minute as int, second as int) {
            Some((hour, minute, second))
        } else {
            None
        },
{
    match time::Time::from_hms(hour, minute, second) {
        Ok(t) => Some((t.hour(), t.minute(), t.second())),
        Err(_) => None,
    }
}

/// Validates a date through `time::Date::from_calendar_date`, after
/// `time::Month::try_from` has turned the month's number into a month. For a
/// year that every configuration of the calendar accepts, the call succeeds
/// exactly when the month is between 1 and 12 and the day exists in that
/// month of that year. The accepted date is read back from the value that the
/// call built.
#[verifier::external_body]
fn checked_calendar_date(year: i32, month: u8, day: u8) -> (res: Option<(i32, u8, u8)>)
    requires
        -9999 <= year <= 9999,
    ensures
        res == if valid_date(year as int, month as int, day as int) {
            Some((year, month, day))
        } else {
            None
        },
{
    let named = match time::Month::try_from(month) {
        Ok(m) => m,
        Err(_) => return None,
    };
    match time::Date::from_calendar_date(year, named, day) {
        Ok(d) => Some((d.year(), u8::from(d.month()), d.day())),
        Err(_) => None,
    }
}

proof fn lemma_dos_fields(d: u32)
    by (bit_vector)
    ensures
        (d & 0x1f) * 2 == (d % 32) * 2,
        (d >> 5) & 0x3f == (d / 0x20) % 64,
        (d >> 11) & 0x1f == (d / 0x800) % 32,
        (d >> 16) & 0x1f == (d / 0x1_0000) % 32,
        (d >> 21) & 0x0f == (d / 0x20_0000) % 16,
        (d >> 25) == d / 0x200_0000,
        (d >> 25) < 128,
{
}

/// The raw value when a conversion gave nothing, else the converted instant.
pub fn or_raw<T>(converted: Option<DateTime>, raw: T) -> (res: Result<DateTime, T>)
    ensures
        res == match converted {
            Some(t) => Ok::<DateTime, T>(t),
            None => Err::<DateTime, T>(raw),
        },
{
    match converted {
        Some(t) => Ok(t),
        None => Err(raw),
    }
}

/// Parse an MS-DOS datetime value.
///
/// The time has a precision of two seconds. A value whose fields do not name
/// an instant of the calendar is handed back as it is.
pub fn parse_dos_datetime(dos_time: u32) -> (res: Result<DateTime, u32>)
    ensures
        res == if dos_valid(dos_time) {
            Ok::<DateTime, u32>(dos_datetime(dos_time))
        } else {
            Err::<DateTime, u32>(dos_time)
        },
        res matches Ok(t) ==> t.wf(),
{
    proof {
        lemma_dos_fields(dos_time);
    }
    let second = ((dos_time & 0x1f) * 2) as u8;
    let minute = ((dos_time >> 5) & 0x3f) as u8;
    let hour = ((dos_time >> 11) & 0x1f) as u8;
    let day = ((dos_time >> 16) & 0x1f) as u8;
    let month = ((dos_time >> 21) & 0x0f) as u8;
    let year = ((dos_time >> 25) + 1980) as i32;
    let clock = checked_hms(hour, minute, second);
    let date = checked_calendar_date(year, month, day);
    match (clock, date) {
        (Some((hour, minute, second)), Some((year, month, day))) => Ok(
            DateTime { year, month, day, hour, minute, second, nanosecond: 0 },
        ),
        _ => Err(dos_time),
    }
}

/// Nanoseconds in one second.
pub const ONE_SECOND_NS: i128 = 1_000_000_000;

/// Nanoseconds in one tick of a Windows FILETIME.
pub const WINDOWS_TICK_NS: i128 = 100;

/// Nanoseconds from 1601-01-01, the epoch of Windows, to 1970-01-01, the epoch of Unix.
pub const WINDOWS_EPOCH_DIFFERENCE: i128 = 11_644_473_600_000_000_000;

/// First second, counted from the Unix epoch, of the years that a [`DateTime`] can hold.
pub const MIN_UNIX_SECONDS: i64 = -377_705_116_800;

/// Last second, counted from the Unix epoch, of the years that a [`DateTime`] can hold.
pub const MAX_UNIX_SECONDS: i64 = 253_402_300_799;

/// The instant in UTC that lies the given number of whole seconds after the
/// Unix epoch, or before it for a negative number: what
/// `time::OffsetDateTime::from_unix_timestamp` computes.
pub uninterp spec fn unix_datetime(seconds: int) -> DateTime;

/// The instant in UTC that lies `nanos` nanoseconds from the Unix epoch, where
/// the calendar reaches that far.
pub open spec fn nanos_datetime(nanos: int) -> Option<DateTime> {
    let seconds = nanos / (ONE_SECOND_NS as int);
    if MIN_UNIX_SECONDS <= seconds <= MAX_UNIX_SECONDS {
        Some(
            DateTime {
                nanosecond: (nanos % (ONE_SECOND_NS as int)) as u32,
                ..unix_datetime(seconds)
            },
        )
    } else {
        None
    }
}

/// Converts whole seconds from the Unix epoch through
/// `time::OffsetDateTime::from_unix_timestamp`. Within the years -9999 to
/// 9999 the call succeeds; the result is in UTC, names an instant of the
/// calendar and has no fraction of a second. Its fields are read out one for
/// one.
#[verifier::external_body]
fn datetime_from_unix_seconds(seconds: i64) -> (res: Option<DateTime>)
    requires
        MIN_UNIX_SECONDS <= seconds <= MAX_UNIX_SECONDS,
    ensures
        res == Some(unix_datetime(seconds as int)),
        match res {
            Some(t) => t.wf() && t.nanosecond == 0,
            None => false,
        },
{
    match time::OffsetDateTime::from_unix_timestamp(seconds) {
        Ok(t) => Some(
            DateTime {
                year: t.year(),
                month: u8::from(t.month()),
                day: t.day(),
                hour: t.hour(),
                minute: t.minute(),
                second: t.second(),
                nanosecond: t.nanosecond(),
            },
        ),
        Err(_) => None,
    }
}

/// Converts nanoseconds from the Unix epoch through
/// `time::OffsetDateTime::from_unix_timestamp_nanos`. The call splits the
/// number into whole seconds, rounded down, and the nanoseconds left over;
/// it fails where the seconds lie outside the years -9999 to 9999, and else
/// gives the instant of those seconds with the nanoseconds put in. Its fields
/// are read out one for one.
#[verifier::external_body]
fn datetime_from_unix_nanos(nanos: i128) -> (res: Option<DateTime>)
    ensures
        res == nanos_datetime(nanos as int),
        match res {
            Some(t) => t.wf(),
            None => true,
        },
{
    match time::OffsetDateTime::from_unix_timestamp_nanos(nanos) {
        Ok(t) => Some(
            DateTime {
                year: t.year(),
                month: u8::from(t.month()),
                day: t.day(),
                hour: t.hour(),
                minute: t.minute(),
                second: t.second(),
                nanosecond: t.nanosecond(),
            },
        ),
        Err(_) => None,
    }
}

/// Nanoseconds from the Unix epoch to the instant that a Windows FILETIME names.
pub open spec fn windows_nanos(filetime: u64) -> int {
    filetime * (WINDOWS_TICK_NS as int) - (WINDOWS_EPOCH_DIFFERENCE as int)
}

/// Parse a Windows FILETIME: the number of 100-nanosecond ticks since
/// 1601-01-01T00:00:00Z. A value beyond the calendar is handed back as it is.
pub fn parse_windows_filetime(filetime: u64) -> (res: Result<DateTime, u64>)
    ensures
        res == match nanos_datetime(windows_nanos(filetime)) {
            Some(t) => Ok::<DateTime, u64>(t),
            None => Err::<DateTime, u64>(filetime),
        },
        res matches Ok(t) ==> t.wf(),
{
    let unix_timestamp_ns = (filetime as i128) * WINDOWS_TICK_NS - WINDOWS_EPOCH_DIFFERENCE;
    or_raw(datetime_from_unix_nanos(unix_timestamp_ns), filetime)
}

/// Parse a count of seconds since the Unix epoch. Every 32-bit count lies
/// within the calendar.
pub fn parse_unix_timestamp_sec(seconds: u32) -> (res: Result<DateTime, u32>)
    ensures
        res == Ok::<DateTime, u32>(unix_datetime(seconds as int)),
        res matches Ok(t) && t.wf(),
{
    or_raw(datetime_from_unix_seconds(seconds as i64), seconds)
}

/// Parse a count of nanoseconds since the Unix epoch. Every 64-bit count lies
/// within the calendar.
pub fn parse_unix_timestamp_ns(nanoseconds: u64) -> (res: Result<DateTime, u64>)
    ensures
        res == match nanos_datetime(nanoseconds as int) {
            Some(t) => Ok::<DateTime, u64>(t),
            None => Err::<DateTime, u64>(nanoseconds),
        },
        res matches Ok(t) && t.wf(),
{
    or_raw(datetime_from_unix_nanos(nanoseconds as i128), nanoseconds)
}

/// The instant `nanos` nanoseconds after `t`, held at the last instant of the
/// calendar where the sum would pass it: what
/// `time::PrimitiveDateTime::saturating_add` computes.
pub uninterp spec fn datetime_plus_nanos(t: DateTime, nanos: int) -> DateTime;

/// Adds nanoseconds to an instant through
/// `time::PrimitiveDateTime::saturating_add`, with the span built by
/// `time::Duration::nanoseconds`. The instant is handed over and the sum read
/// out field for field; the sum is again an instant of the calendar.
#[verifier::external_body]
pub(crate) fn saturating_add_nanos(t: DateTime, nanos: i64) -> (res: DateTime)
    requires
        t.wf(),
    ensures
        res == datetime_plus_nanos(t, nanos as int),
        res.wf(),
{
    let month = time::Month::try_from(t.month).unwrap();
    let date = time::Date::from_calendar_date(t.year, month, t.day).unwrap();
    let clock = time::Time::from_hms_nano(t.hour, t.minute, t.second, t.nanosecond).unwrap();
    let sum = time::PrimitiveDateTime::new(date, clock).saturating_add(
        time::Duration::nanoseconds(nanos),
    );
    DateTime {
        year: sum.year(),
        month: u8::from(sum.month()),
        day: sum.day(),
        hour: sum.hour(),
        minute: sum.minute(),
        second: sum.second(),
        nanosecond: sum.nanosecond(),
    }
}

} // verus!
