use rawrxd::dos_time;
use rawrxd::time_conv::parse_dos_datetime;
use rawrxd::time_conv::parse_unix_timestamp_ns;
use rawrxd::time_conv::parse_unix_timestamp_sec;
use rawrxd::time_conv::parse_windows_filetime;
use rawrxd::time_conv::DateTime;

fn display(t: DateTime) -> String {
    let month = time::Month::try_from(t.month).unwrap();
    let date = time::Date::from_calendar_date(t.year, month, t.day).unwrap();
    let clock = time::Time::from_hms_nano(t.hour, t.minute, t.second, t.nanosecond).unwrap();
    format!("{}", time::PrimitiveDateTime::new(date, clock).assume_utc())
}

#[test]
fn test_parse_windows_filetime() {
    assert_eq!(
        display(parse_windows_filetime(128166372003061629).unwrap()),
        "2007-02-22 17:00:00.3061629 +00:00:00",
    );
    assert_eq!(
        display(parse_windows_filetime(0).unwrap()),
        "1601-01-01 0:00:00.0 +00:00:00"
    );
}

#[test]
fn windows_filetime_fields() {
    assert_eq!(
        parse_windows_filetime(0),
        Ok(DateTime { year: 1601, month: 1, day: 1, hour: 0, minute: 0, second: 0, nanosecond: 0 })
    );
    assert_eq!(
        parse_windows_filetime(128166372003061629),
        Ok(DateTime {
            year: 2007,
            month: 2,
            day: 22,
            hour: 17,
            minute: 0,
            second: 0,
            nanosecond: 306_162_900,
        })
    );
    // The Unix epoch, 11,644,473,600 seconds after the epoch of Windows.
    assert_eq!(
        parse_windows_filetime(116_444_736_000_000_000),
        Ok(DateTime { year: 1970, month: 1, day: 1, hour: 0, minute: 0, second: 0, nanosecond: 0 })
    );
}

#[test]
fn windows_filetime_beyond_the_calendar_keeps_the_raw_value() {
    // The last instant of the year 9999, and the tick after it.
    let last = (253_402_300_799u64 + 11_644_473_600) * 10_000_000 + 9_999_999;
    assert_eq!(
        parse_windows_filetime(last),
        Ok(DateTime {
            year: 9999,
            month: 12,
            day: 31,
            hour: 23,
            minute: 59,
            second: 59,
            nanosecond: 999_999_900,
        })
    );
    assert_eq!(parse_windows_filetime(last + 1), Err(last + 1));
    assert_eq!(parse_windows_filetime(u64::MAX), Err(u64::MAX));
}

#[test]
fn dos_datetime_fields() {
    // 2021-03-04 05:06:08: the seconds are stored halved.
    let dos: u32 = ((2021 - 1980) << 25) | (3 << 21) | (4 << 16) | (5 << 11) | (6 << 5) | 4;
    let expected =
        DateTime { year: 2021, month: 3, day: 4, hour: 5, minute: 6, second: 8, nanosecond: 0 };
    assert_eq!(parse_dos_datetime(dos), Ok(expected));
    assert_eq!(dos_time::parse(dos), Ok(expected));
    // The first and the last instant that the format can hold.
    assert_eq!(
        parse_dos_datetime((1 << 21) | (1 << 16)),
        Ok(DateTime { year: 1980, month: 1, day: 1, hour: 0, minute: 0, second: 0, nanosecond: 0 })
    );
    let last: u32 = (127 << 25) | (12 << 21) | (31 << 16) | (23 << 11) | (59 << 5) | 29;
    assert_eq!(
        parse_dos_datetime(last),
        Ok(DateTime {
            year: 2107,
            month: 12,
            day: 31,
            hour: 23,
            minute: 59,
            second: 58,
            nanosecond: 0,
        })
    );
}

#[test]
fn dos_datetime_out_of_range_keeps_the_raw_value() {
    let date: u32 = (1 << 21) | (1 << 16);
    // Month 0, month 13, day 0.
    assert_eq!(parse_dos_datetime(0), Err(0));
    assert_eq!(parse_dos_datetime((13 << 21) | (1 << 16)), Err((13 << 21) | (1 << 16)));
    assert_eq!(parse_dos_datetime(1 << 21), Err(1 << 21));
    // Hour 24, minute 60, second 60.
    assert_eq!(parse_dos_datetime(date | (24 << 11)), Err(date | (24 << 11)));
    assert_eq!(parse_dos_datetime(date | (60 << 5)), Err(date | (60 << 5)));
    assert_eq!(parse_dos_datetime(date | 30), Err(date | 30));
    // 29 February exists in leap years alone: 2000 is one, 2100 is none.
    let feb29 = |year: u32| ((year - 1980) << 25) | (2 << 21) | (29 << 16);
    assert!(parse_dos_datetime(feb29(2000)).is_ok());
    assert!(parse_dos_datetime(feb29(2004)).is_ok());
    assert_eq!(parse_dos_datetime(feb29(2001)), Err(feb29(2001)));
    assert_eq!(parse_dos_datetime(feb29(2100)), Err(feb29(2100)));
    // 31 April does not exist.
    let apr31 = (4 << 21) | (31 << 16);
    assert_eq!(parse_dos_datetime(apr31), Err(apr31));
}

#[test]
fn unix_timestamps() {
    assert_eq!(
        parse_unix_timestamp_sec(0),
        Ok(DateTime { year: 1970, month: 1, day: 1, hour: 0, minute: 0, second: 0, nanosecond: 0 })
    );
    assert_eq!(
        parse_unix_timestamp_sec(1_546_300_800),
        Ok(DateTime { year: 2019, month: 1, day: 1, hour: 0, minute: 0, second: 0, nanosecond: 0 })
    );
    assert_eq!(
        parse_unix_timestamp_sec(u32::MAX),
        Ok(DateTime { year: 2106, month: 2, day: 7, hour: 6, minute: 28, second: 15, nanosecond: 0 })
    );
    assert_eq!(
        parse_unix_timestamp_ns(1_546_300_800_000_000_123),
        Ok(DateTime {
            year: 2019,
            month: 1,
            day: 1,
            hour: 0,
            minute: 0,
            second: 0,
            nanosecond: 123,
        })
    );
    assert_eq!(
        parse_unix_timestamp_ns(u64::MAX),
        Ok(DateTime {
            year: 2554,
            month: 7,
            day: 21,
            hour: 23,
            minute: 34,
            second: 33,
            nanosecond: 709_551_615,
        })
    );
}
