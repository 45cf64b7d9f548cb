use rawrxd::error::Error;
use rawrxd::rar15::extended_time::read_extended_time_hundred_nanos;
use rawrxd::rar15::ExtendedTime;
use rawrxd::read::Reader;
use rawrxd::time_conv::DateTime;

#[test]
fn test_read_extended_time_nanos() -> Result<(), Error> {
    let mut reader = Reader::new(vec![0xFF, 0xEE, 0xDD]);
    assert_eq!(read_extended_time_hundred_nanos(&mut reader, 1)?, 0xFF0000);
    reader.seek(0);
    assert_eq!(read_extended_time_hundred_nanos(&mut reader, 3)?, 0xDDEEFF);
    Ok(())
}

#[test]
fn extended_time_increment_of_two_bytes_is_shifted_by_one() {
    let mut reader = Reader::new(vec![0x34, 0x12]);
    assert_eq!(read_extended_time_hundred_nanos(&mut reader, 2).unwrap(), 0x123400);
    assert_eq!(reader.stream_position(), 2);
    let mut reader = Reader::new(vec![0x34, 0x12]);
    assert_eq!(read_extended_time_hundred_nanos(&mut reader, 0).unwrap(), 0);
    assert_eq!(reader.stream_position(), 0);
}

fn instant(year: i32, month: u8, day: u8, hour: u8, minute: u8, second: u8, nanosecond: u32) -> DateTime {
    DateTime { year, month, day, hour, minute, second, nanosecond }
}

#[test]
fn extended_time_refines_the_modification_time() {
    // Flags 0xE000: modification time present, one second added, 2 bytes of
    // increment. Increment 0x0001 shifted by one byte: 256 units of 100 ns.
    let mut reader = Reader::new(vec![0x00, 0xe0, 0x01, 0x00]);
    let base = instant(2020, 2, 29, 23, 59, 58, 0);
    let times = ExtendedTime::read(&mut reader, Ok(base)).unwrap();
    assert_eq!(times.modification_time, Ok(instant(2020, 2, 29, 23, 59, 59, 25_600)));
    assert_eq!(times.creation_time, None);
    assert_eq!(times.access_time, None);
    assert_eq!(times.archive_time, None);
    assert_eq!(reader.stream_position(), 4);
}

#[test]
fn extended_time_adds_the_second_before_the_fraction() {
    // One second past the end of February in a leap year, then 0.1 s.
    // 0.1 s = 1_000_000 units of 100 ns = 0x0F4240.
    let mut reader = Reader::new(vec![0x00, 0xf0, 0x40, 0x42, 0x0f]);
    let base = instant(2020, 2, 29, 23, 59, 59, 0);
    let times = ExtendedTime::read(&mut reader, Ok(base)).unwrap();
    assert_eq!(times.modification_time, Ok(instant(2020, 3, 1, 0, 0, 0, 100_000_000)));
}

#[test]
fn extended_time_reads_the_other_timestamps_with_their_base() {
    // DOS time of 2021-03-04 05:06:08.
    let dos: u32 = ((2021 - 1980) << 25) | (3 << 21) | (4 << 16) | (5 << 11) | (6 << 5) | 4;
    let mut bytes = vec![0x80, 0x09];
    // Creation time, flags 0x9: present, 1 byte of increment.
    bytes.extend_from_slice(&dos.to_le_bytes());
    bytes.push(0x01);
    // Access time, flags 0x8: present, no increment.
    bytes.extend_from_slice(&dos.to_le_bytes());
    let mut reader = Reader::new(bytes);
    let times = ExtendedTime::read(&mut reader, Err(7)).unwrap();
    // A modification time that is no instant stays as it is.
    assert_eq!(times.modification_time, Err(7));
    assert_eq!(times.creation_time, Some(Ok(instant(2021, 3, 4, 5, 6, 8, 6_553_600))));
    assert_eq!(times.access_time, Some(Ok(instant(2021, 3, 4, 5, 6, 8, 0))));
    assert_eq!(times.archive_time, None);
    assert_eq!(reader.stream_position(), 11);
}

#[test]
fn extended_time_keeps_a_timestamp_that_is_no_instant() {
    // Month 0 is no month: the raw value is kept and no increment is read.
    let mut reader = Reader::new(vec![0x0b, 0x00, 0x00, 0x00, 0x00, 0x00, 0xaa, 0xbb, 0xcc]);
    let times = ExtendedTime::read(&mut reader, Err(0)).unwrap();
    assert_eq!(times.archive_time, Some(Err(0)));
    assert_eq!(reader.stream_position(), 6);
}

#[test]
fn extended_time_fails_on_a_short_read() {
    let mut reader = Reader::new(vec![0x00, 0xb0, 0x01]);
    let base = instant(2000, 1, 1, 0, 0, 0, 0);
    assert!(matches!(ExtendedTime::read(&mut reader, Ok(base)), Err(Error::UnexpectedEof)));
}
