use rawrxd::error::Error;
use rawrxd::read::join_u32;
use rawrxd::read::read_const_bytes;
use rawrxd::read::read_optional_vint;
use rawrxd::read::read_string;
use rawrxd::read::read_to_end;
use rawrxd::read::read_u16;
use rawrxd::read::read_u32;
use rawrxd::read::read_u64;
use rawrxd::read::read_u8;
use rawrxd::read::read_vec;
use rawrxd::read::read_vec_u64;
use rawrxd::read::read_vint;
use rawrxd::read::read_vint_sized;
use rawrxd::read::read_vint_value;
use rawrxd::read::truncate_u16;
use rawrxd::read::truncate_u8;
use rawrxd::read::Reader;

/// The canonical encoding of `value`: 7 bits per byte, low bits first, the
/// high bit set on every byte but the last.
fn encode_vint(mut value: u64) -> Vec<u8> {
    let mut bytes = Vec::new();
    loop {
        let group = (value & 0x7f) as u8;
        value >>= 7;
        if value == 0 {
            bytes.push(group);
            return bytes;
        }
        bytes.push(group | 0x80);
    }
}

#[test]
fn vint_round_trip() {
    for value in [0u64, 127, 128, 16383, 16384, (1 << 35) - 1, u64::MAX] {
        let encoded = encode_vint(value);
        let mut reader = Reader::new(encoded.clone());
        let (decoded, size) = read_vint(&mut reader).unwrap();
        assert_eq!(decoded, value);
        assert_eq!(size as usize, encoded.len());
        assert_eq!(reader.stream_position(), encoded.len() as u64);
    }
}

#[test]
fn vint_sizes() {
    assert_eq!(encode_vint(0), vec![0x00]);
    assert_eq!(encode_vint(127), vec![0x7f]);
    assert_eq!(encode_vint(128), vec![0x80, 0x01]);
    assert_eq!(encode_vint(16383), vec![0xff, 0x7f]);
    assert_eq!(encode_vint(16384), vec![0x80, 0x80, 0x01]);
    assert_eq!(encode_vint((1 << 35) - 1).len(), 5);
    assert_eq!(encode_vint(u64::MAX).len(), 10);
}

#[test]
fn vint_stops_at_the_first_byte_without_the_flag() {
    let mut reader = Reader::new(vec![0x85, 0x03, 0xff, 0xff]);
    assert_eq!(read_vint(&mut reader).unwrap(), (0x185, 2));
    assert_eq!(reader.stream_position(), 2);
    // An encoding that is longer than it needs to be is read all the same.
    let mut reader = Reader::new(vec![0x81, 0x80, 0x00]);
    assert_eq!(read_vint(&mut reader).unwrap(), (1, 3));
}

#[test]
fn vint_of_ten_bytes_with_the_flag_is_cut() {
    // All ten bytes carry the flag: the value is cut to 64 bits and the
    // eleventh byte is left alone.
    let mut reader = Reader::new(vec![0xff; 11]);
    assert_eq!(read_vint(&mut reader).unwrap(), (u64::MAX, 10));
    assert_eq!(reader.stream_position(), 10);
    // Of the tenth byte the lowest bit alone fits.
    let mut bytes = vec![0x80; 9];
    bytes.push(0xfe);
    let mut reader = Reader::new(bytes);
    assert_eq!(read_vint(&mut reader).unwrap(), (0, 10));
    let mut bytes = vec![0x80; 9];
    bytes.push(0x03);
    let mut reader = Reader::new(bytes);
    assert_eq!(read_vint(&mut reader).unwrap(), (1 << 63, 10));
}

#[test]
fn vint_fails_at_the_end_of_the_data() {
    let mut reader = Reader::new(vec![0x80, 0x80]);
    assert!(matches!(read_vint(&mut reader), Err(Error::UnexpectedEof)));
    assert_eq!(reader.stream_position(), 2);
    let mut reader = Reader::new(vec![]);
    assert!(matches!(read_vint(&mut reader), Err(Error::UnexpectedEof)));
    assert!(matches!(read_vint_value(&mut reader), Err(Error::UnexpectedEof)));
}

#[test]
fn optional_vint_reads_nothing_when_absent() {
    let mut reader = Reader::new(vec![0x85, 0x03]);
    assert_eq!(read_optional_vint(&mut reader, false).unwrap(), None);
    assert_eq!(reader.stream_position(), 0);
    assert_eq!(read_optional_vint(&mut reader, true).unwrap(), Some(0x185));
    assert_eq!(reader.stream_position(), 2);
}

#[test]
fn fixed_width_integers_are_little_endian() {
    let bytes = vec![0x01, 0x02, 0x03, 0x04, 0x05, 0x06, 0x07, 0x08];
    let mut reader = Reader::new(bytes.clone());
    assert_eq!(read_u8(&mut reader).unwrap(), 0x01);
    assert_eq!(read_u16(&mut reader).unwrap(), 0x0302);
    assert_eq!(read_u32(&mut reader).unwrap(), 0x07060504);
    assert_eq!(reader.stream_position(), 7);
    let mut reader = Reader::new(bytes);
    assert_eq!(read_u64(&mut reader).unwrap(), 0x0807060504030201);
    assert_eq!(reader.stream_position(), 8);
    assert_eq!(join_u32(0x04030201, 0x08070605), 0x0807060504030201);
}

#[test]
fn short_reads_fail_and_leave_the_cursor_at_the_end() {
    let mut reader = Reader::new(vec![1, 2, 3]);
    assert!(matches!(read_u32(&mut reader), Err(Error::UnexpectedEof)));
    assert_eq!(reader.stream_position(), 3);
    let mut reader = Reader::new(vec![1, 2, 3, 4, 5, 6, 7]);
    assert!(matches!(read_u64(&mut reader), Err(Error::UnexpectedEof)));
    assert_eq!(reader.stream_position(), 7);
    let mut reader = Reader::new(vec![1]);
    assert!(matches!(read_u16(&mut reader), Err(Error::UnexpectedEof)));
    let mut reader = Reader::new(vec![]);
    assert!(matches!(read_u8(&mut reader), Err(Error::UnexpectedEof)));
    let mut reader = Reader::new(vec![1, 2]);
    assert!(matches!(read_vec(&mut reader, 3), Err(Error::UnexpectedEof)));
    let mut reader = Reader::new(vec![1, 2]);
    assert!(matches!(read_vec_u64(&mut reader, u64::MAX), Err(Error::UnexpectedEof)));
    let mut reader = Reader::new(vec![1, 2]);
    assert!(matches!(read_const_bytes::<3>(&mut reader), Err(Error::UnexpectedEof)));
    assert!(matches!(read_string(&mut reader, 1), Err(Error::UnexpectedEof)));
}

#[test]
fn the_cursor_may_stand_past_the_end() {
    let mut reader = Reader::new(vec![1, 2]);
    reader.seek(10);
    assert_eq!(reader.stream_position(), 10);
    assert_eq!(reader.remaining(), 0);
    assert_eq!(reader.len(), 2);
    // Reading nothing succeeds there, reading anything fails.
    assert_eq!(read_vec(&mut reader, 0).unwrap(), Vec::<u8>::new());
    assert_eq!(reader.stream_position(), 10);
    assert!(matches!(read_u8(&mut reader), Err(Error::UnexpectedEof)));
    assert_eq!(reader.stream_position(), 2);
    assert_eq!(reader.peek(4), &[] as &[u8]);
}

#[test]
fn vectors_arrays_and_the_rest() {
    let mut reader = Reader::new(vec![1, 2, 3, 4, 5, 6]);
    assert_eq!(read_vec(&mut reader, 2).unwrap(), vec![1, 2]);
    assert_eq!(read_const_bytes::<3>(&mut reader).unwrap(), [3, 4, 5]);
    assert_eq!(reader.remaining(), 1);
    assert_eq!(reader.peek(10), &[6]);
    assert_eq!(read_to_end(&mut reader), vec![6]);
    assert_eq!(reader.stream_position(), 6);
    assert_eq!(read_to_end(&mut reader), Vec::<u8>::new());
    reader.seek(1);
    assert_eq!(reader.peek(2), &[2, 3]);
    assert_eq!(read_vec_u64(&mut reader, 5).unwrap(), vec![2, 3, 4, 5, 6]);
}

#[test]
fn strings_are_decoded_or_kept() {
    let mut reader = Reader::new(vec![b'a', 0xc3, 0x86, 0xff]);
    assert_eq!(read_string(&mut reader, 3).unwrap(), Ok("a\u{c6}".to_string()));
    assert_eq!(read_string(&mut reader, 1).unwrap(), Err(vec![0xff]));
}

#[test]
fn sized_integers() {
    let mut reader = Reader::new(vec![0xff, 0xee, 0xdd, 0xcc, 0xbb, 0xaa, 0x99, 0x88]);
    assert_eq!(read_vint_sized(&mut reader, 0).unwrap(), 0);
    assert_eq!(read_vint_sized(&mut reader, 3).unwrap(), 0xddeeff);
    assert_eq!(reader.stream_position(), 3);
    reader.seek(0);
    assert_eq!(read_vint_sized(&mut reader, 8).unwrap(), 0x8899aabbccddeeff);
    assert!(matches!(read_vint_sized(&mut reader, 1), Err(Error::UnexpectedEof)));
}

#[test]
fn truncation_keeps_the_low_bits() {
    assert_eq!(truncate_u8(0x1234), 0x34);
    assert_eq!(truncate_u16(0x12345678), 0x5678);
    assert_eq!(truncate_u8(0xff), 0xff);
    assert_eq!(truncate_u16(u64::MAX), 0xffff);
}

#[test]
fn error_messages() {
    assert_eq!(Error::UnexpectedEof.message(), "expected more data");
    assert_eq!(
        Error::CorruptHeader.message(),
        "header reported sizes are 0 or exceed the EOF"
    );
    assert_eq!(Error::Io("disk on fire".to_string()).message(), "disk on fire");
    assert!(Error::UnexpectedEof.is_structural());
    assert!(Error::CorruptHeader.is_structural());
    assert!(!Error::Io(String::new()).is_structural());
}
