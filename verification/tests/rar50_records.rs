use rawrxd::error::Error;
use rawrxd::rar50::extra_area::collect_unknown;
use rawrxd::rar50::extra_area::find_first;
use rawrxd::rar50::extra_area::is_known;
use rawrxd::rar50::extra_area::read_first;
use rawrxd::rar50::read_records;
use rawrxd::rar50::read_unix_time_nanos;
use rawrxd::rar50::read_unix_time_sec;
use rawrxd::rar50::read_windows_time;
use rawrxd::rar50::records::until_zero;
use rawrxd::rar50::CommonHeader;
use rawrxd::rar50::CommonRecord;
use rawrxd::rar50::EntryHeader;
use rawrxd::rar50::FileHash;
use rawrxd::rar50::FileHashRecord;
use rawrxd::rar50::FileVersionRecord;
use rawrxd::rar50::LocatorRecord;
use rawrxd::rar50::MetadataRecord;
use rawrxd::rar50::RecordIterator;
use rawrxd::rar50::RecoveryRecordInfo;
use rawrxd::rar50::UnknownRecord;
use rawrxd::read::Reader;
use rawrxd::time_conv::DateTime;

fn records(bytes: &[u8], size: Option<u64>) -> Result<Vec<(u64, Vec<u8>)>, Error> {
    let mut reader = Reader::new(bytes.to_vec());
    let found = read_records(&mut reader, size)?;
    Ok(found.into_iter().map(|r| (r.record_type, r.data)).collect())
}

#[test]
fn records_are_read_up_to_the_end_of_the_area() {
    // size 3, type 1, data [a, b]; size 1, type 2; then bytes of something else.
    let bytes = [0x03, 0x01, 0xaa, 0xbb, 0x01, 0x02, 0x05, 0x09];
    assert_eq!(
        records(&bytes, Some(6)).unwrap(),
        vec![(1, vec![0xaa, 0xbb]), (2, vec![])]
    );
    // An area that ends within a record: the record is read all the same.
    assert_eq!(records(&bytes, Some(1)).unwrap(), vec![(1, vec![0xaa, 0xbb])]);
    // No area at all, and an empty one.
    assert_eq!(records(&bytes, None).unwrap(), vec![]);
    assert_eq!(records(&bytes, Some(0)).unwrap(), vec![]);
}

#[test]
fn the_iterator_of_records_steps_by_the_size_of_each_record() {
    let mut reader = Reader::new(vec![0xff, 0x03, 0x01, 0xaa, 0xbb, 0x01, 0x02]);
    reader.seek(1);
    let mut iter = RecordIterator::new(&reader, 6).unwrap();
    let first = iter.next(&mut reader).unwrap().unwrap();
    assert_eq!((first.record_type, first.data), (1, vec![0xaa, 0xbb]));
    assert_eq!(reader.stream_position(), 5);
    // The iterator finds the next record wherever the cursor was left.
    reader.seek(0);
    let second = iter.next(&mut reader).unwrap().unwrap();
    assert_eq!((second.record_type, second.data), (2, vec![]));
    assert!(iter.next(&mut reader).is_none());
    assert_eq!(reader.stream_position(), 7);
}

#[test]
fn broken_records() {
    // The size does not hold the type.
    assert!(matches!(records(&[0x00, 0x01], Some(2)), Err(Error::CorruptHeader)));
    assert!(matches!(records(&[0x01, 0x80, 0x01], Some(3)), Err(Error::CorruptHeader)));
    // The data is cut off.
    assert!(matches!(records(&[0x03, 0x01, 0xaa], Some(3)), Err(Error::UnexpectedEof)));
    // The type is cut off.
    assert!(matches!(records(&[0x03], Some(3)), Err(Error::UnexpectedEof)));
    // A size that leads past every offset.
    let mut bytes = vec![0xff; 9];
    bytes.push(0x01);
    bytes.push(0x01);
    assert!(matches!(records(&bytes, Some(100)), Err(Error::UnexpectedEof)));
}

fn record(record_type: u64, data: &[u8]) -> CommonRecord {
    CommonRecord { record_type, data: data.to_vec() }
}

#[test]
fn the_first_record_of_a_type_is_decoded_and_the_others_are_kept_as_unknown() {
    let found = vec![
        record(9, &[]),
        record(4, &[0, 7]),
        record(2, &[1]),
        record(4, &[0, 8]),
        record(9, &[]),
    ];
    assert_eq!(find_first(&found, 4), 1);
    assert_eq!(find_first(&found, 9), 0);
    assert_eq!(find_first(&found, 5), 5);
    let version = read_first::<FileVersionRecord>(&found, 4).unwrap().unwrap();
    assert_eq!(version.version_number, 7);
    assert!(read_first::<FileVersionRecord>(&found, 5).unwrap().is_none());
    let hash = read_first::<FileHashRecord>(&found, 2).unwrap().unwrap();
    assert!(matches!(hash.hash, FileHash::Unknown(1)));
    // A record that is too short for its fields.
    assert!(matches!(read_first::<FileVersionRecord>(&found, 2), Err(Error::UnexpectedEof)));
    let known = vec![4, 2];
    assert!(is_known(&known, 2));
    assert!(!is_known(&known, 9));
    assert_eq!(
        collect_unknown(&found, &known),
        vec![UnknownRecord::new(9), UnknownRecord::new(4), UnknownRecord::new(9)]
    );
    assert_eq!(collect_unknown(&found, &vec![]).len(), 5);
    assert!(collect_unknown(&vec![], &known).is_empty());
}

#[test]
fn locator_and_metadata_records() {
    let locator = LocatorRecord::read(&mut Reader::new(vec![0x02, 0x85, 0x03])).unwrap();
    assert_eq!(locator.quick_open_record_offset, None);
    assert_eq!(locator.recovery_record_offset, Some(0x185));
    let locator = LocatorRecord::read(&mut Reader::new(vec![0x00])).unwrap();
    assert_eq!((locator.quick_open_record_offset, locator.recovery_record_offset), (None, None));
    assert!(matches!(
        LocatorRecord::read(&mut Reader::new(vec![0x01])),
        Err(Error::UnexpectedEof)
    ));

    // A name alone; a name that starts with a 0 byte is none.
    let metadata = MetadataRecord::read(&mut Reader::new(b"\x01\x03arc".to_vec())).unwrap();
    assert_eq!(metadata.name, Some(Ok("arc".to_string())));
    assert_eq!(metadata.creation_time, None);
    let metadata = MetadataRecord::read(&mut Reader::new(b"\x01\x03\x00rc".to_vec())).unwrap();
    assert_eq!(metadata.name, None);
    let metadata = MetadataRecord::read(&mut Reader::new(b"\x01\x02\xff\xfe".to_vec())).unwrap();
    assert_eq!(metadata.name, Some(Err(vec![0xff, 0xfe])));
    // A creation time in nanoseconds since the Unix epoch.
    let mut bytes = vec![0x02 | 0x04 | 0x08];
    bytes.extend_from_slice(&1_546_300_800_000_000_007u64.to_le_bytes());
    let metadata = MetadataRecord::read(&mut Reader::new(bytes)).unwrap();
    let expected =
        DateTime { year: 2019, month: 1, day: 1, hour: 0, minute: 0, second: 0, nanosecond: 7 };
    assert_eq!(metadata.creation_time, Some(Ok(expected)));
    // A creation time as a Windows FILETIME.
    let mut bytes = vec![0x02];
    bytes.extend_from_slice(&0u64.to_le_bytes());
    let metadata = MetadataRecord::read(&mut Reader::new(bytes)).unwrap();
    let expected =
        DateTime { year: 1601, month: 1, day: 1, hour: 0, minute: 0, second: 0, nanosecond: 0 };
    assert_eq!(metadata.creation_time, Some(Ok(expected)));
    assert_eq!(until_zero(b"ab\x00cd".to_vec()), b"ab");
    assert_eq!(until_zero(b"abcd".to_vec()), b"abcd");
    assert_eq!(until_zero(vec![]), b"");
}

#[test]
fn the_recovery_record_takes_all_that_is_left() {
    let info = RecoveryRecordInfo::read(&mut Reader::new(vec![5, 1, 2, 3])).unwrap();
    assert_eq!((info.percentage, info.unknown), (5, vec![1, 2, 3]));
    let info = RecoveryRecordInfo::read(&mut Reader::new(vec![5])).unwrap();
    assert_eq!((info.percentage, info.unknown), (5, vec![]));
    assert!(matches!(RecoveryRecordInfo::read(&mut Reader::new(vec![])), Err(Error::UnexpectedEof)));
}

#[test]
fn timestamps_of_the_three_kinds() {
    let epoch = DateTime { year: 1970, month: 1, day: 1, hour: 0, minute: 0, second: 0, nanosecond: 0 };
    let mut reader = Reader::new(vec![1, 0, 0, 0]);
    assert_eq!(read_unix_time_sec(&mut reader).unwrap(), Ok(DateTime { second: 1, ..epoch }));
    let mut reader = Reader::new(vec![1, 0, 0, 0, 0, 0, 0, 0]);
    assert_eq!(read_unix_time_nanos(&mut reader).unwrap(), Ok(DateTime { nanosecond: 1, ..epoch }));
    let mut reader = Reader::new(116_444_736_000_000_000u64.to_le_bytes().to_vec());
    assert_eq!(read_windows_time(&mut reader).unwrap(), Ok(epoch));
    let mut reader = Reader::new(vec![0xff; 8]);
    assert_eq!(read_windows_time(&mut reader).unwrap(), Err(u64::MAX));
    let mut reader = Reader::new(vec![0xff; 7]);
    assert!(matches!(read_windows_time(&mut reader), Err(Error::UnexpectedEof)));
}

#[test]
fn the_fields_that_every_block_starts_with() {
    // Checksum, size 5, type 2, flags 3, extra area 1, data 0x185.
    let bytes = vec![0x78, 0x56, 0x34, 0x12, 0x05, 0x02, 0x03, 0x01, 0x85, 0x03];
    let mut reader = Reader::new(bytes);
    let header = CommonHeader::read(&mut reader).unwrap();
    assert_eq!(header.header_crc32, 0x12345678);
    assert_eq!(header.header_size, 5 + 1 + 4);
    assert_eq!(header.header_type, 2);
    assert_eq!(header.flags, 3);
    assert_eq!(header.extra_area_size, Some(1));
    assert_eq!(header.data_size, Some(0x185));
    assert_eq!(reader.stream_position(), 10);
    let mut reader = Reader::new(vec![0, 0, 0, 0, 0x02, 0x05, 0x00]);
    let header = CommonHeader::read(&mut reader).unwrap();
    assert_eq!((header.extra_area_size, header.data_size), (None, None));
}

#[test]
fn the_fields_that_entries_start_with() {
    // Flags 6, size 100, attributes 0, time, checksum, settings 1, host 0,
    // a name of 5 bytes of which 3 are read.
    let mut bytes = vec![0x06, 100, 0x00];
    bytes.extend_from_slice(&60u32.to_le_bytes());
    bytes.extend_from_slice(&0xabcdu32.to_le_bytes());
    bytes.extend_from_slice(&[0x01, 0x00, 0x05]);
    bytes.extend_from_slice(b"abcde");
    let mut reader = Reader::new(bytes.clone());
    let header = EntryHeader::read(&mut reader, Some(3)).unwrap();
    assert_eq!(header.flags, 6);
    assert_eq!(header.unpacked_size, 100);
    assert_eq!(header.attributes, 0);
    assert_eq!(
        header.modification_time,
        Some(Ok(DateTime { year: 1970, month: 1, day: 1, hour: 0, minute: 1, second: 0, nanosecond: 0 }))
    );
    assert_eq!(header.crc32, Some(0xabcd));
    assert_eq!(header.name, b"abc");
    assert_eq!(reader.stream_position(), 17);
    let mut reader = Reader::new(bytes);
    let header = EntryHeader::read(&mut reader, None).unwrap();
    assert_eq!(header.name, b"abcde");
    assert_eq!(reader.stream_position(), 19);
}
