use rawrxd::error::Error;
use rawrxd::rar50::Block;
use rawrxd::rar50::BlockIterator;
use rawrxd::rar50::BlockKind;
use rawrxd::rar50::CompressionAlgorithm;
use rawrxd::rar50::CompressionInfo;
use rawrxd::rar50::CompressionMethod;
use rawrxd::rar50::EncryptionVersion;
use rawrxd::rar50::FileHash;
use rawrxd::rar50::FileSystemRedirectionType;
use rawrxd::rar50::HostOs;
use rawrxd::rar50::ServiceBlockKind;
use rawrxd::rar50::ServiceBlockType;
use rawrxd::rar50::UnknownRecord;
use rawrxd::read::Reader;
use rawrxd::size::BlockSize;
use rawrxd::time_conv::DateTime;
use rawrxd::Signature;

const SIGNATURE: &[u8] = b"Rar!\x1a\x07\x01\x00";

fn vint(mut value: u64) -> Vec<u8> {
    let mut bytes = Vec::new();
    loop {
        let group = (value & 0x7f) as u8;
        value >>= 7;
        if value == 0 {
            bytes.push(group);
            return bytes;
        }
        bytes.push(group | 0x80);
    }
}

/// A record of the extra area: its size, its type and its data.
fn record(record_type: u64, data: &[u8]) -> Vec<u8> {
    let tag = vint(record_type);
    let mut bytes = vint((tag.len() + data.len()) as u64);
    bytes.extend_from_slice(&tag);
    bytes.extend_from_slice(data);
    bytes
}

/// A block: checksum, the size of the header, type, flags, the sizes of the
/// extra area and of the data where there are any, the fields and the extra
/// area. The data of `data_size` bytes is not appended.
fn block(block_type: u64, fields: &[u8], extra: &[u8], data_size: Option<u64>) -> Vec<u8> {
    let mut flags = 0;
    let mut header = vint(block_type);
    if !extra.is_empty() {
        flags |= 1;
    }
    if data_size.is_some() {
        flags |= 2;
    }
    header.extend_from_slice(&vint(flags));
    if !extra.is_empty() {
        header.extend_from_slice(&vint(extra.len() as u64));
    }
    if let Some(size) = data_size {
        header.extend_from_slice(&vint(size));
    }
    header.extend_from_slice(fields);
    header.extend_from_slice(extra);
    let mut bytes = vec![0x78, 0x56, 0x34, 0x12];
    bytes.extend_from_slice(&vint(header.len() as u64));
    bytes.extend_from_slice(&header);
    bytes
}

fn main_block(extra: &[u8]) -> Vec<u8> {
    block(1, &vint(0), extra, None)
}

fn end_block() -> Vec<u8> {
    block(5, &vint(0), &[], None)
}

/// The fields of a file or service block.
fn entry_fields(flags: u64, unpacked: u64, mtime: Option<u32>, crc: Option<u32>, name: &[u8]) -> Vec<u8> {
    let mut fields = vint(flags);
    fields.extend_from_slice(&vint(unpacked));
    fields.extend_from_slice(&vint(0o644));
    if let Some(t) = mtime {
        fields.extend_from_slice(&t.to_le_bytes());
    }
    if let Some(c) = crc {
        fields.extend_from_slice(&c.to_le_bytes());
    }
    fields.extend_from_slice(&vint(0x0180 | 0x0040 | (3 << 10)));
    fields.extend_from_slice(&vint(1));
    fields.extend_from_slice(&vint(name.len() as u64));
    fields.extend_from_slice(name);
    fields
}

fn file_block(name: &[u8], extra: &[u8], data: &[u8]) -> Vec<u8> {
    let fields = entry_fields(0x02 | 0x04, 1234, Some(1_546_300_800), Some(0xcafe), name);
    let mut bytes = block(2, &fields, extra, Some(data.len() as u64));
    bytes.extend_from_slice(data);
    bytes
}

fn archive(blocks: &[Vec<u8>]) -> Vec<u8> {
    let mut bytes = SIGNATURE.to_vec();
    for b in blocks {
        bytes.extend_from_slice(b);
    }
    bytes
}

fn iterate(bytes: Vec<u8>) -> BlockIterator {
    BlockIterator::new(Reader::new(bytes), Signature::Rar50.size()).unwrap()
}

fn read_one(bytes: Vec<u8>) -> Result<Block, Error> {
    Block::read(&mut Reader::new(bytes))
}

fn new_year_2019() -> DateTime {
    DateTime { year: 2019, month: 1, day: 1, hour: 0, minute: 0, second: 0, nanosecond: 0 }
}

#[test]
fn unicode_filename() {
    // A file whose name on Unix was the single byte 0xC6: it is stored as
    // U+E0C6 behind the mark U+FFFE.
    let bytes = archive(&[
        main_block(&[]),
        file_block(b"\xef\xbf\xbe\xee\x83\x86", &[], b"data"),
        end_block(),
    ]);
    let mut iter = iterate(bytes);
    let f = iter
        .collect()
        .into_iter()
        .find_map(|block| match block {
            Ok(Block { kind: BlockKind::File(file), .. }) => Some(file),
            _ => None,
        })
        .unwrap();

    assert_eq!(f.name, Ok("\u{c6}".to_string()));
}

#[test]
fn rar50_blocks_are_contiguous_and_the_iteration_ends() {
    let bytes = archive(&[
        main_block(&[]),
        file_block(b"a.txt", &[], b"packed data"),
        file_block(b"dir/b.txt", &record(4, &[0, 7]), b""),
        end_block(),
    ]);
    let file_size = bytes.len() as u64;
    let mut iter = iterate(bytes);
    let blocks: Vec<Block> = iter.collect().into_iter().map(|b| b.unwrap()).collect();
    assert_eq!(blocks.len(), 4);
    assert_eq!(blocks[0].offset(), 8);
    assert_eq!(blocks[0].header_size(), 4 + 1 + 3);
    for pair in blocks.windows(2) {
        assert_eq!(pair[0].offset() + pair[0].size(), pair[1].offset());
    }
    assert_eq!(blocks[3].offset() + blocks[3].size(), file_size);
    assert_eq!(blocks[1].data_size(), 11);
    assert_eq!(blocks[1].data_size, Some(11));
    assert_eq!(blocks[0].data_size, None);
    assert_eq!(blocks[2].extra_area_size, Some(4));
    assert!(blocks[2].flags.has_extra_area());
    assert!(blocks[2].flags.has_data_area());
    assert!(!blocks[0].flags.has_extra_area());
    assert_eq!(blocks[0].header_crc32, 0x12345678);
    assert!(matches!(blocks[3].kind, BlockKind::EndArchive(_)));
    assert!(iter.next().is_none());
}

#[test]
fn rar50_the_end_of_archive_block_ends_the_iteration_before_the_end_of_the_file() {
    let mut bytes = archive(&[main_block(&[]), end_block()]);
    bytes.extend_from_slice(&[0xff; 40]);
    let mut iter = iterate(bytes);
    assert!(matches!(iter.next(), Some(Ok(Block { kind: BlockKind::Main(_), .. }))));
    assert!(matches!(iter.next(), Some(Ok(Block { kind: BlockKind::EndArchive(_), .. }))));
    assert!(iter.next().is_none());
}

#[test]
fn rar50_corrupt_headers_end_the_iteration_with_one_error() {
    let cases = vec![
        // The data reaches past the end of the file.
        archive(&[main_block(&[]), block(2, &entry_fields(0, 0, None, None, b"a"), &[], Some(1))]),
        // The header claims more bytes than the file has.
        archive(&[main_block(&[]), {
            let mut end = end_block();
            end[4] = 4;
            end
        }]),
        // The size of the header does not fit in 64 bits.
        archive(&[main_block(&[]), {
            let mut bytes = vec![0; 4];
            bytes.extend_from_slice(&vint(u64::MAX));
            bytes.extend_from_slice(&[5, 0, 0]);
            bytes
        }]),
        // A record whose size does not hold its own type.
        archive(&[main_block(&[0x00, 0x01, 0x00])]),
    ];
    for bytes in cases {
        let mut iter = iterate(bytes);
        let items = iter.collect();
        assert!(matches!(items.last(), Some(Err(Error::CorruptHeader))));
        assert_eq!(items.iter().filter(|item| item.is_err()).count(), 1);
        assert!(iter.next().is_none());
    }
}

#[test]
fn rar50_a_cut_header_is_an_unexpected_end() {
    let mut bytes = archive(&[main_block(&[]), file_block(b"name", &[], b"")]);
    bytes.truncate(bytes.len() - 2);
    let mut iter = iterate(bytes);
    assert!(iter.next().unwrap().is_ok());
    assert!(matches!(iter.next(), Some(Err(Error::UnexpectedEof))));
    assert!(iter.next().is_none());
    // A record that claims more data than there is.
    let mut iter = iterate(archive(&[main_block(&[0x09, 0x01, 0x00])]));
    assert!(matches!(iter.next(), Some(Err(Error::UnexpectedEof))));
    assert!(iter.next().is_none());
}

#[test]
fn main_block_with_locator_and_metadata() {
    let mut locator = vint(0x01 | 0x02);
    locator.extend_from_slice(&vint(300));
    locator.extend_from_slice(&vint(0));
    let mut metadata = vint(0x01 | 0x02 | 0x04);
    metadata.extend_from_slice(&vint(8));
    metadata.extend_from_slice(b"arc\x00junk");
    metadata.extend_from_slice(&1_546_300_800u32.to_le_bytes());
    let mut extra = record(1, &locator);
    extra.extend_from_slice(&record(9, b"xyz"));
    extra.extend_from_slice(&record(2, &metadata));
    // A second locator: the first one wins.
    extra.extend_from_slice(&record(1, &vint(0)));
    let mut fields = vint(0x01 | 0x02 | 0x04);
    fields.extend_from_slice(&vint(3));
    let b = read_one(block(1, &fields, &extra, None)).unwrap();
    let BlockKind::Main(main) = b.kind else { panic!("not a main block") };
    assert!(main.flags.is_volume());
    assert!(main.flags.has_volume_number());
    assert!(main.flags.is_solid());
    assert!(!main.flags.has_recovery_record());
    assert!(!main.flags.is_locked());
    assert_eq!(main.volume_number, Some(3));
    let locator = main.locator.unwrap();
    assert_eq!(locator.quick_open_record_offset, Some(300));
    // An offset of 0 is none.
    assert_eq!(locator.recovery_record_offset, None);
    let metadata = main.metadata.unwrap();
    // The name ends at its first 0 byte.
    assert_eq!(metadata.name, Some(Ok("arc".to_string())));
    assert_eq!(metadata.creation_time, Some(Ok(new_year_2019())));
    assert_eq!(main.unknown_records, vec![UnknownRecord::new(9), UnknownRecord::new(1)]);
}

#[test]
fn rar50_file_block_fields() {
    let b = read_one(file_block(b"dir/name.txt", &[], b"")).unwrap();
    let BlockKind::File(file) = b.kind else { panic!("not a file block") };
    assert!(file.flags.has_modification_time());
    assert!(file.flags.has_crc32());
    assert!(!file.flags.is_directory());
    assert!(!file.flags.unknown_unpacked_size());
    assert_eq!(file.unpacked_size, Some(1234));
    assert_eq!(file.attributes, 0o644);
    assert_eq!(file.modification_time, Some(Ok(new_year_2019())));
    assert_eq!(file.modification_time(), Some(Ok(new_year_2019())));
    assert_eq!(file.unpacked_data_crc32, Some(0xcafe));
    assert_eq!(file.host_os, HostOs::Unix);
    assert_eq!(file.name, Ok("dir/name.txt".to_string()));
    assert!(file.encryption.is_none());
    assert!(file.hash.is_none());
    assert!(file.extended_time.is_none());
    assert!(file.version.is_none());
    assert!(file.filesystem_redirection.is_none());
    assert!(file.unix_owner.is_none());
    assert!(file.unknown_records.is_empty());
    assert!(file.compression_info.is_solid());
    assert_eq!(file.compression_info.method(), CompressionMethod::Method3);
    assert_eq!(file.compression_info.algorithm(), CompressionAlgorithm::Pack5);
    assert_eq!(file.compression_info.min_dictionary_size(), Ok(0x20_000 << 3));
}

#[test]
fn file_block_without_the_optional_fields() {
    let fields = entry_fields(0x01 | 0x08, 99, None, None, b"\xff");
    let b = read_one(block(2, &fields, &[], None)).unwrap();
    assert_eq!(b.data_size(), 0);
    let BlockKind::File(file) = b.kind else { panic!("not a file block") };
    assert!(file.flags.is_directory());
    assert!(file.flags.unknown_unpacked_size());
    assert_eq!(file.unpacked_size, None);
    assert_eq!(file.modification_time, None);
    assert_eq!(file.modification_time(), None);
    assert_eq!(file.unpacked_data_crc32, None);
    // A name that is no UTF-8 is kept as bytes.
    assert_eq!(file.name, Err(vec![0xff]));
}

#[test]
fn file_block_records() {
    // Encryption with a check value.
    let mut crypt = vint(0x01);
    crypt.push(15);
    crypt.extend_from_slice(&[0x11; 16]);
    crypt.extend_from_slice(&[0x22; 16]);
    crypt.extend_from_slice(&[0x33; 12]);
    // A BLAKE2sp hash.
    let mut hash = vint(0);
    hash.extend_from_slice(&[0x44; 32]);
    // Unix timestamps with nanoseconds: modification and access time.
    let mut times = vint(0x01 | 0x02 | 0x08 | 0x10);
    times.extend_from_slice(&1_546_300_800u32.to_le_bytes());
    times.extend_from_slice(&1_546_300_801u32.to_le_bytes());
    times.extend_from_slice(&5u32.to_le_bytes());
    times.extend_from_slice(&999_999_999u32.to_le_bytes());
    let mut version = vint(0);
    version.extend_from_slice(&vint(7));
    let mut redirection = vint(1);
    redirection.extend_from_slice(&vint(1));
    redirection.extend_from_slice(&vint(6));
    redirection.extend_from_slice(b"target");
    let mut owner = vint(0x01 | 0x02 | 0x04 | 0x08);
    owner.extend_from_slice(&vint(4));
    owner.extend_from_slice(b"root");
    owner.extend_from_slice(&vint(2));
    owner.extend_from_slice(&[0xff, 0xfe]);
    owner.extend_from_slice(&vint(0));
    owner.extend_from_slice(&vint(1000));
    let mut extra = Vec::new();
    for (tag, data) in
        [(6, &owner), (5, &redirection), (4, &version), (3, &times), (2, &hash), (1, &crypt)]
    {
        extra.extend_from_slice(&record(tag, data));
    }
    extra.extend_from_slice(&record(7, b"service data in a file block"));
    extra.extend_from_slice(&record(4, &version));
    let b = read_one(file_block(b"f", &extra, b"")).unwrap();
    let BlockKind::File(file) = b.kind else { panic!("not a file block") };
    let encryption = file.encryption.unwrap();
    assert!(encryption.flags.has_password_check());
    assert!(!encryption.flags.uses_mac_checksum());
    assert_eq!(encryption.kdf_count, 15);
    assert_eq!(encryption.salt, [0x11; 16]);
    assert_eq!(encryption.iv, [0x22; 16]);
    assert_eq!(encryption.check_value, Some([0x33; 12]));
    assert!(matches!(file.hash.unwrap().hash, FileHash::Blake2Sp(h) if h == [0x44; 32]));
    let times = file.extended_time.unwrap();
    assert_eq!(times.modification_time, Some(Ok(DateTime { nanosecond: 5, ..new_year_2019() })));
    assert_eq!(times.creation_time, None);
    assert_eq!(
        times.access_time,
        Some(Ok(DateTime { second: 1, nanosecond: 999_999_999, ..new_year_2019() }))
    );
    // The time of the record comes before that of the header.
    assert_eq!(file.modification_time, Some(Ok(new_year_2019())));
    assert_eq!(
        file.modification_time(),
        Some(Ok(DateTime { nanosecond: 5, ..new_year_2019() }))
    );
    assert_eq!(file.version.unwrap().version_number, 7);
    let redirection = file.filesystem_redirection.unwrap();
    assert_eq!(redirection.redirection_type, FileSystemRedirectionType::UnixSymlink);
    assert!(redirection.flags.is_directory());
    assert_eq!(redirection.name, Ok("target".to_string()));
    let owner = file.unix_owner.unwrap();
    assert_eq!(owner.user_name, Some(Ok("root".to_string())));
    assert_eq!(owner.group_name, Some(Err(vec![0xff, 0xfe])));
    assert_eq!(owner.user_id, Some(0));
    assert_eq!(owner.group_id, Some(1000));
    assert_eq!(file.unknown_records, vec![UnknownRecord::new(7), UnknownRecord::new(4)]);
}

#[test]
fn windows_timestamps_in_the_time_record() {
    let mut times = vint(0x02 | 0x04);
    times.extend_from_slice(&128166372003061629u64.to_le_bytes());
    times.extend_from_slice(&u64::MAX.to_le_bytes());
    let b = read_one(file_block(b"f", &record(3, &times), b"")).unwrap();
    let BlockKind::File(file) = b.kind else { panic!("not a file block") };
    let times = file.extended_time.unwrap();
    assert_eq!(
        times.modification_time,
        Some(Ok(DateTime {
            year: 2007,
            month: 2,
            day: 22,
            hour: 17,
            minute: 0,
            second: 0,
            nanosecond: 306_162_900,
        }))
    );
    // A time beyond the calendar keeps its raw value.
    assert_eq!(times.creation_time, Some(Err(u64::MAX)));
    assert_eq!(times.access_time, None);
}

#[test]
fn a_record_that_is_cut_short_fails_the_block() {
    // A version record whose data ends within its fields.
    let broken = record(4, &[0x80]);
    assert!(matches!(read_one(file_block(b"f", &broken, b"")), Err(Error::UnexpectedEof)));
    // A second, broken record of a type that was decoded already is not
    // looked at.
    let mut extra = record(4, &[0, 7]);
    extra.extend_from_slice(&broken);
    let b = read_one(file_block(b"f", &extra, b"")).unwrap();
    let BlockKind::File(file) = b.kind else { panic!("not a file block") };
    assert_eq!(file.version.unwrap().version_number, 7);
    assert_eq!(file.unknown_records, vec![UnknownRecord::new(4)]);
}

#[test]
fn the_name_of_a_file_is_cut_to_the_longest_path() {
    let mut fields = entry_fields(0, 0, None, None, b"");
    fields.pop();
    fields.extend_from_slice(&vint(0x10001));
    fields.extend_from_slice(&vec![b'a'; 0x10001]);
    let mut reader = Reader::new(block(2, &fields, &[], None));
    let b = Block::read(&mut reader).unwrap();
    let BlockKind::File(file) = b.kind else { panic!("not a file block") };
    assert_eq!(file.name.unwrap().len(), 0x10000);
}

#[test]
fn service_blocks() {
    let service = |name: &[u8], extra: &[u8]| {
        let fields = entry_fields(0x04, 10, None, Some(1), name);
        let b = read_one(block(3, &fields, extra, Some(0))).unwrap();
        let BlockKind::Service(service) = b.kind else { panic!("not a service block") };
        service
    };
    let comment = service(b"CMT", &[]);
    assert!(matches!(comment.kind, ServiceBlockKind::Comment(_)));
    assert_eq!(comment.unpacked_size, Some(10));
    assert_eq!(comment.data_crc32, Some(1));
    assert_eq!(comment.modification_time, None);
    assert_eq!(comment.host_os, HostOs::Unix);
    assert!(comment.flags.has_crc32());
    assert!(!comment.flags.has_modification_time());
    assert!(matches!(service(b"QO", &[]).kind, ServiceBlockKind::QuickOpen(_)));
    assert!(matches!(service(b"ACL", &[]).kind, ServiceBlockKind::NtfsFilePermissions));
    assert!(matches!(service(b"STM", &[]).kind, ServiceBlockKind::NtfsAlternateDataStream));
    assert!(matches!(service(b"XYZ", &[]).kind, ServiceBlockKind::Unknown(name) if name == b"XYZ"));
    // The recovery record takes the data of the service.
    let mut extra = record(7, &[10, 0xaa, 0xbb]);
    extra.extend_from_slice(&record(7, &[20]));
    let recovery = service(b"RR", &extra);
    let ServiceBlockKind::RecoveryRecord(block) = recovery.kind else { panic!("not RR") };
    let info = block.info.unwrap();
    assert_eq!(info.percentage, 10);
    assert_eq!(info.unknown, vec![0xaa, 0xbb]);
    assert_eq!(recovery.unknown_records, vec![UnknownRecord::new(7)]);
    let ServiceBlockKind::RecoveryRecord(block) = service(b"RR", &[]).kind else { panic!("not RR") };
    assert!(block.info.is_none());
    // Any other service leaves that record alone.
    let comment = service(b"CMT", &record(7, &[10]));
    assert_eq!(comment.unknown_records, vec![UnknownRecord::new(7)]);
    assert_eq!(ServiceBlockType::from_bytes(&b"RR".to_vec()), Some(ServiceBlockType::RecoveryRecord));
    assert_eq!(ServiceBlockType::from_bytes(&b"R".to_vec()), None);
}

#[test]
fn crypt_end_and_unknown_blocks() {
    let mut fields = vint(0);
    fields.extend_from_slice(&vint(1));
    fields.push(15);
    fields.extend_from_slice(&[0x11; 16]);
    fields.extend_from_slice(&[0x22; 12]);
    let b = read_one(block(4, &fields, &[], None)).unwrap();
    let BlockKind::Crypt(crypt) = b.kind else { panic!("not a crypt block") };
    assert_eq!(crypt.encryption_version, EncryptionVersion::Aes256);
    assert_eq!(crypt.kdf_count, 15);
    assert_eq!(crypt.salt, [0x11; 16]);
    assert_eq!(crypt.check_value, Some([0x22; 12]));
    fields.truncate(19);
    fields[0] = 9;
    fields[1] = 0;
    let b = read_one(block(4, &fields, &[], None)).unwrap();
    let BlockKind::Crypt(crypt) = b.kind else { panic!("not a crypt block") };
    assert_eq!(crypt.encryption_version, EncryptionVersion::Unknown(9));
    assert_eq!(crypt.check_value, None);
    let b = read_one(block(5, &vint(1), &[], None)).unwrap();
    let BlockKind::EndArchive(end) = b.kind else { panic!("not the end") };
    assert!(end.flags.has_next_volume());
    let b = read_one(block(300, &[1, 2, 3], &[], Some(0))).unwrap();
    let BlockKind::Unknown(unknown) = b.kind else { panic!("known") };
    assert_eq!(unknown.tag, 300);
    assert_eq!(b.header_size, 4 + 1 + 7);
}

#[test]
fn rar50_compression_info() {
    let info = CompressionInfo::new(0);
    assert_eq!(info.algorithm(), CompressionAlgorithm::Pack5);
    assert_eq!(info.method(), CompressionMethod::NoCompression);
    assert!(!info.is_solid());
    assert_eq!(info.min_dictionary_size(), Ok(128 * 1024));
    // Version 5 uses four bits of the factor.
    assert_eq!(CompressionInfo::new(15 << 10).min_dictionary_size(), Ok(4 << 30));
    assert_eq!(CompressionInfo::new(16 << 10).min_dictionary_size(), Ok(128 * 1024));
    // Version 7 uses all five, and adds 32nd parts.
    let info = CompressionInfo::new(1 | (5 << 7) | (4 << 10) | (8 << 15));
    assert_eq!(info.algorithm(), CompressionAlgorithm::Pack7);
    assert_eq!(info.method(), CompressionMethod::Method5);
    assert_eq!(info.min_dictionary_size(), Ok((2 << 20) + (2 << 20) / 32 * 8));
    assert_eq!(CompressionInfo::new(1 | (19 << 10)).min_dictionary_size(), Ok(64 << 30));
    // More than 64 GiB is an error that keeps the size.
    assert_eq!(
        CompressionInfo::new(1 | (19 << 10) | (1 << 15)).min_dictionary_size(),
        Err((64 << 30) + (2 << 30))
    );
    assert_eq!(CompressionInfo::new(1 | (31 << 10)).min_dictionary_size(), Err(1 << 48));
    // A file marked for version 7 but packed as for version 5.
    let info = CompressionInfo::new(1 | 0x100_000);
    assert_eq!(info.version(), CompressionAlgorithm::Pack7);
    assert!(info.uses_pack_5_algorithm());
    assert_eq!(info.algorithm(), CompressionAlgorithm::Pack5);
    assert_eq!(CompressionInfo::new(2).algorithm(), CompressionAlgorithm::Unknown(2));
    assert_eq!(CompressionInfo::new(7 << 7).method(), CompressionMethod::Unknown(7));
    assert_eq!(HostOs::from(0), HostOs::Windows);
    assert_eq!(HostOs::from(2), HostOs::Unknown(2));
    assert_eq!(FileSystemRedirectionType::from(5), FileSystemRedirectionType::FileCopy);
    assert_eq!(FileSystemRedirectionType::from(6), FileSystemRedirectionType::Unknown(6));
}
