use rawrxd::error::Error;
use rawrxd::rar15::Block;
use rawrxd::rar15::BlockIterator;
use rawrxd::rar15::BlockKind;
use rawrxd::rar15::EncryptionMethod;
use rawrxd::rar15::ExtendedAttributesFs;
use rawrxd::rar15::Filename;
use rawrxd::rar15::HostOs;
use rawrxd::rar15::ServiceBlockKind;
use rawrxd::rar15::ServiceBlockType;
use rawrxd::rar15::SubBlockKind;
use rawrxd::rar15::SubBlockType;
use rawrxd::read::Reader;
use rawrxd::size::BlockSize;
use rawrxd::time_conv::DateTime;
use rawrxd::Signature;

const SIGNATURE: &[u8] = b"Rar!\x1a\x07\x00";

/// 2021-03-04 05:06:08 as an MS-DOS timestamp.
const DOS_TIME: u32 = ((2021 - 1980) << 25) | (3 << 21) | (4 << 16) | (5 << 11) | (6 << 5) | 4;

fn dos_instant() -> DateTime {
    DateTime { year: 2021, month: 3, day: 4, hour: 5, minute: 6, second: 8, nanosecond: 0 }
}

/// A block: checksum, type, flags, the size of the header, and its body.
fn block(block_type: u8, flags: u16, header_size: u16, body: &[u8]) -> Vec<u8> {
    let mut bytes = vec![0xcd, 0xab, block_type];
    bytes.extend_from_slice(&flags.to_le_bytes());
    bytes.extend_from_slice(&header_size.to_le_bytes());
    bytes.extend_from_slice(body);
    bytes
}

fn main_block() -> Vec<u8> {
    block(0x73, 0x0000, 13, &[0; 6])
}

fn end_block() -> Vec<u8> {
    block(0x7b, 0x0000, 7, &[])
}

/// The body of a file or service block up to the attributes.
fn entry_fields(packed: u32, unpacked: u32, name_size: u16, attributes: u32) -> Vec<u8> {
    let mut body = Vec::new();
    body.extend_from_slice(&packed.to_le_bytes());
    body.extend_from_slice(&unpacked.to_le_bytes());
    body.push(3);
    body.extend_from_slice(&0xdeadbeefu32.to_le_bytes());
    body.extend_from_slice(&DOS_TIME.to_le_bytes());
    body.push(29);
    body.push(0x33);
    body.extend_from_slice(&name_size.to_le_bytes());
    body.extend_from_slice(&attributes.to_le_bytes());
    body
}

/// A file block with the given name, followed by `data` bytes of data.
fn file_block(name: &[u8], data: &[u8]) -> Vec<u8> {
    let mut body = entry_fields(data.len() as u32, 1000, name.len() as u16, 0x20);
    body.extend_from_slice(name);
    let mut bytes = block(0x74, 0x8000, (7 + body.len()) as u16, &body);
    bytes.extend_from_slice(data);
    bytes
}

fn archive(blocks: &[Vec<u8>]) -> Vec<u8> {
    let mut bytes = SIGNATURE.to_vec();
    for b in blocks {
        bytes.extend_from_slice(b);
    }
    bytes
}

fn iterate(bytes: Vec<u8>) -> BlockIterator {
    BlockIterator::new(Reader::new(bytes), Signature::Rar15.size()).unwrap()
}

fn read_one(bytes: Vec<u8>) -> Result<Block, Error> {
    let mut reader = Reader::new(bytes);
    Block::read(&mut reader)
}

#[test]
fn rar15_blocks_are_contiguous_and_the_iteration_ends() {
    let bytes = archive(&[
        main_block(),
        file_block(b"a.txt", b"packed data"),
        file_block(b"dir\\b.txt", b""),
        end_block(),
    ]);
    let file_size = bytes.len() as u64;
    let mut iter = iterate(bytes);
    let mut blocks = Vec::new();
    while let Some(block) = iter.next() {
        blocks.push(block.unwrap());
    }
    assert_eq!(blocks.len(), 4);
    assert_eq!(blocks[0].offset(), 7);
    for pair in blocks.windows(2) {
        assert_eq!(pair[0].offset() + pair[0].size(), pair[1].offset());
    }
    let last = &blocks[3];
    assert_eq!(last.offset() + last.size(), file_size);
    assert!(matches!(blocks[0].kind, BlockKind::Main(_)));
    assert!(matches!(blocks[1].kind, BlockKind::File(_)));
    assert!(matches!(blocks[3].kind, BlockKind::EndArchive(_)));
    assert_eq!(blocks[1].header_size(), 7 + 25 + 5);
    assert_eq!(blocks[1].data_size(), 11);
    assert!(blocks[1].is_within(file_size));
    // Nothing comes after the end.
    assert!(iter.next().is_none());
    assert!(iter.next().is_none());
}

#[test]
fn rar15_the_end_of_archive_block_ends_the_iteration_before_the_end_of_the_file() {
    let mut bytes = archive(&[main_block(), end_block()]);
    bytes.extend_from_slice(b"trailing bytes that are no block");
    let mut iter = iterate(bytes);
    assert!(matches!(iter.next(), Some(Ok(Block { kind: BlockKind::Main(_), .. }))));
    // The block that ends the archive is itself yielded.
    assert!(matches!(iter.next(), Some(Ok(Block { kind: BlockKind::EndArchive(_), .. }))));
    assert!(iter.next().is_none());
}

#[test]
fn the_end_of_the_file_ends_the_iteration() {
    let mut iter = iterate(archive(&[main_block(), file_block(b"a", b"xyz")]));
    assert_eq!(iter.collect().len(), 2);
    assert!(iter.next().is_none());
    // An archive that is its signature alone holds no block.
    assert!(iterate(archive(&[])).next().is_none());
}

/// Archive whose header_size is set to 0, or whose offset + header_size or offset + size
/// exceed the EOF.
#[test]
fn rar15_corrupt_header() {
    let cases = vec![
        // The size of the header is 0.
        archive(&[main_block(), block(0x74, 0x8000, 0, &entry_fields(0, 0, 0, 0))]),
        // The header reaches past the end of the file.
        archive(&[block(0x73, 0x0000, 14, &[0; 6])]),
        archive(&[main_block(), block(0x7b, 0x0000, 8, &[])]),
        // The data reaches past the end of the file.
        archive(&[main_block(), block(0x74, 0x8000, 32, &entry_fields(1, 0, 0, 0))]),
        archive(&[main_block(), block(0x78, 0x8000, 26, &{
            let mut body = 4096u32.to_le_bytes().to_vec();
            body.extend_from_slice(&[0; 15]);
            body
        })]),
    ];
    for bytes in cases {
        let mut iter = iterate(bytes);

        let err = iter.collect().into_iter().find_map(|block| match block {
            Ok(_) => None,
            Err(e) => Some(e),
        });

        assert!(matches!(err, Some(Error::CorruptHeader)));
        // One error, and no further blocks.
        assert!(iter.next().is_none());
    }
}

#[test]
fn an_error_is_yielded_once_and_is_the_last_item() {
    let bytes = archive(&[
        main_block(),
        block(0x74, 0x8000, 0, &entry_fields(0, 0, 0, 0)),
        end_block(),
    ]);
    let mut iter = iterate(bytes);
    let items = iter.collect();
    assert_eq!(items.len(), 2);
    assert!(items[0].is_ok());
    assert!(matches!(items[1], Err(Error::CorruptHeader)));
    assert!(iter.next().is_none());
}

#[test]
fn rar15_a_cut_header_is_an_unexpected_end() {
    let mut bytes = archive(&[main_block()]);
    bytes.extend_from_slice(&[0xcd, 0xab, 0x74, 0x00]);
    let mut iter = iterate(bytes);
    assert!(iter.next().unwrap().is_ok());
    assert!(matches!(iter.next(), Some(Err(Error::UnexpectedEof))));
    assert!(iter.next().is_none());
    // An iterator that starts past the end of the file.
    let mut iter = BlockIterator::new(Reader::new(SIGNATURE.to_vec()), 100).unwrap();
    assert!(matches!(iter.next(), Some(Err(Error::UnexpectedEof))));
    assert!(iter.next().is_none());
}

#[test]
fn rar15_main_block_fields() {
    let mut body = vec![0x02, 0x00, 0x04, 0x03, 0x02, 0x01, 0x1d];
    let b = read_one(block(0x73, 0x0201, 14, &body)).unwrap();
    assert_eq!(b.offset, 0);
    assert_eq!(b.header_crc16, 0xabcd);
    assert_eq!(b.header_size, 14);
    let BlockKind::Main(main) = b.kind else { panic!("not a main block") };
    assert!(main.flags.is_volume());
    assert!(main.flags.has_encrypt_version());
    assert!(!main.flags.is_solid());
    assert!(!main.flags.is_locked());
    assert!(!main.flags.has_comment());
    assert_eq!(main.av_block_offset, Some(0x0002_01020304));
    assert_eq!(main.encrypt_version, Some(0x1d));
    // Without the flag the version is not read, and an offset of 0 is none.
    body.truncate(6);
    body.fill(0);
    let b = read_one(block(0x73, 0x0008 | 0x0004, 13, &body)).unwrap();
    let BlockKind::Main(main) = b.kind else { panic!("not a main block") };
    assert!(main.flags.is_solid());
    assert!(main.flags.is_locked());
    assert_eq!(main.av_block_offset, None);
    assert_eq!(main.encrypt_version, None);
    assert_eq!(EncryptionMethod::from(13), EncryptionMethod::Rar13);
    assert_eq!(EncryptionMethod::from(15), EncryptionMethod::Rar15);
    assert_eq!(EncryptionMethod::from(20), EncryptionMethod::Rar20);
    assert_eq!(EncryptionMethod::from(26), EncryptionMethod::Rar20);
    assert_eq!(EncryptionMethod::from(29), EncryptionMethod::Rar30);
}

#[test]
fn rar15_file_block_fields() {
    let b = read_one(file_block(b"dir\\name.txt", b"")).unwrap();
    assert_eq!(b.data_size(), 0);
    let BlockKind::File(file) = b.kind else { panic!("not a file block") };
    assert_eq!(file.packed_data_size, 0);
    assert_eq!(file.unpacked_data_size, 1000);
    assert_eq!(file.host_os, HostOs::Unix);
    assert_eq!(file.file_crc32, 0xdeadbeef);
    assert_eq!(file.modification_time, Ok(dos_instant()));
    assert_eq!(file.creation_time, None);
    assert_eq!(file.access_time, None);
    assert_eq!(file.archive_time, None);
    assert_eq!(file.unpack_version, 29);
    assert_eq!(file.method, 0x33);
    assert_eq!(file.attributes, 0x20);
    assert!(matches!(file.file_name, Filename::Ascii(name) if name == "dir\\name.txt"));
    assert_eq!(file.salt, None);
    assert!(!file.flags.has_large_size());
    assert!(!file.flags.has_salt());
}

#[test]
fn file_block_with_large_sizes_salt_unicode_name_and_times() {
    let name = b"ab\x00\x04\x40\x10z";
    let mut body = entry_fields(5, 6, name.len() as u16, 0);
    // The upper halves of the sizes.
    body.extend_from_slice(&1u32.to_le_bytes());
    body.extend_from_slice(&2u32.to_le_bytes());
    body.extend_from_slice(name);
    body.extend_from_slice(&[1, 2, 3, 4, 5, 6, 7, 8]);
    // Extended time: one second and one byte of increment for the
    // modification time, and an access time without increment.
    body.extend_from_slice(&[0x80, 0xd0]);
    body.push(0x01);
    body.extend_from_slice(&DOS_TIME.to_le_bytes());
    let flags = 0x8000 | 0x0100 | 0x0200 | 0x0400 | 0x1000;
    let bytes = block(0x74, flags, (7 + body.len()) as u16, &body);
    let len = bytes.len() as u64;
    let mut reader = Reader::new(bytes);
    let b = Block::read(&mut reader).unwrap();
    assert_eq!(reader.stream_position(), len);
    assert_eq!(b.data_size(), (1 << 32) + 5);
    let BlockKind::File(file) = b.kind else { panic!("not a file block") };
    assert_eq!(file.packed_data_size, (1 << 32) + 5);
    assert_eq!(file.unpacked_data_size, (2 << 32) + 6);
    assert!(matches!(file.file_name, Filename::Unicode(Ok(name)) if name == "\u{410}z"));
    assert_eq!(file.salt, Some([1, 2, 3, 4, 5, 6, 7, 8]));
    assert_eq!(
        file.modification_time,
        Ok(DateTime { second: 9, nanosecond: 6_553_600, ..dos_instant() })
    );
    assert_eq!(file.creation_time, None);
    assert_eq!(file.access_time, Some(Ok(dos_instant())));
    assert_eq!(file.archive_time, None);
    assert!(file.flags.has_large_size());
    assert!(file.flags.has_unicode_filename());
    assert!(file.flags.has_salt());
    assert!(file.flags.has_extended_time());
    assert!(!file.flags.has_comment());
    assert!(!file.flags.parse_version());
    assert!(!file.flags.has_extended_area());
}

#[test]
fn file_names_that_are_no_ascii_are_kept_as_bytes() {
    let b = read_one(file_block(b"caf\x82", b"")).unwrap();
    let BlockKind::File(file) = b.kind else { panic!("not a file block") };
    assert!(matches!(file.file_name, Filename::Oem(name) if name == b"caf\x82"));
    assert!(matches!(Filename::parse(b"x\x00".to_vec(), true), Filename::Unicode(Ok(n)) if n == "x"));
    assert!(matches!(Filename::parse(vec![], false), Filename::Ascii(n) if n.is_empty()));
}

#[test]
fn a_modification_time_that_is_no_instant_is_kept() {
    let mut body = entry_fields(0, 0, 0, 0);
    body[13..17].copy_from_slice(&0u32.to_le_bytes());
    let b = read_one(block(0x74, 0x8000, 32, &body)).unwrap();
    let BlockKind::File(file) = b.kind else { panic!("not a file block") };
    assert_eq!(file.modification_time, Err(0));
}

fn service_block(name: &[u8], sub_data: &[u8], flags: u16, salt: &[u8]) -> Vec<u8> {
    let mut body = entry_fields(9, 10, name.len() as u16, 0x8000_0001);
    body.extend_from_slice(name);
    body.extend_from_slice(sub_data);
    body.extend_from_slice(salt);
    let header_size = 32 + name.len() + sub_data.len() + salt.len();
    block(0x7a, flags, header_size as u16, &body)
}

#[test]
fn service_block_fields() {
    let b = read_one(service_block(b"CMT", &[0xaa, 0xbb], 0x8000, &[])).unwrap();
    assert_eq!(b.data_size(), 9);
    let BlockKind::Service(service) = b.kind else { panic!("not a service block") };
    assert!(matches!(service.kind, ServiceBlockKind::Comment));
    assert_eq!(service.packed_data_size, 9);
    assert_eq!(service.unpacked_data_size, 10);
    assert_eq!(service.host_os, HostOs::Unix);
    assert_eq!(service.data_crc32, 0xdeadbeef);
    assert_eq!(service.modification_time, Ok(dos_instant()));
    assert!(service.sub_flags.is_inherited());
    assert!(service.sub_flags.is_comment_unicode());
    assert_eq!(service.sub_data, Some(vec![0xaa, 0xbb]));
    assert_eq!(service.salt, None);
    // With a salt, and without data of its own.
    let b = read_one(service_block(b"QQ", &[], 0x8400, &[8, 7, 6, 5, 4, 3, 2, 1])).unwrap();
    let BlockKind::Service(service) = b.kind else { panic!("not a service block") };
    assert!(matches!(service.kind, ServiceBlockKind::Unknown(name) if name == b"QQ"));
    assert_eq!(service.sub_data, None);
    assert_eq!(service.salt, Some([8, 7, 6, 5, 4, 3, 2, 1]));
}

#[test]
fn service_block_names() {
    let names: [(&[u8], ServiceBlockType); 8] = [
        (b"CMT", ServiceBlockType::Comment),
        (b"ACL", ServiceBlockType::NtfsFilePermissions),
        (b"STM", ServiceBlockType::NtfsAlternateDataStream),
        (b"UOW", ServiceBlockType::UnixOwner),
        (b"AV", ServiceBlockType::AuthenticationVerification),
        (b"RR", ServiceBlockType::RecoveryRecord),
        (b"EA2", ServiceBlockType::Os2ExtendedAttributes),
        (b"EABE", ServiceBlockType::BeOsExtendedAttributes),
    ];
    for (name, kind) in names {
        assert_eq!(ServiceBlockType::from_bytes(&name.to_vec()), Some(kind));
    }
    for name in [&b""[..], b"C", b"CM", b"CMTX", b"cmt", b"EAB", b"EABEX", b"RRR"] {
        assert_eq!(ServiceBlockType::from_bytes(&name.to_vec()), None);
    }
}

#[test]
fn a_service_header_too_small_for_its_fields_is_corrupt() {
    let mut bytes = service_block(b"CMT", &[], 0x8000, &[]);
    // The size of the header: less than the fixed fields and the name need.
    bytes[5..7].copy_from_slice(&34u16.to_le_bytes());
    assert!(matches!(read_one(bytes.clone()), Err(Error::CorruptHeader)));
    bytes[5..7].copy_from_slice(&35u16.to_le_bytes());
    assert!(read_one(bytes).is_ok());
}

#[test]
fn the_old_blocks() {
    // Comment.
    let b = read_one(block(0x75, 0, 13, &[0x10, 0x00, 29, 0x33, 0x34, 0x12])).unwrap();
    let BlockKind::Comment(comment) = b.kind else { panic!("not a comment block") };
    assert_eq!(comment.unpacked_data_size, 16);
    assert_eq!(comment.unpack_version, 29);
    assert_eq!(comment.method, 0x33);
    assert_eq!(comment.crc16, 0x1234);
    // Authenticity.
    let b = read_one(block(0x76, 0, 14, &[20, 0x30, 1, 0x78, 0x56, 0x34, 0x12])).unwrap();
    let BlockKind::Av(av) = b.kind else { panic!("not an authenticity block") };
    assert_eq!((av.unpack_version, av.method, av.av_version), (20, 0x30, 1));
    assert_eq!(av.av_info_crc32, 0x12345678);
    // Signature.
    let b = read_one(block(0x79, 0, 15, &[1, 0, 0, 0, 2, 0, 3, 0])).unwrap();
    let BlockKind::Sign(sign) = b.kind else { panic!("not a signature block") };
    assert_eq!((sign.creation_time, sign.archive_name_size, sign.user_name_size), (1, 2, 3));
    // Recovery.
    let mut body = vec![0x00, 0x02, 0, 0, 1, 0x05, 0x00, 0x09, 0, 0, 0];
    body.extend_from_slice(b"Protect!");
    let b = read_one(block(0x78, 0x8000, 26, &body)).unwrap();
    assert_eq!(b.data_size(), 512);
    let BlockKind::Protect(protect) = b.kind else { panic!("not a protect block") };
    assert_eq!(protect.data_size, 512);
    assert_eq!(protect.version, 1);
    assert_eq!(protect.recovery_sectors, 5);
    assert_eq!(protect.total_blocks, 9);
    assert_eq!(&protect.mark, b"Protect!");
}

#[test]
fn sub_blocks() {
    let sub = |sub_type: u16, rest: &[u8]| {
        let mut body = 4u32.to_le_bytes().to_vec();
        body.extend_from_slice(&sub_type.to_le_bytes());
        body.push(2);
        body.extend_from_slice(rest);
        let b = read_one(block(0x77, 0x8000, (7 + body.len()) as u16, &body)).unwrap();
        assert_eq!(b.data_size(), 4);
        let BlockKind::Sub(sub) = b.kind else { panic!("not a sub-block") };
        assert_eq!(sub.data_size, 4);
        assert_eq!(sub.level, 2);
        sub.kind
    };
    let SubBlockKind::UnixOwner(owner) = sub(0x101, b"\x04\x00\x05\x00rootwheel") else {
        panic!("not an owner");
    };
    assert_eq!((owner.user, owner.group), (b"root".to_vec(), b"wheel".to_vec()));
    let SubBlockKind::MacOsInfo(info) = sub(0x102, &[1, 0, 2, 0]) else { panic!("not mac") };
    assert_eq!((info.file_type, info.file_creator), (1, 2));
    for (sub_type, filesystem) in [
        (0x100, ExtendedAttributesFs::Os2),
        (0x103, ExtendedAttributesFs::BeOs),
        (0x104, ExtendedAttributesFs::Ntfs),
    ] {
        let SubBlockKind::ExtendedAttributes(ea) = sub(sub_type, &[7, 0, 0, 0, 29, 0x33, 9, 0, 0, 0])
        else {
            panic!("not extended attributes");
        };
        assert_eq!(ea.filesystem, filesystem);
        assert_eq!(ea.unpacked_data_size, 7);
        assert_eq!((ea.unpack_version, ea.method), (29, 0x33));
        assert_eq!(ea.extended_attributes_crc32, 9);
    }
    let SubBlockKind::NtfsStream(stream) = sub(0x105, b"\x07\x00\x00\x00\x1d\x33\x09\x00\x00\x00\x03\x00:ab")
    else {
        panic!("not a stream");
    };
    assert_eq!(stream.unpacked_data_size, 7);
    assert_eq!(stream.stream_crc32, 9);
    assert_eq!(stream.stream_name, b":ab");
    assert!(matches!(sub(0x1ff, &[]), SubBlockKind::Unknown(0x1ff)));
    assert_eq!(SubBlockType::from(0x101), SubBlockType::UnixOwner);
    assert_eq!(SubBlockType::from(0x99), SubBlockType::Unknown(0x99));
}

#[test]
fn names_in_sub_blocks_are_cut_to_999_bytes() {
    let mut body = 0u32.to_le_bytes().to_vec();
    body.extend_from_slice(&0x101u16.to_le_bytes());
    body.push(0);
    body.extend_from_slice(&2000u16.to_le_bytes());
    body.extend_from_slice(&0u16.to_le_bytes());
    body.extend_from_slice(&[b'u'; 1200]);
    let mut reader = Reader::new(block(0x77, 0, 7, &body));
    let b = Block::read(&mut reader).unwrap();
    let BlockKind::Sub(sub) = b.kind else { panic!("not a sub-block") };
    let SubBlockKind::UnixOwner(owner) = sub.kind else { panic!("not an owner") };
    assert_eq!(owner.user.len(), 999);
    assert_eq!(owner.group.len(), 0);
    assert_eq!(reader.stream_position(), 7 + 7 + 4 + 999);
}

#[test]
fn end_of_archive_and_unknown_blocks() {
    let b = read_one(block(0x7b, 0x000b, 13, &[4, 3, 2, 1, 7, 0])).unwrap();
    let BlockKind::EndArchive(end) = b.kind else { panic!("not the end") };
    assert!(end.flags.has_next_volume());
    assert!(end.flags.has_crc32());
    assert!(end.flags.has_volume_number());
    assert!(!end.flags.reserve_space());
    assert_eq!(end.archive_data_crc32, Some(0x01020304));
    assert_eq!(end.volume_number, Some(7));
    let b = read_one(block(0x7b, 0x0008, 9, &[7, 0])).unwrap();
    let BlockKind::EndArchive(end) = b.kind else { panic!("not the end") };
    assert_eq!(end.archive_data_crc32, None);
    assert_eq!(end.volume_number, Some(7));
    // A type that is not known, with and without data.
    let b = read_one(block(0x42, 0xc000, 11, &[0x10, 0, 0, 0])).unwrap();
    assert_eq!(b.data_size(), 16);
    let BlockKind::Unknown(unknown) = b.kind else { panic!("known") };
    assert_eq!(unknown.tag, 0x42);
    assert_eq!(unknown.data_size, Some(16));
    assert!(unknown.flags.skip_if_unknown());
    assert!(unknown.flags.contains_data());
    let b = read_one(block(0x42, 0x0000, 7, &[])).unwrap();
    assert_eq!(b.data_size(), 0);
    let BlockKind::Unknown(unknown) = b.kind else { panic!("known") };
    assert_eq!(unknown.data_size, None);
    assert_eq!(HostOs::from(0), HostOs::MsDos);
    assert_eq!(HostOs::from(5), HostOs::BeOs);
    assert_eq!(HostOs::from(6), HostOs::Unknown(6));
}
