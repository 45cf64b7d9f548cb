use rawrxd::compat::Block;
use rawrxd::compat::HashKind;
use rawrxd::rar14;
use rawrxd::rar15;
use rawrxd::rar50;
use rawrxd::read::Reader;
use rawrxd::size::BlockSize;

#[test]
fn blocks_of_all_formats_behind_one_type() {
    // RAR14: a main block whose stored size counts the signature in.
    let mut reader = Reader::new(vec![0x07, 0x00, 0x00]);
    let block = Block::Rar14(rar14::Block::read(&mut reader, true).unwrap());
    assert_eq!((block.offset(), block.header_size(), block.data_size(), block.size()), (0, 3, 0, 3));
    assert_eq!(block.header_hash(), None);
    assert!(block.is_within(3));
    assert!(!block.is_within(2));

    // RAR15: a block of unknown type with 16 bytes of data.
    let mut reader = Reader::new(vec![0xcd, 0xab, 0x42, 0x00, 0x80, 0x0b, 0x00, 0x10, 0, 0, 0]);
    let block = Block::Rar15(rar15::Block::read(&mut reader).unwrap());
    assert_eq!((block.offset(), block.header_size(), block.data_size(), block.size()), (0, 11, 16, 27));
    assert_eq!(block.header_hash(), Some(HashKind::Crc16(0xabcd)));

    // RAR50: the block that ends the archive, read behind two other bytes.
    let mut reader = Reader::new(vec![0xff, 0xff, 0x78, 0x56, 0x34, 0x12, 0x03, 0x05, 0x00, 0x00]);
    reader.seek(2);
    let block = Block::Rar50(Box::new(rar50::Block::read(&mut reader).unwrap()));
    assert_eq!((block.offset(), block.header_size(), block.data_size(), block.size()), (2, 8, 0, 8));
    assert_eq!(block.header_hash(), Some(HashKind::Crc32(0x12345678)));
    assert!(block.is_within(10));
    assert!(!block.is_within(9));
}
