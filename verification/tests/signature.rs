use rawrxd::format::Format;
use rawrxd::rar_file::detect_format;
use rawrxd::rar_file::read_signature;
use rawrxd::read::Reader;
use rawrxd::signature::MAX_SFX_SIZE;
use rawrxd::error::Error;
use rawrxd::Signature;

const RAR14: &[u8] = b"RE\x7e\x5e";
const RAR15: &[u8] = b"Rar!\x1a\x07\x00";
const RAR50: &[u8] = b"Rar!\x1a\x07\x01\x00";

/// Not a RAR archive.
#[test]
fn abnormal_bad_archive() {
    let mut reader = Reader::new(b"This is not the archive you are looking for.\n".to_vec());

    let signature = Signature::search_stream(&mut reader).unwrap();

    assert_eq!(signature, None);
}

/// Not a RAR archive.
#[test]
fn bad_archive_bad_archive() {
    let mut reader = Reader::new(vec![0x52; 4096]);

    let signature = Signature::search_stream(&mut reader).unwrap();

    assert_eq!(signature, None);
}

#[test]
fn signatures_and_their_sizes() {
    assert_eq!(Signature::Rar14.signature(), RAR14);
    assert_eq!(Signature::Rar15.signature(), RAR15);
    assert_eq!(Signature::Rar50.signature(), RAR50);
    assert_eq!(Signature::Rar14.size(), 4);
    assert_eq!(Signature::Rar15.size(), 7);
    assert_eq!(Signature::Rar50.size(), 8);
    assert_eq!(MAX_SFX_SIZE, 2 * 1024 * 1024);
}

#[test]
fn signature_at_the_start_of_the_file() {
    for (format, marker) in
        [(Signature::Rar14, RAR14), (Signature::Rar15, RAR15), (Signature::Rar50, RAR50)]
    {
        let mut bytes = marker.to_vec();
        bytes.extend_from_slice(&[0u8; 32]);
        let mut reader = Reader::new(bytes.clone());
        assert_eq!(Signature::search_stream(&mut reader).unwrap(), Some((format, 0)));
        // The cursor is not moved.
        assert_eq!(reader.stream_position(), 0);
        assert_eq!(Signature::from_bytes(&bytes), Some(format));
    }
}

#[test]
fn signature_behind_a_stub() {
    let mut bytes = b"MZ\x90\x00 a stub that Runs before the aRchive, with a lone Rar! in it".to_vec();
    let offset = bytes.len() as u64;
    bytes.extend_from_slice(RAR50);
    bytes.extend_from_slice(&[0u8; 16]);
    let mut reader = Reader::new(bytes);
    assert_eq!(Signature::search_stream(&mut reader).unwrap(), Some((Signature::Rar50, offset)));
}

#[test]
fn the_first_signature_wins() {
    // A marker of RAR15 before one of RAR14, though that of RAR14 is shorter.
    let mut bytes = vec![0u8; 3];
    bytes.extend_from_slice(RAR15);
    bytes.extend_from_slice(RAR14);
    bytes.extend_from_slice(RAR50);
    let mut reader = Reader::new(bytes);
    assert_eq!(Signature::search_stream(&mut reader).unwrap(), Some((Signature::Rar15, 3)));
    // The offset counts from the cursor.
    reader.seek(4);
    assert_eq!(Signature::search_stream(&mut reader).unwrap(), Some((Signature::Rar14, 6)));
    reader.seek(11);
    assert_eq!(Signature::search_stream(&mut reader).unwrap(), Some((Signature::Rar50, 3)));
    reader.seek(15);
    assert_eq!(Signature::search_stream(&mut reader).unwrap(), None);
    reader.seek(100);
    assert_eq!(Signature::search_stream(&mut reader).unwrap(), None);
}

#[test]
fn a_signature_must_end_within_the_search_bound() {
    let bound = MAX_SFX_SIZE as usize;
    // The marker ends exactly at the bound.
    let mut bytes = vec![0u8; bound - RAR15.len()];
    bytes.extend_from_slice(RAR15);
    bytes.extend_from_slice(&[0u8; 8]);
    let mut reader = Reader::new(bytes);
    assert_eq!(
        Signature::search_stream(&mut reader).unwrap(),
        Some((Signature::Rar15, (bound - RAR15.len()) as u64))
    );
    // One byte further it is out of reach.
    let mut bytes = vec![0u8; bound - RAR15.len() + 1];
    bytes.extend_from_slice(RAR15);
    bytes.extend_from_slice(&[0u8; 8]);
    let mut reader = Reader::new(bytes);
    assert_eq!(Signature::search_stream(&mut reader).unwrap(), None);
}

#[test]
fn a_cut_signature_is_none() {
    let mut reader = Reader::new(RAR15[..6].to_vec());
    assert_eq!(Signature::search_stream(&mut reader).unwrap(), None);
    assert_eq!(Signature::from_bytes(&RAR15[..6]), None);
    assert_eq!(Signature::from_bytes(&[]), None);
    // The seventh byte tells RAR15 from RAR50, and RAR50 has an eighth.
    assert_eq!(Signature::from_bytes(b"Rar!\x1a\x07\x01"), None);
    assert_eq!(Signature::from_bytes(b"Rar!\x1a\x07\x02\x00"), None);
    assert_eq!(Signature::from_bytes(b"xRar!\x1a\x07\x00"), None);
}

#[test]
fn format_by_the_first_eight_bytes() {
    assert_eq!(detect_format(b"RE\x7e\x5e\x01\x02\x03\x04"), Some(Format::Rar14));
    assert_eq!(detect_format(b"Rar!\x1a\x07\x00\xff"), Some(Format::Rar15));
    assert_eq!(detect_format(b"Rar!\x1a\x07\x01\x00"), Some(Format::Rar50));
    assert_eq!(detect_format(b"Rar!\x1a\x07\x01\x01"), None);
    assert_eq!(detect_format(b"Rar!\x1a\x07\x02\x00"), None);
    assert_eq!(detect_format(b"PK\x03\x04\x00\x00\x00\x00"), None);
    assert_eq!(Format::Rar14.signature_size(), 4);
    assert_eq!(Format::Rar15.signature_size(), 7);
    assert_eq!(Format::Rar50.signature_size(), 8);
}

#[test]
fn reading_the_signature_leaves_the_cursor_behind_it() {
    let mut bytes = vec![0xaa, 0xbb];
    bytes.extend_from_slice(RAR15);
    bytes.extend_from_slice(&[0u8; 8]);
    let mut reader = Reader::new(bytes);
    reader.seek(2);
    assert_eq!(read_signature(&mut reader).unwrap(), Some(Format::Rar15));
    assert_eq!(reader.stream_position(), 9);
    // No marker: the 8 bytes were read.
    assert_eq!(read_signature(&mut reader).unwrap(), None);
    assert_eq!(reader.stream_position(), 17);
    // Fewer than 8 bytes are left.
    let mut reader = Reader::new(RAR15.to_vec());
    assert!(matches!(read_signature(&mut reader), Err(Error::UnexpectedEof)));
}
