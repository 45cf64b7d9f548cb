use rawrxd::rar50::unmap_high_ascii_chars;

#[test]
fn test_conv_file_name() {
    let high_ascii_file_name = b"\xef\xbf\xbe\xee\x83\x86".to_vec();
    assert_eq!(unmap_high_ascii_chars(high_ascii_file_name).unwrap(), "\u{c6}");
}

#[test]
fn unmap_leaves_names_without_the_mark_alone() {
    // U+E0C6 without the mark U+FFFE stays a private-use character.
    assert_eq!(unmap_high_ascii_chars(b"\xee\x83\x86".to_vec()).unwrap(), "\u{e0c6}");
    assert_eq!(unmap_high_ascii_chars(b"plain".to_vec()).unwrap(), "plain");
}

#[test]
fn unmap_drops_every_mark_and_maps_the_band_alone() {
    // mark, 'a', U+E080, mark, U+E0FF, U+E100, U+E07F
    let mut bytes = Vec::new();
    for c in ['\u{fffe}', 'a', '\u{e080}', '\u{fffe}', '\u{e0ff}', '\u{e100}', '\u{e07f}'] {
        let mut buf = [0u8; 4];
        bytes.extend_from_slice(c.encode_utf8(&mut buf).as_bytes());
    }
    assert_eq!(
        unmap_high_ascii_chars(bytes).unwrap(),
        "a\u{80}\u{ff}\u{e100}\u{e07f}"
    );
}

#[test]
fn unmap_hands_back_bytes_that_are_no_utf8() {
    assert_eq!(unmap_high_ascii_chars(vec![b'a', 0xc6]), Err(vec![b'a', 0xc6]));
}
