use rawrxd::rar15::decode_file_name;

#[test]
fn test_decode_file_name_shift_jis() {
    let file_name = b"(\x88\xEA\x94\xCA\x83Q\x81[\x83\x80)\
                      [PC][DVD][050617] Ever17 -the out of infinity- PE DVD Edition(iso+mds)\
                      \\EVER17_DVD.iso\x00N\x1A(\x00,\x82\xB20\xA0\xFC0\xE00)[\x00PC]\
                      [\x03DVD\x00\x000506\x0017] \x00Ever\x0017 -\x00the \x00out \x00of \
                      i\x00nfin\x00ity-\x00 PE \x00DVD \x00Edit\x00ion(\x00iso+\x00mds)\
                      \x00\\EVE\x00R17_\x00DVD.\x00iso"
        .to_vec();

    assert_eq!(
        decode_file_name(file_name).unwrap(),
        "(一般ゲーム)[PC][DVD][050617] Ever17 -the out of infinity- \
         PE DVD Edition(iso+mds)\\EVER17_DVD.iso"
    );
}

#[test]
fn test_decode_file_name_with_0_byte_end() {
    let file_name = b"test.rar\x00".to_vec();

    assert_eq!(decode_file_name(file_name).unwrap(), "test.rar");
}

#[test]
fn decode_file_name_without_separator_is_plain_text() {
    assert_eq!(decode_file_name(b"plain.txt".to_vec()).unwrap(), "plain.txt");
}

#[test]
fn decode_file_name_hands_back_bytes_that_are_no_text() {
    assert_eq!(decode_file_name(vec![0xff, 0xfe]), Err(vec![0xff, 0xfe]));
    // The 0 byte at the end is dropped before the bytes are handed back.
    assert_eq!(decode_file_name(vec![0xff, 0x00]), Err(vec![0xff]));
}

#[test]
fn decode_file_name_emits_byte_with_high_byte() {
    // High byte 0x04; instruction byte 0b01_00_00_00: one byte with the high
    // byte above it, then one byte as it is.
    let field = vec![b'a', b'b', 0x00, 0x04, 0b0100_0000, 0x10, b'z'];
    assert_eq!(decode_file_name(field).unwrap(), "\u{410}z");
}

#[test]
fn decode_file_name_emits_two_byte_code_points() {
    // Instruction 2 takes the low byte first.
    let field = vec![b'a', 0x00, 0x00, 0b1000_0000, 0x42, 0x30];
    assert_eq!(decode_file_name(field).unwrap(), "\u{3042}");
}

#[test]
fn decode_file_name_copies_chunks_of_the_narrow_name() {
    // Instruction 3 with length 1: copies 1 + 2 bytes of the narrow name.
    let field = vec![b'a', b'b', b'c', b'd', 0x00, 0x00, 0b1100_0000, 0x01];
    assert_eq!(decode_file_name(field).unwrap(), "abc");
}

#[test]
fn decode_file_name_applies_the_correction_to_two_more_than_the_count() {
    // Length byte 0x81: the top bit asks for a correction, the count is 1,
    // so 1 + 2 characters are emitted. Correction 1, high byte 0x04.
    let field = vec![0x0f, 0x10, 0x11, 0x12, 0x00, 0x04, 0b1100_0000, 0x81, 0x01];
    assert_eq!(decode_file_name(field).unwrap(), "\u{410}\u{411}\u{412}");
    // The correction is added within 8 bits.
    let field = vec![0xff, 0xff, 0x00, 0x00, 0b1100_0000, 0x80, 0x42];
    assert_eq!(decode_file_name(field).unwrap(), "AA");
}

#[test]
fn decode_file_name_falls_back_when_the_narrow_name_is_too_short() {
    let field = vec![b'a', 0x00, 0x00, 0b1100_0000, 0x00];
    assert_eq!(decode_file_name(field.clone()), Err(field));
}

#[test]
fn decode_file_name_falls_back_on_a_value_that_is_no_character() {
    // High byte 0xd8 makes a surrogate, which is no character.
    let field = vec![b'a', 0x00, 0xd8, 0b0100_0000, 0x00];
    assert_eq!(decode_file_name(field.clone()), Err(field));
    // A two-byte code point whose second byte is missing.
    let field = vec![b'a', 0x00, 0x00, 0b1000_0000, 0x42];
    assert_eq!(decode_file_name(field.clone()), Err(field));
}

#[test]
fn decode_file_name_stops_when_the_program_ends_within_an_instruction_byte() {
    // Four instructions are packed, but operands for two alone.
    let field = vec![b'a', 0x00, 0x00, 0b0000_0000, b'x', b'y'];
    assert_eq!(decode_file_name(field).unwrap(), "xy");
    // A high byte alone decodes to nothing.
    assert_eq!(decode_file_name(vec![b'a', 0x00, 0x00]).unwrap(), "");
}
