//! Readers for the timestamps of RAR50, and the decoder of its file names.
use crate::error::Error;
use crate::read::le_u32;
use crate::read::le_u64;
use crate::read::read_outcome;
use crate::read::read_u32;
use crate::read::read_u64;
use crate::read::Reader;
use crate::text::chars_of;
use crate::text::string_from_chars;
use crate::text::string_from_utf8;
use crate::time_conv::nanos_datetime;
use crate::time_conv::parse_unix_timestamp_ns;
use crate::time_conv::parse_unix_timestamp_sec;
use crate::time_conv::parse_windows_filetime;
use crate::time_conv::unix_datetime;
use crate::time_conv::windows_nanos;
use crate::time_conv::DateTime;
use vstd::prelude::*;
use vstd::utf8::decode_utf8;
use vstd::utf8::valid_utf8;

verus! {

/// The instant that a count of nanoseconds since the Unix epoch names, or
/// the count itself where the calendar does not reach that far.
pub open spec fn unix_nanos_time(nanos: u64) -> Result<DateTime, u64> {
    match nanos_datetime(nanos as int) {
        Some(t) => Ok(t),
        None => Err(nanos),
    }
}

/// The instant that a Windows FILETIME names, or the value itself where the
/// calendar does not reach that far.
pub open spec fn windows_time(filetime: u64) -> Result<DateTime, u64> {
    match nanos_datetime(windows_nanos(filetime)) {
        Some(t) => Ok(t),
        None => Err(filetime),
    }
}

/// Read a 64-bit count of nanoseconds since the Unix epoch.
pub fn read_unix_time_nanos(r: &mut Reader) -> (res: Result<Result<DateTime, u64>, Error>)
    ensures
        read_outcome(*old(r), *final(r), res, 8),
        res matches Ok(t) ==> t == unix_nanos_time(le_u64(old(r).bytes(), old(r).pos())) && (
        t matches Ok(instant) ==> instant.wf()),
{
    let nanos = read_u64(r)?;
    Ok(parse_unix_timestamp_ns(nanos))
}

/// Read a 32-bit count of seconds since the Unix epoch.
pub fn read_unix_time_sec(r: &mut Reader) -> (res: Result<Result<DateTime, u32>, Error>)
    ensures
        read_outcome(*old(r), *final(r), res, 4),
        res matches Ok(t) ==> t == Ok::<DateTime, u32>(
            unix_datetime(le_u32(old(r).bytes(), old(r).pos()) as int),
        ) && (t matches Ok(instant) ==> instant.wf()),
{
    let seconds = read_u32(r)?;
    Ok(parse_unix_timestamp_sec(seconds))
}

/// Read a Windows FILETIME.
pub fn read_windows_time(r: &mut Reader) -> (res: Result<Result<DateTime, u64>, Error>)
    ensures
        read_outcome(*old(r), *final(r), res, 8),
        res matches Ok(t) ==> t == windows_time(le_u64(old(r).bytes(), old(r).pos())) && (
        t matches Ok(instant) ==> instant.wf()),
{
    let filetime = read_u64(r)?;
    Ok(parse_windows_filetime(filetime))
}

/// The code point that marks a name as holding mapped characters.
pub const MAPPED_STRING_MARK: char = '\u{fffe}';

/// First code point of the private-use band that high bytes are mapped into.
pub const MAP_CHAR: u32 = 0xe000;

/// What one character of a marked name stands for: nothing for the mark,
/// the byte that was mapped for a character of the band from U+E080 up to,
/// but without, U+E100, and the character itself otherwise.
pub open spec fn unmap_char(c: char) -> Seq<char> {
    if 0xe080 <= c as u32 && (c as u32) < 0xe100 {
        seq![((c as u32 - 0xe000) as u8) as char]
    } else if c == '\u{fffe}' {
        Seq::empty()
    } else {
        seq![c]
    }
}

/// What the characters of a marked name stand for, one after the other.
pub open spec fn unmap_chars(chars: Seq<char>) -> Seq<char>
    decreases chars.len(),
{
    if chars.len() == 0 {
        Seq::empty()
    } else {
        unmap_chars(chars.drop_last()) + unmap_char(chars.last())
    }
}

/// The text of a name: with the mark in it, what its characters stand for;
/// without the mark, the characters as they are.
pub open spec fn unmapped(chars: Seq<char>) -> Seq<char> {
    if chars.contains('\u{fffe}') {
        unmap_chars(chars)
    } else {
        chars
    }
}

/// `name` is what the bytes `raw` of a name field stand for: their text
/// with the mapping undone, or the bytes themselves where they are no UTF-8.
pub open spec fn is_unmapped_name(raw: Seq<u8>, name: Result<String, Vec<u8>>) -> bool {
    match name {
        Ok(text) => valid_utf8(raw) && text@ == unmapped(decode_utf8(raw)),
        Err(kept) => !valid_utf8(raw) && kept@ == raw,
    }
}

/// Decode a RAR50 filename containing invalid high ASCII characters into UTF-8.
///
/// RAR50 stores filenames as UTF-8, but a filename on a Unix system may
/// hold "high ASCII" bytes (128-255) that are no UTF-8. Those bytes are
/// stored as characters of the private use area at U+E080 to U+E0FF, and the
/// name is marked with U+FFFE. This function undoes the mapping: the mark is
/// dropped and each mapped character becomes the character whose code point
/// is the byte. Bytes that are no UTF-8 at all are handed back.
pub fn unmap_high_ascii_chars(buf: Vec<u8>) -> (res: Result<String, Vec<u8>>)
    ensures
        is_unmapped_name(buf@, res),
{
    let text = string_from_utf8(buf)?;
    let chars = chars_of(text.as_str());
    let mut marked = false;
    let mut i: usize = 0;
    while i < chars.len()
        invariant
            i <= chars.len(),
            marked == chars@.subrange(0, i as int).contains('\u{fffe}'),
        decreases chars.len() - i,
    {
        if chars[i] == MAPPED_STRING_MARK {
            marked = true;
        }
        proof {
            let before = chars@.subrange(0, i as int);
            let after = chars@.subrange(0, i + 1);
            assert(after =~= before.push(chars@[i as int]));
            if before.contains('\u{fffe}') {
                let k = choose|k: int| 0 <= k < before.len() && before[k] == '\u{fffe}';
                assert(after[k] == '\u{fffe}');
            }
            if chars@[i as int] == '\u{fffe}' {
                assert(after[i as int] == '\u{fffe}');
            }
        }
        i = i + 1;
    }
    assert(chars@.subrange(0, chars.len() as int) =~= chars@);
    if !marked {
        return Ok(text);
    }
    let mut out: Vec<char> = Vec::new();
    let mut i: usize = 0;
    while i < chars.len()
        invariant
            i <= chars.len(),
            out@ == unmap_chars(chars@.subrange(0, i as int)),
        decreases chars.len() - i,
    {
        let c = chars[i];
        let code = c as u32;
        proof {
            let after = chars@.subrange(0, i + 1);
            assert(after.drop_last() =~= chars@.subrange(0, i as int));
            assert(after.last() == c);
        }
        if 0xe080 <= code && code < 0xe100 {
            out.push(((code - MAP_CHAR) as u8) as char);
        } else if c == MAPPED_STRING_MARK {
        } else {
            out.push(c);
        }
        assert(out@ =~= unmap_chars(chars@.subrange(0, i as int)) + unmap_char(c));
        i = i + 1;
    }
    assert(chars@.subrange(0, chars.len() as int) =~= chars@);
    Ok(string_from_chars(out))
}

} // verus!
