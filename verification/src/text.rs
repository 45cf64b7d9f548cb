//! Conversions between bytes, characters and strings.
use vstd::prelude::*;
use vstd::std_specs::iter::IteratorSpec;
use vstd::utf8::decode_utf8;
use vstd::utf8::is_scalar;
use vstd::utf8::valid_utf8;

verus! {

/// The characters whose code points are the bytes of `bytes`, one for one.
pub open spec fn widen(bytes: Seq<u8>) -> Seq<char> {
    Seq::new(bytes.len(), |i: int| bytes[i] as char)
}

/// True when every byte of `bytes` is in the ASCII range.
pub open spec fn all_ascii(bytes: Seq<u8>) -> bool {
    forall|i: int| 0 <= i < bytes.len() ==> bytes[i] < 0x80
}

/// `decoded` is what decoding `bytes` as UTF-8 gives: their text where they
/// are well-formed, the bytes themselves where they are not.
pub open spec fn is_decoded(bytes: Seq<u8>, decoded: Result<String, Vec<u8>>) -> bool {
    match decoded {
        Ok(text) => valid_utf8(bytes) && text@ == decode_utf8(bytes),
        Err(raw) => !valid_utf8(bytes) && raw@ == bytes,
    }
}

/// Decodes `bytes` as UTF-8 through `String::from_utf8` of the standard
/// library: the string holds the characters that the bytes encode when they
/// are well-formed UTF-8, and the bytes are handed back unchanged when they
/// are not.
#[verifier::external_body]
pub(crate) fn string_from_utf8(bytes: Vec<u8>) -> (res: Result<String, Vec<u8>>)
    ensures
        is_decoded(bytes@, res),
{
    match String::from_utf8(bytes) {
        Ok(text) => Ok(text),
        Err(e) => Err(e.into_bytes()),
    }
}

/// Collects characters into a string through `String::from_iter` of the
/// standard library: the string holds exactly those characters, in order.
#[verifier::external_body]
pub(crate) fn string_from_chars(chars: Vec<char>) -> (text: String)
    ensures
        text@ == chars@,
{
    String::from_iter(chars)
}

/// Converts a number to the character with that code point through
/// `char::from_u32` of the standard library, which gives a character for
/// every Unicode scalar value and for no other number.
#[verifier::external_body]
pub(crate) fn char_from_u32(value: u32) -> (res: Option<char>)
    ensures
        match res {
            Some(c) => is_scalar(value) && c as u32 == value,
            None => !is_scalar(value),
        },
{
    char::from_u32(value)
}

/// Whether every byte of `bytes` is in the ASCII range.
pub fn is_ascii(bytes: &Vec<u8>) -> (ascii: bool)
    ensures
        ascii == all_ascii(bytes@),
{
    let mut i: usize = 0;
    while i < bytes.len()
        invariant
            i <= bytes.len(),
            forall|j: int| 0 <= j < i ==> bytes@[j] < 0x80,
        decreases bytes.len() - i,
    {
        if bytes[i] >= 0x80 {
            return false;
        }
        i = i + 1;
    }
    true
}

/// The string whose characters have the bytes of `bytes` as code points.
pub fn widen_to_string(bytes: &Vec<u8>) -> (text: String)
    ensures
        text@ == widen(bytes@),
{
    let mut chars: Vec<char> = Vec::new();
    let mut i: usize = 0;
    while i < bytes.len()
        invariant
            i <= bytes.len(),
            chars@ == widen(bytes@.subrange(0, i as int)),
        decreases bytes.len() - i,
    {
        chars.push(bytes[i] as char);
        assert(chars@ =~= widen(bytes@.subrange(0, i + 1)));
        i = i + 1;
    }
    assert(bytes@.subrange(0, i as int) =~= bytes@);
    string_from_chars(chars)
}

/// The characters of `text`, in order.
pub fn chars_of(text: &str) -> (chars: Vec<char>)
    ensures
        chars@ == text@,
{
    broadcast use vstd::string::group_string_axioms;

    let mut chars: Vec<char> = Vec::new();
    let mut it = text.chars();
    loop
        invariant
            it.obeys_prophetic_iter_laws(),
            chars@ + it.remaining() == text@,
            it.decrease() is Some,
        decreases it.decrease()->0,
    {
        match it.next() {
            Some(c) => {
                chars.push(c);
                assert(chars@ + it.remaining() =~= text@);
            },
            None => {
                assert(chars@ =~= text@);
                return chars;
            },
        }
    }
}

} // verus!
