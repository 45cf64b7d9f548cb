use crate::text::string_from_chars;
use vstd::prelude::*;

verus! {

/// The character that a byte of a DOS file name stands for: a backslash
/// separates directories and becomes a slash, any other byte is the
/// character with that code point.
pub open spec fn dos_char(byte: u8) -> char {
    if byte == 0x5c {
        '/'
    } else {
        byte as char
    }
}

/// The text of a DOS file name.
pub open spec fn dos_filename(name: Seq<u8>) -> Seq<char> {
    Seq::new(name.len(), |i: int| dos_char(name[i]))
}

/// Turn a DOS file name into text, with slashes between directories.
///
/// DOS file names hold ASCII characters only, without some special ones.
pub fn conv_dos_filename(name: Vec<u8>) -> (text: String)
    ensures
        text@ == dos_filename(name@),
{
    let mut chars: Vec<char> = Vec::new();
    let mut i: usize = 0;
    while i < name.len()
        invariant
            i <= name.len(),
            chars@ == dos_filename(name@.subrange(0, i as int)),
        decreases name.len() - i,
    {
        let c = if name[i] == 0x5c {
            '/'
        } else {
            name[i] as char
        };
        chars.push(c);
        assert(chars@ =~= dos_filename(name@.subrange(0, i + 1)));
        i = i + 1;
    }
    assert(name@.subrange(0, i as int) =~= name@);
    string_from_chars(chars)
}

} // verus!
