//! Detection of the format of an archive by the marker at the cursor.
use crate::error::Error;
use crate::format::Format;
use crate::read::read_const_bytes;
use crate::read::window;
use crate::read::Reader;
use vstd::prelude::*;

verus! {

/// The format whose marker the 8 bytes `marker` start with: of the marker
/// of RAR 1.4 the 4 bytes that follow are not looked at, and of that of
/// RAR 1.5 the one byte that follows.
pub open spec fn format_of(marker: Seq<u8>) -> Option<Format> {
    if marker[0] == 0x52 && marker[1] == 0x45 && marker[2] == 0x7e && marker[3] == 0x5e {
        Some(Format::Rar14)
    } else if marker[0] == 0x52 && marker[1] == 0x61 && marker[2] == 0x72 && marker[3] == 0x21
        && marker[4] == 0x1a && marker[5] == 0x07 {
        if marker[6] == 0 {
            Some(Format::Rar15)
        } else if marker[6] == 1 && marker[7] == 0 {
            Some(Format::Rar50)
        } else {
            None
        }
    } else {
        None
    }
}

/// Tell the format of an archive by its first 8 bytes.
pub fn detect_format(marker: &[u8; 8]) -> (format: Option<Format>)
    ensures
        format == format_of(marker@),
{
    if marker[0] == 0x52 && marker[1] == 0x45 && marker[2] == 0x7e && marker[3] == 0x5e {
        Some(Format::Rar14)
    } else if marker[0] == 0x52 && marker[1] == 0x61 && marker[2] == 0x72 && marker[3] == 0x21
        && marker[4] == 0x1a && marker[5] == 0x07 {
        if marker[6] == 0 {
            Some(Format::Rar15)
        } else if marker[6] == 1 && marker[7] == 0 {
            Some(Format::Rar50)
        } else {
            None
        }
    } else {
        None
    }
}

/// Number of bytes that the cursor moves when the format of the 8 bytes
/// `marker` is told: past the marker of a format, and past all 8 bytes
/// where they are no marker.
pub open spec fn marker_size(marker: Seq<u8>) -> int {
    match format_of(marker) {
        Some(format) => format.spec_signature_size() as int,
        None => 8,
    }
}

/// Read the marker at the cursor and leave the cursor behind it.
///
/// 8 bytes are needed, whatever the format.
pub fn read_signature(r: &mut Reader) -> (res: Result<Option<Format>, Error>)
    ensures
        match res {
            Ok(format) => crate::read::in_bounds(old(r).bytes(), old(r).pos(), 8) && format
                == format_of(window(old(r).bytes(), old(r).pos(), 8)) && final(r).advanced(
                old(r),
                marker_size(window(old(r).bytes(), old(r).pos(), 8)),
            ),
            Err(e) => e == Error::UnexpectedEof && !crate::read::in_bounds(
                old(r).bytes(),
                old(r).pos(),
                8,
            ) && final(r).exhausted(old(r)),
        },
{
    proof {
        r.lemma_pos_range();
    }
    let marker = read_const_bytes::<8>(r)?;
    let format = match detect_format(&marker) {
        Some(format) => format,
        None => {
            return Ok(None);
        },
    };
    // Step back over the bytes that were read beyond the marker.
    let end = r.stream_position();
    r.seek(end - (8 - format.signature_size()));
    Ok(Some(format))
}

} // verus!
