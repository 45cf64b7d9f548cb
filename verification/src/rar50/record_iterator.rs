//! The extra area of a RAR50 block: a bounded run of records.
//!
//! Each record holds its size, as a variable-length integer that counts the
//! bytes after itself; then its type, as another; then its data. The next
//! record starts where the size says, and the run ends once that offset
//! reaches the end of the area.
use crate::error::Error;
use crate::read::in_bounds;
use crate::read::lemma_vint_len_bounds;
use crate::read::read_vec_u64;
use crate::read::read_vint;
use crate::read::vint_len;
use crate::read::vint_value;
use crate::read::window;
use crate::read::Outcome;
use crate::read::Reader;
use vstd::prelude::*;

verus! {

/// A record of the extra area: its type and its data, in a buffer of their
/// own so that no decoder reads past the record.
#[derive(Debug)]
pub struct CommonRecord {
    pub record_type: u64,
    pub data: Vec<u8>,
}

/// Size that the record at offset `p` declares: the bytes of its type and data.
pub open spec fn record_size_at(s: Seq<u8>, p: int) -> int {
    vint_value(s, p) as int
}

/// Offset of the type of the record at offset `p`.
pub open spec fn record_type_offset(s: Seq<u8>, p: int) -> int {
    p + vint_len(s, p)
}

/// Type of the record at offset `p`.
pub open spec fn record_type_at(s: Seq<u8>, p: int) -> u64 {
    vint_value(s, record_type_offset(s, p))
}

/// Offset of the data of the record at offset `p`.
pub open spec fn record_data_offset(s: Seq<u8>, p: int) -> int {
    record_type_offset(s, p) + vint_len(s, record_type_offset(s, p))
}

/// Number of bytes of the data of the record at offset `p`; negative where
/// the declared size does not even hold the type.
pub open spec fn record_data_len(s: Seq<u8>, p: int) -> int {
    record_size_at(s, p) - vint_len(s, record_type_offset(s, p))
}

/// Offset of the record that follows the one at offset `p`.
pub open spec fn record_next(s: Seq<u8>, p: int) -> int {
    p + vint_len(s, p) + record_size_at(s, p)
}

/// How reading the record at offset `p` ends: it fails for want of bytes,
/// or because its size does not hold its type or leads past every offset;
/// else the cursor is left behind its data.
pub open spec fn record_outcome(s: Seq<u8>, p: int) -> Outcome {
    if !in_bounds(s, p, record_data_offset(s, p) - p) {
        Outcome::Failed { error: Error::UnexpectedEof, cursor: s.len() as int }
    } else if record_data_len(s, p) < 0 {
        Outcome::Failed { error: Error::CorruptHeader, cursor: record_data_offset(s, p) }
    } else if !in_bounds(s, record_data_offset(s, p), record_data_len(s, p)) {
        Outcome::Failed { error: Error::UnexpectedEof, cursor: s.len() as int }
    } else if record_next(s, p) > u64::MAX {
        Outcome::Failed {
            error: Error::CorruptHeader,
            cursor: record_data_offset(s, p) + record_data_len(s, p),
        }
    } else {
        Outcome::Complete { end: record_data_offset(s, p) + record_data_len(s, p) }
    }
}

impl CommonRecord {
    /// The record is the one stored at offset `p`.
    pub open spec fn decodes(&self, s: Seq<u8>, p: int) -> bool {
        &&& self.record_type == record_type_at(s, p)
        &&& self.data@ == window(s, record_data_offset(s, p), record_data_len(s, p))
    }
}

/// Number of bytes from offset `p` to offset `end`, none where `p` is past it.
pub open spec fn distance(p: int, end: int) -> nat {
    if p < end {
        (end - p) as nat
    } else {
        0
    }
}

/// The records of an area, as a scan from offset `p` to offset `end` finds
/// them: the offsets of the records that were read, the error that stopped
/// the scan if one did, and the offset where the cursor was left, `start`
/// where nothing was read.
pub ghost struct Scan {
    pub offsets: Seq<int>,
    pub error: Option<Error>,
    pub cursor: int,
}

/// The scan of the area that reaches from offset `p` to offset `end`; the
/// cursor stood at `cursor` before.
pub open spec fn scan(s: Seq<u8>, p: int, end: int, cursor: int) -> Scan
    decreases distance(p, end),
{
    if p >= end || record_next(s, p) <= p {
        Scan { offsets: Seq::empty(), error: None, cursor }
    } else {
        match record_outcome(s, p) {
            Outcome::Failed { error, cursor } => Scan {
                offsets: Seq::empty(),
                error: Some(error),
                cursor,
            },
            Outcome::Complete { end: stop } => {
                let rest = scan(s, record_next(s, p), end, stop);
                Scan { offsets: seq![p] + rest.offsets, error: rest.error, cursor: rest.cursor }
            },
        }
    }
}

/// The end of an area of `size` bytes that starts at offset `p`, held at the
/// largest offset there is.
pub open spec fn area_end(p: int, size: u64) -> int {
    if p + size > u64::MAX {
        u64::MAX as int
    } else {
        p + size
    }
}

/// The scan of the extra area that starts at offset `p`, where the block
/// has one.
pub open spec fn scan_area(s: Seq<u8>, p: int, extra_area_size: Option<u64>) -> Scan {
    match extra_area_size {
        Some(size) => scan(s, p, area_end(p, size), p),
        None => Scan { offsets: Seq::empty(), error: None, cursor: p },
    }
}

/// `records` holds the records stored at the given offsets, in order.
pub open spec fn records_decode(records: Seq<CommonRecord>, s: Seq<u8>, offsets: Seq<int>) -> bool {
    &&& records.len() == offsets.len()
    &&& forall|i: int| 0 <= i < records.len() ==> (#[trigger] records[i]).decodes(s, offsets[i])
}

/// Iterator over the records of an extra area.
#[derive(Debug)]
pub struct RecordIterator {
    end_offset: u64,
    next_record_offset: u64,
}

impl RecordIterator {
    /// Offset where the area ends.
    pub closed spec fn end_offset(&self) -> u64 {
        self.end_offset
    }

    /// Offset of the record that is read next.
    pub closed spec fn next_record_offset(&self) -> u64 {
        self.next_record_offset
    }

    /// Start at the cursor of `reader`, for an area of `extra_area_size` bytes.
    pub fn new(reader: &Reader, extra_area_size: u64) -> (res: Result<Self, Error>)
        ensures
            res matches Ok(iter) && iter.next_record_offset() == reader.pos() && iter.end_offset()
                == area_end(reader.pos(), extra_area_size),
    {
        let offset = reader.stream_position();
        let end_offset = if extra_area_size > u64::MAX - offset {
            u64::MAX
        } else {
            offset + extra_area_size
        };
        Ok(Self { end_offset, next_record_offset: offset })
    }

    /// One step over the area, from the state `pre` to the state `post`,
    /// with `item` yielded and the source taken from `source` to `left`.
    ///
    /// Once the next offset has reached the end of the area nothing is
    /// yielded and nothing changes. Else the record at the next offset is
    /// read: it is yielded, and the next record starts where its size says;
    /// or the error that reading it met is yielded.
    pub open spec fn step(
        pre: Self,
        post: Self,
        source: Reader,
        left: Reader,
        item: Option<Result<CommonRecord, Error>>,
    ) -> bool {
        let s = source.bytes();
        let p = pre.next_record_offset() as int;
        &&& post.end_offset() == pre.end_offset()
        &&& if pre.next_record_offset() >= pre.end_offset() {
            item is None && left == source && post.next_record_offset()
                == pre.next_record_offset()
        } else {
            match item {
                Some(res) => record_outcome(s, p).describes(source, left, res) && match res {
                    Ok(record) => record.decodes(s, p) && post.next_record_offset() == record_next(
                        s,
                        p,
                    ),
                    Err(_) => true,
                },
                None => false,
            }
        }
    }

    /// Read the record at the next offset.
    fn read_record(&mut self, reader: &mut Reader) -> (res: Result<CommonRecord, Error>)
        requires
            old(self).next_record_offset() < old(self).end_offset(),
        ensures
            Self::step(*old(self), *final(self), *old(reader), *final(reader), Some(res)),
    {
        reader.seek(self.next_record_offset);
        let (record_size, byte_size) = read_vint(reader)?;
        let (record_type, type_byte_size) = read_vint(reader)?;
        if record_size < type_byte_size as u64 {
            return Err(Error::CorruptHeader);
        }
        let data = read_vec_u64(reader, record_size - type_byte_size as u64)?;
        let step = record_size as u128 + byte_size as u128 + self.next_record_offset as u128;
        if step > u64::MAX as u128 {
            return Err(Error::CorruptHeader);
        }
        self.next_record_offset = step as u64;
        Ok(CommonRecord { record_type, data })
    }

    /// The next record, or nothing once the end of the area is reached.
    pub fn next(&mut self, reader: &mut Reader) -> (item: Option<Result<CommonRecord, Error>>)
        ensures
            Self::step(*old(self), *final(self), *old(reader), *final(reader), item),
    {
        if self.next_record_offset >= self.end_offset {
            return None;
        }
        Some(self.read_record(reader))
    }
}

/// Read the records of the extra area that starts at the cursor, where the
/// block has one.
pub fn read_records(reader: &mut Reader, extra_area_size: Option<u64>) -> (res: Result<
    Vec<CommonRecord>,
    Error,
>)
    ensures
        final(reader).stands_at(
            old(reader),
            scan_area(old(reader).bytes(), old(reader).pos(), extra_area_size).cursor,
        ),
        match scan_area(old(reader).bytes(), old(reader).pos(), extra_area_size).error {
            Some(error) => res == Err::<Vec<CommonRecord>, Error>(error),
            None => res matches Ok(records) && records_decode(
                records@,
                old(reader).bytes(),
                scan_area(old(reader).bytes(), old(reader).pos(), extra_area_size).offsets,
            ),
        },
{
    let mut records: Vec<CommonRecord> = Vec::new();
    let size = match extra_area_size {
        Some(size) => size,
        None => {
            return Ok(records);
        },
    };
    let ghost s = reader.bytes();
    let ghost start = reader.pos();
    let ghost end = area_end(start, size);
    let ghost mut offsets: Seq<int> = Seq::empty();
    let mut iter = match RecordIterator::new(reader, size) {
        Ok(iter) => iter,
        Err(e) => {
            return Err(e);
        },
    };
    loop
        invariant
            reader.bytes() == s,
            s == old(reader).bytes(),
            start == old(reader).pos(),
            extra_area_size == Some(size),
            end == area_end(start, size),
            iter.end_offset() == end,
            records_decode(records@, s, offsets),
            scan(s, start, end, start) == (Scan {
                offsets: offsets + scan(
                    s,
                    iter.next_record_offset() as int,
                    end,
                    reader.pos(),
                ).offsets,
                error: scan(s, iter.next_record_offset() as int, end, reader.pos()).error,
                cursor: scan(s, iter.next_record_offset() as int, end, reader.pos()).cursor,
            }),
        decreases distance(iter.next_record_offset() as int, end),
    {
        let ghost p = iter.next_record_offset() as int;
        proof {
            lemma_vint_len_bounds(s, p, 0);
        }
        match iter.next(reader) {
            None => {
                assert(offsets + Seq::<int>::empty() =~= offsets);
                return Ok(records);
            },
            Some(Err(e)) => {
                return Err(e);
            },
            Some(Ok(record)) => {
                records.push(record);
                proof {
                    let rest = scan(s, record_next(s, p), end, reader.pos());
                    assert((offsets.push(p)) + rest.offsets =~= offsets + (seq![p] + rest.offsets));
                    offsets = offsets.push(p);
                }
            },
        }
    }
}

} // verus!
