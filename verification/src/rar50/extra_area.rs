//! How a block takes the records of its extra area.
//!
//! A block knows some types of record. The first record of each such type
//! is decoded; every other record is kept as an [`UnknownRecord`] that holds
//! its type alone: records of a type that the block does not know, and
//! further records of a type that it has decoded already.
use crate::error::Error;
use crate::rar50::record_iterator::record_data_len;
use crate::rar50::record_iterator::record_data_offset;
use crate::rar50::record_iterator::record_type_at;
use crate::rar50::record_iterator::records_decode;
use crate::rar50::record_iterator::CommonRecord;
use crate::rar50::records::RecordRead;
use crate::rar50::records::UnknownRecord;
use crate::read::in_bounds;
use crate::read::window;
use crate::read::Reader;
use vstd::prelude::*;
use vstd::slice::slice_to_vec;

verus! {

/// A record as a block sees it: its type and the bytes of its data.
pub ghost struct RecordView {
    pub record_type: u64,
    pub data: Seq<u8>,
}

/// The records held in `records`, as a block sees them.
pub open spec fn views_of(records: Seq<CommonRecord>) -> Seq<RecordView> {
    Seq::new(
        records.len(),
        |i: int| RecordView { record_type: records[i].record_type, data: records[i].data@ },
    )
}

/// The records stored at the given offsets of `s`, as a block sees them.
pub open spec fn views_at(s: Seq<u8>, offsets: Seq<int>) -> Seq<RecordView> {
    Seq::new(
        offsets.len(),
        |i: int|
            RecordView {
                record_type: record_type_at(s, offsets[i]),
                data: window(s, record_data_offset(s, offsets[i]), record_data_len(s, offsets[i])),
            },
    )
}

/// Records that were read at the given offsets are seen as what is stored there.
pub proof fn lemma_views(records: Seq<CommonRecord>, s: Seq<u8>, offsets: Seq<int>)
    requires
        records_decode(records, s, offsets),
    ensures
        views_of(records) == views_at(s, offsets),
{
    assert(views_of(records) =~= views_at(s, offsets));
}

/// Index of the first record from index `from` on that has the type `tag`;
/// the number of records where there is none.
pub open spec fn position(views: Seq<RecordView>, tag: u64, from: int) -> int
    decreases views.len() - from,
{
    if from >= views.len() {
        views.len() as int
    } else if from >= 0 && views[from].record_type == tag {
        from
    } else {
        position(views, tag, from + 1)
    }
}

/// Index of the first record of type `tag`, the number of records where
/// there is none.
pub open spec fn first_of(views: Seq<RecordView>, tag: u64) -> int {
    position(views, tag, 0)
}

/// The first record of type `tag`, if there is one, can be decoded as an `R`.
pub open spec fn slot_readable<R: RecordRead>(views: Seq<RecordView>, tag: u64) -> bool {
    let i = first_of(views, tag);
    0 <= i < views.len() ==> in_bounds(views[i].data, 0, R::record_size(views[i].data, 0))
}

/// `field` holds the first record of type `tag`, decoded; nothing where
/// there is no such record.
pub open spec fn slot_holds<R: RecordRead>(
    field: Option<R>,
    views: Seq<RecordView>,
    tag: u64,
) -> bool {
    let i = first_of(views, tag);
    if 0 <= i < views.len() {
        field matches Some(record) && record.record_decodes(views[i].data, 0)
    } else {
        field is None
    }
}

/// The record with index `i` is one that a block decodes, when it knows the
/// types `known`: the first of a type that it knows.
pub open spec fn is_taken(views: Seq<RecordView>, known: Seq<u64>, i: int) -> bool {
    known.contains(views[i].record_type) && first_of(views, views[i].record_type) == i
}

/// The records among the first `n` that a block which knows the types
/// `known` does not decode, in order, each reduced to its type.
pub open spec fn unknown_among(views: Seq<RecordView>, known: Seq<u64>, n: int) -> Seq<
    UnknownRecord,
>
    decreases n,
{
    if n <= 0 {
        Seq::empty()
    } else if is_taken(views, known, n - 1) {
        unknown_among(views, known, n - 1)
    } else {
        unknown_among(views, known, n - 1).push(UnknownRecord { tag: views[n - 1].record_type })
    }
}

/// The records that a block which knows the types `known` does not decode.
pub open spec fn unknown_records(views: Seq<RecordView>, known: Seq<u64>) -> Seq<UnknownRecord> {
    unknown_among(views, known, views.len() as int)
}

/// Where no record before index `i` has the type `tag`, the first record of
/// that type is the first from `i` on.
proof fn lemma_position_skip(views: Seq<RecordView>, tag: u64, from: int, i: int)
    requires
        0 <= from <= i <= views.len(),
        forall|j: int| from <= j < i ==> views[j].record_type != tag,
    ensures
        position(views, tag, from) == position(views, tag, i),
    decreases i - from,
{
    if from < i {
        lemma_position_skip(views, tag, from + 1, i);
    }
}

/// Index of the first record of type `tag`, or the number of records.
pub fn find_first(records: &Vec<CommonRecord>, tag: u64) -> (index: usize)
    ensures
        index == first_of(views_of(records@), tag),
        index <= records.len(),
{
    let ghost views = views_of(records@);
    let mut i: usize = 0;
    while i < records.len()
        invariant
            i <= records.len(),
            views == views_of(records@),
            forall|j: int| 0 <= j < i ==> views[j].record_type != tag,
        decreases records.len() - i,
    {
        if records[i].record_type == tag {
            proof {
                lemma_position_skip(views, tag, 0, i as int);
            }
            return i;
        }
        i = i + 1;
    }
    proof {
        lemma_position_skip(views, tag, 0, i as int);
    }
    i
}

/// Decode the first record of type `tag`, if there is one.
pub fn read_first<R: RecordRead>(records: &Vec<CommonRecord>, tag: u64) -> (res: Result<
    Option<R>,
    Error,
>)
    ensures
        if slot_readable::<R>(views_of(records@), tag) {
            res matches Ok(field) && slot_holds(field, views_of(records@), tag)
        } else {
            res == Err::<Option<R>, Error>(Error::UnexpectedEof)
        },
{
    let index = find_first(records, tag);
    if index >= records.len() {
        return Ok(None);
    }
    let mut data = Reader::new(slice_to_vec(records[index].data.as_slice()));
    let record = R::read_record(&mut data)?;
    Ok(Some(record))
}

/// Whether `tag` is among `known`.
pub fn is_known(known: &Vec<u64>, tag: u64) -> (found: bool)
    ensures
        found == known@.contains(tag),
{
    let mut i: usize = 0;
    while i < known.len()
        invariant
            i <= known.len(),
            forall|j: int| 0 <= j < i ==> known@[j] != tag,
        decreases known.len() - i,
    {
        if known[i] == tag {
            return true;
        }
        i = i + 1;
    }
    false
}

/// The records that a block which knows the types `known` does not decode,
/// each reduced to its type.
pub fn collect_unknown(records: &Vec<CommonRecord>, known: &Vec<u64>) -> (unknown: Vec<
    UnknownRecord,
>)
    ensures
        unknown@ == unknown_records(views_of(records@), known@),
{
    let ghost views = views_of(records@);
    let mut unknown: Vec<UnknownRecord> = Vec::new();
    let mut i: usize = 0;
    while i < records.len()
        invariant
            i <= records.len(),
            views == views_of(records@),
            unknown@ == unknown_among(views, known@, i as int),
        decreases records.len() - i,
    {
        let tag = records[i].record_type;
        let taken = is_known(known, tag) && find_first(records, tag) == i;
        if !taken {
            unknown.push(UnknownRecord::new(tag));
        }
        i = i + 1;
    }
    unknown
}

} // verus!
