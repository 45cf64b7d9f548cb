//! The blocks of a RAR50 archive.
//!
//! Every integer of a header is a variable-length integer, so the offset of
//! each field depends on the fields before it. The contracts give those
//! offsets as functions of the bytes.
use crate::error::Error;
use crate::rar50::extra_area::collect_unknown;
use crate::rar50::extra_area::lemma_views;
use crate::rar50::extra_area::read_first;
use crate::rar50::extra_area::slot_holds;
use crate::rar50::extra_area::slot_readable;
use crate::rar50::extra_area::unknown_records;
use crate::rar50::extra_area::views_at;
use crate::rar50::extra_area::views_of;
use crate::rar50::extra_area::RecordView;
use crate::rar50::record_iterator::read_records;
use crate::rar50::record_iterator::scan_area;
use crate::rar50::record_iterator::CommonRecord;
use crate::rar50::records::LocatorRecord;
use crate::rar50::records::MetadataRecord;
use crate::rar50::records::UnknownRecord;
use crate::read::in_bounds;
use crate::read::low_word;
use crate::read::optional_vint;
use crate::read::optional_vint_len;
use crate::read::read_optional_vint;
use crate::read::read_vint_value;
use crate::read::truncate_u16;
use crate::read::vint_end;
use crate::read::vint_len;
use crate::read::vint_value;
use crate::read::Outcome;
use crate::read::Reader;
use vstd::prelude::*;

verus! {

/// Largest number of bytes of the name of a file that is read.
pub const MAX_PATH_SIZE: u64 = 0x10000;

/// How a decoder ends that reads `fields_size` bytes of fields at offset
/// `p` and then the records of the extra area: it fails for want of the
/// fields, or as the scan of the area fails, or for want of bytes in a
/// record that it decodes; else the cursor is left where the scan left it.
pub open spec fn with_records(
    s: Seq<u8>,
    p: int,
    fields_size: int,
    extra_area_size: Option<u64>,
    readable: bool,
) -> Outcome {
    if !in_bounds(s, p, fields_size) {
        Outcome::Failed { error: Error::UnexpectedEof, cursor: s.len() as int }
    } else {
        let found = scan_area(s, p + fields_size, extra_area_size);
        match found.error {
            Some(error) => Outcome::Failed { error, cursor: found.cursor },
            None => if readable {
                Outcome::Complete { end: found.cursor }
            } else {
                Outcome::Failed { error: Error::UnexpectedEof, cursor: found.cursor }
            },
        }
    }
}

/// The records of the extra area that starts at offset `p`, as a block
/// sees them.
pub open spec fn area_views(s: Seq<u8>, p: int, extra_area_size: Option<u64>) -> Seq<RecordView> {
    views_at(s, scan_area(s, p, extra_area_size).offsets)
}

/// Read the records of the extra area at the cursor, for a decoder whose
/// fields ended there.
pub(crate) fn read_area(r: &mut Reader, extra_area_size: Option<u64>) -> (res: Result<
    Vec<CommonRecord>,
    Error,
>)
    ensures
        final(r).stands_at(old(r), scan_area(old(r).bytes(), old(r).pos(), extra_area_size).cursor),
        match scan_area(old(r).bytes(), old(r).pos(), extra_area_size).error {
            Some(error) => res == Err::<Vec<CommonRecord>, Error>(error),
            None => res matches Ok(records) && views_of(records@) == area_views(
                old(r).bytes(),
                old(r).pos(),
                extra_area_size,
            ),
        },
{
    let ghost s = r.bytes();
    let ghost p = r.pos();
    let records = read_records(r, extra_area_size)?;
    proof {
        lemma_views(records@, s, scan_area(s, p, extra_area_size).offsets);
    }
    Ok(records)
}

/// Flags that are common to all blocks.
#[derive(Debug, Clone, Copy)]
pub struct CommonFlags {
    bits: u16,
}

impl CommonFlags {
    /// The flag word as it was stored.
    pub closed spec fn bits(&self) -> u16 {
        self.bits
    }

    /// Wrap a flag word.
    pub fn new(flags: u16) -> (res: Self)
        ensures
            res.bits() == flags,
    {
        Self { bits: flags }
    }

    /// Additional extra area is present at the end of the block header.
    pub fn has_extra_area(&self) -> (set: bool)
        ensures
            set == (self.bits() & 0x0001 != 0),
    {
        self.bits & 0x0001 != 0
    }

    /// Additional data area is present at the end of the block header.
    pub fn has_data_area(&self) -> (set: bool)
        ensures
            set == (self.bits() & 0x0002 != 0),
    {
        self.bits & 0x0002 != 0
    }

    /// Unknown blocks with this flag must be skipped when updating an archive.
    pub fn skip_if_unknown(&self) -> (set: bool)
        ensures
            set == (self.bits() & 0x0004 != 0),
    {
        self.bits & 0x0004 != 0
    }

    /// Data area of this block is continuing from the previous volume.
    pub fn split_before(&self) -> (set: bool)
        ensures
            set == (self.bits() & 0x0008 != 0),
    {
        self.bits & 0x0008 != 0
    }

    /// Data area of this block is continuing in the next volume.
    pub fn split_after(&self) -> (set: bool)
        ensures
            set == (self.bits() & 0x0010 != 0),
    {
        self.bits & 0x0010 != 0
    }

    /// Block depends on preceding file block.
    pub fn is_child(&self) -> (set: bool)
        ensures
            set == (self.bits() & 0x0020 != 0),
    {
        self.bits & 0x0020 != 0
    }

    /// Preserve a child block if host is modified.
    pub fn is_inherited(&self) -> (set: bool)
        ensures
            set == (self.bits() & 0x0040 != 0),
    {
        self.bits & 0x0040 != 0
    }
}

/// [`MainBlock`] flags.
#[derive(Debug, Clone, Copy)]
pub struct MainBlockFlags {
    bits: u16,
}

impl MainBlockFlags {
    /// The flag word as it was stored.
    pub closed spec fn bits(&self) -> u16 {
        self.bits
    }

    /// Wrap a flag word.
    pub fn new(flags: u16) -> (res: Self)
        ensures
            res.bits() == flags,
    {
        Self { bits: flags }
    }

    /// Archive is part of a multi-volume archive.
    pub fn is_volume(&self) -> (set: bool)
        ensures
            set == (self.bits() & 0x0001 != 0),
    {
        self.bits & 0x0001 != 0
    }

    /// Volume number field is present. True for all volumes except first.
    pub fn has_volume_number(&self) -> (set: bool)
        ensures
            set == (self.bits() & 0x0002 != 0),
    {
        self.bits & 0x0002 != 0
    }

    /// Archive uses [solid compression][1].
    ///
    /// [1]: https://en.wikipedia.org/wiki/Solid_compression
    pub fn is_solid(&self) -> (set: bool)
        ensures
            set == (self.bits() & 0x0004 != 0),
    {
        self.bits & 0x0004 != 0
    }

    /// Contains a recovery record.
    pub fn has_recovery_record(&self) -> (set: bool)
        ensures
            set == (self.bits() & 0x0008 != 0),
    {
        self.bits & 0x0008 != 0
    }

    /// WinRAR will not modify this archive.
    pub fn is_locked(&self) -> (set: bool)
        ensures
            set == (self.bits() & 0x0010 != 0),
    {
        self.bits & 0x0010 != 0
    }
}


/// Type of the record that tells where other blocks are.
pub const LOCATOR: u64 = 0x01;

/// Type of the record that holds name and age of the archive.
pub const METADATA: u64 = 0x02;

/// Block containing archive metadata.
#[derive(Debug)]
pub struct MainBlock {
    pub flags: MainBlockFlags,
    pub volume_number: Option<u64>,
    pub locator: Option<LocatorRecord>,
    pub metadata: Option<MetadataRecord>,
    pub unknown_records: Vec<UnknownRecord>,
}

impl MainBlock {
    /// Number of bytes of the fields before the extra area, for a block
    /// whose part after the common header starts at offset `p`.
    pub open spec fn fields_size(s: Seq<u8>, p: int) -> nat {
        vint_len(s, p) + optional_vint_len(
            s,
            vint_end(s, p),
            low_word(vint_value(s, p)) & 0x0002 != 0,
        )
    }

    /// The records of the extra area, as the block sees them.
    pub open spec fn views(s: Seq<u8>, p: int, extra_area_size: Option<u64>) -> Seq<RecordView> {
        area_views(s, p + Self::fields_size(s, p), extra_area_size)
    }

    /// How decoding the block at offset `p` ends.
    pub open spec fn outcome_at(s: Seq<u8>, p: int, extra_area_size: Option<u64>) -> Outcome {
        let views = Self::views(s, p, extra_area_size);
        with_records(
            s,
            p,
            Self::fields_size(s, p) as int,
            extra_area_size,
            slot_readable::<LocatorRecord>(views, LOCATOR) && slot_readable::<MetadataRecord>(
                views,
                METADATA,
            ),
        )
    }

    /// The fields are those stored at offset `p`, the records those of the
    /// extra area.
    pub open spec fn decodes(&self, s: Seq<u8>, p: int, extra_area_size: Option<u64>) -> bool {
        let views = Self::views(s, p, extra_area_size);
        &&& self.flags.bits() == low_word(vint_value(s, p))
        &&& self.volume_number == optional_vint(
            s,
            vint_end(s, p),
            low_word(vint_value(s, p)) & 0x0002 != 0,
        )
        &&& slot_holds(self.locator, views, LOCATOR)
        &&& slot_holds(self.metadata, views, METADATA)
        &&& self.unknown_records@ == unknown_records(views, seq![LOCATOR, METADATA])
    }

    /// Read the part of a main block that follows the common header.
    pub fn read(r: &mut Reader, extra_area_size: Option<u64>) -> (res: Result<Self, Error>)
        ensures
            Self::outcome_at(old(r).bytes(), old(r).pos(), extra_area_size).describes(
                *old(r),
                *final(r),
                res,
            ),
            res matches Ok(b) ==> b.decodes(old(r).bytes(), old(r).pos(), extra_area_size),
    {
        let flags = MainBlockFlags::new(truncate_u16(read_vint_value(r)?));
        let volume_number = read_optional_vint(r, flags.has_volume_number())?;
        let records = read_area(r, extra_area_size)?;
        let locator = read_first::<LocatorRecord>(&records, LOCATOR)?;
        let metadata = read_first::<MetadataRecord>(&records, METADATA)?;
        let known = vec![LOCATOR, METADATA];
        assert(known@ =~= seq![LOCATOR, METADATA]);
        let unknown_records = collect_unknown(&records, &known);
        Ok(MainBlock { flags, volume_number, locator, metadata, unknown_records })
    }
}

/// [`FileBlock`] flags.
#[derive(Debug, Clone, Copy)]
pub struct FileBlockFlags {
    bits: u16,
}

impl FileBlockFlags {
    /// The flag word as it was stored.
    pub closed spec fn bits(&self) -> u16 {
        self.bits
    }

    /// Wrap a flag word.
    pub fn new(flags: u16) -> (res: Self)
        ensures
            res.bits() == flags,
    {
        Self { bits: flags }
    }

    /// The entry is a directory.
    pub fn is_directory(&self) -> (set: bool)
        ensures
            set == (self.bits() & 0x0001 != 0),
    {
        self.bits & 0x0001 != 0
    }

    /// The modification time is present.
    pub fn has_modification_time(&self) -> (set: bool)
        ensures
            set == (self.bits() & 0x0002 != 0),
    {
        self.bits & 0x0002 != 0
    }

    /// The CRC32 of the data is present.
    pub fn has_crc32(&self) -> (set: bool)
        ensures
            set == (self.bits() & 0x0004 != 0),
    {
        self.bits & 0x0004 != 0
    }

    /// The size of the unpacked data is not known.
    pub fn unknown_unpacked_size(&self) -> (set: bool)
        ensures
            set == (self.bits() & 0x0008 != 0),
    {
        self.bits & 0x0008 != 0
    }
}

/// [`ServiceBlock`] flags.
#[derive(Debug, Clone, Copy)]
pub struct ServiceBlockFlags {
    bits: u16,
}

impl ServiceBlockFlags {
    /// The flag word as it was stored.
    pub closed spec fn bits(&self) -> u16 {
        self.bits
    }

    /// Wrap a flag word.
    pub fn new(flags: u16) -> (res: Self)
        ensures
            res.bits() == flags,
    {
        Self { bits: flags }
    }

    /// The modification time is present.
    pub fn has_modification_time(&self) -> (set: bool)
        ensures
            set == (self.bits() & 0x0002 != 0),
    {
        self.bits & 0x0002 != 0
    }

    /// The CRC32 of the data is present.
    pub fn has_crc32(&self) -> (set: bool)
        ensures
            set == (self.bits() & 0x0004 != 0),
    {
        self.bits & 0x0004 != 0
    }

    /// The size of the unpacked data is not known.
    pub fn unknown_unpacked_size(&self) -> (set: bool)
        ensures
            set == (self.bits() & 0x0008 != 0),
    {
        self.bits & 0x0008 != 0
    }
}

/// OS used to create the archive.
#[derive(Debug, Clone, Copy, PartialEq, Eq, Structural)]
pub enum HostOs {
    Windows,
    Unix,
    /// A value that this library does not know.
    Unknown(u8),
}

impl HostOs {
    /// The variant that stands for `value`; a value without a variant of its
    /// own is kept as it is.
    pub open spec fn of(value: u8) -> HostOs {
        if value == 0 {
            HostOs::Windows
        } else if value == 1 {
            HostOs::Unix
        } else {
            HostOs::Unknown(value)
        }
    }

    /// The variant that stands for `value`.
    pub fn from(value: u8) -> (res: Self)
        ensures
            res == HostOs::of(value),
    {
        if value == 0 {
            HostOs::Windows
        } else if value == 1 {
            HostOs::Unix
        } else {
            HostOs::Unknown(value)
        }
    }
}

/// Version of the compression algorithm.
#[derive(Debug, Clone, Copy, PartialEq, Eq, Structural)]
pub enum CompressionAlgorithm {
    Pack5,
    Pack7,
    /// A value that this library does not know.
    Unknown(u8),
}

impl CompressionAlgorithm {
    /// The variant that stands for `value`; a value without a variant of its
    /// own is kept as it is.
    pub open spec fn of(value: u8) -> CompressionAlgorithm {
        if value == 0x00 {
            CompressionAlgorithm::Pack5
        } else if value == 0x01 {
            CompressionAlgorithm::Pack7
        } else {
            CompressionAlgorithm::Unknown(value)
        }
    }

    /// The variant that stands for `value`.
    pub fn from(value: u8) -> (res: Self)
        ensures
            res == CompressionAlgorithm::of(value),
    {
        if value == 0x00 {
            CompressionAlgorithm::Pack5
        } else if value == 0x01 {
            CompressionAlgorithm::Pack7
        } else {
            CompressionAlgorithm::Unknown(value)
        }
    }
}

/// Strength of the compression.
#[derive(Debug, Clone, Copy, PartialEq, Eq, Structural)]
pub enum CompressionMethod {
    NoCompression,
    Method1,
    Method2,
    Method3,
    Method4,
    Method5,
    /// A value that this library does not know.
    Unknown(u8),
}

impl CompressionMethod {
    /// The variant that stands for `value`; a value without a variant of its
    /// own is kept as it is.
    pub open spec fn of(value: u8) -> CompressionMethod {
        if value == 0x00 {
            CompressionMethod::NoCompression
        } else if value == 0x01 {
            CompressionMethod::Method1
        } else if value == 0x02 {
            CompressionMethod::Method2
        } else if value == 0x03 {
            CompressionMethod::Method3
        } else if value == 0x04 {
            CompressionMethod::Method4
        } else if value == 0x05 {
            CompressionMethod::Method5
        } else {
            CompressionMethod::Unknown(value)
        }
    }

    /// The variant that stands for `value`.
    pub fn from(value: u8) -> (res: Self)
        ensures
            res == CompressionMethod::of(value),
    {
        if value == 0x00 {
            CompressionMethod::NoCompression
        } else if value == 0x01 {
            CompressionMethod::Method1
        } else if value == 0x02 {
            CompressionMethod::Method2
        } else if value == 0x03 {
            CompressionMethod::Method3
        } else if value == 0x04 {
            CompressionMethod::Method4
        } else if value == 0x05 {
            CompressionMethod::Method5
        } else {
            CompressionMethod::Unknown(value)
        }
    }
}


/// Compression settings of a file, packed into one integer.
#[derive(Debug, Clone, Copy)]
pub struct CompressionInfo {
    bits: u64,
}

/// Smallest dictionary that a file may need.
pub const MIN_DICT_SIZE: u64 = 0x20_000;

/// Largest dictionary that a file may need.
pub const MAX_DICT_SIZE: u64 = 0x1_000_000_000;

/// Two to the power `factor`, for a factor of at most 31.
pub open spec fn doubled(factor: int) -> int
    decreases factor,
{
    if factor <= 0 {
        1
    } else {
        2 * doubled(factor - 1)
    }
}

impl CompressionInfo {
    /// The integer as it was stored.
    pub closed spec fn bits(&self) -> u64 {
        self.bits
    }

    /// Version of WinRAR required to unpack the file: the low 6 bits.
    pub open spec fn spec_version(&self) -> CompressionAlgorithm {
        CompressionAlgorithm::of((self.bits() % 64) as u8)
    }

    /// The algorithm that compressed the file.
    pub open spec fn spec_algorithm(&self) -> CompressionAlgorithm {
        if self.spec_version() == CompressionAlgorithm::Pack7 && self.bits() & 0x100_000 != 0 {
            CompressionAlgorithm::Pack5
        } else {
            self.spec_version()
        }
    }

    /// The strength of the compression: bits 7 to 9.
    pub open spec fn spec_method(&self) -> CompressionMethod {
        CompressionMethod::of(((self.bits() / 128) % 8) as u8)
    }

    /// The size of the smallest dictionary that unpacks the file: 128 KiB
    /// doubled as often as bits 10 to 14 say, of which version 5 uses four
    /// alone; version 7 adds as many 32nd parts of that as bits 15 to 19 say.
    pub open spec fn spec_dictionary_size(&self) -> int {
        let factor = (self.bits() / 1024) % 32;
        if self.spec_version() == CompressionAlgorithm::Pack7 {
            let size = 0x20_000 * doubled(factor as int);
            size + size / 32 * ((self.bits() / 32768) % 32)
        } else {
            0x20_000 * doubled((factor % 16) as int)
        }
    }

    /// Wrap the packed settings.
    pub fn new(info: u64) -> (res: Self)
        ensures
            res.bits() == info,
    {
        Self { bits: info }
    }

    /// Version of WinRAR required to unpack the file.
    pub fn version(&self) -> (version: CompressionAlgorithm)
        ensures
            version == self.spec_version(),
    {
        let bits = self.bits;
        assert(bits & 0x3f == bits % 64) by (bit_vector);
        CompressionAlgorithm::from((self.bits & 0x3f) as u8)
    }

    /// Whether a file marked for version 7 was compressed as for version 5.
    pub fn uses_pack_5_algorithm(&self) -> (set: bool)
        ensures
            set == (self.bits() & 0x100_000 != 0),
    {
        self.bits & 0x100_000 != 0
    }

    /// Actual version of the compression algorithm used to compress the file.
    pub fn algorithm(&self) -> (algorithm: CompressionAlgorithm)
        ensures
            algorithm == self.spec_algorithm(),
    {
        let version = self.version();
        if version == CompressionAlgorithm::Pack7 && self.uses_pack_5_algorithm() {
            CompressionAlgorithm::Pack5
        } else {
            version
        }
    }

    /// The file is compressed together with the files before it.
    pub fn is_solid(&self) -> (set: bool)
        ensures
            set == (self.bits() & 0x0040 != 0),
    {
        self.bits & 0x0040 != 0
    }

    /// Strength of the compression.
    pub fn method(&self) -> (method: CompressionMethod)
        ensures
            method == self.spec_method(),
    {
        let bits = self.bits;
        assert((bits & 0x0380) >> 7 == (bits / 128) % 8) by (bit_vector);
        CompressionMethod::from(((self.bits & 0x0380) >> 7) as u8)
    }

    /// Minimum dictionary size required to extract data.
    ///
    /// A size above 64 GiB, which no unpacker supports, is returned as an error.
    pub fn min_dictionary_size(&self) -> (res: Result<u64, u64>)
        ensures
            res == if self.spec_dictionary_size() <= MAX_DICT_SIZE {
                Ok::<u64, u64>(self.spec_dictionary_size() as u64)
            } else {
                Err::<u64, u64>(self.spec_dictionary_size() as u64)
            },
            self.spec_dictionary_size() <= u64::MAX,
    {
        let bits = self.bits;
        assert((bits & 0x7c00) >> 10 == (bits / 1024) % 32 && (bits & 0xf8000) >> 15 == (bits
            / 32768) % 32) by (bit_vector);
        let factor = (self.bits & 0x7c00) >> 10;
        let size = if self.version() == CompressionAlgorithm::Pack7 {
            let extra_factor = (self.bits & 0xf8000) >> 15;
            let size = shift_dictionary(factor);
            assert(size / 32 * extra_factor <= 0x800_0000_0000 * 31) by (nonlinear_arith)
                requires
                    size <= 0x1_0000_0000_0000,
                    extra_factor < 32,
            ;
            size + size / 32 * extra_factor
        } else {
            shift_dictionary(factor % 16)
        };
        if size <= MAX_DICT_SIZE {
            Ok(size)
        } else {
            Err(size)
        }
    }
}

/// 128 KiB doubled `factor` times.
fn shift_dictionary(factor: u64) -> (size: u64)
    requires
        factor < 32,
    ensures
        size == 0x20_000 * doubled(factor as int),
        size <= 0x1_0000_0000_0000,
{
    let mut size: u64 = MIN_DICT_SIZE;
    let mut i: u64 = 0;
    proof {
        lemma_doubled_grows(0, 31);
    }
    while i < factor
        invariant
            i <= factor < 32,
            size == 0x20_000 * doubled(i as int),
            doubled(i as int) <= doubled(31),
            doubled(31) == 0x8000_0000,
        decreases factor - i,
    {
        proof {
            lemma_doubled_grows(i as int + 1, 31);
        }
        size = size * 2;
        i = i + 1;
    }
    size
}

/// Doubling more often gives no less, and 31 times gives 2 to the 31st.
proof fn lemma_doubled_grows(low: int, high: int)
    requires
        0 <= low <= high <= 31,
    ensures
        doubled(low) <= doubled(high),
        doubled(31) == 0x8000_0000,
        doubled(low) >= 1,
    decreases high - low,
{
    assert(doubled(31) == 0x8000_0000) by {
        reveal_with_fuel(doubled, 32);
    }
    if low < high {
        lemma_doubled_grows(low + 1, high);
    } else {
        lemma_doubled_positive(low);
    }
}

/// Doubling never reaches zero.
proof fn lemma_doubled_positive(factor: int)
    ensures
        doubled(factor) >= 1,
    decreases factor,
{
    if factor > 0 {
        lemma_doubled_positive(factor - 1);
    }
}

} // verus!
