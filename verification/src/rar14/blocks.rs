//! The blocks of a RAR14 archive: one main block, then file blocks to the
//! end of the file.
use crate::error::Error;
use crate::read::in_bounds;
use crate::read::le_u16;
use crate::read::le_u32;
use crate::read::read_checked;
use crate::read::read_outcome;
use crate::read::read_u16;
use crate::read::read_u32;
use crate::read::read_u8;
use crate::read::read_vec;
use crate::read::window;
use crate::read::Outcome;
use crate::read::Reader;
use crate::size::BlockSize;
use crate::text::all_ascii;
use crate::text::is_ascii;
use crate::text::widen;
use crate::text::widen_to_string;
use crate::time_conv::dos_datetime;
use crate::time_conv::dos_valid;
use crate::time_conv::parse_dos_datetime;
use crate::time_conv::DateTime;
use vstd::prelude::*;

verus! {

/// A string that was encoded using the host system's [OEM code page](https://en.wikipedia.org/wiki/Windows_code_page#OEM).
#[derive(Debug)]
pub enum OemString {
    /// The string only contains characters in the ASCII range and can be safely decoded into UTF-8.
    Ascii(String),
    /// The string was encoded using the host system's OEM code page and cannot be decoded
    /// correctly on its own. The user must select an encoding to decode it correctly.
    Oem(Vec<u8>),
}

impl OemString {
    /// The string is what the bytes `raw` stand for: text where they are
    /// all ASCII, and the bytes themselves otherwise.
    pub open spec fn decodes(&self, raw: Seq<u8>) -> bool {
        if all_ascii(raw) {
            *self matches OemString::Ascii(text) && text@ == widen(raw)
        } else {
            *self matches OemString::Oem(kept) && kept@ == raw
        }
    }

    /// Decode bytes of the OEM code page as far as that can be done
    /// without knowing the code page.
    pub fn parse(buf: Vec<u8>) -> (string: Self)
        ensures
            string.decodes(buf@),
    {
        if is_ascii(&buf) {
            OemString::Ascii(widen_to_string(&buf))
        } else {
            OemString::Oem(buf)
        }
    }
}

/// Flags containing archive metadata.
#[derive(Debug, Clone, Copy)]
pub struct MainBlockFlags {
    bits: u8,
}

impl MainBlockFlags {
    /// The flag word as it was stored.
    pub closed spec fn bits(&self) -> u8 {
        self.bits
    }

    /// Wrap a flag word.
    pub fn new(flags: u8) -> (res: Self)
        ensures
            res.bits() == flags,
    {
        Self { bits: flags }
    }

    /// Archive spans [multiple volumes][1].
    ///
    /// [1]: https://www.win-rar.com/split-files-archive.html?&L=0
    pub fn is_volume(&self) -> (set: bool)
        ensures
            set == (self.bits() & 0x01 != 0),
    {
        self.bits & 0x01 != 0
    }

    /// Header contains a comment.
    pub fn has_comment(&self) -> (set: bool)
        ensures
            set == (self.bits() & 0x02 != 0),
    {
        self.bits & 0x02 != 0
    }

    /// WinRAR will not modify this archive.
    pub fn is_locked(&self) -> (set: bool)
        ensures
            set == (self.bits() & 0x04 != 0),
    {
        self.bits & 0x04 != 0
    }

    /// Archive uses [solid compression][1].
    ///
    /// [1]: https://en.wikipedia.org/wiki/Solid_compression
    pub fn is_solid(&self) -> (set: bool)
        ensures
            set == (self.bits() & 0x08 != 0),
    {
        self.bits & 0x08 != 0
    }

    /// The comment in the header is packed.
    pub fn is_comment_packed(&self) -> (set: bool)
        ensures
            set == (self.bits() & 0x10 != 0),
    {
        self.bits & 0x10 != 0
    }

    /// The header has a supplementary field.
    pub fn has_supplementary_field(&self) -> (set: bool)
        ensures
            set == (self.bits() & 0x20 != 0),
    {
        self.bits & 0x20 != 0
    }
}


/// Number of bytes of the signature, which the size of the main header counts in.
pub const SIGNATURE_SIZE: u16 = 4;

/// Number of bytes of the fields of the main header.
pub const HEADER_FIELDS_SIZE: u64 = 3;

/// Block containing archive metadata.
#[derive(Debug, Clone, Copy)]
pub struct MainBlock {
    /// Offset of this block from the start of the file.
    pub offset: u64,
    /// Size of the header.
    pub header_size: u16,
    /// Flags containing archive metadata.
    pub flags: MainBlockFlags,
}

impl MainBlock {
    /// The size that the header stored at offset `p` declares is too
    /// small to count the signature in.
    pub open spec fn malformed(s: Seq<u8>, p: int) -> bool {
        le_u16(s, p) < 4
    }

    /// Number of bytes that the decoder needs at offset `p`: for a
    /// malformed block the size alone.
    pub open spec fn size_at(s: Seq<u8>, p: int) -> int {
        if Self::malformed(s, p) {
            2
        } else {
            3
        }
    }

    /// The fields are those stored at offset `p`.
    pub open spec fn decodes(&self, s: Seq<u8>, p: int) -> bool {
        &&& self.offset == p
        &&& self.header_size == le_u16(s, p) - 4
        &&& self.flags.bits() == s[p + 2]
    }

    /// Read the main block at the cursor, which stands behind the signature.
    pub fn read(r: &mut Reader) -> (res: Result<Self, Error>)
        ensures
            read_checked(
                *old(r),
                *final(r),
                res,
                Self::size_at(old(r).bytes(), old(r).pos()),
                Self::malformed(old(r).bytes(), old(r).pos()),
            ),
            res matches Ok(b) ==> b.decodes(old(r).bytes(), old(r).pos()),
    {
        let offset = r.stream_position();
        let header_size = read_u16(r)?;
        if header_size < SIGNATURE_SIZE {
            return Err(Error::CorruptHeader);
        }
        let header_size = header_size - SIGNATURE_SIZE;
        let flags = MainBlockFlags::new(read_u8(r)?);
        Ok(MainBlock { offset, header_size, flags })
    }

    /// How reading the comment of the archive ends, for a main block at
    /// offset `p` with the given flags: nothing is read without a comment.
    pub open spec fn comment_outcome(s: Seq<u8>, p: int, flags: u8, cursor: int) -> Outcome {
        if flags & 0x02 == 0 {
            Outcome::Complete { end: cursor }
        } else if flags & 0x10 == 0 {
            Outcome::of_size(s, p + 3, 2 + le_u16(s, p + 3))
        } else if in_bounds(s, p + 3, 2) && le_u16(s, p + 3) < 2 {
            Outcome::Complete { end: p + 5 }
        } else {
            Outcome::of_size(s, p + 3, 4)
        }
    }

    /// `comment` is the comment stored behind the fields of a main block at
    /// offset `p`: a comment that is not packed and not empty. A packed
    /// comment is not unpacked.
    pub open spec fn comment_at(s: Seq<u8>, p: int, flags: u8, comment: Option<OemString>) -> bool {
        if flags & 0x02 != 0 && flags & 0x10 == 0 && le_u16(s, p + 3) > 0 {
            comment matches Some(text) && text.decodes(
                window(s, p + 5, le_u16(s, p + 3) as int),
            )
        } else {
            comment is None
        }
    }

    /// Read the archive comment, if present.
    ///
    /// The comment is part of the main block header and comes after all the
    /// other fields.
    pub fn read_comment(&self, r: &mut Reader) -> (res: Result<Option<OemString>, Error>)
        ensures
            Self::comment_outcome(
                old(r).bytes(),
                self.offset as int,
                self.flags.bits(),
                old(r).pos(),
            ).describes(*old(r), *final(r), res),
            res matches Ok(comment) ==> Self::comment_at(
                old(r).bytes(),
                self.offset as int,
                self.flags.bits(),
                comment,
            ),
    {
        if !self.flags.has_comment() {
            return Ok(None);
        }
        let length = r.len();
        if length < HEADER_FIELDS_SIZE || self.offset > length - HEADER_FIELDS_SIZE {
            // A block that lies beyond the data has no comment to read.
            r.seek(length);
            return Err(Error::UnexpectedEof);
        }
        r.seek(self.offset + HEADER_FIELDS_SIZE);
        let size = read_u16(r)? as usize;
        if !self.flags.is_comment_packed() {
            if size == 0 {
                return Ok(None);
            }
            let comment = read_vec(r, size)?;
            return Ok(Some(OemString::parse(comment)));
        }
        if size < 2 {
            return Ok(None);
        }
        // The size of the comment after unpacking; the comment itself is
        // compressed and stays where it is.
        let _unpacked_comment_size = read_u16(r)?;
        Ok(None)
    }
}

/// Flags containing metadata for the file.
#[derive(Debug, Clone, Copy)]
pub struct FileBlockFlags {
    bits: u8,
}

impl FileBlockFlags {
    /// The flag word as it was stored.
    pub closed spec fn bits(&self) -> u8 {
        self.bits
    }

    /// Wrap a flag word.
    pub fn new(flags: u8) -> (res: Self)
        ensures
            res.bits() == flags,
    {
        Self { bits: flags }
    }

    /// File is continuing from previous volume.
    pub fn split_before(&self) -> (set: bool)
        ensures
            set == (self.bits() & 0x01 != 0),
    {
        self.bits & 0x01 != 0
    }

    /// File is continuing in next volume.
    pub fn split_after(&self) -> (set: bool)
        ensures
            set == (self.bits() & 0x02 != 0),
    {
        self.bits & 0x02 != 0
    }

    /// File is encrypted with a password.
    pub fn is_encrypted(&self) -> (set: bool)
        ensures
            set == (self.bits() & 0x04 != 0),
    {
        self.bits & 0x04 != 0
    }

    /// Header contains comment
    pub fn has_comment(&self) -> (set: bool)
        ensures
            set == (self.bits() & 0x08 != 0),
    {
        self.bits & 0x08 != 0
    }
}

/// MS-DOS file attributes.
///
/// <https://learn.microsoft.com/en-us/windows/win32/fileio/file-attribute-constants>
#[derive(Debug, Clone, Copy)]
pub struct DosFileAttributes {
    bits: u8,
}

impl DosFileAttributes {
    /// The flag word as it was stored.
    pub closed spec fn bits(&self) -> u8 {
        self.bits
    }

    /// Wrap a flag word.
    pub fn new(flags: u8) -> (res: Self)
        ensures
            res.bits() == flags,
    {
        Self { bits: flags }
    }

    /// File or directory is read-only.
    pub fn is_read_only(&self) -> (set: bool)
        ensures
            set == (self.bits() & 0x01 != 0),
    {
        self.bits & 0x01 != 0
    }

    /// File or directory is hidden.
    pub fn is_hidden(&self) -> (set: bool)
        ensures
            set == (self.bits() & 0x02 != 0),
    {
        self.bits & 0x02 != 0
    }

    /// File or directory that is used by the OS.
    pub fn is_system_file(&self) -> (set: bool)
        ensures
            set == (self.bits() & 0x04 != 0),
    {
        self.bits & 0x04 != 0
    }

    /// File stores the name of the disk.
    pub fn is_volume_label(&self) -> (set: bool)
        ensures
            set == (self.bits() & 0x08 != 0),
    {
        self.bits & 0x08 != 0
    }

    /// Entry is a directory.
    pub fn is_directory(&self) -> (set: bool)
        ensures
            set == (self.bits() & 0x10 != 0),
    {
        self.bits & 0x10 != 0
    }

    /// Entry is an archive file or directory.
    pub fn is_archive(&self) -> (set: bool)
        ensures
            set == (self.bits() & 0x20 != 0),
    {
        self.bits & 0x20 != 0
    }
}


/// Block containing a file.
#[derive(Debug)]
pub struct FileBlock {
    /// Offset of this block from the start of the file.
    pub offset: u64,
    /// Size of the header.
    pub header_size: u16,
    /// File block header flags.
    pub flags: FileBlockFlags,
    /// Size of the data area of the block.
    pub packed_data_size: u32,
    /// Size of the file after unpacking.
    pub unpacked_data_size: u32,
    /// CRC16 hash of the unpacked file.
    pub crc16: u16,
    /// Modification time of the file.
    ///
    /// MS-DOS timestamps are not timezone aware, so converting to an instant
    /// of a time zone is left up to the calling code.
    pub modification_time: Result<DateTime, u32>,
    /// DOS attributes of the file.
    pub attributes: DosFileAttributes,
    /// Version of the unpacker that the file needs: 13 or 10.
    pub unpack_version: u8,
    pub method: u8,
    /// File comment.
    pub comment: Option<OemString>,
    /// Filename of the file.
    pub name: OemString,
}

impl FileBlock {
    /// Number of bytes of the comment with its size, for a block at offset `p`.
    pub open spec fn comment_size(s: Seq<u8>, p: int) -> int {
        if s[p + 17] & 0x08 != 0 {
            2 + le_u16(s, p + 21)
        } else {
            0
        }
    }

    /// Offset of the name.
    pub open spec fn name_at(s: Seq<u8>, p: int) -> int {
        p + 21 + Self::comment_size(s, p)
    }

    /// Number of bytes that the block occupies at offset `p`.
    pub open spec fn size_at(s: Seq<u8>, p: int) -> int {
        21 + Self::comment_size(s, p) + s[p + 19]
    }

    /// The fields are those stored at offset `p`.
    pub open spec fn decodes(&self, s: Seq<u8>, p: int) -> bool {
        &&& self.offset == p
        &&& self.packed_data_size == le_u32(s, p)
        &&& self.unpacked_data_size == le_u32(s, p + 4)
        &&& self.crc16 == le_u16(s, p + 8)
        &&& self.header_size == le_u16(s, p + 10)
        &&& self.modification_time == if dos_valid(le_u32(s, p + 12)) {
            Ok::<DateTime, u32>(dos_datetime(le_u32(s, p + 12)))
        } else {
            Err::<DateTime, u32>(le_u32(s, p + 12))
        }
        &&& self.attributes.bits() == s[p + 16]
        &&& self.flags.bits() == s[p + 17]
        &&& self.unpack_version == if s[p + 18] == 2 {
            13u8
        } else {
            10u8
        }
        &&& self.method == s[p + 20]
        &&& if s[p + 17] & 0x08 != 0 {
            self.comment matches Some(text) && text.decodes(
                window(s, p + 23, le_u16(s, p + 21) as int),
            )
        } else {
            self.comment is None
        }
        &&& self.name.decodes(window(s, Self::name_at(s, p), s[p + 19] as int))
    }

    /// Read the file block at the cursor.
    pub fn read(r: &mut Reader) -> (res: Result<Self, Error>)
        ensures
            read_outcome(*old(r), *final(r), res, Self::size_at(old(r).bytes(), old(r).pos())),
            res matches Ok(b) ==> b.decodes(old(r).bytes(), old(r).pos()),
    {
        let offset = r.stream_position();
        let packed_data_size = read_u32(r)?;
        let unpacked_data_size = read_u32(r)?;
        let crc16 = read_u16(r)?;
        let header_size = read_u16(r)?;
        let modification_time = parse_dos_datetime(read_u32(r)?);
        let attributes = DosFileAttributes::new(read_u8(r)?);
        let flags = FileBlockFlags::new(read_u8(r)?);
        let unpack_version = if read_u8(r)? == 2 {
            13
        } else {
            10
        };
        let name_size = read_u8(r)? as usize;
        let method = read_u8(r)?;
        // UnRAR doesn't even read this, but the documentation for RAR 1.4
        // says it might be present.
        let comment = read_file_comment(r, flags.has_comment())?;
        let name = OemString::parse(read_vec(r, name_size)?);
        Ok(
            FileBlock {
                offset,
                header_size,
                flags,
                packed_data_size,
                unpacked_data_size,
                crc16,
                modification_time,
                attributes,
                unpack_version,
                method,
                comment,
                name,
            },
        )
    }

    /// Entry is a directory.
    pub fn is_directory(&self) -> (directory: bool)
        ensures
            directory == (self.attributes.bits() & 0x10 != 0),
    {
        self.attributes.is_directory()
    }
}

/// Read the comment of a file behind its size, where it is `present`.
fn read_file_comment(r: &mut Reader, present: bool) -> (res: Result<Option<OemString>, Error>)
    ensures
        read_outcome(*old(r), *final(r), res, if present {
            2 + le_u16(old(r).bytes(), old(r).pos())
        } else {
            0
        }),
        res matches Ok(comment) ==> if present {
            comment matches Some(text) && text.decodes(
                window(
                    old(r).bytes(),
                    old(r).pos() + 2,
                    le_u16(old(r).bytes(), old(r).pos()) as int,
                ),
            )
        } else {
            comment is None
        },
{
    if present {
        let comment_size = read_u16(r)?;
        let comment = read_vec(r, comment_size as usize)?;
        Ok(Some(OemString::parse(comment)))
    } else {
        Ok(None)
    }
}

/// A generic RAR14 block.
#[derive(Debug)]
pub enum Block {
    Main(MainBlock),
    File(FileBlock),
}

impl Block {
    /// Number of bytes that the decoder needs for the block at offset `p`;
    /// the `first` block of an archive is its main block.
    pub open spec fn size_at(s: Seq<u8>, p: int, first: bool) -> int {
        if first {
            MainBlock::size_at(s, p)
        } else {
            FileBlock::size_at(s, p)
        }
    }

    /// The block at offset `p` is a main block whose size does not count
    /// the signature in.
    pub open spec fn malformed(s: Seq<u8>, p: int, first: bool) -> bool {
        first && MainBlock::malformed(s, p)
    }

    /// The block is the one stored at offset `p`.
    pub open spec fn decodes(&self, s: Seq<u8>, p: int, first: bool) -> bool {
        if first {
            *self matches Block::Main(b) && b.decodes(s, p)
        } else {
            *self matches Block::File(b) && b.decodes(s, p)
        }
    }

    /// Size of the header that the block stored at offset `p` declares.
    pub open spec fn header_size_at(s: Seq<u8>, p: int, first: bool) -> int {
        if first {
            le_u16(s, p) - 4
        } else {
            le_u16(s, p + 10) as int
        }
    }

    /// Size of the data that the block stored at offset `p` declares.
    pub open spec fn data_size_at(s: Seq<u8>, p: int, first: bool) -> int {
        if first {
            0
        } else {
            le_u32(s, p) as int
        }
    }

    /// The block stored at offset `p` declares a header, and header and data
    /// lie within a file of `file_size` bytes.
    pub open spec fn fits_at(s: Seq<u8>, p: int, file_size: u64, first: bool) -> bool {
        &&& Self::header_size_at(s, p, first) > 0
        &&& p + Self::header_size_at(s, p, first) + Self::data_size_at(s, p, first) <= file_size
    }

    /// The error that reading the block at offset `p` of a file of
    /// `file_size` bytes meets, if it meets one: the end of the data, a
    /// header that declares no size, or a block that does not lie within
    /// the file.
    pub open spec fn failure_at(s: Seq<u8>, p: int, file_size: u64, first: bool) -> Option<Error> {
        if !in_bounds(s, p, Self::size_at(s, p, first)) {
            Some(Error::UnexpectedEof)
        } else if Self::malformed(s, p, first) || !Self::fits_at(s, p, file_size, first) {
            Some(Error::CorruptHeader)
        } else {
            None
        }
    }

    /// A block has the sizes that the bytes it was decoded from declare.
    pub proof fn lemma_sizes(&self, s: Seq<u8>, p: int, first: bool)
        requires
            self.decodes(s, p, first),
        ensures
            self.spec_offset() == p,
            self.spec_header_size() == Self::header_size_at(s, p, first),
            self.spec_data_size() == Self::data_size_at(s, p, first),
    {
    }

    /// Read the block at the cursor: the main block where it is the
    /// `first` of the archive, else a file block.
    pub fn read(r: &mut Reader, first: bool) -> (res: Result<Self, Error>)
        ensures
            read_checked(
                *old(r),
                *final(r),
                res,
                Self::size_at(old(r).bytes(), old(r).pos(), first),
                Self::malformed(old(r).bytes(), old(r).pos(), first),
            ),
            res matches Ok(b) ==> b.decodes(old(r).bytes(), old(r).pos(), first),
    {
        if first {
            Ok(Block::Main(MainBlock::read(r)?))
        } else {
            Ok(Block::File(FileBlock::read(r)?))
        }
    }
}

impl BlockSize for MainBlock {
    open spec fn spec_offset(&self) -> u64 {
        self.offset
    }

    open spec fn spec_header_size(&self) -> u64 {
        self.header_size as u64
    }

    open spec fn spec_data_size(&self) -> u64 {
        0
    }

    fn offset(&self) -> u64 {
        // Brings the definition of the offset into view.
        assert(self.spec_offset() == self.offset);
        self.offset
    }

    fn header_size(&self) -> u64 {
        self.header_size as u64
    }

    fn data_size(&self) -> u64 {
        0
    }
}

impl BlockSize for FileBlock {
    open spec fn spec_offset(&self) -> u64 {
        self.offset
    }

    open spec fn spec_header_size(&self) -> u64 {
        self.header_size as u64
    }

    open spec fn spec_data_size(&self) -> u64 {
        self.packed_data_size as u64
    }

    fn offset(&self) -> u64 {
        // Brings the definition of the offset into view.
        assert(self.spec_offset() == self.offset);
        self.offset
    }

    fn header_size(&self) -> u64 {
        self.header_size as u64
    }

    fn data_size(&self) -> u64 {
        self.packed_data_size as u64
    }
}

impl BlockSize for Block {
    open spec fn spec_offset(&self) -> u64 {
        match *self {
            Block::Main(b) => b.offset,
            Block::File(b) => b.offset,
        }
    }

    open spec fn spec_header_size(&self) -> u64 {
        match *self {
            Block::Main(b) => b.header_size as u64,
            Block::File(b) => b.header_size as u64,
        }
    }

    open spec fn spec_data_size(&self) -> u64 {
        match *self {
            Block::Main(_) => 0,
            Block::File(b) => b.packed_data_size as u64,
        }
    }

    fn offset(&self) -> u64 {
        match self {
            Block::Main(b) => b.offset(),
            Block::File(b) => b.offset(),
        }
    }

    fn header_size(&self) -> u64 {
        match self {
            Block::Main(b) => b.header_size(),
            Block::File(b) => b.header_size(),
        }
    }

    fn data_size(&self) -> u64 {
        match self {
            Block::Main(b) => b.data_size(),
            Block::File(b) => b.data_size(),
        }
    }
}

} // verus!
