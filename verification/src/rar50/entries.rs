//! The file and service blocks of a RAR50 archive.
//!
//! Both start with the same fields and take the same records from their
//! extra area.
use crate::error::Error;
use crate::rar50::blocks::area_views;
use crate::rar50::blocks::with_records;
use crate::rar50::blocks::CompressionInfo;
use crate::rar50::blocks::FileBlockFlags;
use crate::rar50::blocks::HostOs;
use crate::rar50::blocks::MAX_PATH_SIZE;
use crate::rar50::extra_area::collect_unknown;
use crate::rar50::extra_area::read_first;
use crate::rar50::extra_area::slot_holds;
use crate::rar50::extra_area::slot_readable;
use crate::rar50::extra_area::unknown_records;
use crate::rar50::extra_area::views_of;
use crate::rar50::extra_area::RecordView;
use crate::rar50::file_time::FileTimeRecord;
use crate::rar50::helpers::is_unmapped_name;
use crate::rar50::helpers::read_unix_time_sec;
use crate::rar50::helpers::unmap_high_ascii_chars;
use crate::rar50::record_iterator::CommonRecord;
use crate::rar50::records::widen_error;
use crate::rar50::records::FileEncryptionRecord;
use crate::rar50::records::FileHashRecord;
use crate::rar50::records::FileSystemRedirectionRecord;
use crate::rar50::records::FileVersionRecord;
use crate::rar50::records::UnixOwnerRecord;
use crate::rar50::records::UnknownRecord;
use crate::read::le_u32;
use crate::read::low_byte;
use crate::read::low_word;
use crate::read::read_outcome;
use crate::read::read_u32;
use crate::read::read_vec_u64;
use crate::read::read_vint_value;
use crate::read::truncate_u16;
use crate::read::truncate_u8;
use crate::read::vint_end;
use crate::read::vint_value;
use crate::read::window;
use crate::read::Outcome;
use crate::read::Reader;
use crate::rar50::blocks::read_area;
use crate::time_conv::unix_datetime;
use crate::time_conv::DateTime;
use vstd::prelude::*;

verus! {

/// Type of the record that tells how a file is encrypted.
pub const CRYPT: u64 = 0x01;

/// Type of the record that holds the hash of a file.
pub const HASH: u64 = 0x02;

/// Type of the record that holds the timestamps of a file.
pub const HTIME: u64 = 0x03;

/// Type of the record that holds the version of a file.
pub const VERSION: u64 = 0x04;

/// Type of the record that tells where a link points to.
pub const REDIR: u64 = 0x05;

/// Type of the record that tells who owns a file on Unix.
pub const UOWNER: u64 = 0x06;

/// Type of the record that holds data particular to a service block.
pub const SERVICE_DATA: u64 = 0x07;

/// Number of bytes of a field of 4 bytes that is there only where the
/// flags have the bit `mask`.
pub open spec fn gated(flags: u16, mask: u16) -> nat {
    if flags & mask != 0 {
        4
    } else {
        0
    }
}

/// Read a 32-bit integer, where it is `present`.
fn read_optional_u32(r: &mut Reader, present: bool) -> (res: Result<Option<u32>, Error>)
    ensures
        read_outcome(*old(r), *final(r), res, if present {
            4int
        } else {
            0int
        }),
        res matches Ok(v) ==> v == if present {
            Some(le_u32(old(r).bytes(), old(r).pos()))
        } else {
            None
        },
{
    if present {
        Ok(Some(read_u32(r)?))
    } else {
        Ok(None)
    }
}

/// Read a Unix timestamp of 32 bits, where it is `present`.
fn read_optional_time(r: &mut Reader, present: bool) -> (res: Result<
    Option<Result<DateTime, u32>>,
    Error,
>)
    ensures
        read_outcome(*old(r), *final(r), res, if present {
            4int
        } else {
            0int
        }),
        res matches Ok(t) ==> t == if present {
            Some(Ok::<DateTime, u32>(unix_datetime(le_u32(old(r).bytes(), old(r).pos()) as int)))
        } else {
            None
        },
{
    if present {
        Ok(Some(read_unix_time_sec(r)?))
    } else {
        Ok(None)
    }
}

/// The fields that file and service blocks start with.
#[derive(Debug)]
pub struct EntryHeader {
    pub flags: u16,
    pub unpacked_size: u64,
    pub attributes: u64,
    pub modification_time: Option<Result<DateTime, u32>>,
    pub crc32: Option<u32>,
    pub compression_info: CompressionInfo,
    pub host_os: HostOs,
    pub name: Vec<u8>,
}

impl EntryHeader {
    /// Offset of the modification time, for fields at offset `p`: behind
    /// the flags, the unpacked size and the attributes.
    pub open spec fn time_at(s: Seq<u8>, p: int) -> int {
        vint_end(s, vint_end(s, vint_end(s, p)))
    }

    /// Offset of the CRC32.
    pub open spec fn crc_at(s: Seq<u8>, p: int) -> int {
        Self::time_at(s, p) + gated(low_word(vint_value(s, p)), 0x0002)
    }

    /// Offset of the compression settings.
    pub open spec fn compression_at(s: Seq<u8>, p: int) -> int {
        Self::crc_at(s, p) + gated(low_word(vint_value(s, p)), 0x0004)
    }

    /// Offset of the length of the name: behind the compression settings
    /// and the host OS.
    pub open spec fn name_length_at(s: Seq<u8>, p: int) -> int {
        vint_end(s, vint_end(s, Self::compression_at(s, p)))
    }

    /// Offset of the name.
    pub open spec fn name_at(s: Seq<u8>, p: int) -> int {
        vint_end(s, Self::name_length_at(s, p))
    }

    /// Number of bytes of the name that are read: its length, cut to the limit.
    pub open spec fn name_size(s: Seq<u8>, p: int, limit: Option<u64>) -> nat {
        let length = vint_value(s, Self::name_length_at(s, p));
        match limit {
            Some(most) => if length > most {
                most as nat
            } else {
                length as nat
            },
            None => length as nat,
        }
    }

    /// Number of bytes that the fields occupy at offset `p`.
    pub open spec fn size_at(s: Seq<u8>, p: int, limit: Option<u64>) -> int {
        Self::name_at(s, p) + Self::name_size(s, p, limit) - p
    }

    /// The fields are those stored at offset `p`.
    pub open spec fn decodes(&self, s: Seq<u8>, p: int, limit: Option<u64>) -> bool {
        let flags = low_word(vint_value(s, p));
        &&& self.flags == flags
        &&& self.unpacked_size == vint_value(s, vint_end(s, p))
        &&& self.attributes == vint_value(s, vint_end(s, vint_end(s, p)))
        &&& self.modification_time == if flags & 0x0002 != 0 {
            Some(Ok::<DateTime, u32>(unix_datetime(le_u32(s, Self::time_at(s, p)) as int)))
        } else {
            None
        }
        &&& self.crc32 == if flags & 0x0004 != 0 {
            Some(le_u32(s, Self::crc_at(s, p)))
        } else {
            None
        }
        &&& self.compression_info.bits() == vint_value(s, Self::compression_at(s, p))
        &&& self.host_os == HostOs::of(
            low_byte(vint_value(s, vint_end(s, Self::compression_at(s, p)))),
        )
        &&& self.name@ == window(s, Self::name_at(s, p), Self::name_size(s, p, limit) as int)
    }

    /// Read the fields at the cursor; of the name at most `limit` bytes.
    pub fn read(r: &mut Reader, limit: Option<u64>) -> (res: Result<Self, Error>)
        ensures
            read_outcome(
                *old(r),
                *final(r),
                res,
                Self::size_at(old(r).bytes(), old(r).pos(), limit),
            ),
            res matches Ok(header) ==> header.decodes(old(r).bytes(), old(r).pos(), limit),
    {
        let flags = truncate_u16(read_vint_value(r)?);
        let unpacked_size = read_vint_value(r)?;
        let attributes = read_vint_value(r)?;
        let modification_time = read_optional_time(r, flags & 0x0002 != 0)?;
        let crc32 = read_optional_u32(r, flags & 0x0004 != 0)?;
        let compression_info = CompressionInfo::new(read_vint_value(r)?);
        let host_os = HostOs::from(truncate_u8(read_vint_value(r)?));
        let name_length = read_vint_value(r)?;
        let name_size = match limit {
            Some(most) => if name_length > most {
                most
            } else {
                name_length
            },
            None => name_length,
        };
        let name = read_vec_u64(r, name_size)?;
        Ok(
            EntryHeader {
                flags,
                unpacked_size,
                attributes,
                modification_time,
                crc32,
                compression_info,
                host_os,
                name,
            },
        )
    }
}

/// The records that file and service blocks take from their extra area.
#[derive(Debug)]
pub struct EntryRecords {
    pub encryption: Option<FileEncryptionRecord>,
    pub hash: Option<FileHashRecord>,
    pub extended_time: Option<FileTimeRecord>,
    pub version: Option<FileVersionRecord>,
    pub filesystem_redirection: Option<FileSystemRedirectionRecord>,
    pub unix_owner: Option<UnixOwnerRecord>,
}

impl EntryRecords {
    /// The first record of each of the six types can be decoded.
    pub open spec fn readable(views: Seq<RecordView>) -> bool {
        &&& slot_readable::<FileEncryptionRecord>(views, CRYPT)
        &&& slot_readable::<FileHashRecord>(views, HASH)
        &&& slot_readable::<FileTimeRecord>(views, HTIME)
        &&& slot_readable::<FileVersionRecord>(views, VERSION)
        &&& slot_readable::<FileSystemRedirectionRecord>(views, REDIR)
        &&& slot_readable::<UnixOwnerRecord>(views, UOWNER)
    }

    /// The six fields hold the first record of their type each.
    pub open spec fn holds(
        views: Seq<RecordView>,
        encryption: Option<FileEncryptionRecord>,
        hash: Option<FileHashRecord>,
        extended_time: Option<FileTimeRecord>,
        version: Option<FileVersionRecord>,
        filesystem_redirection: Option<FileSystemRedirectionRecord>,
        unix_owner: Option<UnixOwnerRecord>,
    ) -> bool {
        &&& slot_holds(encryption, views, CRYPT)
        &&& slot_holds(hash, views, HASH)
        &&& slot_holds(extended_time, views, HTIME)
        &&& slot_holds(version, views, VERSION)
        &&& slot_holds(filesystem_redirection, views, REDIR)
        &&& slot_holds(unix_owner, views, UOWNER)
    }

    /// Decode the first record of each of the six types.
    pub fn read(records: &Vec<CommonRecord>) -> (res: Result<Self, Error>)
        ensures
            if Self::readable(views_of(records@)) {
                res matches Ok(taken) && Self::holds(
                    views_of(records@),
                    taken.encryption,
                    taken.hash,
                    taken.extended_time,
                    taken.version,
                    taken.filesystem_redirection,
                    taken.unix_owner,
                )
            } else {
                res == Err::<Self, Error>(Error::UnexpectedEof)
            },
    {
        let encryption = read_first::<FileEncryptionRecord>(records, CRYPT)?;
        let hash = read_first::<FileHashRecord>(records, HASH)?;
        let extended_time = read_first::<FileTimeRecord>(records, HTIME)?;
        let version = read_first::<FileVersionRecord>(records, VERSION)?;
        let filesystem_redirection = read_first::<FileSystemRedirectionRecord>(records, REDIR)?;
        let unix_owner = read_first::<UnixOwnerRecord>(records, UOWNER)?;
        Ok(
            EntryRecords {
                encryption,
                hash,
                extended_time,
                version,
                filesystem_redirection,
                unix_owner,
            },
        )
    }
}

/// The types of record that a file block knows.
pub open spec fn file_record_types() -> Seq<u64> {
    seq![CRYPT, HASH, HTIME, VERSION, REDIR, UOWNER]
}

/// Block containing a file or a directory.
#[derive(Debug)]
pub struct FileBlock {
    pub flags: FileBlockFlags,
    /// Size of the file after decompression.
    /// May be unknown if the actual file size is larger than reported by OS
    /// or if file size is unknown such as for all volumes except last when archiving
    /// from stdin to multi-volume archive.
    pub unpacked_size: Option<u64>,
    /// OS-specific file attributes.
    pub attributes: u64,
    /// File modification time.
    pub modification_time: Option<Result<DateTime, u32>>,
    /// CRC32 of unpacked file.
    pub unpacked_data_crc32: Option<u32>,
    /// Compression settings for this file.
    pub compression_info: CompressionInfo,
    /// OS used to create the archive.
    pub host_os: HostOs,
    /// Name of the archived file.
    /// Forward slash is used as path separator for both Unix and Windows.
    pub name: Result<String, Vec<u8>>,
    pub encryption: Option<FileEncryptionRecord>,
    /// Hash of unpacked file.
    pub hash: Option<FileHashRecord>,
    pub extended_time: Option<FileTimeRecord>,
    pub version: Option<FileVersionRecord>,
    pub filesystem_redirection: Option<FileSystemRedirectionRecord>,
    pub unix_owner: Option<UnixOwnerRecord>,
    pub unknown_records: Vec<UnknownRecord>,
}

impl FileBlock {
    /// The records of the extra area, as the block sees them.
    pub open spec fn views(s: Seq<u8>, p: int, extra_area_size: Option<u64>) -> Seq<RecordView> {
        area_views(s, p + EntryHeader::size_at(s, p, Some(MAX_PATH_SIZE)), extra_area_size)
    }

    /// How decoding the block at offset `p` ends.
    pub open spec fn outcome_at(s: Seq<u8>, p: int, extra_area_size: Option<u64>) -> Outcome {
        with_records(
            s,
            p,
            EntryHeader::size_at(s, p, Some(MAX_PATH_SIZE)),
            extra_area_size,
            EntryRecords::readable(Self::views(s, p, extra_area_size)),
        )
    }

    /// The fields are those stored at offset `p`, the records those of the
    /// extra area.
    pub open spec fn decodes(&self, s: Seq<u8>, p: int, extra_area_size: Option<u64>) -> bool {
        let views = Self::views(s, p, extra_area_size);
        let flags = low_word(vint_value(s, p));
        &&& self.flags.bits() == flags
        &&& self.unpacked_size == if flags & 0x0008 != 0 {
            None
        } else {
            Some(vint_value(s, vint_end(s, p)))
        }
        &&& exists|header: EntryHeader| #[trigger]
            header.decodes(s, p, Some(MAX_PATH_SIZE)) && self.attributes == header.attributes
                && self.modification_time == header.modification_time
                && self.unpacked_data_crc32 == header.crc32 && self.compression_info
                == header.compression_info && self.host_os == header.host_os
                && is_unmapped_name(header.name@, self.name)
        &&& EntryRecords::holds(
            views,
            self.encryption,
            self.hash,
            self.extended_time,
            self.version,
            self.filesystem_redirection,
            self.unix_owner,
        )
        &&& self.unknown_records@ == unknown_records(views, file_record_types())
    }

    /// Read the part of a file block that follows the common header.
    pub fn read(r: &mut Reader, extra_area_size: Option<u64>) -> (res: Result<Self, Error>)
        ensures
            Self::outcome_at(old(r).bytes(), old(r).pos(), extra_area_size).describes(
                *old(r),
                *final(r),
                res,
            ),
            res matches Ok(b) ==> b.decodes(old(r).bytes(), old(r).pos(), extra_area_size),
    {
        let ghost s = r.bytes();
        let ghost p = r.pos();
        let header = EntryHeader::read(r, Some(MAX_PATH_SIZE))?;
        let records = read_area(r, extra_area_size)?;
        let taken = EntryRecords::read(&records)?;
        let known = vec![CRYPT, HASH, HTIME, VERSION, REDIR, UOWNER];
        assert(known@ =~= file_record_types());
        let unknown_records = collect_unknown(&records, &known);
        let flags = FileBlockFlags::new(header.flags);
        let unpacked_size = if flags.unknown_unpacked_size() {
            None
        } else {
            Some(header.unpacked_size)
        };
        let attributes = header.attributes;
        let modification_time = header.modification_time;
        let unpacked_data_crc32 = header.crc32;
        let compression_info = header.compression_info;
        let host_os = header.host_os;
        let ghost stored = header;
        let name = unmap_high_ascii_chars(header.name);
        assert(stored.decodes(s, p, Some(MAX_PATH_SIZE)) && is_unmapped_name(stored.name@, name));
        Ok(
            FileBlock {
                flags,
                unpacked_size,
                attributes,
                modification_time,
                unpacked_data_crc32,
                compression_info,
                host_os,
                name,
                encryption: taken.encryption,
                hash: taken.hash,
                extended_time: taken.extended_time,
                version: taken.version,
                filesystem_redirection: taken.filesystem_redirection,
                unix_owner: taken.unix_owner,
                unknown_records,
            },
        )
    }

    /// The modification time of the file: that of the record of timestamps
    /// where it has one, else that of the header.
    pub fn modification_time(&self) -> (t: Option<Result<DateTime, u64>>)
        ensures
            t == match self.extended_time {
                Some(FileTimeRecord { modification_time: Some(precise), .. }) => Some(precise),
                _ => match self.modification_time {
                    Some(Ok(instant)) => Some(Ok::<DateTime, u64>(instant)),
                    Some(Err(raw)) => Some(Err::<DateTime, u64>(raw as u64)),
                    None => None,
                },
            },
    {
        if let Some(times) = &self.extended_time {
            if let Some(precise) = &times.modification_time {
                return Some(*precise);
            }
        }
        match self.modification_time {
            Some(t) => Some(widen_error(t)),
            None => None,
        }
    }
}

} // verus!
