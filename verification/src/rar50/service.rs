//! The service blocks of a RAR50 archive: blocks that hold data of the
//! archive itself, such as its comment or its recovery record.
use crate::error::Error;
use crate::rar50::blocks::area_views;
use crate::rar50::blocks::read_area;
use crate::rar50::blocks::with_records;
use crate::rar50::blocks::CompressionInfo;
use crate::rar50::blocks::HostOs;
use crate::rar50::blocks::ServiceBlockFlags;
use crate::rar50::entries::EntryHeader;
use crate::rar50::entries::EntryRecords;
use crate::rar50::entries::file_record_types;
use crate::rar50::entries::CRYPT;
use crate::rar50::entries::HASH;
use crate::rar50::entries::HTIME;
use crate::rar50::entries::REDIR;
use crate::rar50::entries::SERVICE_DATA;
use crate::rar50::entries::UOWNER;
use crate::rar50::entries::VERSION;
use crate::rar50::extra_area::collect_unknown;
use crate::rar50::extra_area::read_first;
use crate::rar50::extra_area::slot_holds;
use crate::rar50::extra_area::slot_readable;
use crate::rar50::extra_area::unknown_records;
use crate::rar50::extra_area::RecordView;
use crate::rar50::file_time::FileTimeRecord;
use crate::rar50::records::FileEncryptionRecord;
use crate::rar50::records::FileHashRecord;
use crate::rar50::records::FileSystemRedirectionRecord;
use crate::rar50::records::FileVersionRecord;
use crate::rar50::records::RecoveryRecordInfo;
use crate::rar50::records::UnixOwnerRecord;
use crate::rar50::records::UnknownRecord;
use crate::read::low_word;
use crate::read::vint_end;
use crate::read::vint_value;
use crate::read::Outcome;
use crate::read::Reader;
use crate::time_conv::DateTime;
use vstd::prelude::*;

verus! {

/// The kinds of service block that this library knows by name.
#[derive(Debug, Clone, Copy, PartialEq, Eq, Structural)]
pub enum ServiceBlockType {
    Comment,
    QuickOpen,
    NtfsFilePermissions,
    NtfsAlternateDataStream,
    RecoveryRecord,
}

/// The bytes of the name `CMT`.
pub open spec fn name_cmt() -> Seq<u8> {
    seq![0x43u8, 0x4d, 0x54]
}

/// The bytes of the name `QO`.
pub open spec fn name_qo() -> Seq<u8> {
    seq![0x51u8, 0x4f]
}

/// The bytes of the name `ACL`.
pub open spec fn name_acl() -> Seq<u8> {
    seq![0x41u8, 0x43, 0x4c]
}

/// The bytes of the name `STM`.
pub open spec fn name_stm() -> Seq<u8> {
    seq![0x53u8, 0x54, 0x4d]
}

/// The bytes of the name `RR`.
pub open spec fn name_rr() -> Seq<u8> {
    seq![0x52u8, 0x52]
}

impl ServiceBlockType {
    /// The kind of service block with the given name, if it is a known one.
    pub open spec fn of(bytes: Seq<u8>) -> Option<ServiceBlockType> {
        if bytes == name_cmt() {
            Some(ServiceBlockType::Comment)
        } else if bytes == name_qo() {
            Some(ServiceBlockType::QuickOpen)
        } else if bytes == name_acl() {
            Some(ServiceBlockType::NtfsFilePermissions)
        } else if bytes == name_stm() {
            Some(ServiceBlockType::NtfsAlternateDataStream)
        } else if bytes == name_rr() {
            Some(ServiceBlockType::RecoveryRecord)
        } else {
            None
        }
    }

    /// Tell the kind of a service block by its name.
    pub fn from_bytes(bytes: &Vec<u8>) -> (kind: Option<Self>)
        ensures
            kind == Self::of(bytes@),
    {
        let n = bytes.len();
        let b0 = if n > 0 {
            bytes[0]
        } else {
            0
        };
        let b1 = if n > 1 {
            bytes[1]
        } else {
            0
        };
        let b2 = if n > 2 {
            bytes[2]
        } else {
            0
        };
        let kind = if n == 3 && b0 == 0x43 && b1 == 0x4d && b2 == 0x54 {
            Some(ServiceBlockType::Comment)
        } else if n == 2 && b0 == 0x51 && b1 == 0x4f {
            Some(ServiceBlockType::QuickOpen)
        } else if n == 3 && b0 == 0x41 && b1 == 0x43 && b2 == 0x4c {
            Some(ServiceBlockType::NtfsFilePermissions)
        } else if n == 3 && b0 == 0x53 && b1 == 0x54 && b2 == 0x4d {
            Some(ServiceBlockType::NtfsAlternateDataStream)
        } else if n == 2 && b0 == 0x52 && b1 == 0x52 {
            Some(ServiceBlockType::RecoveryRecord)
        } else {
            None
        };
        proof {
            let s = bytes@;
            assert(s == name_cmt() <==> (n == 3 && b0 == 0x43 && b1 == 0x4d && b2 == 0x54)) by {
                if n == 3 && b0 == 0x43 && b1 == 0x4d && b2 == 0x54 {
                    assert(s =~= name_cmt());
                }
            }
            assert(s == name_qo() <==> (n == 2 && b0 == 0x51 && b1 == 0x4f)) by {
                if n == 2 && b0 == 0x51 && b1 == 0x4f {
                    assert(s =~= name_qo());
                }
            }
            assert(s == name_acl() <==> (n == 3 && b0 == 0x41 && b1 == 0x43 && b2 == 0x4c)) by {
                if n == 3 && b0 == 0x41 && b1 == 0x43 && b2 == 0x4c {
                    assert(s =~= name_acl());
                }
            }
            assert(s == name_stm() <==> (n == 3 && b0 == 0x53 && b1 == 0x54 && b2 == 0x4d)) by {
                if n == 3 && b0 == 0x53 && b1 == 0x54 && b2 == 0x4d {
                    assert(s =~= name_stm());
                }
            }
            assert(s == name_rr() <==> (n == 2 && b0 == 0x52 && b1 == 0x52)) by {
                if n == 2 && b0 == 0x52 && b1 == 0x52 {
                    assert(s =~= name_rr());
                }
            }
        }
        kind
    }
}

/// Service block that speeds up the listing of the archive. Holds no records.
#[derive(Debug, Clone, Copy)]
pub struct QuickOpenServiceBlock;

/// Service block that holds the comment of the archive. Holds no records.
#[derive(Debug, Clone, Copy)]
pub struct CommentServiceBlock;

/// Service block that holds the recovery record.
#[derive(Debug)]
pub struct RecoveryRecordServiceBlock {
    /// What the block tells of the recovery record, where it tells anything.
    pub info: Option<RecoveryRecordInfo>,
}

/// Concrete service block type.
#[derive(Debug)]
pub enum ServiceBlockKind {
    Comment(CommentServiceBlock),
    QuickOpen(QuickOpenServiceBlock),
    NtfsFilePermissions,
    NtfsAlternateDataStream,
    RecoveryRecord(RecoveryRecordServiceBlock),
    /// A kind that this library does not know, with its name.
    Unknown(Vec<u8>),
}

/// The types of record that a service block with the given name knows:
/// those of a file block, and for a recovery record the data of the service.
pub open spec fn service_record_types(name: Seq<u8>) -> Seq<u64> {
    if ServiceBlockType::of(name) == Some(ServiceBlockType::RecoveryRecord) {
        file_record_types().push(SERVICE_DATA)
    } else {
        file_record_types()
    }
}

impl ServiceBlockKind {
    /// The block of a recovery record may hold data of the service; can
    /// the first record of that type be decoded?
    pub open spec fn readable(views: Seq<RecordView>, name: Seq<u8>) -> bool {
        ServiceBlockType::of(name) == Some(ServiceBlockType::RecoveryRecord) ==> slot_readable::<
            RecoveryRecordInfo,
        >(views, SERVICE_DATA)
    }

    /// The kind is the one that the name stands for, and a recovery record
    /// holds the first record of data of the service.
    pub open spec fn decodes(&self, views: Seq<RecordView>, name: Seq<u8>) -> bool {
        match ServiceBlockType::of(name) {
            Some(ServiceBlockType::Comment) => *self is Comment,
            Some(ServiceBlockType::QuickOpen) => *self is QuickOpen,
            Some(ServiceBlockType::NtfsFilePermissions) => *self is NtfsFilePermissions,
            Some(ServiceBlockType::NtfsAlternateDataStream) => *self is NtfsAlternateDataStream,
            Some(ServiceBlockType::RecoveryRecord) => *self matches ServiceBlockKind::RecoveryRecord(
                block,
            ) && slot_holds(block.info, views, SERVICE_DATA),
            None => *self matches ServiceBlockKind::Unknown(kept) && kept@ == name,
        }
    }
}

/// Block containing data of the archive itself.
#[derive(Debug)]
pub struct ServiceBlock {
    pub flags: ServiceBlockFlags,
    pub unpacked_size: Option<u64>,
    pub modification_time: Option<Result<DateTime, u32>>,
    pub data_crc32: Option<u32>,
    pub compression_info: CompressionInfo,
    pub host_os: HostOs,
    pub encryption: Option<FileEncryptionRecord>,
    pub hash: Option<FileHashRecord>,
    pub extended_time: Option<FileTimeRecord>,
    pub version: Option<FileVersionRecord>,
    pub filesystem_redirection: Option<FileSystemRedirectionRecord>,
    pub unix_owner: Option<UnixOwnerRecord>,
    pub unknown_records: Vec<UnknownRecord>,
    pub kind: ServiceBlockKind,
}

impl ServiceBlock {
    /// The records of the extra area, as the block sees them.
    pub open spec fn views(s: Seq<u8>, p: int, extra_area_size: Option<u64>) -> Seq<RecordView> {
        area_views(s, p + EntryHeader::size_at(s, p, None), extra_area_size)
    }

    /// The name of the block stored at offset `p`.
    pub open spec fn name(s: Seq<u8>, p: int) -> Seq<u8> {
        crate::read::window(
            s,
            EntryHeader::name_at(s, p),
            EntryHeader::name_size(s, p, None) as int,
        )
    }

    /// How decoding the block at offset `p` ends.
    pub open spec fn outcome_at(s: Seq<u8>, p: int, extra_area_size: Option<u64>) -> Outcome {
        let views = Self::views(s, p, extra_area_size);
        with_records(
            s,
            p,
            EntryHeader::size_at(s, p, None),
            extra_area_size,
            EntryRecords::readable(views) && ServiceBlockKind::readable(views, Self::name(s, p)),
        )
    }

    /// The fields are those stored at offset `p`, the records those of the
    /// extra area.
    pub open spec fn decodes(&self, s: Seq<u8>, p: int, extra_area_size: Option<u64>) -> bool {
        let views = Self::views(s, p, extra_area_size);
        let flags = low_word(vint_value(s, p));
        &&& self.flags.bits() == flags
        &&& self.unpacked_size == if flags & 0x0008 != 0 {
            None
        } else {
            Some(vint_value(s, vint_end(s, p)))
        }
        &&& exists|header: EntryHeader| #[trigger]
            header.decodes(s, p, None) && self.modification_time == header.modification_time
                && self.data_crc32 == header.crc32 && self.compression_info
                == header.compression_info && self.host_os == header.host_os
        &&& EntryRecords::holds(
            views,
            self.encryption,
            self.hash,
            self.extended_time,
            self.version,
            self.filesystem_redirection,
            self.unix_owner,
        )
        &&& self.kind.decodes(views, Self::name(s, p))
        &&& self.unknown_records@ == unknown_records(views, service_record_types(Self::name(s, p)))
    }

    /// Read the part of a service block that follows the common header.
    pub fn read(r: &mut Reader, extra_area_size: Option<u64>) -> (res: Result<Self, Error>)
        ensures
            Self::outcome_at(old(r).bytes(), old(r).pos(), extra_area_size).describes(
                *old(r),
                *final(r),
                res,
            ),
            res matches Ok(b) ==> b.decodes(old(r).bytes(), old(r).pos(), extra_area_size),
    {
        let ghost s = r.bytes();
        let ghost p = r.pos();
        let header = EntryHeader::read(r, None)?;
        let records = read_area(r, extra_area_size)?;
        let taken = EntryRecords::read(&records)?;
        let name = ServiceBlockType::from_bytes(&header.name);
        let mut known = vec![CRYPT, HASH, HTIME, VERSION, REDIR, UOWNER];
        assert(known@ =~= file_record_types());
        let flags = ServiceBlockFlags::new(header.flags);
        let unpacked_size = if flags.unknown_unpacked_size() {
            None
        } else {
            Some(header.unpacked_size)
        };
        let modification_time = header.modification_time;
        let data_crc32 = header.crc32;
        let compression_info = header.compression_info;
        let host_os = header.host_os;
        let ghost stored = header;
        let kind = match name {
            Some(ServiceBlockType::Comment) => ServiceBlockKind::Comment(CommentServiceBlock),
            Some(ServiceBlockType::QuickOpen) => ServiceBlockKind::QuickOpen(QuickOpenServiceBlock),
            Some(ServiceBlockType::NtfsFilePermissions) => ServiceBlockKind::NtfsFilePermissions,
            Some(ServiceBlockType::NtfsAlternateDataStream) => {
                ServiceBlockKind::NtfsAlternateDataStream
            },
            Some(ServiceBlockType::RecoveryRecord) => {
                known.push(SERVICE_DATA);
                let info = read_first::<RecoveryRecordInfo>(&records, SERVICE_DATA)?;
                ServiceBlockKind::RecoveryRecord(RecoveryRecordServiceBlock { info })
            },
            None => ServiceBlockKind::Unknown(header.name),
        };
        assert(known@ =~= service_record_types(stored.name@));
        let unknown_records = collect_unknown(&records, &known);
        assert(stored.decodes(s, p, None));
        Ok(
            ServiceBlock {
                flags,
                unpacked_size,
                modification_time,
                data_crc32,
                compression_info,
                host_os,
                encryption: taken.encryption,
                hash: taken.hash,
                extended_time: taken.extended_time,
                version: taken.version,
                filesystem_redirection: taken.filesystem_redirection,
                unix_owner: taken.unix_owner,
                unknown_records,
                kind,
            },
        )
    }
}

} // verus!
