//! RAR archive compressed with RAR 5.0 onwards.
//!
//! Every integer of a RAR50 header is stored as a variable-length integer,
//! and blocks may end with an extra area of typed records.
pub mod block;
pub mod block_iterator;
pub mod blocks;
pub mod entries;
pub mod extra_area;
pub mod file_time;
pub mod helpers;
pub mod record_iterator;
pub mod records;
pub mod service;

pub use block::Block;
pub use block::BlockKind;
pub use block::CommonHeader;
pub use block::CryptBlock;
pub use block::CryptBlockFlags;
pub use block::EncryptionVersion;
pub use block::EndArchiveBlock;
pub use block::EndArchiveBlockFlags;
pub use block::UnknownBlock;
pub use block_iterator::BlockIterator;
pub use blocks::CommonFlags;
pub use blocks::CompressionAlgorithm;
pub use blocks::CompressionInfo;
pub use blocks::CompressionMethod;
pub use blocks::FileBlockFlags;
pub use blocks::HostOs;
pub use blocks::MainBlock;
pub use blocks::MainBlockFlags;
pub use blocks::ServiceBlockFlags;
pub use entries::EntryHeader;
pub use entries::EntryRecords;
pub use entries::FileBlock;
pub use file_time::FileTimeRecord;
pub use file_time::FileTimeRecordFlags;
pub use helpers::read_unix_time_nanos;
pub use helpers::read_unix_time_sec;
pub use helpers::read_windows_time;
pub use helpers::unmap_high_ascii_chars;
pub use record_iterator::CommonRecord;
pub use record_iterator::RecordIterator;
pub use record_iterator::read_records;
pub use records::FileEncryptionRecord;
pub use records::FileEncryptionRecordFlags;
pub use records::FileHash;
pub use records::FileHashRecord;
pub use records::FileSystemRedirectionRecord;
pub use records::FileSystemRedirectionRecordFlags;
pub use records::FileSystemRedirectionType;
pub use records::FileVersionRecord;
pub use records::LocatorRecord;
pub use records::LocatorRecordFlags;
pub use records::MetadataRecord;
pub use records::MetadataRecordFlags;
pub use records::RecordRead;
pub use records::RecoveryRecordInfo;
pub use records::UnixOwnerRecord;
pub use records::UnixOwnerRecordFlags;
pub use records::UnknownRecord;
pub use service::CommentServiceBlock;
pub use service::QuickOpenServiceBlock;
pub use service::RecoveryRecordServiceBlock;
pub use service::ServiceBlock;
pub use service::ServiceBlockKind;
pub use service::ServiceBlockType;
