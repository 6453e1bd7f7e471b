//! The OpenDrive writer: the decision half of one-shot and append
//! uploads against one path.

use vstd::prelude::*;

use crate::error::Error;
use crate::error::ErrorKind;
use crate::error::parse_numeric_types_error;
use crate::external::spec_timestamp_in_calendar;
use crate::metadata::EntryMode;
use crate::metadata::Metadata;
use crate::model::OpendriveCreateFileInfo;
use crate::model::OpendriveGetFileInfo;
use crate::ops::OpWrite;
use crate::opendrive::OpendriveCore;
use crate::text::parse_u64;
use crate::text::spec_all_digits;
use crate::text::spec_dec_value;
use crate::text::spec_is_signed_numeral;
use crate::text::spec_signed_value;

verus! {

/// One writer instance: bound to a path and the write parameters for
/// the writer's whole lifetime.
pub struct OpendriveWriter {
    pub path: String,
    pub op: OpWrite,
}

impl OpendriveWriter {
    /// Bind a writer to its target path and parameters.
    pub fn new(path: &str, op: OpWrite) -> (r: OpendriveWriter)
        ensures
            r.path@ == path@,
            r.op == op,
    {
        OpendriveWriter { path: path.to_owned(), op }
    }

    /// A one-shot write needs a file: a directory is refused before
    /// any upload is opened.
    pub fn write_once_precheck(&self, metadata: &Metadata) -> (r: Result<(), Error>)
        ensures
            metadata.mode == EntryMode::Dir ==> (r matches Err(e) && e.kind
                == ErrorKind::IsADirectory && e.message@
                == "directory does not support write operations"@),
            metadata.mode == EntryMode::File ==> r is Ok,
    {
        if metadata.is_dir() {
            Err(
                Error::new(
                    ErrorKind::IsADirectory,
                    "directory does not support write operations".to_owned(),
                ),
            )
        } else {
            Ok(())
        }
    }

    /// Gate one append on the offset the caller claims: it must equal
    /// the object's current size exactly, else the append is refused
    /// with `ConditionNotMatch` before any upload is opened — an
    /// append is not an overwrite.
    pub fn append_offset_check(&self, current_size: u64, claimed_offset: u64) -> (r: Result<
        (),
        Error,
    >)
        ensures
            r is Ok <==> current_size == claimed_offset,
            r matches Err(e) ==> e.kind == ErrorKind::ConditionNotMatch,
    {
        if current_size != claimed_offset {
            return Err(
                Error::new(
                    ErrorKind::ConditionNotMatch,
                    "append offset does not match current size".to_owned(),
                ),
            );
        }
        Ok(())
    }

    /// The append offset the backend reports: the created file's
    /// current size, read from its decimal text.
    pub fn offset_from_create(&self, info: &OpendriveCreateFileInfo) -> (r: Result<u64, Error>)
        ensures
            ({
                let v = spec_dec_value(info.size@);
                if info.size@.len() > 0 && spec_all_digits(info.size@) && v <= u64::MAX {
                    r matches Ok(offset) && offset == v
                } else {
                    r matches Err(e) && e.kind == ErrorKind::Unexpected
                }
            }),
    {
        match parse_u64(info.size.as_str()) {
            Some(offset) => Ok(offset),
            None => Err(parse_numeric_types_error(info.size.as_str())),
        }
    }

    /// Fold the file info a finished upload reports into the metadata
    /// the writer returns: mode file, the given id as etag, parsed
    /// timestamp and content length.
    pub fn metadata_from_file_info(&self, core: &OpendriveCore, file_id: &str, info:
        &OpendriveGetFileInfo) -> (r: Result<Metadata, Error>)
        ensures
            ({
                let v = spec_signed_value(info.date_modified@);
                let numeral_ok = spec_is_signed_numeral(info.date_modified@) && -i64::MAX <= v
                    <= i64::MAX;
                let szv = spec_dec_value(info.size@);
                let size_ok = info.size@.len() > 0 && spec_all_digits(info.size@) && szv
                    <= u64::MAX;
                if !numeral_ok {
                    r matches Err(e) && e.kind == ErrorKind::Unexpected
                } else if !spec_timestamp_in_calendar(v as i64) {
                    r matches Err(e) && e.kind == ErrorKind::Unsupported
                } else if !size_ok {
                    r matches Err(e) && e.kind == ErrorKind::Unexpected
                } else {
                    r matches Ok(m) && m.mode == EntryMode::File && m.last_modified == Some(
                        v as i64,
                    ) && (m.etag matches Some(t) && t@ == file_id@) && (m.version matches Some(mv)
                        && mv@ == info.version@) && m.content_length == Some(szv as u64)
                }
            }),
    {
        let last_modified = match core.parse_modified_timestamp(info.date_modified.as_str()) {
            Ok(ts) => ts,
            Err(e) => {
                return Err(e);
            },
        };
        let size = match parse_u64(info.size.as_str()) {
            Some(size) => size,
            None => {
                return Err(parse_numeric_types_error(info.size.as_str()));
            },
        };
        Ok(
            Metadata::new(EntryMode::File).with_etag(file_id.to_owned()).with_last_modified(
                last_modified,
            ).with_version(info.version.clone()).with_content_length(size),
        )
    }
}

/// Which generic writer drives an OpenDrive write.
#[derive(Clone, Copy, Debug, PartialEq, Eq, Structural)]
pub enum WriterKind {
    OneShot,
    Append,
}

/// Choose the writer for the given parameters: appends get the append
/// writer, everything else the one-shot writer.
pub fn writer_kind(op: &OpWrite) -> (r: WriterKind)
    ensures
        r == if op.append {
            WriterKind::Append
        } else {
            WriterKind::OneShot
        },
{
    if op.append {
        WriterKind::Append
    } else {
        WriterKind::OneShot
    }
}

} // verus!
