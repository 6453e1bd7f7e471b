//! Folding backend replies into results.
//!
//! Every reply enum of the wire model is folded here into either its
//! success payload or an error of the closed taxonomy. All components
//! above the backend boundary branch only on the kinds assigned here.

use vstd::prelude::*;

use crate::error::Error;
use crate::error::ErrorKind;
use crate::model::OpendriveCheckIfExistsResponse;
use crate::model::OpendriveCloseFileUploadInfo;
use crate::model::OpendriveCloseFileUploadResponse;
use crate::model::OpendriveCreateDirResponse;
use crate::model::OpendriveCreateFileInfo;
use crate::model::OpendriveCreateFileResponse;
use crate::model::OpendriveGetFileIdResponse;
use crate::model::OpendriveGetFileInfo;
use crate::model::OpendriveGetFileInfoResponse;
use crate::model::OpendriveGetFolderIdResponse;
use crate::model::OpendriveGetFolderInfo;
use crate::model::OpendriveGetFolderInfoResponse;
use crate::model::OpendriveGetListInfo;
use crate::model::OpendriveGetListInfoResponse;
use crate::model::OpendriveOpenFileUploadInfo;
use crate::model::OpendriveOpenFileUploadResponse;
use crate::model::OpendriveSuccessIgnoreResponse;

verus! {

/// What the folder-creation endpoint decided.
#[derive(Clone, Debug, PartialEq, Eq)]
pub enum CreateFolderOutcome {
    /// The folder was created and this is its identifier.
    Created(String),
    /// The folder already existed; its identifier must be looked up
    /// by path instead.
    AlreadyExisted,
}

/// Fold the folder-id-by-path reply: a missing folder is `NotFound`,
/// any other backend error is `Unexpected`.
pub fn fold_folder_id_response(resp: OpendriveGetFolderIdResponse) -> (r: Result<String, Error>)
    ensures
        resp matches OpendriveGetFolderIdResponse::Success(s) ==> r matches Ok(id)
            && id@ == s.folder_id@,
        resp matches OpendriveGetFolderIdResponse::Fail(f) ==> r matches Err(e)
            && e.message@ == f.error.message@
            && e.kind == (if f.error.code == 404 { ErrorKind::NotFound } else { ErrorKind::Unexpected }),
{
    match resp {
        OpendriveGetFolderIdResponse::Success(result) => Ok(result.folder_id),
        OpendriveGetFolderIdResponse::Fail(result) => {
            if result.error.code == 404 {
                Err(Error::new(ErrorKind::NotFound, result.error.message))
            } else {
                Err(Error::new(ErrorKind::Unexpected, result.error.message))
            }
        },
    }
}

/// Fold a reply whose success payload the core ignores: a missing object
/// is `NotFound`, a conflicting one `AlreadyExists`, anything else
/// `Unexpected`.
pub fn fold_unit_response(resp: OpendriveSuccessIgnoreResponse) -> (r: Result<(), Error>)
    ensures
        resp matches OpendriveSuccessIgnoreResponse::Success ==> r matches Ok(u),
        resp matches OpendriveSuccessIgnoreResponse::Fail(f) ==> r matches Err(e)
            && e.message@ == f.error.message@
            && e.kind == (if f.error.code == 404 {
                ErrorKind::NotFound
            } else if f.error.code == 409 {
                ErrorKind::AlreadyExists
            } else {
                ErrorKind::Unexpected
            }),
{
    match resp {
        OpendriveSuccessIgnoreResponse::Success => Ok(()),
        OpendriveSuccessIgnoreResponse::Fail(result) => {
            if result.error.code == 404 {
                Err(Error::new(ErrorKind::NotFound, result.error.message))
            } else if result.error.code == 409 {
                Err(Error::new(ErrorKind::AlreadyExists, result.error.message))
            } else {
                Err(Error::new(ErrorKind::Unexpected, result.error.message))
            }
        },
    }
}

/// Fold the file-id-by-path reply: a missing file is `NotFound`,
/// any other backend error is `Unexpected`.
pub fn fold_file_id_response(resp: OpendriveGetFileIdResponse) -> (r: Result<String, Error>)
    ensures
        resp matches OpendriveGetFileIdResponse::Success(s) ==> r matches Ok(id)
            && id@ == s.file_id@,
        resp matches OpendriveGetFileIdResponse::Fail(f) ==> r matches Err(e)
            && e.message@ == f.error.message@
            && e.kind == (if f.error.code == 404 { ErrorKind::NotFound } else { ErrorKind::Unexpected }),
{
    match resp {
        OpendriveGetFileIdResponse::Success(result) => Ok(result.file_id),
        OpendriveGetFileIdResponse::Fail(result) => {
            if result.error.code == 404 {
                Err(Error::new(ErrorKind::NotFound, result.error.message))
            } else {
                Err(Error::new(ErrorKind::Unexpected, result.error.message))
            }
        },
    }
}

/// Fold the folder-info reply: a missing folder is `NotFound`,
/// any other backend error is `Unexpected`.
pub fn fold_folder_info_response(resp: OpendriveGetFolderInfoResponse) -> (r: Result<
    OpendriveGetFolderInfo,
    Error,
>)
    ensures
        resp matches OpendriveGetFolderInfoResponse::Success(s) ==> r matches Ok(info)
            && info == s,
        resp matches OpendriveGetFolderInfoResponse::Fail(f) ==> r matches Err(e)
            && e.message@ == f.error.message@
            && e.kind == (if f.error.code == 404 { ErrorKind::NotFound } else { ErrorKind::Unexpected }),
{
    match resp {
        OpendriveGetFolderInfoResponse::Success(result) => Ok(result),
        OpendriveGetFolderInfoResponse::Fail(result) => {
            if result.error.code == 404 {
                Err(Error::new(ErrorKind::NotFound, result.error.message))
            } else {
                Err(Error::new(ErrorKind::Unexpected, result.error.message))
            }
        },
    }
}

/// Fold the file-info reply: a missing file is `NotFound`,
/// any other backend error is `Unexpected`.
pub fn fold_file_info_response(resp: OpendriveGetFileInfoResponse) -> (r: Result<
    OpendriveGetFileInfo,
    Error,
>)
    ensures
        resp matches OpendriveGetFileInfoResponse::Success(s) ==> r matches Ok(info)
            && info == s,
        resp matches OpendriveGetFileInfoResponse::Fail(f) ==> r matches Err(e)
            && e.message@ == f.error.message@
            && e.kind == (if f.error.code == 404 { ErrorKind::NotFound } else { ErrorKind::Unexpected }),
{
    match resp {
        OpendriveGetFileInfoResponse::Success(result) => Ok(result),
        OpendriveGetFileInfoResponse::Fail(result) => {
            if result.error.code == 404 {
                Err(Error::new(ErrorKind::NotFound, result.error.message))
            } else {
                Err(Error::new(ErrorKind::Unexpected, result.error.message))
            }
        },
    }
}

/// Fold the folder-listing reply: a missing folder is `NotFound`,
/// any other backend error is `Unexpected`.
pub fn fold_list_info_response(resp: OpendriveGetListInfoResponse) -> (r: Result<
    OpendriveGetListInfo,
    Error,
>)
    ensures
        resp matches OpendriveGetListInfoResponse::Success(s) ==> r matches Ok(info)
            && info == s,
        resp matches OpendriveGetListInfoResponse::Fail(f) ==> r matches Err(e)
            && e.message@ == f.error.message@
            && e.kind == (if f.error.code == 404 { ErrorKind::NotFound } else { ErrorKind::Unexpected }),
{
    match resp {
        OpendriveGetListInfoResponse::Success(result) => Ok(result),
        OpendriveGetListInfoResponse::Fail(result) => {
            if result.error.code == 404 {
                Err(Error::new(ErrorKind::NotFound, result.error.message))
            } else {
                Err(Error::new(ErrorKind::Unexpected, result.error.message))
            }
        },
    }
}

/// Fold the folder-creation reply. A conflict means the folder already
/// exists; the caller then resolves the identifier by path, so a conflict
/// is an outcome here, not an error.
pub fn fold_create_folder_response(resp: OpendriveCreateDirResponse) -> (r: Result<
    CreateFolderOutcome,
    Error,
>)
    ensures
        resp matches OpendriveCreateDirResponse::Success(s) ==> r matches Ok(o)
            && o matches CreateFolderOutcome::Created(id) && id@ == s.folder_id@,
        resp matches OpendriveCreateDirResponse::Fail(f) ==> (if f.error.code == 409 {
            r matches Ok(o) && o == CreateFolderOutcome::AlreadyExisted
        } else {
            r matches Err(e) && e.kind == ErrorKind::Unexpected && e.message@ == f.error.message@
        }),
{
    match resp {
        OpendriveCreateDirResponse::Success(result) => {
            Ok(CreateFolderOutcome::Created(result.folder_id))
        },
        OpendriveCreateDirResponse::Fail(result) => {
            if result.error.code == 409 {
                Ok(CreateFolderOutcome::AlreadyExisted)
            } else {
                Err(Error::new(ErrorKind::Unexpected, result.error.message))
            }
        },
    }
}

/// Fold the file-existence probe: the file exists exactly when the reply
/// names at least one match. A missing parent folder is `NotFound`.
pub fn fold_check_exists_response(resp: OpendriveCheckIfExistsResponse) -> (r: Result<bool, Error>)
    ensures
        resp matches OpendriveCheckIfExistsResponse::Success(s) ==> r matches Ok(b)
            && b == (s.result@.len() > 0),
        resp matches OpendriveCheckIfExistsResponse::Fail(f) ==> r matches Err(e)
            && e.message@ == f.error.message@
            && e.kind == (if f.error.code == 404 { ErrorKind::NotFound } else { ErrorKind::Unexpected }),
{
    match resp {
        OpendriveCheckIfExistsResponse::Success(result) => Ok(result.result.len() > 0),
        OpendriveCheckIfExistsResponse::Fail(result) => {
            if result.error.code == 404 {
                Err(Error::new(ErrorKind::NotFound, result.error.message))
            } else {
                Err(Error::new(ErrorKind::Unexpected, result.error.message))
            }
        },
    }
}

/// Fold the create-file reply: a conflict is `AlreadyExists`, any other
/// backend error is `Unexpected`.
pub fn fold_create_file_response(resp: OpendriveCreateFileResponse) -> (r: Result<
    OpendriveCreateFileInfo,
    Error,
>)
    ensures
        resp matches OpendriveCreateFileResponse::Success(s) ==> r matches Ok(info)
            && info == s,
        resp matches OpendriveCreateFileResponse::Fail(f) ==> r matches Err(e)
            && e.message@ == f.error.message@
            && e.kind == (if f.error.code == 409 { ErrorKind::AlreadyExists } else { ErrorKind::Unexpected }),
{
    match resp {
        OpendriveCreateFileResponse::Success(result) => Ok(result),
        OpendriveCreateFileResponse::Fail(result) => {
            if result.error.code == 409 {
                Err(Error::new(ErrorKind::AlreadyExists, result.error.message))
            } else {
                Err(Error::new(ErrorKind::Unexpected, result.error.message))
            }
        },
    }
}

/// Fold the open-file-upload reply: a missing file is `NotFound`,
/// any other backend error is `Unexpected`.
pub fn fold_open_upload_response(resp: OpendriveOpenFileUploadResponse) -> (r: Result<
    OpendriveOpenFileUploadInfo,
    Error,
>)
    ensures
        resp matches OpendriveOpenFileUploadResponse::Success(s) ==> r matches Ok(info)
            && info == s,
        resp matches OpendriveOpenFileUploadResponse::Fail(f) ==> r matches Err(e)
            && e.message@ == f.error.message@
            && e.kind == (if f.error.code == 404 { ErrorKind::NotFound } else { ErrorKind::Unexpected }),
{
    match resp {
        OpendriveOpenFileUploadResponse::Success(result) => Ok(result),
        OpendriveOpenFileUploadResponse::Fail(result) => {
            if result.error.code == 404 {
                Err(Error::new(ErrorKind::NotFound, result.error.message))
            } else {
                Err(Error::new(ErrorKind::Unexpected, result.error.message))
            }
        },
    }
}

/// Fold the close-file-upload reply: a missing file is `NotFound`,
/// any other backend error is `Unexpected`.
pub fn fold_close_upload_response(resp: OpendriveCloseFileUploadResponse) -> (r: Result<
    OpendriveCloseFileUploadInfo,
    Error,
>)
    ensures
        resp matches OpendriveCloseFileUploadResponse::Success(s) ==> r matches Ok(info)
            && info == s,
        resp matches OpendriveCloseFileUploadResponse::Fail(f) ==> r matches Err(e)
            && e.message@ == f.error.message@
            && e.kind == (if f.error.code == 404 { ErrorKind::NotFound } else { ErrorKind::Unexpected }),
{
    match resp {
        OpendriveCloseFileUploadResponse::Success(result) => Ok(result),
        OpendriveCloseFileUploadResponse::Fail(result) => {
            if result.error.code == 404 {
                Err(Error::new(ErrorKind::NotFound, result.error.message))
            } else {
                Err(Error::new(ErrorKind::Unexpected, result.error.message))
            }
        },
    }
}

/// Fold an error reply decoded outside a success/fail pairing, as the
/// generic error path does for raw transport replies. `None` stands for a
/// body that did not decode as an error object at all.
pub fn parse_error(decoded: Option<crate::model::OpendriveDeserializeFailError>) -> (r: Error)
    ensures
        decoded matches Some(f) ==> r.kind == crate::error::spec_kind_for_code(f.code)
            && r.message@ == f.message@,
        decoded is None ==> r.kind == ErrorKind::Unexpected,
{
    match decoded {
        Some(fail) => {
            let kind = crate::error::error_kind_for_code(fail.code);
            Error::new(kind, fail.message)
        },
        None => {
            Error::new(
                ErrorKind::Unexpected,
                "unexpected error occurred during deserialization".to_owned(),
            )
        },
    }
}

} // verus!
