//! Reply shapes of the OpenDrive wire protocol, as plain values.
//!
//! Each endpoint answers either with its success payload or with a
//! `{ error: { code, message } }` object; the untagged pairing is modelled
//! by one enum per endpoint. Transport and JSON decoding live outside the
//! library; these types carry only what the core's logic reads.

use vstd::prelude::*;

verus! {

/// Which OAuth grant the signer asks for.
#[derive(Clone, Copy, Debug, PartialEq, Eq, Structural)]
pub enum OAuthGrantType {
    Password,
    RefreshToken,
}

/// Successful reply of the OAuth grant endpoint.
#[derive(Clone, Debug, PartialEq, Eq)]
pub struct OAuthTokenResponseBody {
    pub access_token: String,
    pub refresh_token: String,
    pub token_type: String,
    pub expires_in: i64,
}

/// Reply of the OAuth grant endpoint.
#[derive(Clone, Debug, PartialEq, Eq)]
pub enum OAuthTokenResponse {
    Success(OAuthTokenResponseBody),
    Fail(OpendriveDeserializeFail),
}

/// Reply of the folder-creation endpoint.
#[derive(Clone, Debug, PartialEq, Eq)]
pub enum OpendriveCreateDirResponse {
    Success(OpendriveCreateDirSuccess),
    Fail(OpendriveDeserializeFail),
}

/// Successful reply of the folder-creation endpoint.
#[derive(Clone, Debug, PartialEq, Eq)]
pub struct OpendriveCreateDirSuccess {
    pub folder_id: String,
    pub name: String,
    pub date_created: u32,
    pub dir_update_time: u32,
    pub date_modified: u32,
}

/// The error object every failing OpenDrive reply carries.
#[derive(Clone, Debug, PartialEq, Eq)]
pub struct OpendriveDeserializeFailError {
    pub code: u16,
    pub message: String,
}

/// A failing OpenDrive reply.
#[derive(Clone, Debug, PartialEq, Eq)]
pub struct OpendriveDeserializeFail {
    pub error: OpendriveDeserializeFailError,
}

/// Successful reply of the folder-id-by-path endpoint.
#[derive(Clone, Debug, PartialEq, Eq)]
pub struct OpendriveGetFolderId {
    pub folder_id: String,
}

/// Reply of the folder-id-by-path endpoint.
#[derive(Clone, Debug, PartialEq, Eq)]
pub enum OpendriveGetFolderIdResponse {
    Success(OpendriveGetFolderId),
    Fail(OpendriveDeserializeFail),
}

/// Successful reply of the file-id-by-path endpoint.
#[derive(Clone, Debug, PartialEq, Eq)]
pub struct OpendriveGetFileId {
    pub file_id: String,
}

/// Reply of the file-id-by-path endpoint.
#[derive(Clone, Debug, PartialEq, Eq)]
pub enum OpendriveGetFileIdResponse {
    Success(OpendriveGetFileId),
    Fail(OpendriveDeserializeFail),
}

/// Successful reply of the file-info endpoint. Numeric fields arrive as
/// decimal text and are parsed by the core.
#[derive(Clone, Debug, PartialEq, Eq)]
pub struct OpendriveGetFileInfo {
    pub file_id: String,
    pub name: String,
    pub size: String,
    pub version: String,
    pub date_modified: String,
}

/// Reply of the file-info endpoint.
#[derive(Clone, Debug, PartialEq, Eq)]
pub enum OpendriveGetFileInfoResponse {
    Success(OpendriveGetFileInfo),
    Fail(OpendriveDeserializeFail),
}

/// Successful reply of the folder-info endpoint.
#[derive(Clone, Debug, PartialEq, Eq)]
pub struct OpendriveGetFolderInfo {
    pub folder_id: String,
    pub name: String,
    pub date_modified: String,
    pub child_folders: Option<usize>,
}

/// Reply of the folder-info endpoint.
#[derive(Clone, Debug, PartialEq, Eq)]
pub enum OpendriveGetFolderInfoResponse {
    Success(OpendriveGetFolderInfo),
    Fail(OpendriveDeserializeFail),
}

/// Successful reply of the folder-listing endpoint: the direct children
/// of one folder, files and sub-folders apart.
#[derive(Clone, Debug, PartialEq, Eq)]
pub struct OpendriveGetListInfo {
    pub name: String,
    pub parent_folder_id: String,
    pub folders: Vec<OpendriveGetFolderInfo>,
    pub files: Vec<OpendriveGetFileInfo>,
}

/// Reply of the folder-listing endpoint.
#[derive(Clone, Debug, PartialEq, Eq)]
pub enum OpendriveGetListInfoResponse {
    Success(OpendriveGetListInfo),
    Fail(OpendriveDeserializeFail),
}

/// Reply of the endpoints whose success payload carries nothing the core
/// reads (rename, copy, trash, chunk upload).
#[derive(Clone, Debug, PartialEq, Eq)]
pub enum OpendriveSuccessIgnoreResponse {
    Success,
    Fail(OpendriveDeserializeFail),
}

/// Successful reply of the file-existence probe: the probed names that
/// exist in the folder.
#[derive(Clone, Debug, PartialEq, Eq)]
pub struct OpendriveCheckIfExists {
    pub result: Vec<String>,
}

/// Reply of the file-existence probe.
#[derive(Clone, Debug, PartialEq, Eq)]
pub enum OpendriveCheckIfExistsResponse {
    Success(OpendriveCheckIfExists),
    Fail(OpendriveDeserializeFail),
}

/// Successful reply of the open-file-upload endpoint.
#[derive(Clone, Debug, PartialEq, Eq)]
pub struct OpendriveOpenFileUploadInfo {
    pub temp_location: String,
    pub require_compression: bool,
    pub require_hash: bool,
    pub require_hash_only: bool,
    pub speed_limit: u64,
}

/// Reply of the open-file-upload endpoint.
#[derive(Clone, Debug, PartialEq, Eq)]
pub enum OpendriveOpenFileUploadResponse {
    Success(OpendriveOpenFileUploadInfo),
    Fail(OpendriveDeserializeFail),
}

/// Successful reply of the close-file-upload endpoint.
#[derive(Clone, Debug, PartialEq, Eq)]
pub struct OpendriveCloseFileUploadInfo {
    pub size: u64,
    pub version: String,
    pub date_modified: String,
}

/// Reply of the close-file-upload endpoint.
#[derive(Clone, Debug, PartialEq, Eq)]
pub enum OpendriveCloseFileUploadResponse {
    Success(OpendriveCloseFileUploadInfo),
    Fail(OpendriveDeserializeFail),
}

/// Successful reply of the create-file endpoint.
#[derive(Clone, Debug, PartialEq, Eq)]
pub struct OpendriveCreateFileInfo {
    pub file_id: String,
    pub file_name: String,
    pub size: String,
    pub temp_location: String,
}

/// Reply of the create-file endpoint.
#[derive(Clone, Debug, PartialEq, Eq)]
pub enum OpendriveCreateFileResponse {
    Success(OpendriveCreateFileInfo),
    Fail(OpendriveDeserializeFail),
}

} // verus!
