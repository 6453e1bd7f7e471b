//! The OpenDrive core: the decision and planning half of every backend
//! operation. Each method either computes a request plan from plain
//! values or evaluates a backend reply; sending the plan over the wire
//! belongs to the embedding runtime.
//!
//! The OAuth signer lives here too, as a state machine: it says whether
//! a URL can be signed with the token at hand or a grant must be
//! fetched first, and folds the grant reply back into its state.

use vstd::prelude::*;

use crate::accessor::AccessorInfo;
use crate::error::Error;
use crate::error::ErrorKind;
use crate::external::spec_timestamp_in_calendar;
use crate::external::timestamp_in_calendar;
use crate::error::parse_numeric_types_error;
use crate::metadata::EntryMode;
use crate::metadata::Metadata;
use crate::metadata::Entry;
use crate::model::OAuthGrantType;
use crate::model::OAuthTokenResponse;
use crate::model::OpendriveGetFileInfo;
use crate::model::OpendriveGetFolderInfo;
use crate::model::OpendriveGetListInfo;
use crate::ops::BytesRange;
use crate::ops::OpStat;
use crate::ops::OpWrite;
use crate::text::parse_i64;
use crate::text::parse_u64;
use crate::text::spec_is_signed_numeral;
use crate::text::spec_signed_value;
use crate::path::spec_abs_path;
use crate::path::spec_basename;
use crate::path::spec_parent;
use crate::path::spec_root_normalized;
use crate::path::spec_trim_slashes;
use crate::path::build_abs_path;
use crate::path::trim_leading_slashes;
use crate::path::get_basename;
use crate::path::get_parent;
use crate::text::format_u64;
use crate::text::push_query_pair;
use crate::text::spec_push_query_pair;
use crate::text::spec_all_digits;
use crate::text::spec_dec_value;

verus! {

/// The OpenDrive API base URL.
pub open spec fn spec_base_url() -> Seq<char> {
    "https://dev.opendrive.com/api/v1"@
}

/// The OpenDrive API base URL.
pub fn opendrive_base_url() -> (r: &'static str)
    ensures
        r@ == spec_base_url(),
{
    "https://dev.opendrive.com/api/v1"
}

/// The partner identifier sent with every grant request.
pub fn opendrive_client_id() -> (r: &'static str)
    ensures
        r@ == "opendrive"@,
{
    "opendrive"
}

/// The placeholder session identifier of the OAuth flow.
pub fn opendrive_session_id() -> (r: &'static str)
    ensures
        r@ == "OAUTH"@,
{
    "OAUTH"
}

/// The well-known folder identifier of the root folder.
pub fn opendrive_root_folder_id() -> (r: &'static str)
    ensures
        r@ == "0"@,
{
    "0"
}

/// The HTTP method of a planned request.
#[derive(Clone, Copy, Debug, PartialEq, Eq, Structural)]
pub enum HttpMethod {
    Get,
    Post,
}

/// One query pair to append to the signed URL.
#[derive(Clone, Debug, PartialEq, Eq)]
pub struct QueryPair {
    pub key: String,
    pub value: String,
}

/// The JSON body of a planned request, one variant per endpoint; the
/// embedding runtime serializes the fields under the wire names.
#[derive(Clone, Debug, PartialEq, Eq)]
pub enum OpendriveRequestBody {
    Empty,
    FolderIdByPath { path: String, session_id: String },
    FileIdByPath { path: String, session_id: String },
    CreateFolder { folder_name: String, folder_sub_parent: Option<String>, session_id: String },
    RenameFolder { session_id: String, folder_id: String, folder_name: String },
    RenameFile { session_id: String, file_id: String, new_file_name: String },
    MoveCopyFolder {
        session_id: String,
        folder_id: String,
        dst_folder_id: String,
        move_folder: bool,
        copy_recursive: bool,
        new_folder_name: String,
    },
    MoveCopyFile {
        session_id: String,
        src_file_id: String,
        dst_folder_id: String,
        move_file: bool,
        new_file_name: String,
    },
    TrashFolder { session_id: String, folder_id: String },
    TrashFile { session_id: String, file_id: String },
    RemoveTrashFolder { session_id: String, folder_id: String },
    RemoveTrashFile { session_id: String, file_id: String },
    CheckFileExists { session_id: String, name: String },
    CreateFile { session_id: String, folder_id: String, file_name: String, open_if_exists: bool },
    OpenFileUpload { session_id: String, file_id: String, file_size: u64 },
    CloseFileUpload {
        session_id: String,
        file_id: String,
        file_size: String,
        temp_location: Option<String>,
    },
}

/// A fully planned request: method, unsigned URL, query pairs to add
/// after signing, and the body.
#[derive(Clone, Debug, PartialEq, Eq)]
pub struct RequestPlan {
    pub method: HttpMethod,
    pub url: String,
    pub query: Vec<QueryPair>,
    pub body: OpendriveRequestBody,
}

/// What the signer says about a URL: ready to sign with the token at
/// hand, or a grant of the given type must be fetched first.
#[derive(Clone, Debug, PartialEq, Eq)]
pub enum SignStep {
    Ready(String),
    NeedGrant(OAuthGrantType),
}

/// The grant request the signer wants sent, as plain fields.
#[derive(Clone, Debug, PartialEq, Eq)]
pub struct OAuthGrantRequest {
    pub grant_type: OAuthGrantType,
    pub client_id: String,
    pub username: Option<String>,
    pub password: Option<String>,
    pub refresh_token: Option<String>,
}

/// The OAuth signer: resource-owner password credentials, with token
/// refresh. Times are Unix seconds.
pub struct OpendriveSigner {
    pub username: String,
    pub password: String,
    pub refresh_token: String,
    pub access_token: String,
    pub expires_at: i64,
    pub auth_http_client: reqwest::Client,
}

impl OpendriveSigner {
    /// A fresh signer holding credentials and no token yet.
    pub fn new(auth_http_client: reqwest::Client, username: &str, password: &str) -> (r:
        OpendriveSigner)
        ensures
            r.username@ == username@,
            r.password@ == password@,
            r.refresh_token@ == Seq::<char>::empty(),
            r.access_token@ == Seq::<char>::empty(),
            r.expires_at == i64::MIN,
    {
        OpendriveSigner {
            auth_http_client,
            username: username.to_owned(),
            password: password.to_owned(),
            refresh_token: String::new(),
            access_token: String::new(),
            expires_at: i64::MIN,
        }
    }

    /// Whether the token at hand still signs requests at the given time.
    pub open spec fn spec_token_fresh(&self, now: i64) -> bool {
        self.access_token@.len() > 0 && self.expires_at > now
    }

    /// Decide how to sign: with a fresh token the signed URL is ready;
    /// otherwise a password grant (no token yet) or a refresh grant
    /// (expired token) must be fetched first.
    pub fn sign_prepare(&self, url: &str, now: i64) -> (r: SignStep)
        ensures
            self.spec_token_fresh(now) ==> (r matches SignStep::Ready(u) && u@
                == spec_push_query_pair(url@, "access_token"@, self.access_token@)),
            !self.spec_token_fresh(now) && self.access_token@.len() == 0 ==> r
                == SignStep::NeedGrant(OAuthGrantType::Password),
            !self.spec_token_fresh(now) && self.access_token@.len() > 0 ==> r
                == SignStep::NeedGrant(OAuthGrantType::RefreshToken),
    {
        if self.access_token.as_str().unicode_len() > 0 && self.expires_at > now {
            SignStep::Ready(push_query_pair(url, "access_token", self.access_token.as_str()))
        } else if self.access_token.as_str().unicode_len() == 0 {
            SignStep::NeedGrant(OAuthGrantType::Password)
        } else {
            SignStep::NeedGrant(OAuthGrantType::RefreshToken)
        }
    }

    /// The grant request body for the chosen grant type: credentials
    /// for a password grant, the stored token for a refresh grant.
    pub fn grant_request(&self, grant: OAuthGrantType) -> (r: OAuthGrantRequest)
        ensures
            r.grant_type == grant,
            r.client_id@ == "opendrive"@,
            grant == OAuthGrantType::Password ==> (r.username matches Some(u) && u@
                == self.username@),
            grant == OAuthGrantType::Password ==> (r.password matches Some(p) && p@
                == self.password@),
            grant == OAuthGrantType::Password ==> r.refresh_token is None,
            grant == OAuthGrantType::RefreshToken ==> (r.refresh_token matches Some(t) && t@
                == self.refresh_token@),
            grant == OAuthGrantType::RefreshToken ==> r.username is None && r.password is None,
    {
        match grant {
            OAuthGrantType::Password => OAuthGrantRequest {
                grant_type: grant,
                client_id: opendrive_client_id().to_owned(),
                username: Some(self.username.clone()),
                password: Some(self.password.clone()),
                refresh_token: None,
            },
            OAuthGrantType::RefreshToken => OAuthGrantRequest {
                grant_type: grant,
                client_id: opendrive_client_id().to_owned(),
                username: None,
                password: None,
                refresh_token: Some(self.refresh_token.clone()),
            },
        }
    }

    /// Fold a grant reply into the signer. On success the tokens are
    /// replaced and the expiry becomes the grant's lifetime from now,
    /// less a two-minute transmission grace; a lifetime that overflows
    /// the clock is refused. Invalid credentials are `ConfigInvalid`.
    pub fn apply_grant(&mut self, resp: OAuthTokenResponse, now: i64) -> (r: Result<(), Error>)
        ensures
            ({
                match resp {
                    OAuthTokenResponse::Success(body) => {
                        if now + body.expires_in > i64::MAX || now + body.expires_in - 120
                            < i64::MIN {
                            r matches Err(e) && e.kind == ErrorKind::Unexpected
                                && *final(self) == *old(self)
                        } else {
                            r is Ok && final(self).access_token@ == body.access_token@
                                && final(self).refresh_token@ == body.refresh_token@
                                && final(self).expires_at == now + body.expires_in - 120
                                && final(self).username@ == old(self).username@
                                && final(self).password@ == old(self).password@
                        }
                    },
                    OAuthTokenResponse::Fail(f) => {
                        &&& *final(self) == *old(self)
                        &&& (if f.error.code == 401 {
                            r matches Err(e) && e.kind == ErrorKind::ConfigInvalid && e.message@
                                == "invalid credentials"@
                        } else {
                            r matches Err(e) && e.kind == ErrorKind::Unexpected && e.message@
                                == f.error.message@
                        })
                    },
                }
            }),
    {
        match resp {
            OAuthTokenResponse::Success(body) => {
                let expires = match now.checked_add(body.expires_in) {
                    Some(sum) => {
                        match sum.checked_sub(120) {
                            Some(at) => at,
                            None => {
                                return Err(
                                    Error::new(
                                        ErrorKind::Unexpected,
                                        "expires_in must be valid seconds".to_owned(),
                                    ),
                                );
                            },
                        }
                    },
                    None => {
                        return Err(
                            Error::new(
                                ErrorKind::Unexpected,
                                "expires_in must be valid seconds".to_owned(),
                            ),
                        );
                    },
                };
                self.access_token = body.access_token;
                self.refresh_token = body.refresh_token;
                self.expires_at = expires;
                Ok(())
            },
            OAuthTokenResponse::Fail(f) => {
                if f.error.code == 401 {
                    Err(Error::new(ErrorKind::ConfigInvalid, "invalid credentials".to_owned()))
                } else {
                    Err(Error::new(ErrorKind::Unexpected, f.error.message))
                }
            },
        }
    }

    /// The URL signed with the token at hand.
    pub fn signed_url(&self, url: &str) -> (r: String)
        ensures
            r@ == spec_push_query_pair(url@, "access_token"@, self.access_token@),
    {
        push_query_pair(url, "access_token", self.access_token.as_str())
    }
}

/// An endpoint URL under the API base.
fn api_url(suffix: &str) -> (r: String)
    ensures
        r@ == spec_base_url() + suffix@,
{
    let mut url = opendrive_base_url().to_owned();
    url.append(suffix);
    url
}

/// Either the well-known root folder identifier, or the request that
/// resolves a folder identifier by path.
#[derive(Clone, Debug, PartialEq, Eq)]
pub enum FolderIdStep {
    Root(String),
    Fetch(RequestPlan),
}

/// The computed half of an OpenDrive backend: holds the accessor
/// metadata, the normalized root and the signer, and plans every
/// request of the protocol.
pub struct OpendriveCore {
    pub info: AccessorInfo,
    pub root: String,
    pub signer: OpendriveSigner,
}

impl OpendriveCore {
    /// The root this core was built with, in normalized form.
    pub open spec fn spec_root_ok(&self) -> bool {
        spec_root_normalized(self.root@)
    }

    /// Resolve a folder identifier: the root has the well-known
    /// identifier, every other path is asked of the id-by-path endpoint.
    pub fn prepare_folder_id(&self, path: &str) -> (r: FolderIdStep)
        ensures
            path@ == "/"@ ==> (r matches FolderIdStep::Root(id) && id@ == "0"@),
            path@ != "/"@ ==> (r matches FolderIdStep::Fetch(plan) && plan.method
                == HttpMethod::Post && plan.url@ == spec_base_url() + "/folder/idbypath.json"@
                && plan.query@.len() == 0 && (plan.body matches
            OpendriveRequestBody::FolderIdByPath { path: p, session_id: sid } && p@ == path@
                && sid@ == "OAUTH"@)),
    {
        proof {
            reveal_strlit("/");
        }
        if path.unicode_len() == 1 && path.get_char(0) == '/' {
            proof {
                assert(path@ =~= "/"@);
            }
            FolderIdStep::Root(opendrive_root_folder_id().to_owned())
        } else {
            proof {
                if path@ == "/"@ {
                    assert(path@.len() == 1 && path@[0] == '/');
                }
            }
            FolderIdStep::Fetch(
                RequestPlan {
                    method: HttpMethod::Post,
                    url: api_url("/folder/idbypath.json"),
                    query: Vec::new(),
                    body: OpendriveRequestBody::FolderIdByPath {
                        path: path.to_owned(),
                        session_id: opendrive_session_id().to_owned(),
                    },
                },
            )
        }
    }

    /// Plan the folder-info request.
    pub fn folder_info_plan(&self, folder_id: &str) -> (r: RequestPlan)
        ensures
            r.method == HttpMethod::Get,
            r.url@ == spec_base_url() + "/folder/info.json/"@ + "OAUTH"@ + "/"@ + folder_id@,
            r.query@.len() == 0,
            r.body == OpendriveRequestBody::Empty,
    {
        let mut url = api_url("/folder/info.json/");
        url.append(opendrive_session_id());
        url.append("/");
        url.append(folder_id);
        RequestPlan {
            method: HttpMethod::Get,
            url,
            query: Vec::new(),
            body: OpendriveRequestBody::Empty,
        }
    }

    /// Plan the file-id-by-path request; the endpoint wants the path
    /// without its leading slashes.
    pub fn file_id_plan(&self, path: &str) -> (r: RequestPlan)
        ensures
            r.method == HttpMethod::Post,
            r.url@ == spec_base_url() + "/file/idbypath.json"@,
            r.query@.len() == 0,
            r.body matches OpendriveRequestBody::FileIdByPath { path: p, session_id: sid } && p@
                == crate::path::spec_trim_leading(path@) && sid@ == "OAUTH"@,
    {
        RequestPlan {
            method: HttpMethod::Post,
            url: api_url("/file/idbypath.json"),
            query: Vec::new(),
            body: OpendriveRequestBody::FileIdByPath {
                path: trim_leading_slashes(path),
                session_id: opendrive_session_id().to_owned(),
            },
        }
    }

    /// Plan the file-info request; the session rides as a query pair.
    pub fn file_info_plan(&self, file_id: &str) -> (r: RequestPlan)
        ensures
            r.method == HttpMethod::Get,
            r.url@ == spec_base_url() + "/file/info.json/"@ + file_id@,
            r.query@.len() == 1,
            r.query@[0].key@ == "session_id"@ && r.query@[0].value@ == "OAUTH"@,
            r.body == OpendriveRequestBody::Empty,
    {
        let mut url = api_url("/file/info.json/");
        url.append(file_id);
        let mut query: Vec<QueryPair> = Vec::new();
        query.push(
            QueryPair {
                key: "session_id".to_owned(),
                value: opendrive_session_id().to_owned(),
            },
        );
        RequestPlan { method: HttpMethod::Get, url, query, body: OpendriveRequestBody::Empty }
    }

    /// Plan the folder-creation request, under the given parent when
    /// one is known.
    pub fn create_folder_plan(&self, name: &str, parent_folder_id: Option<String>) -> (r:
        RequestPlan)
        ensures
            r.method == HttpMethod::Post,
            r.url@ == spec_base_url() + "/folder.json"@,
            r.query@.len() == 0,
            r.body matches OpendriveRequestBody::CreateFolder {
                folder_name,
                folder_sub_parent,
                session_id,
            } && folder_name@ == name@ && folder_sub_parent == parent_folder_id && session_id@
                == "OAUTH"@,
    {
        RequestPlan {
            method: HttpMethod::Post,
            url: api_url("/folder.json"),
            query: Vec::new(),
            body: OpendriveRequestBody::CreateFolder {
                folder_name: name.to_owned(),
                folder_sub_parent: parent_folder_id,
                session_id: opendrive_session_id().to_owned(),
            },
        }
    }

    /// Plan the folder-listing request.
    pub fn list_info_plan(&self, folder_id: &str) -> (r: RequestPlan)
        ensures
            r.method == HttpMethod::Get,
            r.url@ == spec_base_url() + "/folder/list.json/"@ + "OAUTH"@ + "/"@ + folder_id@,
            r.query@.len() == 0,
            r.body == OpendriveRequestBody::Empty,
    {
        let mut url = api_url("/folder/list.json/");
        url.append(opendrive_session_id());
        url.append("/");
        url.append(folder_id);
        RequestPlan {
            method: HttpMethod::Get,
            url,
            query: Vec::new(),
            body: OpendriveRequestBody::Empty,
        }
    }

    /// Plan the folder-rename request.
    pub fn rename_folder_plan(&self, folder_id: &str, folder_name: &str) -> (r: RequestPlan)
        ensures
            r.method == HttpMethod::Post,
            r.url@ == spec_base_url() + "/folder/rename.json"@,
            r.query@.len() == 0,
            r.body matches OpendriveRequestBody::RenameFolder {
                session_id,
                folder_id: fid,
                folder_name: fname,
            } && session_id@ == "OAUTH"@ && fid@ == folder_id@ && fname@ == folder_name@,
    {
        RequestPlan {
            method: HttpMethod::Post,
            url: api_url("/folder/rename.json"),
            query: Vec::new(),
            body: OpendriveRequestBody::RenameFolder {
                session_id: opendrive_session_id().to_owned(),
                folder_id: folder_id.to_owned(),
                folder_name: folder_name.to_owned(),
            },
        }
    }

    /// Plan the file-rename request.
    pub fn rename_file_plan(&self, file_id: &str, new_file_name: &str) -> (r: RequestPlan)
        ensures
            r.method == HttpMethod::Post,
            r.url@ == spec_base_url() + "/file/rename.json"@,
            r.query@.len() == 0,
            r.body matches OpendriveRequestBody::RenameFile {
                session_id,
                file_id: fid,
                new_file_name: fname,
            } && session_id@ == "OAUTH"@ && fid@ == file_id@ && fname@ == new_file_name@,
    {
        RequestPlan {
            method: HttpMethod::Post,
            url: api_url("/file/rename.json"),
            query: Vec::new(),
            body: OpendriveRequestBody::RenameFile {
                session_id: opendrive_session_id().to_owned(),
                file_id: file_id.to_owned(),
                new_file_name: new_file_name.to_owned(),
            },
        }
    }

    /// Plan the folder-copy request: never a move, always recursive.
    pub fn copy_folder_plan(&self, folder_id: &str, dst_folder_id: &str, new_folder_name: &str)
        -> (r: RequestPlan)
        ensures
            r.method == HttpMethod::Post,
            r.url@ == spec_base_url() + "/folder/move_copy.json"@,
            r.query@.len() == 0,
            r.body matches OpendriveRequestBody::MoveCopyFolder {
                session_id,
                folder_id: fid,
                dst_folder_id: dst,
                move_folder,
                copy_recursive,
                new_folder_name: fname,
            } && session_id@ == "OAUTH"@ && fid@ == folder_id@ && dst@ == dst_folder_id@
                && !move_folder && copy_recursive && fname@ == new_folder_name@,
    {
        RequestPlan {
            method: HttpMethod::Post,
            url: api_url("/folder/move_copy.json"),
            query: Vec::new(),
            body: OpendriveRequestBody::MoveCopyFolder {
                session_id: opendrive_session_id().to_owned(),
                folder_id: folder_id.to_owned(),
                dst_folder_id: dst_folder_id.to_owned(),
                move_folder: false,
                copy_recursive: true,
                new_folder_name: new_folder_name.to_owned(),
            },
        }
    }

    /// Plan the file-copy request: never a move.
    pub fn copy_file_plan(&self, src_file_id: &str, dst_folder_id: &str, new_file_name: &str)
        -> (r: RequestPlan)
        ensures
            r.method == HttpMethod::Post,
            r.url@ == spec_base_url() + "/file/move_copy.json"@,
            r.query@.len() == 0,
            r.body matches OpendriveRequestBody::MoveCopyFile {
                session_id,
                src_file_id: fid,
                dst_folder_id: dst,
                move_file,
                new_file_name: fname,
            } && session_id@ == "OAUTH"@ && fid@ == src_file_id@ && dst@ == dst_folder_id@
                && !move_file && fname@ == new_file_name@,
    {
        RequestPlan {
            method: HttpMethod::Post,
            url: api_url("/file/move_copy.json"),
            query: Vec::new(),
            body: OpendriveRequestBody::MoveCopyFile {
                session_id: opendrive_session_id().to_owned(),
                src_file_id: src_file_id.to_owned(),
                dst_folder_id: dst_folder_id.to_owned(),
                move_file: false,
                new_file_name: new_file_name.to_owned(),
            },
        }
    }

    /// Plan moving a folder to the trash.
    pub fn trash_folder_plan(&self, folder_id: &str) -> (r: RequestPlan)
        ensures
            r.method == HttpMethod::Post,
            r.url@ == spec_base_url() + "/folder/trash.json"@,
            r.query@.len() == 0,
            r.body matches OpendriveRequestBody::TrashFolder { session_id, folder_id: fid }
                && session_id@ == "OAUTH"@ && fid@ == folder_id@,
    {
        RequestPlan {
            method: HttpMethod::Post,
            url: api_url("/folder/trash.json"),
            query: Vec::new(),
            body: OpendriveRequestBody::TrashFolder {
                session_id: opendrive_session_id().to_owned(),
                folder_id: folder_id.to_owned(),
            },
        }
    }

    /// Plan moving a file to the trash.
    pub fn trash_file_plan(&self, file_id: &str) -> (r: RequestPlan)
        ensures
            r.method == HttpMethod::Post,
            r.url@ == spec_base_url() + "/file/trash.json"@,
            r.query@.len() == 0,
            r.body matches OpendriveRequestBody::TrashFile { session_id, file_id: fid }
                && session_id@ == "OAUTH"@ && fid@ == file_id@,
    {
        RequestPlan {
            method: HttpMethod::Post,
            url: api_url("/file/trash.json"),
            query: Vec::new(),
            body: OpendriveRequestBody::TrashFile {
                session_id: opendrive_session_id().to_owned(),
                file_id: file_id.to_owned(),
            },
        }
    }

    /// Plan removing a trashed folder for good.
    pub fn remove_trash_folder_plan(&self, folder_id: &str) -> (r: RequestPlan)
        ensures
            r.method == HttpMethod::Post,
            r.url@ == spec_base_url() + "/folder/remove.json"@,
            r.query@.len() == 0,
            r.body matches OpendriveRequestBody::RemoveTrashFolder { session_id, folder_id: fid }
                && session_id@ == "OAUTH"@ && fid@ == folder_id@,
    {
        RequestPlan {
            method: HttpMethod::Post,
            url: api_url("/folder/remove.json"),
            query: Vec::new(),
            body: OpendriveRequestBody::RemoveTrashFolder {
                session_id: opendrive_session_id().to_owned(),
                folder_id: folder_id.to_owned(),
            },
        }
    }

    /// Plan removing a trashed file for good.
    pub fn remove_trash_file_plan(&self, file_id: &str) -> (r: RequestPlan)
        ensures
            r.method == HttpMethod::Post,
            r.url@ == spec_base_url() + "/file/remove.json"@,
            r.query@.len() == 0,
            r.body matches OpendriveRequestBody::RemoveTrashFile { session_id, file_id: fid }
                && session_id@ == "OAUTH"@ && fid@ == file_id@,
    {
        RequestPlan {
            method: HttpMethod::Post,
            url: api_url("/file/remove.json"),
            query: Vec::new(),
            body: OpendriveRequestBody::RemoveTrashFile {
                session_id: opendrive_session_id().to_owned(),
                file_id: file_id.to_owned(),
            },
        }
    }

    /// Plan the file-existence probe inside the given folder.
    pub fn check_exists_plan(&self, folder_id: &str, file_name: &str) -> (r: RequestPlan)
        ensures
            r.method == HttpMethod::Post,
            r.url@ == spec_base_url() + "/upload/checkfileexistsbyname.json/"@ + folder_id@,
            r.query@.len() == 0,
            r.body matches OpendriveRequestBody::CheckFileExists { session_id, name }
                && session_id@ == "OAUTH"@ && name@ == file_name@,
    {
        let mut url = api_url("/upload/checkfileexistsbyname.json/");
        url.append(folder_id);
        RequestPlan {
            method: HttpMethod::Post,
            url,
            query: Vec::new(),
            body: OpendriveRequestBody::CheckFileExists {
                session_id: opendrive_session_id().to_owned(),
                name: file_name.to_owned(),
            },
        }
    }

    /// Plan the create-file request; an existing file is opened rather
    /// than reported as a conflict.
    pub fn create_file_plan(&self, folder_id: &str, file_name: &str) -> (r: RequestPlan)
        ensures
            r.method == HttpMethod::Post,
            r.url@ == spec_base_url() + "/upload/create_file.json"@,
            r.query@.len() == 0,
            r.body matches OpendriveRequestBody::CreateFile {
                session_id,
                folder_id: fid,
                file_name: fname,
                open_if_exists,
            } && session_id@ == "OAUTH"@ && fid@ == folder_id@ && fname@ == file_name@
                && open_if_exists,
    {
        RequestPlan {
            method: HttpMethod::Post,
            url: api_url("/upload/create_file.json"),
            query: Vec::new(),
            body: OpendriveRequestBody::CreateFile {
                session_id: opendrive_session_id().to_owned(),
                folder_id: folder_id.to_owned(),
                file_name: file_name.to_owned(),
                open_if_exists: true,
            },
        }
    }

    /// Plan the open-file-upload request for the coming size.
    pub fn open_upload_plan(&self, file_id: &str, file_size: u64) -> (r: RequestPlan)
        ensures
            r.method == HttpMethod::Post,
            r.url@ == spec_base_url() + "/upload/open_file_upload.json"@,
            r.query@.len() == 0,
            r.body matches OpendriveRequestBody::OpenFileUpload {
                session_id,
                file_id: fid,
                file_size: fsize,
            } && session_id@ == "OAUTH"@ && fid@ == file_id@ && fsize == file_size,
    {
        RequestPlan {
            method: HttpMethod::Post,
            url: api_url("/upload/open_file_upload.json"),
            query: Vec::new(),
            body: OpendriveRequestBody::OpenFileUpload {
                session_id: opendrive_session_id().to_owned(),
                file_id: file_id.to_owned(),
                file_size,
            },
        }
    }

    /// Plan the close-file-upload request; the endpoint wants the size
    /// as decimal text.
    pub fn close_upload_plan(&self, file_id: &str, file_size: u64, temp_location: Option<String>)
        -> (r: RequestPlan)
        ensures
            r.method == HttpMethod::Post,
            r.url@ == spec_base_url() + "/upload/close_file_upload.json"@,
            r.query@.len() == 0,
            r.body matches OpendriveRequestBody::CloseFileUpload {
                session_id,
                file_id: fid,
                file_size: fsize,
                temp_location: tl,
            } && session_id@ == "OAUTH"@ && fid@ == file_id@ && spec_all_digits(fsize@)
                && spec_dec_value(fsize@) == file_size && tl == temp_location,
    {
        RequestPlan {
            method: HttpMethod::Post,
            url: api_url("/upload/close_file_upload.json"),
            query: Vec::new(),
            body: OpendriveRequestBody::CloseFileUpload {
                session_id: opendrive_session_id().to_owned(),
                file_id: file_id.to_owned(),
                file_size: format_u64(file_size),
                temp_location,
            },
        }
    }

    /// Plan a chunk upload against an open upload session; offsets and
    /// sizes travel as decimal text form fields.
    pub fn upload_chunk_plan(
        &self,
        file_id: &str,
        file_name: &str,
        temp_location: &str,
        offset: u64,
        chunk_len: u64,
    ) -> (r: ChunkUploadPlan)
        ensures
            r.url@ == spec_base_url() + "/upload/upload_file_chunk.json"@,
            r.session_id@ == "OAUTH"@,
            r.file_id@ == file_id@,
            r.temp_location@ == temp_location@,
            spec_all_digits(r.chunk_offset@) && spec_dec_value(r.chunk_offset@) == offset,
            spec_all_digits(r.chunk_size@) && spec_dec_value(r.chunk_size@) == chunk_len,
            r.file_name@ == file_name@,
    {
        ChunkUploadPlan {
            url: api_url("/upload/upload_file_chunk.json"),
            session_id: opendrive_session_id().to_owned(),
            file_id: file_id.to_owned(),
            temp_location: temp_location.to_owned(),
            chunk_offset: format_u64(offset),
            chunk_size: format_u64(chunk_len),
            file_name: file_name.to_owned(),
        }
    }

    /// Plan a whole-file chunk upload through the session-addressed
    /// endpoint.
    pub fn upload_chunk_second_plan(&self, file_id: &str, file_name: &str) -> (r:
        ChunkUploadSecondPlan)
        ensures
            r.url@ == spec_base_url() + "/upload/upload_file_chunk2.json/"@ + "OAUTH"@ + "/"@
                + file_id@,
            r.file_name@ == file_name@,
    {
        let mut url = api_url("/upload/upload_file_chunk2.json/");
        url.append(opendrive_session_id());
        url.append("/");
        url.append(file_id);
        ChunkUploadSecondPlan { url, file_name: file_name.to_owned() }
    }

    /// Assemble the file info a finished upload reports: the known id
    /// and name joined with what the close reply carried, the size back
    /// as decimal text.
    pub fn file_info_from_close(
        &self,
        file_id: &str,
        file_name: &str,
        close: &crate::model::OpendriveCloseFileUploadInfo,
    ) -> (r: OpendriveGetFileInfo)
        ensures
            r.file_id@ == file_id@,
            r.name@ == file_name@,
            spec_all_digits(r.size@) && spec_dec_value(r.size@) == close.size,
            r.size@.len() > 0,
            r.version@ == close.version@,
            r.date_modified@ == close.date_modified@,
    {
        OpendriveGetFileInfo {
            file_id: file_id.to_owned(),
            name: file_name.to_owned(),
            size: format_u64(close.size),
            version: close.version.clone(),
            date_modified: close.date_modified.clone(),
        }
    }

    /// Resolve the folder to list: the root itself has the well-known
    /// identifier, everything else is looked up by its absolute path.
    pub fn prepare_list_folder_id(&self, abs_path: &str) -> (r: FolderIdStep)
        ensures
            abs_path@ == self.root@ ==> (r matches FolderIdStep::Root(id) && id@ == "0"@),
            abs_path@ != self.root@ ==> (r matches FolderIdStep::Fetch(plan) && plan.method
                == HttpMethod::Post && plan.url@ == spec_base_url() + "/folder/idbypath.json"@
                && plan.query@.len() == 0 && (plan.body matches
            OpendriveRequestBody::FolderIdByPath { path: p, session_id: sid } && p@ == abs_path@
                && sid@ == "OAUTH"@)),
    {
        if abs_path.to_owned().eq(&self.root) {
            FolderIdStep::Root(opendrive_root_folder_id().to_owned())
        } else {
            FolderIdStep::Fetch(
                RequestPlan {
                    method: HttpMethod::Post,
                    url: api_url("/folder/idbypath.json"),
                    query: Vec::new(),
                    body: OpendriveRequestBody::FolderIdByPath {
                        path: abs_path.to_owned(),
                        session_id: opendrive_session_id().to_owned(),
                    },
                },
            )
        }
    }

    /// Decide the descent into one queued folder of a recursive walk:
    /// a fetched folder is always descended into — its children may
    /// hold files even when it counts no child folders — and a failed
    /// fetch surfaces as its error. Every queued folder is thus either
    /// absorbed or reported, never skipped and never swallowed.
    pub fn descend_decide(&self, fetched: Result<OpendriveGetFolderInfo, Error>) -> (r: Result<
        String,
        Error,
    >)
        ensures
            fetched matches Ok(info) ==> (r matches Ok(id) && id@ == info.folder_id@),
            fetched matches Err(e) ==> (r matches Err(e2) && e2 == e),
    {
        match fetched {
            Ok(info) => Ok(info.folder_id),
            Err(e) => Err(e),
        }
    }

    /// Read a last-modified field: decimal Unix seconds that chrono's
    /// calendar can hold. A non-numeral is `Unexpected`, a timestamp
    /// outside the calendar `Unsupported`.
    pub fn parse_modified_timestamp(&self, date_modified: &str) -> (r: Result<i64, Error>)
        ensures
            ({
                let v = spec_signed_value(date_modified@);
                let numeral_ok = spec_is_signed_numeral(date_modified@) && -i64::MAX <= v
                    <= i64::MAX;
                if !numeral_ok {
                    r matches Err(e) && e.kind == ErrorKind::Unexpected
                } else if !spec_timestamp_in_calendar(v as i64) {
                    r matches Err(e) && e.kind == ErrorKind::Unsupported
                } else {
                    r matches Ok(ts) && ts == v
                }
            }),
    {
        match parse_i64(date_modified) {
            Some(ts) => {
                if timestamp_in_calendar(ts) {
                    Ok(ts)
                } else {
                    Err(Error::new(ErrorKind::Unsupported, "invalid since format".to_owned()))
                }
            },
            None => Err(parse_numeric_types_error(date_modified)),
        }
    }

    /// Fold a file-info reply into metadata: mode file, the file id as
    /// etag, the parsed timestamp and content length.
    pub fn parse_file_metadata(&self, file: &OpendriveGetFileInfo) -> (r: Result<Metadata, Error>)
        ensures
            ({
                let v = spec_signed_value(file.date_modified@);
                let numeral_ok = spec_is_signed_numeral(file.date_modified@) && -i64::MAX <= v
                    <= i64::MAX;
                let szv = spec_dec_value(file.size@);
                let size_ok = file.size@.len() > 0 && spec_all_digits(file.size@) && szv
                    <= u64::MAX;
                if !numeral_ok {
                    r matches Err(e) && e.kind == ErrorKind::Unexpected
                } else if !spec_timestamp_in_calendar(v as i64) {
                    r matches Err(e) && e.kind == ErrorKind::Unsupported
                } else if !size_ok {
                    r matches Err(e) && e.kind == ErrorKind::Unexpected
                } else {
                    r matches Ok(m) && m.mode == EntryMode::File && m.last_modified == Some(
                        v as i64,
                    ) && (m.version matches Some(ver) && ver@ == file.version@) && (
                    m.etag matches Some(t) && t@ == file.file_id@) && m.content_length == Some(
                        szv as u64,
                    )
                }
            }),
    {
        let last_modified = match self.parse_modified_timestamp(file.date_modified.as_str()) {
            Ok(ts) => ts,
            Err(e) => {
                return Err(e);
            },
        };
        let size = match parse_u64(file.size.as_str()) {
            Some(size) => size,
            None => {
                return Err(parse_numeric_types_error(file.size.as_str()));
            },
        };
        Ok(
            Metadata::new(EntryMode::File).with_last_modified(last_modified).with_version(
                file.version.clone(),
            ).with_etag(file.file_id.clone()).with_content_length(size),
        )
    }

    /// Fold a folder-info reply into metadata: mode directory, the
    /// folder id as etag, the parsed timestamp.
    pub fn parse_folder_metadata(&self, folder: &OpendriveGetFolderInfo) -> (r: Result<
        Metadata,
        Error,
    >)
        ensures
            ({
                let v = spec_signed_value(folder.date_modified@);
                let numeral_ok = spec_is_signed_numeral(folder.date_modified@) && -i64::MAX <= v
                    <= i64::MAX;
                if !numeral_ok {
                    r matches Err(e) && e.kind == ErrorKind::Unexpected
                } else if !spec_timestamp_in_calendar(v as i64) {
                    r matches Err(e) && e.kind == ErrorKind::Unsupported
                } else {
                    r matches Ok(m) && m.mode == EntryMode::Dir && m.last_modified == Some(
                        v as i64,
                    ) && (m.etag matches Some(t) && t@ == folder.folder_id@) && m.version is None
                        && m.content_length is None
                }
            }),
    {
        let last_modified = match self.parse_modified_timestamp(folder.date_modified.as_str()) {
            Ok(ts) => ts,
            Err(e) => {
                return Err(e);
            },
        };
        Ok(
            Metadata::new(EntryMode::Dir).with_last_modified(last_modified).with_etag(
                folder.folder_id.clone(),
            ),
        )
    }

    /// Evaluate a folder stat against the fetched info: the conditional
    /// predicates in declared order, then the metadata. A failing
    /// predicate is always `ConditionNotMatch`.
    pub fn stat_eval_folder(&self, folder_id: &str, info: &OpendriveGetFolderInfo, args: &Option<
        OpStat,
    >) -> (r: Result<Metadata, Error>)
        ensures
            ({
                let v = spec_signed_value(info.date_modified@);
                let numeral_ok = spec_is_signed_numeral(info.date_modified@) && -i64::MAX <= v
                    <= i64::MAX;
                if !numeral_ok {
                    r matches Err(e) && e.kind == ErrorKind::Unexpected
                } else if !spec_timestamp_in_calendar(v as i64) {
                    r matches Err(e) && e.kind == ErrorKind::Unsupported
                } else if (args matches Some(a) && a.if_match matches Some(im) && im@
                    != folder_id@) {
                    r matches Err(e) && e.kind == ErrorKind::ConditionNotMatch
                } else if (args matches Some(a) && a.if_none_match matches Some(inm) && inm@
                    == folder_id@) {
                    r matches Err(e) && e.kind == ErrorKind::ConditionNotMatch
                } else if (args matches Some(a) && a.if_modified_since matches Some(ms) && !(v
                    > ms)) {
                    r matches Err(e) && e.kind == ErrorKind::ConditionNotMatch
                } else if (args matches Some(a) && a.if_unmodified_since matches Some(us) && !(v
                    <= us)) {
                    r matches Err(e) && e.kind == ErrorKind::ConditionNotMatch
                } else {
                    r matches Ok(m) && m.mode == EntryMode::Dir && m.last_modified == Some(
                        v as i64,
                    ) && (m.etag matches Some(t) && t@ == info.folder_id@)
                }
            }),
    {
        let last_modified = match self.parse_modified_timestamp(info.date_modified.as_str()) {
            Ok(ts) => ts,
            Err(e) => {
                return Err(e);
            },
        };
        if let Some(a) = args {
            if let Some(im) = &a.if_match {
                if !im.eq(&folder_id.to_owned()) {
                    return Err(
                        Error::new(
                            ErrorKind::ConditionNotMatch,
                            "doesn't match the condition if_match".to_owned(),
                        ),
                    );
                }
            }
            if let Some(inm) = &a.if_none_match {
                if inm.eq(&folder_id.to_owned()) {
                    return Err(
                        Error::new(
                            ErrorKind::ConditionNotMatch,
                            "doesn't match the condition if_none_match".to_owned(),
                        ),
                    );
                }
            }
            if let Some(ms) = &a.if_modified_since {
                if !(last_modified > *ms) {
                    return Err(
                        Error::new(
                            ErrorKind::ConditionNotMatch,
                            "doesn't match the condition if_modified_since".to_owned(),
                        ),
                    );
                }
            }
            if let Some(us) = &a.if_unmodified_since {
                if !(last_modified <= *us) {
                    return Err(
                        Error::new(
                            ErrorKind::ConditionNotMatch,
                            "doesn't match the condition if_unmodified_since".to_owned(),
                        ),
                    );
                }
            }
        }
        self.parse_folder_metadata(info)
    }

    /// Evaluate a file stat against the fetched info: the conditional
    /// predicates in declared order, version last, then the metadata.
    pub fn stat_eval_file(&self, file_id: &str, info: &OpendriveGetFileInfo, args: &Option<
        OpStat,
    >) -> (r: Result<Metadata, Error>)
        ensures
            ({
                let v = spec_signed_value(info.date_modified@);
                let numeral_ok = spec_is_signed_numeral(info.date_modified@) && -i64::MAX <= v
                    <= i64::MAX;
                let szv = spec_dec_value(info.size@);
                let size_ok = info.size@.len() > 0 && spec_all_digits(info.size@) && szv
                    <= u64::MAX;
                if !numeral_ok {
                    r matches Err(e) && e.kind == ErrorKind::Unexpected
                } else if !spec_timestamp_in_calendar(v as i64) {
                    r matches Err(e) && e.kind == ErrorKind::Unsupported
                } else if (args matches Some(a) && a.if_match matches Some(im) && im@
                    != file_id@) {
                    r matches Err(e) && e.kind == ErrorKind::ConditionNotMatch
                } else if (args matches Some(a) && a.if_none_match matches Some(inm) && inm@
                    == file_id@) {
                    r matches Err(e) && e.kind == ErrorKind::ConditionNotMatch
                } else if (args matches Some(a) && a.if_modified_since matches Some(ms) && !(v
                    > ms)) {
                    r matches Err(e) && e.kind == ErrorKind::ConditionNotMatch
                } else if (args matches Some(a) && a.if_unmodified_since matches Some(us) && !(v
                    <= us)) {
                    r matches Err(e) && e.kind == ErrorKind::ConditionNotMatch
                } else if (args matches Some(a) && a.version matches Some(ver) && ver@
                    != info.version@) {
                    r matches Err(e) && e.kind == ErrorKind::ConditionNotMatch
                } else if !size_ok {
                    r matches Err(e) && e.kind == ErrorKind::Unexpected
                } else {
                    r matches Ok(m) && m.mode == EntryMode::File && m.last_modified == Some(
                        v as i64,
                    ) && (m.etag matches Some(t) && t@ == info.file_id@) && (m.version matches
                    Some(mv) && mv@ == info.version@) && m.content_length == Some(szv as u64)
                }
            }),
    {
        let last_modified = match self.parse_modified_timestamp(info.date_modified.as_str()) {
            Ok(ts) => ts,
            Err(e) => {
                return Err(e);
            },
        };
        if let Some(a) = args {
            if let Some(im) = &a.if_match {
                if !im.eq(&file_id.to_owned()) {
                    return Err(
                        Error::new(
                            ErrorKind::ConditionNotMatch,
                            "doesn't match the condition if_match".to_owned(),
                        ),
                    );
                }
            }
            if let Some(inm) = &a.if_none_match {
                if inm.eq(&file_id.to_owned()) {
                    return Err(
                        Error::new(
                            ErrorKind::ConditionNotMatch,
                            "doesn't match the condition if_none_match".to_owned(),
                        ),
                    );
                }
            }
            if let Some(ms) = &a.if_modified_since {
                if !(last_modified > *ms) {
                    return Err(
                        Error::new(
                            ErrorKind::ConditionNotMatch,
                            "doesn't match the condition if_modified_since".to_owned(),
                        ),
                    );
                }
            }
            if let Some(us) = &a.if_unmodified_since {
                if !(last_modified <= *us) {
                    return Err(
                        Error::new(
                            ErrorKind::ConditionNotMatch,
                            "doesn't match the condition if_unmodified_since".to_owned(),
                        ),
                    );
                }
            }
            if let Some(ver) = &a.version {
                if !ver.eq(&info.version) {
                    return Err(
                        Error::new(
                            ErrorKind::ConditionNotMatch,
                            "doesn't match the condition version".to_owned(),
                        ),
                    );
                }
            }
        }
        self.parse_file_metadata(info)
    }

    /// After a folder probe failed, stat falls back to probing a file
    /// exactly when the folder was missing.
    pub fn stat_try_file_on(&self, err: &Error) -> (r: bool)
        ensures
            r == (err.kind == ErrorKind::NotFound),
    {
        match err.kind {
            ErrorKind::NotFound => true,
            _ => false,
        }
    }

    /// Join a relative path against this backend's root.
    pub fn abs_path(&self, rel: &str) -> (r: String)
        requires
            self.spec_root_ok(),
        ensures
            r@ == spec_abs_path(self.root@, rel@),
    {
        build_abs_path(self.root.as_str(), rel)
    }

    /// Resolve a folder rename: both paths joined against the root, the
    /// root itself never renamed, and the target's base name extracted.
    pub fn rename_folder_precheck(&self, from: &str, to: &str) -> (r: Result<RenamePre, Error>)
        requires
            self.spec_root_ok(),
        ensures
            ({
                let af = spec_abs_path(self.root@, from@);
                let at = spec_abs_path(self.root@, to@);
                if af == self.root@ || at == self.root@ {
                    r matches Err(e) && e.kind == ErrorKind::Unsupported && e.message@
                        == "renaming root directory is not supported"@
                } else {
                    r matches Ok(p) && p.abs_from@ == af && p.new_name@ == spec_basename(at)
                }
            }),
    {
        let abs_from = build_abs_path(self.root.as_str(), from);
        let abs_to = build_abs_path(self.root.as_str(), to);
        if abs_from.eq(&self.root) || abs_to.eq(&self.root) {
            return Err(
                Error::new(
                    ErrorKind::Unsupported,
                    "renaming root directory is not supported".to_owned(),
                ),
            );
        }
        let new_name = get_basename(abs_to.as_str());
        Ok(RenamePre { abs_from, new_name })
    }

    /// Resolve a file rename: both paths joined against the root and
    /// the target's base name extracted.
    pub fn rename_file_precheck(&self, from: &str, to: &str) -> (r: RenamePre)
        requires
            self.spec_root_ok(),
        ensures
            r.abs_from@ == spec_abs_path(self.root@, from@),
            r.new_name@ == spec_basename(spec_abs_path(self.root@, to@)),
    {
        let abs_from = build_abs_path(self.root.as_str(), from);
        let abs_to = build_abs_path(self.root.as_str(), to);
        let new_name = get_basename(abs_to.as_str());
        RenamePre { abs_from, new_name }
    }

    /// Resolve a copy: both paths joined against the root, the target
    /// split into its parent folder and its new name.
    pub fn copy_precheck(&self, from: &str, to: &str) -> (r: CopyPre)
        requires
            self.spec_root_ok(),
        ensures
            r.abs_from@ == spec_abs_path(self.root@, from@),
            r.dst_parent@ == spec_parent(spec_abs_path(self.root@, to@)),
            r.new_name@ == spec_basename(spec_abs_path(self.root@, to@)),
    {
        let abs_from = build_abs_path(self.root.as_str(), from);
        let abs_to = build_abs_path(self.root.as_str(), to);
        let dst_parent = get_parent(abs_to.as_str());
        let new_name = get_basename(abs_to.as_str());
        CopyPre { abs_from, dst_parent, new_name }
    }

    /// Resolve the existence probe: the path joined against the root
    /// and split into its parent folder and the probed file name.
    pub fn check_exists_precheck(&self, path: &str) -> (r: TargetPre)
        requires
            self.spec_root_ok(),
        ensures
            r.parent@ == spec_parent(spec_abs_path(self.root@, path@)),
            r.file_name@ == spec_basename(spec_abs_path(self.root@, path@)),
    {
        let abs = build_abs_path(self.root.as_str(), path);
        let parent = get_parent(abs.as_str());
        let file_name = get_basename(abs.as_str());
        TargetPre { parent, file_name }
    }

    /// Split an absolute path into the parent folder to create the
    /// file in and the file's name.
    pub fn create_file_precheck(&self, path: &str) -> (r: TargetPre)
        ensures
            r.parent@ == spec_parent(path@),
            r.file_name@ == spec_basename(path@),
    {
        let parent = get_parent(path);
        let file_name = get_basename(path);
        TargetPre { parent, file_name }
    }

    /// Where an object's identifier comes from: its metadata's etag
    /// when present, else a lookup of the fitting kind.
    pub fn id_source_from_metadata(&self, metadata: &Metadata) -> (r: IdSource)
        ensures
            metadata.etag matches Some(t) ==> (r matches IdSource::Known(id) && id@ == t@),
            metadata.etag is None && metadata.mode == EntryMode::File ==> r
                == IdSource::LookupFile,
            metadata.etag is None && metadata.mode == EntryMode::Dir ==> r
                == IdSource::LookupFolder,
    {
        match &metadata.etag {
            Some(t) => IdSource::Known(t.clone()),
            None => {
                if metadata.is_file() {
                    IdSource::LookupFile
                } else {
                    IdSource::LookupFolder
                }
            },
        }
    }

    /// A read needs a file: a directory is refused before any request.
    pub fn read_precheck(&self, metadata: &Metadata) -> (r: Result<(), Error>)
        ensures
            metadata.mode == EntryMode::Dir ==> (r matches Err(e) && e.kind
                == ErrorKind::IsADirectory && e.message@ == "path should be a file"@),
            metadata.mode == EntryMode::File ==> r is Ok,
    {
        if metadata.is_dir() {
            Err(Error::new(ErrorKind::IsADirectory, "path should be a file".to_owned()))
        } else {
            Ok(())
        }
    }

    /// Plan the ranged download of a file. The range header parts come
    /// out as decimal text; a bounded range with a representable last
    /// byte gets an end bound, everything else reads open-ended and is
    /// cut to length afterwards.
    pub fn read_plan(&self, file_id: &str, range: BytesRange) -> (r: ReadPlan)
        ensures
            r.url@ == spec_base_url() + "/download/file.json/"@ + file_id@,
            r.query@.len() == 2,
            r.query@[0].key@ == "session_id"@ && r.query@[0].value@ == "OAUTH"@,
            r.query@[1].key@ == "offset"@,
            spec_all_digits(r.query@[1].value@) && spec_dec_value(r.query@[1].value@)
                == range.offset,
            spec_all_digits(r.range_start@) && spec_dec_value(r.range_start@) == range.offset,
            ({
                match range.size {
                    Some(n) => {
                        if n > 0 && range.offset + n - 1 <= u64::MAX {
                            r.range_end matches Some(end) && spec_all_digits(end@)
                                && spec_dec_value(end@) == range.offset + n - 1
                        } else {
                            r.range_end is None
                        }
                    },
                    None => r.range_end is None,
                }
            }),
    {
        let mut url = api_url("/download/file.json/");
        url.append(file_id);
        let mut query: Vec<QueryPair> = Vec::new();
        query.push(
            QueryPair { key: "session_id".to_owned(), value: opendrive_session_id().to_owned() },
        );
        query.push(QueryPair { key: "offset".to_owned(), value: format_u64(range.offset) });
        let range_start = format_u64(range.offset);
        let range_end = match range.size {
            Some(n) => {
                if n > 0 {
                    match range.offset.checked_add(n - 1) {
                        Some(end) => Some(format_u64(end)),
                        None => None,
                    }
                } else {
                    None
                }
            },
            None => None,
        };
        ReadPlan { url, query, range_start, range_end }
    }

    /// Cut a downloaded body to the requested range length, even when
    /// the transport returned more.
    pub fn clamp_body(&self, body: Vec<u8>, size: Option<u64>) -> (r: Vec<u8>)
        ensures
            size is None ==> r@ == body@,
            size matches Some(n) ==> r@ == body@.take(if body@.len() <= n {
                body@.len() as int
            } else {
                n as int
            }),
    {
        let mut body = body;
        match size {
            Some(n) => {
                let len64: u64 = body.len() as u64;
                if n < len64 {
                    body.truncate(n as usize);
                    proof {
                        assert(body@ =~= body@.take(n as int));
                    }
                } else {
                    proof {
                        assert(body@ =~= body@.take(body@.len() as int));
                    }
                }
                body
            },
            None => body,
        }
    }

    /// A version-conditioned delete must match the object's current
    /// version; a mismatch is `ConditionNotMatch`, never a silent no-op.
    pub fn delete_precheck(&self, metadata: &Metadata, version: &Option<String>) -> (r: Result<
        (),
        Error,
    >)
        ensures
            ({
                match version {
                    Some(v) => {
                        if metadata.version matches Some(mv) && mv@ == v@ {
                            r is Ok
                        } else {
                            r matches Err(e) && e.kind == ErrorKind::ConditionNotMatch
                                && e.message@ == "version mismatch"@
                        }
                    },
                    None => r is Ok,
                }
            }),
    {
        if let Some(v) = version {
            let matches_version = match &metadata.version {
                Some(mv) => mv.eq(v),
                None => false,
            };
            if !matches_version {
                return Err(Error::new(ErrorKind::ConditionNotMatch, "version mismatch".to_owned()));
            }
        }
        Ok(())
    }

    /// Decide whether a write may proceed: an existing file blocks a
    /// write that demanded a fresh object, and a directory at the path
    /// (probed only when no file exists) cannot be written at all.
    pub fn write_prepare_decide(&self, file_exists: bool, folder_exists: bool, op: &OpWrite)
        -> (r: Result<(), Error>)
        ensures
            file_exists && op.if_not_exists ==> (r matches Err(e) && e.kind
                == ErrorKind::AlreadyExists && e.message@ == "file already exists"@),
            file_exists && !op.if_not_exists ==> r is Ok,
            !file_exists && folder_exists ==> (r matches Err(e) && e.kind
                == ErrorKind::IsADirectory && e.message@
                == "directory does not support write operations"@),
            !file_exists && !folder_exists ==> r is Ok,
    {
        if file_exists {
            if op.if_not_exists {
                return Err(Error::new(ErrorKind::AlreadyExists, "file already exists".to_owned()));
            }
        } else {
            if folder_exists {
                return Err(
                    Error::new(
                        ErrorKind::IsADirectory,
                        "directory does not support write operations".to_owned(),
                    ),
                );
            }
        }
        Ok(())
    }

    /// Turn one folder listing into entries: every file and sub-folder
    /// of the listed parent, paths joined against the normalized
    /// parent, files and folders apart. Success is owed exactly when
    /// every reply row's numeric fields parse; the first failing row
    /// fails as its parse does.
    pub fn assemble_list_entries(&self, parent: &str, info: &OpendriveGetListInfo) -> (r: Result<
        (Vec<Entry>, Vec<Entry>),
        Error,
    >)
        ensures
            r is Ok <==> (forall|k: int|
                0 <= k < info.files@.len() ==> spec_file_info_parses(#[trigger] info.files@[k]))
                && (forall|k: int|
                0 <= k < info.folders@.len() ==> spec_folder_info_parses(
                    #[trigger] info.folders@[k],
                )),
            r matches Ok(pair) ==> ({
                let p = seq!['/'] + spec_trim_slashes(parent@);
                &&& pair.0@.len() == info.files@.len()
                &&& pair.1@.len() == info.folders@.len()
                &&& (forall|k: int|
                    0 <= k < info.files@.len() ==> {
                        let f = info.files@[k];
                        let e = #[trigger] pair.0@[k];
                        &&& e.path@ == spec_abs_path(p, f.name@)
                        &&& e.metadata.mode == EntryMode::File
                        &&& (e.metadata.etag matches Some(t) && t@ == f.file_id@)
                        &&& e.metadata.last_modified == Some(
                            spec_signed_value(f.date_modified@) as i64,
                        )
                        &&& e.metadata.content_length == Some(spec_dec_value(f.size@) as u64)
                    })
                &&& (forall|k: int|
                    0 <= k < info.folders@.len() ==> {
                        let f = info.folders@[k];
                        let e = #[trigger] pair.1@[k];
                        &&& e.path@ == spec_abs_path(p, f.name@)
                        &&& e.metadata.mode == EntryMode::Dir
                        &&& (e.metadata.etag matches Some(t) && t@ == f.folder_id@)
                        &&& e.metadata.last_modified == Some(
                            spec_signed_value(f.date_modified@) as i64,
                        )
                    })
            }),
            r matches Err(e) ==> e.kind == ErrorKind::Unexpected || e.kind
                == ErrorKind::Unsupported,
    {
        let parent_norm = crate::path::normalize_root(parent);
        let mut files: Vec<Entry> = Vec::new();
        let mut folders: Vec<Entry> = Vec::new();
        let mut i: usize = 0;
        while i < info.files.len()
            invariant
                i <= info.files@.len(),
                parent_norm@ == seq!['/'] + spec_trim_slashes(parent@),
                spec_root_normalized(parent_norm@),
                files@.len() == i,
                forall|k: int|
                    0 <= k < i ==> spec_file_info_parses(#[trigger] info.files@[k]),
                forall|k: int|
                    0 <= k < i ==> {
                        let f = info.files@[k];
                        let e = #[trigger] files@[k];
                        &&& e.path@ == spec_abs_path(parent_norm@, f.name@)
                        &&& e.metadata.mode == EntryMode::File
                        &&& (e.metadata.etag matches Some(t) && t@ == f.file_id@)
                        &&& e.metadata.last_modified == Some(
                            spec_signed_value(f.date_modified@) as i64,
                        )
                        &&& e.metadata.content_length == Some(spec_dec_value(f.size@) as u64)
                    },
            decreases info.files@.len() - i,
        {
            let f = &info.files[i];
            let metadata = match self.parse_file_metadata(f) {
                Ok(m) => m,
                Err(e) => {
                    proof {
                        assert(!spec_file_info_parses(info.files@[i as int]));
                    }
                    return Err(e);
                },
            };
            proof {
                assert(spec_file_info_parses(info.files@[i as int]));
            }
            let path = build_abs_path(parent_norm.as_str(), f.name.as_str());
            files.push(Entry::new(path, metadata));
            i = i + 1;
        }
        let mut j: usize = 0;
        while j < info.folders.len()
            invariant
                j <= info.folders@.len(),
                parent_norm@ == seq!['/'] + spec_trim_slashes(parent@),
                spec_root_normalized(parent_norm@),
                files@.len() == info.files@.len(),
                folders@.len() == j,
                forall|k: int|
                    0 <= k < info.files@.len() ==> spec_file_info_parses(
                        #[trigger] info.files@[k],
                    ),
                forall|k: int|
                    0 <= k < j ==> spec_folder_info_parses(#[trigger] info.folders@[k]),
                forall|k: int|
                    0 <= k < info.files@.len() ==> {
                        let f = info.files@[k];
                        let e = #[trigger] files@[k];
                        &&& e.path@ == spec_abs_path(parent_norm@, f.name@)
                        &&& e.metadata.mode == EntryMode::File
                        &&& (e.metadata.etag matches Some(t) && t@ == f.file_id@)
                        &&& e.metadata.last_modified == Some(
                            spec_signed_value(f.date_modified@) as i64,
                        )
                        &&& e.metadata.content_length == Some(spec_dec_value(f.size@) as u64)
                    },
                forall|k: int|
                    0 <= k < j ==> {
                        let f = info.folders@[k];
                        let e = #[trigger] folders@[k];
                        &&& e.path@ == spec_abs_path(parent_norm@, f.name@)
                        &&& e.metadata.mode == EntryMode::Dir
                        &&& (e.metadata.etag matches Some(t) && t@ == f.folder_id@)
                        &&& e.metadata.last_modified == Some(
                            spec_signed_value(f.date_modified@) as i64,
                        )
                    },
            decreases info.folders@.len() - j,
        {
            let f = &info.folders[j];
            let metadata = match self.parse_folder_metadata(f) {
                Ok(m) => m,
                Err(e) => {
                    proof {
                        assert(!spec_folder_info_parses(info.folders@[j as int]));
                    }
                    return Err(e);
                },
            };
            proof {
                assert(spec_folder_info_parses(info.folders@[j as int]));
            }
            let path = build_abs_path(parent_norm.as_str(), f.name.as_str());
            folders.push(Entry::new(path, metadata));
            j = j + 1;
        }
        Ok((files, folders))
    }
}

/// True when a file-info row's numeric fields parse: the timestamp a
/// calendar-valid signed numeral and the size a decimal run fitting
/// the length type.
pub open spec fn spec_file_info_parses(f: OpendriveGetFileInfo) -> bool {
    let v = spec_signed_value(f.date_modified@);
    &&& spec_is_signed_numeral(f.date_modified@)
    &&& -i64::MAX <= v <= i64::MAX
    &&& spec_timestamp_in_calendar(v as i64)
    &&& f.size@.len() > 0
    &&& spec_all_digits(f.size@)
    &&& spec_dec_value(f.size@) <= u64::MAX
}

/// True when a folder-info row's timestamp parses as a calendar-valid
/// signed numeral.
pub open spec fn spec_folder_info_parses(f: OpendriveGetFolderInfo) -> bool {
    let v = spec_signed_value(f.date_modified@);
    &&& spec_is_signed_numeral(f.date_modified@)
    &&& -i64::MAX <= v <= i64::MAX
    &&& spec_timestamp_in_calendar(v as i64)
}

/// A rename resolved against the root: the absolute source path and
/// the target's new base name.
#[derive(Clone, Debug, PartialEq, Eq)]
pub struct RenamePre {
    pub abs_from: String,
    pub new_name: String,
}

/// A copy resolved against the root: the absolute source path, the
/// target's parent folder path, and the target's new base name.
#[derive(Clone, Debug, PartialEq, Eq)]
pub struct CopyPre {
    pub abs_from: String,
    pub dst_parent: String,
    pub new_name: String,
}

/// A file target split into its parent folder path and its file name.
#[derive(Clone, Debug, PartialEq, Eq)]
pub struct TargetPre {
    pub parent: String,
    pub file_name: String,
}

/// Where an object's identifier comes from.
#[derive(Clone, Debug, PartialEq, Eq)]
pub enum IdSource {
    Known(String),
    LookupFile,
    LookupFolder,
}

/// A planned ranged download: URL, query pairs, and the range bounds
/// as decimal text (no end bound reads to the object's end).
#[derive(Clone, Debug, PartialEq, Eq)]
pub struct ReadPlan {
    pub url: String,
    pub query: Vec<QueryPair>,
    pub range_start: String,
    pub range_end: Option<String>,
}

/// A planned chunk upload: the form fields of the chunk endpoint.
#[derive(Clone, Debug, PartialEq, Eq)]
pub struct ChunkUploadPlan {
    pub url: String,
    pub session_id: String,
    pub file_id: String,
    pub temp_location: String,
    pub chunk_offset: String,
    pub chunk_size: String,
    pub file_name: String,
}

/// A planned whole-file chunk upload through the session-addressed
/// endpoint.
#[derive(Clone, Debug, PartialEq, Eq)]
pub struct ChunkUploadSecondPlan {
    pub url: String,
    pub file_name: String,
}

} // verus!
