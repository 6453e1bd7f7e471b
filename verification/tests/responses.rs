use opendal_core::model::OpendriveCheckIfExists;
use opendal_core::model::OpendriveCheckIfExistsResponse;
use opendal_core::model::OpendriveCreateDirResponse;
use opendal_core::model::OpendriveCreateDirSuccess;
use opendal_core::model::OpendriveCreateFileInfo;
use opendal_core::model::OpendriveCreateFileResponse;
use opendal_core::model::OpendriveDeserializeFail;
use opendal_core::model::OpendriveDeserializeFailError;
use opendal_core::model::OpendriveGetFolderId;
use opendal_core::model::OpendriveGetFolderIdResponse;
use opendal_core::model::OpendriveSuccessIgnoreResponse;
use opendal_core::response::fold_check_exists_response;
use opendal_core::response::fold_create_file_response;
use opendal_core::response::fold_create_folder_response;
use opendal_core::response::fold_folder_id_response;
use opendal_core::response::fold_unit_response;
use opendal_core::response::parse_error;
use opendal_core::response::CreateFolderOutcome;
use opendal_core::ErrorKind;
use opendal_core::model::OpendriveCloseFileUploadInfo;
use opendal_core::model::OpendriveCloseFileUploadResponse;
use opendal_core::model::OpendriveGetFileId;
use opendal_core::model::OpendriveGetFileIdResponse;
use opendal_core::model::OpendriveGetFileInfo;
use opendal_core::model::OpendriveGetFileInfoResponse;
use opendal_core::model::OpendriveGetFolderInfo;
use opendal_core::model::OpendriveGetFolderInfoResponse;
use opendal_core::model::OpendriveGetListInfo;
use opendal_core::model::OpendriveGetListInfoResponse;
use opendal_core::model::OpendriveOpenFileUploadInfo;
use opendal_core::model::OpendriveOpenFileUploadResponse;
use opendal_core::response::fold_close_upload_response;
use opendal_core::response::fold_file_id_response;
use opendal_core::response::fold_file_info_response;
use opendal_core::response::fold_folder_info_response;
use opendal_core::response::fold_list_info_response;
use opendal_core::response::fold_open_upload_response;

fn fail(code: u16, message: &str) -> OpendriveDeserializeFail {
    OpendriveDeserializeFail {
        error: OpendriveDeserializeFailError { code, message: message.to_string() },
    }
}

#[test]
fn folder_id_success_yields_the_id() {
    let resp = OpendriveGetFolderIdResponse::Success(OpendriveGetFolderId {
        folder_id: "17".to_string(),
    });
    assert_eq!(fold_folder_id_response(resp).unwrap(), "17");
}

#[test]
fn folder_id_missing_is_not_found() {
    let resp = OpendriveGetFolderIdResponse::Fail(fail(404, "no such folder"));
    let err = fold_folder_id_response(resp).unwrap_err();
    assert_eq!(err.kind(), ErrorKind::NotFound);
    assert_eq!(err.message, "no such folder");
}

#[test]
fn folder_id_other_codes_are_unexpected() {
    let resp = OpendriveGetFolderIdResponse::Fail(fail(500, "boom"));
    assert_eq!(fold_folder_id_response(resp).unwrap_err().kind(), ErrorKind::Unexpected);
}

#[test]
fn unit_response_maps_the_taxonomy() {
    assert!(fold_unit_response(OpendriveSuccessIgnoreResponse::Success).is_ok());
    let nf = fold_unit_response(OpendriveSuccessIgnoreResponse::Fail(fail(404, "gone")));
    assert_eq!(nf.unwrap_err().kind(), ErrorKind::NotFound);
    let ae = fold_unit_response(OpendriveSuccessIgnoreResponse::Fail(fail(409, "there")));
    assert_eq!(ae.unwrap_err().kind(), ErrorKind::AlreadyExists);
    let un = fold_unit_response(OpendriveSuccessIgnoreResponse::Fail(fail(400, "bad")));
    assert_eq!(un.unwrap_err().kind(), ErrorKind::Unexpected);
}

#[test]
fn create_folder_conflict_asks_for_a_lookup() {
    let created = fold_create_folder_response(OpendriveCreateDirResponse::Success(
        OpendriveCreateDirSuccess {
            folder_id: "9".to_string(),
            name: "d".to_string(),
            date_created: 0,
            dir_update_time: 0,
            date_modified: 0,
        },
    ));
    assert_eq!(created.unwrap(), CreateFolderOutcome::Created("9".to_string()));
    let existed =
        fold_create_folder_response(OpendriveCreateDirResponse::Fail(fail(409, "exists")));
    assert_eq!(existed.unwrap(), CreateFolderOutcome::AlreadyExisted);
}

#[test]
fn check_exists_reads_the_match_list() {
    let yes = OpendriveCheckIfExistsResponse::Success(OpendriveCheckIfExists {
        result: vec!["f".to_string()],
    });
    assert_eq!(fold_check_exists_response(yes).unwrap(), true);
    let no = OpendriveCheckIfExistsResponse::Success(OpendriveCheckIfExists { result: vec![] });
    assert_eq!(fold_check_exists_response(no).unwrap(), false);
}

#[test]
fn create_file_conflict_already_exists() {
    let ok = fold_create_file_response(OpendriveCreateFileResponse::Success(
        OpendriveCreateFileInfo {
            file_id: "f1".to_string(),
            file_name: "n".to_string(),
            size: "0".to_string(),
            temp_location: "t".to_string(),
        },
    ));
    assert_eq!(ok.unwrap().file_id, "f1");
    let err = fold_create_file_response(OpendriveCreateFileResponse::Fail(fail(409, "dup")));
    assert_eq!(err.unwrap_err().kind(), ErrorKind::AlreadyExists);
}

#[test]
fn info_folds_hand_the_payload_through() {

    let id = fold_file_id_response(OpendriveGetFileIdResponse::Success(OpendriveGetFileId {
        file_id: "f4".to_string(),
    }));
    assert_eq!(id.unwrap(), "f4");

    let file = OpendriveGetFileInfo {
        file_id: "f4".to_string(),
        name: "n".to_string(),
        size: "9".to_string(),
        version: "v".to_string(),
        date_modified: "1".to_string(),
    };
    let folded = fold_file_info_response(OpendriveGetFileInfoResponse::Success(file.clone()));
    assert_eq!(folded.unwrap(), file);

    let folder = OpendriveGetFolderInfo {
        folder_id: "d1".to_string(),
        name: "d".to_string(),
        date_modified: "1".to_string(),
        child_folders: None,
    };
    let folded =
        fold_folder_info_response(OpendriveGetFolderInfoResponse::Success(folder.clone()));
    assert_eq!(folded.unwrap(), folder);

    let listing = OpendriveGetListInfo {
        name: "d".to_string(),
        parent_folder_id: "0".to_string(),
        folders: vec![folder],
        files: vec![file],
    };
    let folded = fold_list_info_response(OpendriveGetListInfoResponse::Success(listing));
    let listing = folded.unwrap();
    assert_eq!(listing.folders.len(), 1);
    assert_eq!(listing.files.len(), 1);
    let missing = fold_list_info_response(OpendriveGetListInfoResponse::Fail(fail(404, "gone")));
    assert_eq!(missing.unwrap_err().kind(), ErrorKind::NotFound);
}

#[test]
fn upload_folds_map_their_conflicts() {

    let open = OpendriveOpenFileUploadInfo {
        temp_location: "tmp/3".to_string(),
        require_compression: false,
        require_hash: false,
        require_hash_only: false,
        speed_limit: 0,
    };
    let folded = fold_open_upload_response(OpendriveOpenFileUploadResponse::Success(open));
    assert_eq!(folded.unwrap().temp_location, "tmp/3");
    let missing =
        fold_open_upload_response(OpendriveOpenFileUploadResponse::Fail(fail(404, "gone")));
    assert_eq!(missing.unwrap_err().kind(), ErrorKind::NotFound);

    let close = OpendriveCloseFileUploadInfo {
        size: 12,
        version: "v2".to_string(),
        date_modified: "1".to_string(),
    };
    let folded = fold_close_upload_response(OpendriveCloseFileUploadResponse::Success(close));
    assert_eq!(folded.unwrap().size, 12);
}

#[test]
fn parse_error_maps_status_codes() {
    let pd = parse_error(Some(OpendriveDeserializeFailError {
        code: 401,
        message: "denied".to_string(),
    }));
    assert_eq!(pd.kind(), ErrorKind::PermissionDenied);
    let rl = parse_error(Some(OpendriveDeserializeFailError {
        code: 429,
        message: "slow down".to_string(),
    }));
    assert_eq!(rl.kind(), ErrorKind::RateLimited);
    let un = parse_error(None);
    assert_eq!(un.kind(), ErrorKind::Unexpected);
}
