use opendal_core::accessor::Scheme;
use opendal_core::backend::OpendriveBuilder;
use opendal_core::model::OAuthGrantType;
use opendal_core::model::OAuthTokenResponse;
use opendal_core::model::OAuthTokenResponseBody;
use opendal_core::model::OpendriveDeserializeFail;
use opendal_core::model::OpendriveDeserializeFailError;
use opendal_core::model::OpendriveGetFileInfo;
use opendal_core::model::OpendriveGetFolderInfo;
use opendal_core::opendrive::FolderIdStep;
use opendal_core::opendrive::SignStep;
use opendal_core::ops::OpStat;
use opendal_core::ops::OpWrite;
use opendal_core::writer::writer_kind;
use opendal_core::writer::WriterKind;
use opendal_core::ErrorKind;

fn built() -> opendal_core::backend::OpendriveAccessor {
    OpendriveBuilder::new()
        .root("workdir/")
        .username("user@example.com")
        .password("pw")
        .build()
        .unwrap()
}

#[test]
fn build_requires_credentials() {
    let no_user = match OpendriveBuilder::new().build() {
        Err(e) => e,
        Ok(_) => panic!("a build without a username must fail"),
    };
    assert_eq!(no_user.kind(), ErrorKind::ConfigInvalid);
    assert_eq!(no_user.message, "username is empty");
    assert_eq!(no_user.operation, "Builder::build");
    assert_eq!(no_user.context, "service=opendrive");
    let no_password = match OpendriveBuilder::new().username("u").build() {
        Err(e) => e,
        Ok(_) => panic!("a build without a password must fail"),
    };
    assert_eq!(no_password.kind(), ErrorKind::ConfigInvalid);
    assert_eq!(no_password.message, "password is empty");
    assert_eq!(no_password.operation, "Builder::build");
    assert_eq!(no_password.context, "service=opendrive");
}

#[test]
fn build_normalizes_the_root() {
    let accessor = built();
    assert_eq!(accessor.core.root, "/workdir");
    assert_eq!(accessor.info().root(), "/workdir");
    assert_eq!(
        accessor.info().capability(),
        opendal_core::backend::opendrive_native_capability()
    );
}

#[test]
fn descend_decisions_never_skip_and_never_swallow() {
    let accessor = built();
    let info = OpendriveGetFolderInfo {
        folder_id: "d3".to_string(),
        name: "leafless".to_string(),
        date_modified: "1748359276".to_string(),
        child_folders: Some(0),
    };
    // a folder counting no child folders is still descended into:
    // it may hold files
    assert_eq!(accessor.core.descend_decide(Ok(info)).unwrap(), "d3");
    let gone = opendal_core::Error::new(ErrorKind::NotFound, "gone".to_string());
    let err = accessor.core.descend_decide(Err(gone)).unwrap_err();
    assert_eq!(err.kind(), ErrorKind::NotFound);
}

#[test]
fn list_assembly_succeeds_exactly_when_every_row_parses() {
    let accessor = built();
    let good_file = file_info("1748359276", "7");
    let folder = OpendriveGetFolderInfo {
        folder_id: "d1".to_string(),
        name: "sub".to_string(),
        date_modified: "1748359276".to_string(),
        child_folders: None,
    };
    let listing = opendal_core::model::OpendriveGetListInfo {
        name: "p".to_string(),
        parent_folder_id: "0".to_string(),
        folders: vec![folder.clone()],
        files: vec![good_file.clone()],
    };
    let (files, folders) = accessor.core.assemble_list_entries("/p/", &listing).unwrap();
    assert_eq!(files[0].path, "/p/n");
    assert_eq!(folders[0].path, "/p/sub");

    let bad_listing = opendal_core::model::OpendriveGetListInfo {
        name: "p".to_string(),
        parent_folder_id: "0".to_string(),
        folders: vec![folder],
        files: vec![file_info("not-a-number", "7")],
    };
    let err = accessor.core.assemble_list_entries("/p", &bad_listing).unwrap_err();
    assert_eq!(err.kind(), ErrorKind::Unexpected);
}

#[test]
fn fresh_signer_asks_for_a_password_grant() {
    let accessor = built();
    match accessor.core.signer.sign_prepare("https://host/x", 1_000) {
        SignStep::NeedGrant(grant) => assert_eq!(grant, OAuthGrantType::Password),
        SignStep::Ready(_) => panic!("a tokenless signer cannot sign"),
    }
}

#[test]
fn grant_reply_arms_the_signer() {
    let accessor = built();
    let mut signer = accessor.core.signer;
    let reply = OAuthTokenResponse::Success(OAuthTokenResponseBody {
        access_token: "tok".to_string(),
        refresh_token: "ref".to_string(),
        token_type: "bearer".to_string(),
        expires_in: 3600,
    });
    signer.apply_grant(reply, 1_000).unwrap();
    assert_eq!(signer.expires_at, 1_000 + 3600 - 120);
    match signer.sign_prepare("https://host/x", 1_500) {
        SignStep::Ready(url) => assert_eq!(url, "https://host/x?access_token=tok"),
        SignStep::NeedGrant(_) => panic!("a fresh token must sign"),
    }
    match signer.sign_prepare("https://host/x", 10_000) {
        SignStep::NeedGrant(grant) => assert_eq!(grant, OAuthGrantType::RefreshToken),
        SignStep::Ready(_) => panic!("an expired token cannot sign"),
    }
}

#[test]
fn invalid_credentials_are_config_invalid() {
    let accessor = built();
    let mut signer = accessor.core.signer;
    let reply = OAuthTokenResponse::Fail(OpendriveDeserializeFail {
        error: OpendriveDeserializeFailError { code: 401, message: "nope".to_string() },
    });
    let err = signer.apply_grant(reply, 0).unwrap_err();
    assert_eq!(err.kind(), ErrorKind::ConfigInvalid);
    assert_eq!(err.message, "invalid credentials");
}

#[test]
fn folder_id_of_root_is_well_known() {
    let accessor = built();
    match accessor.core.prepare_folder_id("/") {
        FolderIdStep::Root(id) => assert_eq!(id, "0"),
        FolderIdStep::Fetch(_) => panic!("the root has a fixed identifier"),
    }
    match accessor.core.prepare_folder_id("/workdir/a") {
        FolderIdStep::Fetch(plan) => {
            assert_eq!(plan.url, "https://dev.opendrive.com/api/v1/folder/idbypath.json");
        }
        FolderIdStep::Root(_) => panic!("a non-root path needs a lookup"),
    }
}

fn file_info(date: &str, size: &str) -> OpendriveGetFileInfo {
    OpendriveGetFileInfo {
        file_id: "f1".to_string(),
        name: "n".to_string(),
        size: size.to_string(),
        version: "v7".to_string(),
        date_modified: date.to_string(),
    }
}

#[test]
fn file_metadata_parses_the_numeric_fields() {
    let accessor = built();
    let m = accessor.core.parse_file_metadata(&file_info("1748359276", "2048")).unwrap();
    assert_eq!(m.last_modified, Some(1748359276));
    assert_eq!(m.content_length, Some(2048));
    assert_eq!(m.etag.as_deref(), Some("f1"));
    assert_eq!(m.version.as_deref(), Some("v7"));
}

#[test]
fn file_metadata_rejects_bad_numerals() {
    let accessor = built();
    let err = accessor.core.parse_file_metadata(&file_info("soon", "2048")).unwrap_err();
    assert_eq!(err.kind(), ErrorKind::Unexpected);
    let err = accessor.core.parse_file_metadata(&file_info("1748359276", "big")).unwrap_err();
    assert_eq!(err.kind(), ErrorKind::Unexpected);
}

#[test]
fn timestamps_outside_the_calendar_are_unsupported() {
    let accessor = built();
    let info = file_info("9223372036854775807", "1");
    let err = accessor.core.parse_file_metadata(&info).unwrap_err();
    assert_eq!(err.kind(), ErrorKind::Unsupported);
}

#[test]
fn stat_conditions_fail_with_condition_not_match() {
    let accessor = built();
    let info = OpendriveGetFolderInfo {
        folder_id: "d9".to_string(),
        name: "d".to_string(),
        date_modified: "1748359276".to_string(),
        child_folders: Some(0),
    };
    let mut args = OpStat::new();
    args.if_match = Some("other".to_string());
    let err = accessor.core.stat_eval_folder("d9", &info, &Some(args)).unwrap_err();
    assert_eq!(err.kind(), ErrorKind::ConditionNotMatch);

    let mut args = OpStat::new();
    args.if_none_match = Some("d9".to_string());
    let err = accessor.core.stat_eval_folder("d9", &info, &Some(args)).unwrap_err();
    assert_eq!(err.kind(), ErrorKind::ConditionNotMatch);

    let mut args = OpStat::new();
    args.if_modified_since = Some(1748359276);
    let err = accessor.core.stat_eval_folder("d9", &info, &Some(args)).unwrap_err();
    assert_eq!(err.kind(), ErrorKind::ConditionNotMatch);

    let ok = accessor.core.stat_eval_folder("d9", &info, &Some(OpStat::new())).unwrap();
    assert_eq!(ok.etag.as_deref(), Some("d9"));
}

#[test]
fn file_stat_checks_the_version_condition() {
    let accessor = built();
    let info = file_info("1748359276", "10");
    let mut args = OpStat::new();
    args.version = Some("other".to_string());
    let err = accessor.core.stat_eval_file("f1", &info, &Some(args)).unwrap_err();
    assert_eq!(err.kind(), ErrorKind::ConditionNotMatch);
    let mut args = OpStat::new();
    args.version = Some("v7".to_string());
    let ok = accessor.core.stat_eval_file("f1", &info, &Some(args)).unwrap();
    assert_eq!(ok.content_length, Some(10));
}

#[test]
fn rename_of_the_root_is_unsupported() {
    let accessor = built();
    let err = accessor.core.rename_folder_precheck("", "x").unwrap_err();
    assert_eq!(err.kind(), ErrorKind::Unsupported);
    let pre = accessor.core.rename_folder_precheck("a", "b/c").unwrap();
    assert_eq!(pre.abs_from, "/workdir/a");
    assert_eq!(pre.new_name, "c");
}

#[test]
fn read_clamps_the_body_to_the_range() {
    let accessor = built();
    let body = vec![1u8, 2, 3, 4, 5];
    assert_eq!(accessor.core.clamp_body(body.clone(), Some(3)), vec![1, 2, 3]);
    assert_eq!(accessor.core.clamp_body(body.clone(), Some(50)), body);
    assert_eq!(accessor.core.clamp_body(body.clone(), None), body);
}

#[test]
fn write_prepare_decides_conflicts() {
    let accessor = built();
    let guarded = OpWrite::new().with_if_not_exists(true);
    let err = accessor.core.write_prepare_decide(true, false, &guarded).unwrap_err();
    assert_eq!(err.kind(), ErrorKind::AlreadyExists);
    let err = accessor.core.write_prepare_decide(false, true, &OpWrite::new()).unwrap_err();
    assert_eq!(err.kind(), ErrorKind::IsADirectory);
    assert!(accessor.core.write_prepare_decide(true, false, &OpWrite::new()).is_ok());
    assert!(accessor.core.write_prepare_decide(false, false, &OpWrite::new()).is_ok());
}

#[test]
fn writer_kind_follows_the_append_flag() {
    assert_eq!(writer_kind(&OpWrite::new()), WriterKind::OneShot);
    assert_eq!(writer_kind(&OpWrite::new().with_append(true)), WriterKind::Append);
}

#[test]
fn scheme_identifiers_round_trip() {
    assert_eq!(Scheme::parse("opendrive"), Some(Scheme::Opendrive));
    assert_eq!(Scheme::parse("s3"), None);
    assert_eq!(Scheme::Opendrive.as_str(), "opendrive");
}

#[test]
fn the_http_client_handle_is_swappable() {
    let mut accessor = built();
    assert!(accessor.core.info.http_client.is_none());
    accessor
        .core
        .info
        .update_http_client(reqwest::Client::new());
    assert!(accessor.core.info.http_client.is_some());
    assert_eq!(accessor.core.info.root(), "/workdir");
}

#[test]
fn delete_precheck_demands_the_version() {
    let accessor = built();
    let m = opendal_core::metadata::Metadata::new(opendal_core::metadata::EntryMode::File)
        .with_version("v1".to_string());
    assert!(accessor.core.delete_precheck(&m, &None).is_ok());
    assert!(accessor.core.delete_precheck(&m, &Some("v1".to_string())).is_ok());
    let err = accessor.core.delete_precheck(&m, &Some("v2".to_string())).unwrap_err();
    assert_eq!(err.kind(), ErrorKind::ConditionNotMatch);
}
