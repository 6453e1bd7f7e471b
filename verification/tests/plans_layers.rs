use opendal_core::backend::OpendriveBuilder;
use opendal_core::error::kind_is_retryable;
use opendal_core::layer::ConcurrencyLimiter;
use opendal_core::layer::RetryPolicy;
use opendal_core::model::OpendriveCloseFileUploadInfo;
use opendal_core::model::OpendriveCreateFileInfo;
use opendal_core::ops::BytesRange;
use opendal_core::ops::OpWrite;
use opendal_core::parse_numeric_types_error;
use opendal_core::writer::OpendriveWriter;
use opendal_core::ErrorKind;

fn built_core() -> opendal_core::opendrive::OpendriveCore {
    OpendriveBuilder::new()
        .root("r")
        .username("user@example.com")
        .password("pw")
        .build()
        .unwrap()
        .core
}

#[test]
fn retry_is_bounded_and_kind_gated() {
    let policy = RetryPolicy::new(3);
    assert!(policy.should_retry(ErrorKind::RateLimited, 0));
    assert!(policy.should_retry(ErrorKind::RateLimited, 1));
    assert!(!policy.should_retry(ErrorKind::RateLimited, 2));
    assert!(!policy.should_retry(ErrorKind::NotFound, 0));
    assert!(!policy.should_retry(ErrorKind::ConditionNotMatch, 0));
    assert!(kind_is_retryable(ErrorKind::RateLimited));
    assert!(!kind_is_retryable(ErrorKind::Unsupported));
}

#[test]
fn the_limiter_bounds_whats_in_flight() {
    let mut limiter = ConcurrencyLimiter::new(2);
    assert!(limiter.try_acquire());
    assert!(limiter.try_acquire());
    assert!(!limiter.try_acquire());
    limiter.release();
    assert!(limiter.try_acquire());
}

#[test]
fn read_plans_carry_range_and_session() {
    let c = built_core();
    let plan = c.read_plan("f9", BytesRange { offset: 100, size: Some(50) });
    assert_eq!(plan.url, "https://dev.opendrive.com/api/v1/download/file.json/f9");
    assert_eq!(plan.query[0].key, "session_id");
    assert_eq!(plan.query[0].value, "OAUTH");
    assert_eq!(plan.query[1].key, "offset");
    assert_eq!(plan.query[1].value, "100");
    assert_eq!(plan.range_start, "100");
    assert_eq!(plan.range_end.as_deref(), Some("149"));
    let open = c.read_plan("f9", BytesRange { offset: 7, size: None });
    assert_eq!(open.range_start, "7");
    assert!(open.range_end.is_none());
    // degenerate ranges read open-ended and are cut to length afterwards
    let empty = c.read_plan("f9", BytesRange { offset: 7, size: Some(0) });
    assert!(empty.range_end.is_none());
    let wide = c.read_plan("f9", BytesRange { offset: u64::MAX, size: Some(2) });
    assert!(wide.range_end.is_none());
}

#[test]
fn the_append_gate_demands_the_exact_offset() {
    let writer = OpendriveWriter::new("/r/x", OpWrite::new());
    assert!(writer.append_offset_check(10, 10).is_ok());
    let err = writer.append_offset_check(10, 7).unwrap_err();
    assert_eq!(err.kind(), ErrorKind::ConditionNotMatch);
}

#[test]
fn chunk_plans_render_their_numbers() {
    let c = built_core();
    let plan = c.upload_chunk_plan("f1", "name.bin", "tmp/1", 4096, 512);
    assert_eq!(plan.url, "https://dev.opendrive.com/api/v1/upload/upload_file_chunk.json");
    assert_eq!(plan.chunk_offset, "4096");
    assert_eq!(plan.chunk_size, "512");
    let second = c.upload_chunk_second_plan("f1", "name.bin");
    assert_eq!(
        second.url,
        "https://dev.opendrive.com/api/v1/upload/upload_file_chunk2.json/OAUTH/f1"
    );
}

#[test]
fn close_info_folds_back_into_file_info() {
    let c = built_core();
    let close = OpendriveCloseFileUploadInfo {
        size: 77,
        version: "v3".to_string(),
        date_modified: "1748359276".to_string(),
    };
    let info = c.file_info_from_close("f1", "name.bin", &close);
    assert_eq!(info.size, "77");
    assert_eq!(info.version, "v3");
    let writer = OpendriveWriter::new("/r/name.bin", OpWrite::new());
    let metadata = writer.metadata_from_file_info(&c, "f1", &info).unwrap();
    assert_eq!(metadata.content_length, Some(77));
    assert_eq!(metadata.etag.as_deref(), Some("f1"));
}

#[test]
fn the_append_offset_comes_from_the_created_file() {
    let writer = OpendriveWriter::new("/r/x", OpWrite::new());
    let info = OpendriveCreateFileInfo {
        file_id: "f1".to_string(),
        file_name: "x".to_string(),
        size: "345".to_string(),
        temp_location: "tmp".to_string(),
    };
    assert_eq!(writer.offset_from_create(&info).unwrap(), 345);
    let bad = OpendriveCreateFileInfo { size: "x".to_string(), ..info };
    assert_eq!(writer.offset_from_create(&bad).unwrap_err().kind(), ErrorKind::Unexpected);
}

#[test]
fn numeric_parse_errors_name_the_text() {
    let err = parse_numeric_types_error("4x");
    assert_eq!(err.kind(), ErrorKind::Unexpected);
    assert_eq!(err.message, "parse Numeric types error: 4x");
}
