use opendal_core::backend::OpendriveBuilder;
use opendal_core::capability::check_stat_args;
use opendal_core::capability::Capability;
use opendal_core::operator::Operator;
use opendal_core::ops::OpList;
use opendal_core::ops::OpStat;
use opendal_core::ops::OpWrite;
use opendal_core::ErrorKind;

fn operator() -> Operator {
    let accessor = OpendriveBuilder::new()
        .root("data")
        .username("user@example.com")
        .password("pw")
        .build()
        .unwrap();
    Operator::new(accessor)
}

#[test]
fn undeclared_conditional_variant_is_rejected_before_dispatch() {
    let mut cap = Capability::none();
    cap.stat = true;
    let mut args = OpStat::new();
    args.if_match = Some("etag".to_string());
    let err = check_stat_args(&cap, &args).unwrap_err();
    assert_eq!(err.kind(), ErrorKind::Unsupported);
}

#[test]
fn undeclared_operation_is_rejected_before_dispatch() {
    let cap = Capability::none();
    let err = check_stat_args(&cap, &OpStat::new()).unwrap_err();
    assert_eq!(err.kind(), ErrorKind::Unsupported);
}

#[test]
fn declared_variants_pass_the_gate() {
    let op = operator();
    let abs = op.prepare_stat("a/b", &OpStat::new()).unwrap();
    assert_eq!(abs, "/data/a/b");
    let mut args = OpStat::new();
    args.version = Some("v".to_string());
    assert!(op.prepare_stat("a/b", &args).is_ok());
}

#[test]
fn the_facade_names_the_rejected_operation() {
    let mut op = operator();
    op.accessor.core.info.capability.list_with_recursive = false;
    let err = op.prepare_list("a", &OpList::new().with_recursive(true)).unwrap_err();
    assert_eq!(err.kind(), ErrorKind::Unsupported);
    assert_eq!(err.operation, "list");
    assert_eq!(err.path, "a");
}

#[test]
fn concurrent_writes_need_the_multi_capability() {
    let mut op = operator();
    op.accessor.core.info.capability.write_can_multi = false;
    let args = OpWrite::new().with_concurrent(4);
    let err = op.prepare_write("a", &args).unwrap_err();
    assert_eq!(err.kind(), ErrorKind::Unsupported);
    let sequential = OpWrite::new();
    assert!(op.prepare_write("a", &sequential).is_ok());
}

#[test]
fn paths_ascending_above_the_root_are_refused() {
    let op = operator();
    let err = op.prepare_stat("a/../b", &OpStat::new()).unwrap_err();
    assert_eq!(err.kind(), ErrorKind::Unexpected);
    assert_eq!(err.operation, "stat");
    let err = op.prepare_create_dir("../up").unwrap_err();
    assert_eq!(err.kind(), ErrorKind::Unexpected);
    // dots inside a name are no escape
    let ok = op.prepare_stat("a..b/file.tar.gz", &OpStat::new()).unwrap();
    assert_eq!(ok, "/data/a..b/file.tar.gz");
}

#[test]
fn enrichment_keeps_kind_and_message() {
    let op = operator();
    let err = opendal_core::Error::new(ErrorKind::NotFound, "gone".to_string());
    let rich = op.enrich_error(err, "stat", "a/b");
    assert_eq!(rich.kind(), ErrorKind::NotFound);
    assert_eq!(rich.message, "gone");
    assert_eq!(rich.operation, "stat");
    assert_eq!(rich.path, "a/b");
}
