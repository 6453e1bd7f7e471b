use opendal_core::oio::AppendWriter;
use opendal_core::oio::MemStore;
use opendal_core::oio::MultipartUpload;
use opendal_core::oio::OneShotDeleter;
use opendal_core::oio::OneShotWriter;
use opendal_core::ErrorKind;

fn stored_bytes(store: &MemStore, path: &str) -> Vec<u8> {
    store
        .objects
        .iter()
        .find(|o| o.path == path)
        .map(|o| o.data.clone())
        .unwrap_or_default()
}

#[test]
fn stat_after_write_reports_the_written_length() {
    let mut store = MemStore::new();
    store.write("/p", vec![9u8; 1234]);
    assert_eq!(store.stat_len("/p"), Some(1234));
    store.write("/p", vec![1u8, 2, 3]);
    assert_eq!(store.stat_len("/p"), Some(3));
    assert_eq!(store.stat_len("/absent"), None);
}

#[test]
fn one_shot_writer_uploads_exactly_once() {
    let mut store = MemStore::new();
    let mut w = OneShotWriter::new("/obj");
    w.write(vec![1, 2]).unwrap();
    w.write(vec![3]).unwrap();
    w.close(&mut store).unwrap();
    assert_eq!(store.stat_len("/obj"), Some(3));
    let second = w.close(&mut store);
    assert_eq!(second.unwrap_err().kind(), ErrorKind::Unexpected);
    let late = w.write(vec![4]);
    assert_eq!(late.unwrap_err().kind(), ErrorKind::Unexpected);
    assert_eq!(store.stat_len("/obj"), Some(3));
}

#[test]
fn append_validates_the_claimed_offset() {
    let mut store = MemStore::new();
    store.write("/log", vec![1, 2, 3]);
    let mut w = AppendWriter::new("/log");
    assert_eq!(w.current_offset(&store), 3);
    let err = w.append(&mut store, 7, vec![4]).unwrap_err();
    assert_eq!(err.kind(), ErrorKind::ConditionNotMatch);
    assert_eq!(store.stat_len("/log"), Some(3));
    w.append(&mut store, 3, vec![4, 5]).unwrap();
    assert_eq!(store.stat_len("/log"), Some(5));
}

#[test]
fn append_to_a_fresh_path_starts_at_zero() {
    let mut store = MemStore::new();
    let mut w = AppendWriter::new("/new");
    assert_eq!(w.current_offset(&store), 0);
    let err = w.append(&mut store, 5, vec![1]).unwrap_err();
    assert_eq!(err.kind(), ErrorKind::ConditionNotMatch);
    w.append(&mut store, 0, vec![1, 2]).unwrap();
    assert_eq!(store.stat_len("/new"), Some(2));
}

#[test]
fn multipart_commit_is_byte_identical_regardless_of_completion_order() {
    let parts: Vec<Vec<u8>> = (0u8..10).map(|i| vec![i; (i as usize) + 1]).collect();
    let sequential: Vec<u8> = parts.iter().flatten().copied().collect();

    let order: Vec<usize> = vec![7, 2, 9, 0, 5, 1, 8, 3, 6, 4];
    let mut upload = MultipartUpload::new(10, 4);
    let mut queued: Vec<usize> = Vec::new();
    for idx in order {
        while !upload.begin_part() {
            let done = queued.remove(0);
            upload.complete_part(done, parts[done].clone());
        }
        queued.push(idx);
    }
    for done in queued {
        upload.complete_part(done, parts[done].clone());
    }
    let mut store = MemStore::new();
    upload.finalize(&mut store, "/big").unwrap();
    assert_eq!(stored_bytes(&store, "/big"), sequential);

    let mut in_order = MultipartUpload::new(10, 4);
    for i in 0..10 {
        assert!(in_order.begin_part());
        in_order.complete_part(i, parts[i].clone());
    }
    let mut store2 = MemStore::new();
    in_order.finalize(&mut store2, "/big").unwrap();
    assert_eq!(stored_bytes(&store2, "/big"), sequential);
}

#[test]
fn multipart_respects_the_permit_bound() {
    let mut upload = MultipartUpload::new(6, 4);
    assert!(upload.begin_part());
    assert!(upload.begin_part());
    assert!(upload.begin_part());
    assert!(upload.begin_part());
    assert!(!upload.begin_part());
    upload.complete_part(0, vec![1]);
    assert!(upload.begin_part());
}

#[test]
fn multipart_failure_blocks_the_finalize() {
    let mut upload = MultipartUpload::new(2, 2);
    assert!(upload.begin_part());
    assert!(upload.begin_part());
    upload.complete_part(0, vec![1]);
    upload.fail_part(1);
    let mut store = MemStore::new();
    let err = upload.finalize(&mut store, "/x").unwrap_err();
    assert_eq!(err.kind(), ErrorKind::Unexpected);
    assert_eq!(store.stat_len("/x"), None);
}

#[test]
fn idempotent_deleter_accepts_the_second_delete() {
    let mut store = MemStore::new();
    store.write("/d", vec![1]);
    let deleter = OneShotDeleter::new(true);
    deleter.delete_once(&mut store, "/d").unwrap();
    deleter.delete_once(&mut store, "/d").unwrap();
    assert_eq!(store.stat_len("/d"), None);
}

#[test]
fn strict_deleter_reports_the_second_delete_as_not_found() {
    let mut store = MemStore::new();
    store.write("/d", vec![1]);
    let deleter = OneShotDeleter::new(false);
    deleter.delete_once(&mut store, "/d").unwrap();
    let err = deleter.delete_once(&mut store, "/d").unwrap_err();
    assert_eq!(err.kind(), ErrorKind::NotFound);
}
