use opendal_core::bridge::await_task;
use opendal_core::bridge::opendal_ping;
use opendal_core::bridge::start_task;
use opendal_core::lister::next_page_step;
use opendal_core::lister::ListWalk;
use opendal_core::lister::OpendriveLister;
use opendal_core::lister::PageContext;
use opendal_core::metadata::Entry;
use opendal_core::metadata::EntryMode;
use opendal_core::metadata::Metadata;
use opendal_core::Error;
use opendal_core::ErrorKind;

fn entry(path: &str, etag: &str) -> Entry {
    Entry::new(
        path.to_string(),
        Metadata::new(EntryMode::Dir).with_etag(etag.to_string()),
    )
}

#[test]
fn pagination_delivers_every_entry_exactly_once() {
    let snapshot = vec![entry("/a", "1"), entry("/b", "2"), entry("/c", "3")];
    let mut ctx = PageContext::new();
    next_page_step(&mut ctx, Ok(snapshot.clone())).unwrap();
    assert!(ctx.done);
    assert_eq!(ctx.entries.len(), 3);
    let before = ctx.entries.len();
    next_page_step(&mut ctx, Ok(snapshot.clone())).unwrap();
    assert_eq!(ctx.entries.len(), before);

    let mut relist = PageContext::new();
    next_page_step(&mut relist, Ok(snapshot)).unwrap();
    assert_eq!(relist.entries, ctx.entries);
}

#[test]
fn a_missing_listing_root_is_an_empty_listing() {
    let mut ctx = PageContext::new();
    let gone = Error::new(ErrorKind::NotFound, "root vanished".to_string());
    next_page_step(&mut ctx, Err(gone)).unwrap();
    assert!(ctx.done);
    assert!(ctx.entries.is_empty());
}

#[test]
fn other_listing_failures_propagate() {
    let mut ctx = PageContext::new();
    let denied = Error::new(ErrorKind::PermissionDenied, "no".to_string());
    let err = next_page_step(&mut ctx, Err(denied)).unwrap_err();
    assert_eq!(err.kind(), ErrorKind::PermissionDenied);
    assert!(!ctx.done);
}

#[test]
fn the_walk_queues_folders_only_when_recursive() {
    let parent = entry("/p", "0");
    let files = vec![entry("/p/f", "5")];
    let folders = vec![entry("/p/d", "7")];
    let walk = ListWalk::begin(parent.clone(), files.clone(), folders.clone(), true);
    assert_eq!(walk.entries.len(), 3);
    assert_eq!(walk.pending.len(), 1);
    assert_eq!(walk.pending[0].folder_id, "7");
    assert_eq!(walk.pending[0].path, "/p/d");
    let flat = ListWalk::begin(parent, files, folders, false);
    assert_eq!(flat.entries.len(), 3);
    assert!(flat.pending.is_empty());
}

#[test]
fn the_walk_absorbs_children_and_descends_newest_first() {
    let mut walk = ListWalk::begin(entry("/p", "0"), vec![], vec![entry("/p/d", "7")], true);
    let next = walk.next_pending().unwrap();
    assert_eq!(next.path, "/p/d");
    walk.absorb(vec![entry("/p/d/f", "8")], vec![entry("/p/d/e", "9")]);
    assert_eq!(walk.entries.len(), 4);
    let deeper = walk.next_pending().unwrap();
    assert_eq!(deeper.path, "/p/d/e");
    assert!(walk.next_pending().is_none());
}

#[test]
fn lister_keeps_its_binding() {
    let lister = OpendriveLister::new("/p".to_string(), true);
    assert_eq!(lister.path, "/p");
    assert!(lister.recursive);
}

#[test]
fn awaiting_a_started_task_yields_the_direct_result() {
    let ok = start_task(Ok(vec![1, 2, 3]));
    assert_eq!(await_task(ok).unwrap(), vec![1, 2, 3]);
    let failed = start_task(Err(Error::new(ErrorKind::RateLimited, "later".to_string())));
    assert_eq!(await_task(failed).unwrap_err().kind(), ErrorKind::RateLimited);
}

#[test]
fn detached_work_finishes_without_being_awaited() {
    let runtime = tokio::runtime::Builder::new_multi_thread()
        .worker_threads(2)
        .enable_time()
        .build()
        .unwrap();
    let finished = std::sync::Arc::new(std::sync::atomic::AtomicBool::new(false));
    let observed = finished.clone();
    runtime.block_on(async move {
        let flag = finished.clone();
        tokio::task::spawn(async move {
            tokio::time::sleep(std::time::Duration::from_millis(50)).await;
            flag.store(true, std::sync::atomic::Ordering::Relaxed);
        });
        tokio::time::sleep(std::time::Duration::from_millis(500)).await;
    });
    assert!(observed.load(std::sync::atomic::Ordering::Relaxed));
}

#[test]
fn the_ping_answers() {
    assert_eq!(opendal_ping(), 1);
}
