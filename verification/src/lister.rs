//! The OpenDrive lister and the recursive walk over its folders.

use vstd::prelude::*;

use crate::error::Error;
use crate::error::ErrorKind;
use crate::metadata::Entry;

verus! {

/// One lister instance: bound to a path and a recursion choice.
pub struct OpendriveLister {
    pub path: String,
    pub recursive: bool,
}

impl OpendriveLister {
    /// Bind a lister to its path and recursion choice.
    pub fn new(path: String, recursive: bool) -> (r: OpendriveLister)
        ensures
            r.path@ == path@,
            r.recursive == recursive,
    {
        OpendriveLister { path, recursive }
    }
}

/// One folder still to descend into: its identifier (empty when the
/// listing carried none) and its absolute path.
#[derive(Clone, Debug, PartialEq, Eq)]
pub struct PendingFolder {
    pub folder_id: String,
    pub path: String,
}

/// What a folder entry queues for descent.
pub open spec fn spec_pending_of(e: Entry) -> (Seq<char>, Seq<char>) {
    (
        match e.metadata.etag {
            Some(t) => t@,
            None => Seq::<char>::empty(),
        },
        e.path@,
    )
}

/// Queue the folders of one listing for descent, in listing order.
fn pending_from(folders: &Vec<Entry>) -> (r: Vec<PendingFolder>)
    ensures
        r@.len() == folders@.len(),
        forall|k: int|
            0 <= k < folders@.len() ==> ((#[trigger] r@[k]).folder_id@, r@[k].path@)
                == spec_pending_of(folders@[k]),
{
    let mut r: Vec<PendingFolder> = Vec::new();
    let mut i: usize = 0;
    while i < folders.len()
        invariant
            i <= folders@.len(),
            r@.len() == i,
            forall|k: int|
                0 <= k < i ==> ((#[trigger] r@[k]).folder_id@, r@[k].path@) == spec_pending_of(
                    folders@[k],
                ),
        decreases folders@.len() - i,
    {
        let e = &folders[i];
        let folder_id = match &e.metadata.etag {
            Some(t) => t.clone(),
            None => String::new(),
        };
        r.push(PendingFolder { folder_id, path: e.path.clone() });
        i = i + 1;
    }
    r
}

/// The state of a recursive listing walk: the entries gathered so far
/// and the folders whose children are still to be fetched.
pub struct ListWalk {
    pub entries: Vec<Entry>,
    pub pending: Vec<PendingFolder>,
}

impl ListWalk {
    /// Begin a walk from a listed parent: the parent's own entry, its
    /// files, its folders; the folders are queued for descent only
    /// when the walk is recursive.
    pub fn begin(parent_entry: Entry, files: Vec<Entry>, folders: Vec<Entry>, recursive: bool)
        -> (r: ListWalk)
        ensures
            r.entries@ == seq![parent_entry] + files@ + folders@,
            recursive ==> r.pending@.len() == folders@.len() && (forall|k: int|
                0 <= k < folders@.len() ==> ((#[trigger] r.pending@[k]).folder_id@,
                r.pending@[k].path@) == spec_pending_of(folders@[k])),
            !recursive ==> r.pending@.len() == 0,
    {
        let mut entries: Vec<Entry> = Vec::new();
        let ghost pe = parent_entry;
        entries.push(parent_entry);
        let mut files = files;
        let mut folders = folders;
        let ghost fs = files@;
        let ghost ds = folders@;
        entries.append(&mut files);
        let pending: Vec<PendingFolder> = if recursive {
            pending_from(&folders)
        } else {
            Vec::new()
        };
        entries.append(&mut folders);
        proof {
            assert(entries@ =~= seq![pe] + fs + ds);
        }
        ListWalk { entries, pending }
    }

    /// Take the next folder to descend into, newest first; the walk is
    /// done when none is left.
    pub fn next_pending(&mut self) -> (r: Option<PendingFolder>)
        ensures
            old(self).pending@.len() == 0 ==> r is None && final(self).pending@ == old(
                self,
            ).pending@ && final(self).entries@ == old(self).entries@,
            old(self).pending@.len() > 0 ==> (r matches Some(p) && p == old(self).pending@.last()
                && final(self).pending@ == old(self).pending@.drop_last() && final(self).entries@
                == old(self).entries@),
    {
        self.pending.pop()
    }

    /// Absorb one descended folder's children: every child lands in
    /// the gathered entries, and the child folders are queued too.
    pub fn absorb(&mut self, child_files: Vec<Entry>, child_folders: Vec<Entry>)
        ensures
            final(self).entries@ == old(self).entries@ + child_files@ + child_folders@,
            final(self).pending@.len() == old(self).pending@.len() + child_folders@.len(),
            forall|k: int|
                0 <= k < old(self).pending@.len() ==> final(self).pending@[k] == old(
                    self,
                ).pending@[k],
            forall|k: int|
                0 <= k < child_folders@.len() ==> ((#[trigger] final(self).pending@[old(
                    self,
                ).pending@.len() + k]).folder_id@, final(self).pending@[old(
                    self,
                ).pending@.len() + k].path@) == spec_pending_of(child_folders@[k]),
    {
        let mut child_files = child_files;
        let mut child_folders = child_folders;
        let mut queued = pending_from(&child_folders);
        self.entries.append(&mut child_files);
        self.entries.append(&mut child_folders);
        self.pending.append(&mut queued);
    }
}

/// The accumulation state one pagination round fills: the entries
/// delivered to the caller in arrival order, and the completion flag.
pub struct PageContext {
    pub entries: Vec<Entry>,
    pub done: bool,
}

impl PageContext {
    /// A fresh pagination: nothing delivered, not done.
    pub fn new() -> (r: PageContext)
        ensures
            r.entries@.len() == 0,
            !r.done,
    {
        PageContext { entries: Vec::new(), done: false }
    }
}

/// One pagination round as a pure transition: a done pagination takes
/// nothing more; an open one delivers the fetched page whole and is
/// then done.
pub open spec fn spec_page_step(entries: Seq<Entry>, done: bool, page: Seq<Entry>) -> (
    Seq<Entry>,
    bool,
) {
    if done {
        (entries, done)
    } else {
        (entries + page, true)
    }
}

/// A page lister over a fixed backend snapshot delivers every entry of
/// the snapshot exactly once: the first round delivers the whole
/// snapshot and finishes, every later round delivers nothing more; and
/// re-listing the unchanged snapshot from a fresh pagination yields
/// the identical entry sequence.
pub proof fn lemma_page_lister_exactly_once(snapshot: Seq<Entry>)
    ensures
        ({
            let first = spec_page_step(Seq::<Entry>::empty(), false, snapshot);
            let second = spec_page_step(first.0, first.1, snapshot);
            let relisted = spec_page_step(Seq::<Entry>::empty(), false, snapshot);
            &&& first.0 == snapshot
            &&& first.1
            &&& second == first
            &&& relisted.0 == first.0
        }),
{
    assert(Seq::<Entry>::empty() + snapshot =~= snapshot);
}

/// Drive one pagination round with what the backend answered. A done
/// context takes nothing more; a missing listing root is an empty,
/// finished listing, not an error; any other failure propagates with
/// the context unchanged; a listed page is delivered whole and, for
/// this backend, finishes the pagination.
pub fn next_page_step(ctx: &mut PageContext, fetched: Result<Vec<Entry>, Error>) -> (r: Result<
    (),
    Error,
>)
    ensures
        old(ctx).done ==> r is Ok && *final(ctx) == *old(ctx),
        !old(ctx).done ==> match fetched {
            Ok(entries) => r is Ok && final(ctx).entries@ == old(ctx).entries@ + entries@
                && final(ctx).done,
            Err(e) => {
                if e.kind == ErrorKind::NotFound {
                    r is Ok && final(ctx).done && final(ctx).entries@ == old(ctx).entries@
                } else {
                    r matches Err(e2) && e2 == e && *final(ctx) == *old(ctx)
                }
            },
        },
{
    if ctx.done {
        return Ok(());
    }
    match fetched {
        Ok(entries) => {
            let mut entries = entries;
            ctx.entries.append(&mut entries);
            ctx.done = true;
            Ok(())
        },
        Err(e) => {
            if e.kind() == ErrorKind::NotFound {
                ctx.done = true;
                return Ok(());
            }
            Err(e)
        },
    }
}

} // verus!
