//! The generic streaming I/O adapters and the in-memory model backend
//! they are proved against.
//!
//! The model backend realizes the backend contract over plain values:
//! a store of path/bytes pairs with the single-shot upload, size query,
//! offset-checked append and single delete primitives the adapters
//! require. Its abstract state is a sequence of path/content pairs;
//! the laws at the end of the module state the adapter guarantees over
//! that state.

use vstd::prelude::*;

use crate::error::Error;
use crate::error::ErrorKind;

verus! {

/// One stored object of the model backend.
pub struct MemObject {
    pub path: String,
    pub data: Vec<u8>,
}

/// The model backend's state: stored objects in insertion order.
pub struct MemStore {
    pub objects: Vec<MemObject>,
}

/// The abstract state of a store: its path/content pairs.
pub open spec fn spec_store_view(store: MemStore) -> Seq<(Seq<char>, Seq<u8>)> {
    store.objects@.map_values(|o: MemObject| (o.path@, o.data@))
}

/// The bytes stored under a path, first match first.
pub open spec fn spec_lookup(objs: Seq<(Seq<char>, Seq<u8>)>, path: Seq<char>) -> Option<Seq<u8>>
    decreases objs.len(),
{
    if objs.len() == 0 {
        None
    } else if objs[0].0 == path {
        Some(objs[0].1)
    } else {
        spec_lookup(objs.drop_first(), path)
    }
}

/// The state after writing bytes under a path: the first pair of that
/// path replaced in place, or a fresh pair appended at the end.
pub open spec fn spec_write(objs: Seq<(Seq<char>, Seq<u8>)>, path: Seq<char>, data: Seq<u8>)
    -> Seq<(Seq<char>, Seq<u8>)>
    decreases objs.len(),
{
    if objs.len() == 0 {
        seq![(path, data)]
    } else if objs[0].0 == path {
        seq![(path, data)] + objs.drop_first()
    } else {
        seq![objs[0]] + spec_write(objs.drop_first(), path, data)
    }
}

/// The state after deleting a path: the first pair of that path
/// removed.
pub open spec fn spec_remove(objs: Seq<(Seq<char>, Seq<u8>)>, path: Seq<char>) -> Seq<
    (Seq<char>, Seq<u8>),
>
    decreases objs.len(),
{
    if objs.len() == 0 {
        objs
    } else if objs[0].0 == path {
        objs.drop_first()
    } else {
        seq![objs[0]] + spec_remove(objs.drop_first(), path)
    }
}

/// The content length a stat of the model backend reports.
pub open spec fn spec_stat_len(objs: Seq<(Seq<char>, Seq<u8>)>, path: Seq<char>) -> Option<int> {
    match spec_lookup(objs, path) {
        Some(data) => Some(data.len() as int),
        None => None,
    }
}

impl MemStore {
    /// An empty backend snapshot.
    pub fn new() -> (r: MemStore)
        ensures
            spec_store_view(r).len() == 0,
    {
        MemStore { objects: Vec::new() }
    }

    /// Find the first object of a path.
    fn find(&self, path: &str) -> (r: Option<usize>)
        ensures
            ({
                let v = spec_store_view(*self);
                match r {
                    Some(i) => i < v.len() && v[i as int].0 == path@ && (forall|j: int|
                        0 <= j < i ==> (#[trigger] v[j]).0 != path@),
                    None => forall|j: int| 0 <= j < v.len() ==> (#[trigger] v[j]).0 != path@,
                }
            }),
    {
        let mut i: usize = 0;
        while i < self.objects.len()
            invariant
                i <= self.objects@.len(),
                forall|j: int|
                    0 <= j < i ==> (#[trigger] spec_store_view(*self)[j]).0 != path@,
            decreases self.objects@.len() - i,
        {
            if self.objects[i].path.eq(&path.to_owned()) {
                return Some(i);
            }
            i = i + 1;
        }
        None
    }

    /// The single-shot upload primitive: store the bytes whole under
    /// the path, replacing any previous content.
    pub fn write(&mut self, path: &str, data: Vec<u8>)
        ensures
            spec_store_view(*final(self)) == spec_write(
                spec_store_view(*old(self)),
                path@,
                data@,
            ),
    {
        let ghost pre = spec_store_view(*self);
        match self.find(path) {
            Some(i) => {
                self.objects.set(i, MemObject { path: path.to_owned(), data });
                proof {
                    lemma_write_at(pre, path@, data@, i as int);
                    assert(spec_store_view(*self) =~= pre.update(i as int, (path@, data@)));
                }
            },
            None => {
                self.objects.push(MemObject { path: path.to_owned(), data });
                proof {
                    lemma_write_absent(pre, path@, data@);
                    assert(spec_store_view(*self) =~= pre.push((path@, data@)));
                }
            },
        }
    }

    /// The size-query primitive: the stored content length, if any.
    pub fn stat_len(&self, path: &str) -> (r: Option<u64>)
        ensures
            ({
                let v = spec_store_view(*self);
                match spec_lookup(v, path@) {
                    Some(data) => r matches Some(n) && n == data.len(),
                    None => r is None,
                }
            }),
    {
        match self.find(path) {
            Some(i) => {
                proof {
                    lemma_lookup_at(spec_store_view(*self), path@, i as int);
                }
                Some(self.objects[i].data.len() as u64)
            },
            None => {
                proof {
                    lemma_lookup_absent(spec_store_view(*self), path@);
                }
                None
            },
        }
    }

    /// The offset-checked append primitive: the claimed offset must
    /// equal the object's current size (a missing object counts as
    /// empty), else the append fails with `ConditionNotMatch` and the
    /// store is untouched — an append is not an overwrite.
    pub fn append(&mut self, path: &str, offset: u64, data: Vec<u8>) -> (r: Result<(), Error>)
        ensures
            ({
                let pre = spec_store_view(*old(self));
                let current = match spec_lookup(pre, path@) {
                    Some(d) => d,
                    None => Seq::<u8>::empty(),
                };
                if current.len() == offset {
                    r is Ok && spec_store_view(*final(self)) == spec_write(
                        pre,
                        path@,
                        current + data@,
                    )
                } else {
                    r matches Err(e) && e.kind == ErrorKind::ConditionNotMatch
                        && spec_store_view(*final(self)) == pre
                }
            }),
    {
        let ghost pre = spec_store_view(*self);
        match self.find(path) {
            Some(i) => {
                proof {
                    lemma_lookup_at(pre, path@, i as int);
                }
                if self.objects[i].data.len() as u64 != offset {
                    return Err(
                        Error::new(
                            ErrorKind::ConditionNotMatch,
                            "append offset does not match current size".to_owned(),
                        ),
                    );
                }
                let ghost current = pre[i as int].1;
                let ghost data0 = data@;
                let mut data = data;
                let mut grown: Vec<u8> = Vec::new();
                let mut k: usize = 0;
                while k < self.objects[i].data.len()
                    invariant
                        i < self.objects@.len(),
                        k <= self.objects@[i as int].data@.len(),
                        grown@ == self.objects@[i as int].data@.take(k as int),
                    decreases self.objects@[i as int].data@.len() - k,
                {
                    let b = self.objects[i].data[k];
                    grown.push(b);
                    proof {
                        assert(self.objects@[i as int].data@.take(k + 1)
                            =~= self.objects@[i as int].data@.take(k as int).push(b));
                    }
                    k = k + 1;
                }
                proof {
                    assert(self.objects@[i as int].data@.take(
                        self.objects@[i as int].data@.len() as int,
                    ) =~= self.objects@[i as int].data@);
                }
                grown.append(&mut data);
                proof {
                    assert(grown@ == current + data0);
                }
                self.objects.set(i, MemObject { path: path.to_owned(), data: grown });
                proof {
                    lemma_write_at(pre, path@, current + data0, i as int);
                    assert(spec_store_view(*self) =~= pre.update(
                        i as int,
                        (path@, current + data0),
                    ));
                }
                Ok(())
            },
            None => {
                proof {
                    lemma_lookup_absent(pre, path@);
                }
                if offset != 0 {
                    return Err(
                        Error::new(
                            ErrorKind::ConditionNotMatch,
                            "append offset does not match current size".to_owned(),
                        ),
                    );
                }
                self.objects.push(MemObject { path: path.to_owned(), data });
                proof {
                    lemma_write_absent(pre, path@, spec_store_view(*self).last().1);
                    assert(Seq::<u8>::empty() + spec_store_view(*self).last().1
                        =~= spec_store_view(*self).last().1);
                    assert(spec_store_view(*self) =~= pre.push(spec_store_view(*self).last()));
                }
                Ok(())
            },
        }
    }

    /// The single-delete primitive. Deleting an absent object either
    /// succeeds (idempotent semantics) or reports `NotFound`, by the
    /// backend's declared choice — never a mix across calls.
    pub fn delete(&mut self, path: &str, idempotent: bool) -> (r: Result<(), Error>)
        ensures
            ({
                let pre = spec_store_view(*old(self));
                if spec_lookup(pre, path@) is Some {
                    r is Ok && spec_store_view(*final(self)) == spec_remove(pre, path@)
                } else if idempotent {
                    r is Ok && spec_store_view(*final(self)) == pre
                } else {
                    r matches Err(e) && e.kind == ErrorKind::NotFound && spec_store_view(
                        *final(self),
                    ) == pre
                }
            }),
    {
        let ghost pre = spec_store_view(*self);
        match self.find(path) {
            Some(i) => {
                proof {
                    lemma_lookup_at(pre, path@, i as int);
                }
                self.objects.remove(i);
                proof {
                    lemma_remove_at(pre, path@, i as int);
                    assert(spec_store_view(*self) =~= pre.remove(i as int));
                }
                Ok(())
            },
            None => {
                proof {
                    lemma_lookup_absent(pre, path@);
                }
                if idempotent {
                    Ok(())
                } else {
                    Err(Error::new(ErrorKind::NotFound, "object not found".to_owned()))
                }
            },
        }
    }
}

proof fn lemma_lookup_at(objs: Seq<(Seq<char>, Seq<u8>)>, path: Seq<char>, i: int)
    requires
        0 <= i < objs.len(),
        objs[i].0 == path,
        forall|j: int| 0 <= j < i ==> (#[trigger] objs[j]).0 != path,
    ensures
        spec_lookup(objs, path) == Some(objs[i].1),
    decreases i,
{
    if i == 0 {
    } else {
        lemma_lookup_at(objs.drop_first(), path, i - 1);
    }
}

proof fn lemma_lookup_absent(objs: Seq<(Seq<char>, Seq<u8>)>, path: Seq<char>)
    requires
        forall|j: int| 0 <= j < objs.len() ==> (#[trigger] objs[j]).0 != path,
    ensures
        spec_lookup(objs, path) is None,
    decreases objs.len(),
{
    if objs.len() > 0 {
        lemma_lookup_absent(objs.drop_first(), path);
    }
}

proof fn lemma_write_at(objs: Seq<(Seq<char>, Seq<u8>)>, path: Seq<char>, data: Seq<u8>, i: int)
    requires
        0 <= i < objs.len(),
        objs[i].0 == path,
        forall|j: int| 0 <= j < i ==> (#[trigger] objs[j]).0 != path,
    ensures
        spec_write(objs, path, data) == objs.update(i, (path, data)),
    decreases i,
{
    if i == 0 {
        assert(spec_write(objs, path, data) =~= objs.update(0, (path, data)));
    } else {
        lemma_write_at(objs.drop_first(), path, data, i - 1);
        assert(objs.update(i, (path, data)).drop_first() =~= objs.drop_first().update(
            i - 1,
            (path, data),
        ));
        assert(spec_write(objs, path, data) =~= objs.update(i, (path, data)));
    }
}

proof fn lemma_write_absent(objs: Seq<(Seq<char>, Seq<u8>)>, path: Seq<char>, data: Seq<u8>)
    requires
        forall|j: int| 0 <= j < objs.len() ==> (#[trigger] objs[j]).0 != path,
    ensures
        spec_write(objs, path, data) == objs.push((path, data)),
    decreases objs.len(),
{
    if objs.len() == 0 {
        assert(spec_write(objs, path, data) =~= objs.push((path, data)));
    } else {
        lemma_write_absent(objs.drop_first(), path, data);
        assert(objs.push((path, data)).drop_first() =~= objs.drop_first().push((path, data)));
        assert(spec_write(objs, path, data) =~= objs.push((path, data)));
    }
}

/// The One-Shot Writer: accumulates sequential chunks in memory and,
/// on close, issues exactly one single-shot upload; a second close is
/// rejected.
pub struct OneShotWriter {
    pub path: String,
    pub buffer: Vec<u8>,
    pub closed: bool,
}

impl OneShotWriter {
    /// An open writer for the path, nothing buffered.
    pub fn new(path: &str) -> (r: OneShotWriter)
        ensures
            r.path@ == path@,
            r.buffer@.len() == 0,
            !r.closed,
    {
        OneShotWriter { path: path.to_owned(), buffer: Vec::new(), closed: false }
    }

    /// Buffer one more chunk; a closed writer takes nothing.
    pub fn write(&mut self, chunk: Vec<u8>) -> (r: Result<(), Error>)
        ensures
            old(self).closed ==> (r matches Err(e) && e.kind == ErrorKind::Unexpected
                && final(self).buffer@ == old(self).buffer@ && final(self).closed),
            !old(self).closed ==> r is Ok && final(self).buffer@ == old(self).buffer@ + chunk@
                && !final(self).closed,
            final(self).path@ == old(self).path@,
    {
        if self.closed {
            return Err(Error::new(ErrorKind::Unexpected, "writer is already closed".to_owned()));
        }
        let mut chunk = chunk;
        self.buffer.append(&mut chunk);
        Ok(())
    }

    /// Close the writer: the one and only upload of the accumulated
    /// payload. Closing twice fails and uploads nothing again.
    pub fn close(&mut self, store: &mut MemStore) -> (r: Result<(), Error>)
        ensures
            old(self).closed ==> (r matches Err(e) && e.kind == ErrorKind::Unexpected
                && spec_store_view(*final(store)) == spec_store_view(*old(store))),
            !old(self).closed ==> r is Ok && final(self).closed && spec_store_view(
                *final(store),
            ) == spec_write(
                spec_store_view(*old(store)),
                old(self).path@,
                old(self).buffer@,
            ),
            final(self).path@ == old(self).path@,
            final(self).buffer@ == old(self).buffer@,
    {
        if self.closed {
            return Err(Error::new(ErrorKind::Unexpected, "writer is already closed".to_owned()));
        }
        let mut payload: Vec<u8> = Vec::new();
        let mut k: usize = 0;
        while k < self.buffer.len()
            invariant
                k <= self.buffer@.len(),
                payload@ == self.buffer@.take(k as int),
            decreases self.buffer@.len() - k,
        {
            let b = self.buffer[k];
            payload.push(b);
            proof {
                assert(self.buffer@.take(k + 1) =~= self.buffer@.take(k as int).push(b));
            }
            k = k + 1;
        }
        proof {
            assert(self.buffer@.take(self.buffer@.len() as int) =~= self.buffer@);
        }
        store.write(self.path.as_str(), payload);
        self.closed = true;
        Ok(())
    }
}

/// The Append Writer: learns the object's current size once, then
/// hands offset-claiming appends to the backend, which validates each
/// claimed offset against the actual size.
pub struct AppendWriter {
    pub path: String,
    pub offset: Option<u64>,
}

impl AppendWriter {
    /// An append writer for the path, offset not yet learned.
    pub fn new(path: &str) -> (r: AppendWriter)
        ensures
            r.path@ == path@,
            r.offset is None,
    {
        AppendWriter { path: path.to_owned(), offset: None }
    }

    /// Learn the current append offset: the object's size, an absent
    /// object counting as empty.
    pub fn current_offset(&mut self, store: &MemStore) -> (r: u64)
        ensures
            final(self).path@ == old(self).path@,
            final(self).offset == Some(r),
            ({
                let v = spec_store_view(*store);
                match spec_lookup(v, old(self).path@) {
                    Some(data) => r == data.len(),
                    None => r == 0,
                }
            }),
    {
        let offset = match store.stat_len(self.path.as_str()) {
            Some(n) => n,
            None => 0,
        };
        self.offset = Some(offset);
        offset
    }

    /// Append at the claimed offset: the backend checks the claim
    /// against the object's actual size and refuses a mismatch with
    /// `ConditionNotMatch`; an append is never an overwrite.
    pub fn append(&mut self, store: &mut MemStore, offset: u64, data: Vec<u8>) -> (r: Result<
        (),
        Error,
    >)
        requires
            offset + data@.len() <= u64::MAX,
        ensures
            final(self).path@ == old(self).path@,
            ({
                let pre = spec_store_view(*old(store));
                let current = match spec_lookup(pre, old(self).path@) {
                    Some(d) => d,
                    None => Seq::<u8>::empty(),
                };
                if current.len() == offset {
                    r is Ok && spec_store_view(*final(store)) == spec_write(
                        pre,
                        old(self).path@,
                        current + data@,
                    ) && final(self).offset == Some((offset + data@.len()) as u64)
                } else {
                    r matches Err(e) && e.kind == ErrorKind::ConditionNotMatch
                        && spec_store_view(*final(store)) == pre
                }
            }),
    {
        let len: usize = data.len();
        match store.append(self.path.as_str(), offset, data) {
            Ok(u) => {
                self.offset = Some(offset + len as u64);
                Ok(())
            },
            Err(e) => Err(e),
        }
    }
}

/// The slots of a multipart upload: one optional payload per part.
pub open spec fn spec_slots(parts: Seq<Option<Vec<u8>>>) -> Seq<Option<Seq<u8>>> {
    parts.map_values(
        |p: Option<Vec<u8>>|
            match p {
                Some(d) => Some(d@),
                None => None,
            },
    )
}

/// The committed object: the parts concatenated in index order, a
/// missing part contributing nothing.
pub open spec fn spec_concat_slots(slots: Seq<Option<Seq<u8>>>) -> Seq<u8>
    decreases slots.len(),
{
    if slots.len() == 0 {
        Seq::<u8>::empty()
    } else {
        (match slots[0] {
            Some(d) => d,
            None => Seq::<u8>::empty(),
        }) + spec_concat_slots(slots.drop_first())
    }
}

/// The sequential concatenation of a part sequence.
pub open spec fn spec_concat_parts(parts: Seq<Seq<u8>>) -> Seq<u8>
    decreases parts.len(),
{
    if parts.len() == 0 {
        Seq::<u8>::empty()
    } else {
        parts[0] + spec_concat_parts(parts.drop_first())
    }
}

/// The Multipart Writer: a fixed set of part slots filled concurrently
/// under a permit bound; part order is the slot index, independent of
/// completion order. The first failure is kept, in-flight work drains,
/// and finalize refuses anything but a complete, failure-free upload.
pub struct MultipartUpload {
    pub parts: Vec<Option<Vec<u8>>>,
    pub limit: usize,
    pub in_flight: usize,
    pub failed: Option<usize>,
}

impl MultipartUpload {
    /// Whether the permit bookkeeping is coherent.
    pub open spec fn spec_wf(&self) -> bool {
        self.in_flight <= self.limit && self.limit >= 1
    }

    /// An upload of the given part count under the given concurrency
    /// limit.
    pub fn new(part_count: usize, limit: usize) -> (r: MultipartUpload)
        requires
            limit >= 1,
        ensures
            r.spec_wf(),
            r.parts@.len() == part_count,
            forall|k: int| 0 <= k < part_count ==> (#[trigger] r.parts@[k]) is None,
            r.in_flight == 0,
            r.failed is None,
    {
        let mut parts: Vec<Option<Vec<u8>>> = Vec::new();
        let mut i: usize = 0;
        while i < part_count
            invariant
                i <= part_count,
                parts@.len() == i,
                forall|k: int| 0 <= k < i ==> (#[trigger] parts@[k]) is None,
            decreases part_count - i,
        {
            parts.push(None);
            i = i + 1;
        }
        MultipartUpload { parts, limit, in_flight: 0, failed: None }
    }

    /// Take a permit to start one part: granted exactly while fewer
    /// parts are in flight than the limit allows.
    pub fn begin_part(&mut self) -> (r: bool)
        requires
            old(self).spec_wf(),
        ensures
            final(self).spec_wf(),
            r == (old(self).in_flight < old(self).limit),
            r ==> final(self).in_flight == old(self).in_flight + 1,
            !r ==> final(self).in_flight == old(self).in_flight,
            final(self).parts@ == old(self).parts@,
            final(self).failed == old(self).failed,
            final(self).limit == old(self).limit,
    {
        if self.in_flight < self.limit {
            self.in_flight = self.in_flight + 1;
            true
        } else {
            false
        }
    }

    /// Deliver one uploaded part into its slot, releasing its permit;
    /// every other slot stays as it was.
    pub fn complete_part(&mut self, index: usize, data: Vec<u8>)
        requires
            old(self).spec_wf(),
            old(self).in_flight >= 1,
            index < old(self).parts@.len(),
            old(self).parts@[index as int] is None,
        ensures
            final(self).spec_wf(),
            spec_slots(final(self).parts@) == spec_slots(old(self).parts@).update(
                index as int,
                Some(data@),
            ),
            final(self).in_flight == old(self).in_flight - 1,
            final(self).failed == old(self).failed,
            final(self).limit == old(self).limit,
    {
        let ghost d = data@;
        self.parts.set(index, Some(data));
        self.in_flight = self.in_flight - 1;
        proof {
            assert(spec_slots(self.parts@) =~= spec_slots(old(self).parts@).update(
                index as int,
                Some(d),
            ));
        }
    }

    /// Record one part's failure, releasing its permit; the first
    /// failing part's identity is kept for diagnostics.
    pub fn fail_part(&mut self, index: usize)
        requires
            old(self).spec_wf(),
            old(self).in_flight >= 1,
        ensures
            final(self).spec_wf(),
            final(self).parts@ == old(self).parts@,
            final(self).in_flight == old(self).in_flight - 1,
            old(self).failed is None ==> final(self).failed == Some(index),
            old(self).failed is Some ==> final(self).failed == old(self).failed,
            final(self).limit == old(self).limit,
    {
        self.in_flight = self.in_flight - 1;
        if self.failed.is_none() {
            self.failed = Some(index);
        }
    }

    /// Commit the upload: only once every part settled and none
    /// failed, the object is the parts in index order, byte for byte —
    /// whatever order they completed in. A failure carries the failing
    /// part's index; an unsettled upload is refused.
    pub fn finalize(&self, store: &mut MemStore, path: &str) -> (r: Result<(), Error>)
        ensures
            ({
                let slots = spec_slots(self.parts@);
                if self.failed matches Some(i) {
                    r matches Err(e) && e.kind == ErrorKind::Unexpected && spec_store_view(
                        *final(store),
                    ) == spec_store_view(*old(store))
                } else if self.in_flight > 0 || (exists|k: int|
                    0 <= k < slots.len() && slots[k] is None) {
                    r matches Err(e) && e.kind == ErrorKind::Unexpected && spec_store_view(
                        *final(store),
                    ) == spec_store_view(*old(store))
                } else {
                    r is Ok && spec_store_view(*final(store)) == spec_write(
                        spec_store_view(*old(store)),
                        path@,
                        spec_concat_slots(slots),
                    )
                }
            }),
    {
        if self.failed.is_some() {
            return Err(
                Error::new(
                    ErrorKind::Unexpected,
                    "a part of the multipart upload failed".to_owned(),
                ),
            );
        }
        if self.in_flight > 0 {
            return Err(
                Error::new(ErrorKind::Unexpected, "parts are still in flight".to_owned()),
            );
        }
        let mut payload: Vec<u8> = Vec::new();
        let mut i: usize = 0;
        while i < self.parts.len()
            invariant
                i <= self.parts@.len(),
                forall|k: int|
                    0 <= k < i ==> (#[trigger] spec_slots(self.parts@)[k]) is Some,
                payload@ == spec_concat_slots(spec_slots(self.parts@).take(i as int)),
            decreases self.parts@.len() - i,
        {
            match &self.parts[i] {
                Some(data) => {
                    let mut k: usize = 0;
                    let ghost base = payload@;
                    while k < data.len()
                        invariant
                            k <= data@.len(),
                            payload@ == base + data@.take(k as int),
                        decreases data@.len() - k,
                    {
                        let b = data[k];
                        payload.push(b);
                        proof {
                            assert(data@.take(k + 1) =~= data@.take(k as int).push(b));
                            assert(base + data@.take(k + 1) =~= (base + data@.take(
                                k as int,
                            )).push(b));
                        }
                        k = k + 1;
                    }
                    proof {
                        assert(data@.take(data@.len() as int) =~= data@);
                        lemma_concat_take_step(spec_slots(self.parts@), i as int);
                    }
                },
                None => {
                    proof {
                        assert(spec_slots(self.parts@)[i as int] is None);
                    }
                    return Err(
                        Error::new(ErrorKind::Unexpected, "a part is missing".to_owned()),
                    );
                },
            }
            i = i + 1;
        }
        proof {
            assert(spec_slots(self.parts@).take(self.parts@.len() as int) =~= spec_slots(
                self.parts@,
            ));
        }
        store.write(path, payload);
        Ok(())
    }
}

proof fn lemma_concat_take_step(slots: Seq<Option<Seq<u8>>>, i: int)
    requires
        0 <= i < slots.len(),
    ensures
        spec_concat_slots(slots.take(i + 1)) == spec_concat_slots(slots.take(i)) + (match slots[i] {
            Some(d) => d,
            None => Seq::<u8>::empty(),
        }),
    decreases i,
{
    if i == 0 {
        assert(slots.take(1) =~= seq![slots[0]]);
        assert(slots.take(1).drop_first() =~= Seq::<Option<Seq<u8>>>::empty());
        assert(slots.take(0) =~= Seq::<Option<Seq<u8>>>::empty());
        assert(spec_concat_slots(slots.take(i + 1)) =~= spec_concat_slots(slots.take(i)) + (
        match slots[i] {
            Some(d) => d,
            None => Seq::<u8>::empty(),
        }));
    } else {
        lemma_concat_take_step(slots.drop_first(), i - 1);
        assert(slots.take(i + 1).drop_first() =~= slots.drop_first().take(i));
        assert(slots.take(i).drop_first() =~= slots.drop_first().take(i - 1));
        assert(spec_concat_slots(slots.take(i + 1)) =~= spec_concat_slots(slots.take(i)) + (
        match slots[i] {
            Some(d) => d,
            None => Seq::<u8>::empty(),
        }));
    }
}

/// The One-Shot Deleter: the single-object delete primitive wrapped
/// uniformly; whether deleting an absent object succeeds or reports
/// `NotFound` is the backend's declared choice, passed through
/// unmasked.
pub struct OneShotDeleter {
    pub idempotent: bool,
}

impl OneShotDeleter {
    /// A deleter over a backend of the declared absent-delete choice.
    pub fn new(idempotent: bool) -> (r: OneShotDeleter)
        ensures
            r.idempotent == idempotent,
    {
        OneShotDeleter { idempotent }
    }

    /// Delete one object, with the backend's declared semantics for an
    /// absent one.
    pub fn delete_once(&self, store: &mut MemStore, path: &str) -> (r: Result<(), Error>)
        ensures
            ({
                let pre = spec_store_view(*old(store));
                if spec_lookup(pre, path@) is Some {
                    r is Ok && spec_store_view(*final(store)) == spec_remove(pre, path@)
                } else if self.idempotent {
                    r is Ok && spec_store_view(*final(store)) == pre
                } else {
                    r matches Err(e) && e.kind == ErrorKind::NotFound && spec_store_view(
                        *final(store),
                    ) == pre
                }
            }),
    {
        store.delete(path, self.idempotent)
    }
}

/// A store whose paths are pairwise distinct.
pub open spec fn spec_wf(objs: Seq<(Seq<char>, Seq<u8>)>) -> bool {
    forall|i: int, j: int|
        0 <= i < j < objs.len() ==> (#[trigger] objs[i]).0 != (#[trigger] objs[j]).0
}

/// Writing a path stores exactly the written bytes under it.
pub proof fn lemma_lookup_after_write(
    objs: Seq<(Seq<char>, Seq<u8>)>,
    path: Seq<char>,
    data: Seq<u8>,
)
    ensures
        spec_lookup(spec_write(objs, path, data), path) == Some(data),
    decreases objs.len(),
{
    if objs.len() == 0 {
        assert(spec_write(objs, path, data)[0] == (path, data));
    } else if objs[0].0 == path {
        assert(spec_write(objs, path, data)[0] == (path, data));
    } else {
        lemma_lookup_after_write(objs.drop_first(), path, data);
        let w = spec_write(objs, path, data);
        assert(w[0] == objs[0]);
        assert(w.drop_first() =~= spec_write(objs.drop_first(), path, data));
    }
}

/// Writing one path leaves every other path's content untouched.
pub proof fn lemma_write_preserves_others(
    objs: Seq<(Seq<char>, Seq<u8>)>,
    path: Seq<char>,
    data: Seq<u8>,
    other: Seq<char>,
)
    requires
        other != path,
    ensures
        spec_lookup(spec_write(objs, path, data), other) == spec_lookup(objs, other),
    decreases objs.len(),
{
    if objs.len() == 0 {
        assert(spec_write(objs, path, data)[0] == (path, data));
        assert(spec_write(objs, path, data).drop_first() =~= objs);
    } else if objs[0].0 == path {
        let w = spec_write(objs, path, data);
        assert(w[0] == (path, data));
        assert(w.drop_first() =~= objs.drop_first());
    } else {
        lemma_write_preserves_others(objs.drop_first(), path, data, other);
        let w = spec_write(objs, path, data);
        assert(w[0] == objs[0]);
        assert(w.drop_first() =~= spec_write(objs.drop_first(), path, data));
    }
}

/// For every backend snapshot: a stat right after a write reports a
/// content length equal to the written byte count.
pub proof fn lemma_stat_reports_written_length(
    objs: Seq<(Seq<char>, Seq<u8>)>,
    path: Seq<char>,
    data: Seq<u8>,
)
    ensures
        spec_stat_len(spec_write(objs, path, data), path) == Some(data.len() as int),
{
    lemma_lookup_after_write(objs, path, data);
}

/// An accepted append keeps the object's old bytes as an untouched
/// prefix: an append is never an overwrite.
pub proof fn lemma_append_preserves_prefix(
    objs: Seq<(Seq<char>, Seq<u8>)>,
    path: Seq<char>,
    current: Seq<u8>,
    data: Seq<u8>,
)
    requires
        spec_lookup(objs, path) == Some(current),
    ensures
        spec_lookup(spec_write(objs, path, current + data), path) == Some(current + data),
        (current + data).take(current.len() as int) == current,
{
    lemma_lookup_after_write(objs, path, current + data);
    assert((current + data).take(current.len() as int) =~= current);
}

/// Removing a path from a store of distinct paths leaves nothing
/// stored under it.
pub proof fn lemma_remove_resolves(objs: Seq<(Seq<char>, Seq<u8>)>, path: Seq<char>)
    requires
        spec_wf(objs),
    ensures
        spec_lookup(spec_remove(objs, path), path) is None,
    decreases objs.len(),
{
    if objs.len() == 0 {
    } else if objs[0].0 == path {
        assert forall|j: int|
            0 <= j < objs.drop_first().len() implies (#[trigger] objs.drop_first()[j]).0
            != path by {
            assert(objs.drop_first()[j] == objs[j + 1]);
        }
        lemma_lookup_absent(objs.drop_first(), path);
    } else {
        assert(spec_wf(objs.drop_first())) by {
            assert forall|i: int, j: int|
                0 <= i < j < objs.drop_first().len() implies (#[trigger] objs.drop_first()[
                i]).0 != (#[trigger] objs.drop_first()[j]).0 by {
                assert(objs.drop_first()[i] == objs[i + 1]);
                assert(objs.drop_first()[j] == objs[j + 1]);
            }
        }
        lemma_remove_resolves(objs.drop_first(), path);
        let w = spec_remove(objs, path);
        assert(w[0] == objs[0]);
        assert(w.drop_first() =~= spec_remove(objs.drop_first(), path));
    }
}

/// Whether a delete call on the given snapshot succeeds.
pub open spec fn spec_delete_succeeds(
    objs: Seq<(Seq<char>, Seq<u8>)>,
    path: Seq<char>,
    idempotent: bool,
) -> bool {
    spec_lookup(objs, path) is Some || idempotent
}

/// Deleting a stored path twice in sequence: the first delete
/// succeeds; the second succeeds exactly on an idempotent backend and
/// reports not-found otherwise — the same choice on every call, never
/// a mix.
pub proof fn lemma_delete_twice_consistent(
    objs: Seq<(Seq<char>, Seq<u8>)>,
    path: Seq<char>,
    idempotent: bool,
)
    requires
        spec_wf(objs),
        spec_lookup(objs, path) is Some,
    ensures
        spec_delete_succeeds(objs, path, idempotent),
        spec_delete_succeeds(spec_remove(objs, path), path, idempotent) == idempotent,
{
    lemma_remove_resolves(objs, path);
}

/// The slots after completing parts in some order: each completion
/// fills the slot its index names.
pub open spec fn spec_complete_fold(
    slots: Seq<Option<Seq<u8>>>,
    parts: Seq<Seq<u8>>,
    order: Seq<int>,
) -> Seq<Option<Seq<u8>>>
    decreases order.len(),
{
    if order.len() == 0 {
        slots
    } else {
        spec_complete_fold(slots, parts, order.drop_last()).update(
            order.last(),
            Some(parts[order.last()]),
        )
    }
}

/// The slots with no part delivered yet.
pub open spec fn spec_empty_slots(n: nat) -> Seq<Option<Seq<u8>>> {
    Seq::new(n, |i: int| None)
}

/// True when the completion order delivers the part of the given
/// index at least once.
pub open spec fn spec_order_covers(order: Seq<int>, i: int) -> bool {
    exists|k: int| 0 <= k < order.len() && #[trigger] order[k] == i
}

proof fn lemma_fold_value(
    slots: Seq<Option<Seq<u8>>>,
    parts: Seq<Seq<u8>>,
    order: Seq<int>,
    i: int,
)
    requires
        slots.len() == parts.len(),
        forall|k: int| 0 <= k < order.len() ==> 0 <= #[trigger] order[k] < parts.len(),
        0 <= i < parts.len(),
    ensures
        spec_complete_fold(slots, parts, order)[i] == if spec_order_covers(order, i) {
            Some(parts[i])
        } else {
            slots[i]
        },
        spec_complete_fold(slots, parts, order).len() == slots.len(),
    decreases order.len(),
{
    if order.len() == 0 {
    } else {
        lemma_fold_value(slots, parts, order.drop_last(), i);
        let o = order.last();
        if i == o {
            assert(order[order.len() - 1] == i);
            assert(spec_order_covers(order, i));
        } else {
            if spec_order_covers(order, i) {
                let k = choose|k: int| 0 <= k < order.len() && #[trigger] order[k] == i;
                assert(k < order.len() - 1);
                assert(order.drop_last()[k] == i);
                assert(spec_order_covers(order.drop_last(), i));
            }
            if spec_order_covers(order.drop_last(), i) {
                let k = choose|k: int|
                    0 <= k < order.drop_last().len() && #[trigger] order.drop_last()[k] == i;
                assert(order[k] == i);
                assert(spec_order_covers(order, i));
            }
        }
    }
}

proof fn lemma_concat_slots_of_parts(slots: Seq<Option<Seq<u8>>>, parts: Seq<Seq<u8>>)
    requires
        slots.len() == parts.len(),
        forall|i: int| 0 <= i < parts.len() ==> #[trigger] slots[i] == Some(parts[i]),
    ensures
        spec_concat_slots(slots) == spec_concat_parts(parts),
    decreases parts.len(),
{
    if parts.len() > 0 {
        assert forall|i: int|
            0 <= i < parts.drop_first().len() implies #[trigger] slots.drop_first()[i] == Some(
            parts.drop_first()[i],
        ) by {
            assert(slots.drop_first()[i] == slots[i + 1]);
            assert(parts.drop_first()[i] == parts[i + 1]);
        }
        lemma_concat_slots_of_parts(slots.drop_first(), parts.drop_first());
        assert(slots[0] == Some(parts[0]));
    }
}

/// Completing every part of a multipart upload, in any order that
/// delivers each part at least once under its own index, leaves the
/// committed object byte-identical to the sequential concatenation of
/// the parts — the completion order is irrelevant.
pub proof fn lemma_completion_order_irrelevant(parts: Seq<Seq<u8>>, order: Seq<int>)
    requires
        forall|k: int| 0 <= k < order.len() ==> 0 <= #[trigger] order[k] < parts.len(),
        forall|i: int| 0 <= i < parts.len() ==> #[trigger] spec_order_covers(order, i),
    ensures
        spec_concat_slots(spec_complete_fold(spec_empty_slots(parts.len()), parts, order))
            == spec_concat_parts(parts),
{
    let slots0 = spec_empty_slots(parts.len());
    let folded = spec_complete_fold(slots0, parts, order);
    assert forall|i: int| 0 <= i < parts.len() implies #[trigger] folded[i] == Some(
        parts[i],
    ) by {
        lemma_fold_value(slots0, parts, order, i);
    }
    if parts.len() == 0 {
        assert(folded =~= slots0);
    } else {
        lemma_fold_value(slots0, parts, order, 0);
    }
    lemma_concat_slots_of_parts(folded, parts);
}

proof fn lemma_remove_at(objs: Seq<(Seq<char>, Seq<u8>)>, path: Seq<char>, i: int)
    requires
        0 <= i < objs.len(),
        objs[i].0 == path,
        forall|j: int| 0 <= j < i ==> (#[trigger] objs[j]).0 != path,
    ensures
        spec_remove(objs, path) == objs.remove(i),
    decreases i,
{
    if i == 0 {
        assert(spec_remove(objs, path) =~= objs.remove(0));
    } else {
        lemma_remove_at(objs.drop_first(), path, i - 1);
        assert(objs.remove(i).drop_first() =~= objs.drop_first().remove(i - 1));
        assert(spec_remove(objs, path) =~= objs.remove(i));
    }
}

} // verus!
