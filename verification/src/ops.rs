//! Operation parameters: immutable value objects carrying the optional
//! conditional predicates of each call.

use vstd::prelude::*;

verus! {

/// A requested byte range: a starting offset and an optional length.
#[derive(Clone, Copy, Debug, PartialEq, Eq, Structural)]
pub struct BytesRange {
    pub offset: u64,
    pub size: Option<u64>,
}

/// Parameters of a stat call.
#[derive(Clone, Debug, PartialEq, Eq)]
pub struct OpStat {
    pub if_match: Option<String>,
    pub if_none_match: Option<String>,
    pub if_modified_since: Option<i64>,
    pub if_unmodified_since: Option<i64>,
    pub version: Option<String>,
}

impl OpStat {
    /// Stat with no conditions attached.
    pub fn new() -> (r: OpStat)
        ensures
            r.if_match is None,
            r.if_none_match is None,
            r.if_modified_since is None,
            r.if_unmodified_since is None,
            r.version is None,
    {
        OpStat {
            if_match: None,
            if_none_match: None,
            if_modified_since: None,
            if_unmodified_since: None,
            version: None,
        }
    }
}

/// Parameters of a read call.
#[derive(Clone, Debug, PartialEq, Eq)]
pub struct OpRead {
    pub range: BytesRange,
    pub if_match: Option<String>,
    pub if_none_match: Option<String>,
    pub if_modified_since: Option<i64>,
    pub if_unmodified_since: Option<i64>,
    pub version: Option<String>,
}

impl OpRead {
    /// Read the whole object, no conditions attached.
    pub fn new() -> (r: OpRead)
        ensures
            r.range.offset == 0,
            r.range.size is None,
            r.if_match is None,
            r.if_none_match is None,
            r.if_modified_since is None,
            r.if_unmodified_since is None,
            r.version is None,
    {
        OpRead {
            range: BytesRange { offset: 0, size: None },
            if_match: None,
            if_none_match: None,
            if_modified_since: None,
            if_unmodified_since: None,
            version: None,
        }
    }

    /// The same read restricted to a byte range.
    pub fn with_range(self, range: BytesRange) -> (r: OpRead)
        ensures
            r == (OpRead { range, ..self }),
    {
        OpRead { range, ..self }
    }
}

/// Parameters of a write call.
#[derive(Clone, Debug, PartialEq, Eq)]
pub struct OpWrite {
    pub append: bool,
    pub if_not_exists: bool,
    pub if_match: Option<String>,
    pub if_none_match: Option<String>,
    pub concurrent: usize,
}

impl OpWrite {
    /// A plain overwrite, no conditions, sequential upload.
    pub fn new() -> (r: OpWrite)
        ensures
            !r.append,
            !r.if_not_exists,
            r.if_match is None,
            r.if_none_match is None,
            r.concurrent == 1,
    {
        OpWrite {
            append: false,
            if_not_exists: false,
            if_match: None,
            if_none_match: None,
            concurrent: 1,
        }
    }

    /// The same write in append mode.
    pub fn with_append(self, append: bool) -> (r: OpWrite)
        ensures
            r == (OpWrite { append, ..self }),
    {
        OpWrite { append, ..self }
    }

    /// The same write refusing to replace an existing object.
    pub fn with_if_not_exists(self, if_not_exists: bool) -> (r: OpWrite)
        ensures
            r == (OpWrite { if_not_exists, ..self }),
    {
        OpWrite { if_not_exists, ..self }
    }

    /// The same write with the given concurrency hint.
    pub fn with_concurrent(self, concurrent: usize) -> (r: OpWrite)
        ensures
            r == (OpWrite { concurrent, ..self }),
    {
        OpWrite { concurrent, ..self }
    }
}

/// Parameters of a list call.
#[derive(Clone, Copy, Debug, PartialEq, Eq, Structural)]
pub struct OpList {
    pub recursive: bool,
}

impl OpList {
    /// List the direct children only.
    pub fn new() -> (r: OpList)
        ensures
            !r.recursive,
    {
        OpList { recursive: false }
    }

    /// The same listing, descending into sub-folders when asked.
    pub fn with_recursive(self, recursive: bool) -> (r: OpList)
        ensures
            r.recursive == recursive,
    {
        OpList { recursive }
    }
}

/// Parameters of a delete call.
#[derive(Clone, Debug, PartialEq, Eq)]
pub struct OpDelete {
    pub version: Option<String>,
}

impl OpDelete {
    /// Delete whatever version is current.
    pub fn new() -> (r: OpDelete)
        ensures
            r.version is None,
    {
        OpDelete { version: None }
    }
}

} // verus!
