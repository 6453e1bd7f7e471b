//! The result shape of stat and list: one storage object's metadata.

use vstd::prelude::*;

verus! {

/// Whether a path names a file or a directory.
#[derive(Clone, Copy, Debug, PartialEq, Eq, Structural)]
pub enum EntryMode {
    File,
    Dir,
}

/// Immutable description of one storage object, as a backend reported
/// it. Timestamps are Unix seconds.
#[derive(Clone, Debug, PartialEq, Eq)]
pub struct Metadata {
    pub mode: EntryMode,
    pub last_modified: Option<i64>,
    pub version: Option<String>,
    pub etag: Option<String>,
    pub content_length: Option<u64>,
}

impl Metadata {
    /// Fresh metadata of the given mode with every optional field unset.
    pub fn new(mode: EntryMode) -> (r: Metadata)
        ensures
            r.mode == mode,
            r.last_modified is None,
            r.version is None,
            r.etag is None,
            r.content_length is None,
    {
        Metadata { mode, last_modified: None, version: None, etag: None, content_length: None }
    }

    /// The same metadata with the last-modified timestamp set.
    pub fn with_last_modified(self, last_modified: i64) -> (r: Metadata)
        ensures
            r == (Metadata { last_modified: Some(last_modified), ..self }),
    {
        Metadata { last_modified: Some(last_modified), ..self }
    }

    /// The same metadata with the version token set.
    pub fn with_version(self, version: String) -> (r: Metadata)
        ensures
            r == (Metadata { version: Some(version), ..self }),
    {
        Metadata { version: Some(version), ..self }
    }

    /// The same metadata with the etag set.
    pub fn with_etag(self, etag: String) -> (r: Metadata)
        ensures
            r == (Metadata { etag: Some(etag), ..self }),
    {
        Metadata { etag: Some(etag), ..self }
    }

    /// The same metadata with the content length set.
    pub fn with_content_length(self, content_length: u64) -> (r: Metadata)
        ensures
            r == (Metadata { content_length: Some(content_length), ..self }),
    {
        Metadata { content_length: Some(content_length), ..self }
    }

    /// Whether the object is a file.
    pub fn is_file(&self) -> (r: bool)
        ensures
            r == (self.mode == EntryMode::File),
    {
        match self.mode {
            EntryMode::File => true,
            EntryMode::Dir => false,
        }
    }

    /// Whether the object is a directory.
    pub fn is_dir(&self) -> (r: bool)
        ensures
            r == (self.mode == EntryMode::Dir),
    {
        match self.mode {
            EntryMode::Dir => true,
            EntryMode::File => false,
        }
    }
}

/// One listed object: its absolute path and its metadata.
#[derive(Clone, Debug, PartialEq, Eq)]
pub struct Entry {
    pub path: String,
    pub metadata: Metadata,
}

impl Entry {
    /// Pair a path with its metadata.
    pub fn new(path: String, metadata: Metadata) -> (r: Entry)
        ensures
            r.path@ == path@,
            r.metadata == metadata,
    {
        Entry { path, metadata }
    }
}

} // verus!
