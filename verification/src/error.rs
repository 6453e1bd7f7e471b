//! The closed error-kind taxonomy shared by every component.
//!
//! Every backend failure is mapped into this taxonomy at the backend
//! boundary; layers, adapters and the facade branch only on the kind,
//! never on a backend-specific status code.

use vstd::prelude::*;

verus! {

/// The closed set of failure kinds a storage operation can report.
#[derive(Clone, Copy, Debug, PartialEq, Eq, Structural)]
pub enum ErrorKind {
    /// The object or directory does not exist.
    NotFound,
    /// The object already exists and the operation refuses to replace it.
    AlreadyExists,
    /// The credentials do not permit the operation.
    PermissionDenied,
    /// A conditional predicate (if-match, version, offset check) failed.
    ConditionNotMatch,
    /// A file operation was applied to a directory.
    IsADirectory,
    /// A directory operation was applied to a file.
    NotADirectory,
    /// The operation variant is not declared by the backend's capability.
    Unsupported,
    /// The service rejected the call for sending too many requests.
    RateLimited,
    /// The backend configuration is incomplete or contradictory.
    ConfigInvalid,
    /// Any failure outside the closed taxonomy.
    Unexpected,
}

/// A failure, tagged with its kind and enriched with the operation
/// name, the path and free-form context pairs for diagnostics.
#[derive(Clone, Debug, PartialEq, Eq)]
pub struct Error {
    pub kind: ErrorKind,
    pub message: String,
    pub operation: String,
    pub path: String,
    pub context: String,
}

impl Error {
    /// Build a fresh error of the given kind, with no operation context yet.
    pub fn new(kind: ErrorKind, message: String) -> (r: Error)
        ensures
            r.kind == kind,
            r.message@ == message@,
            r.operation@ == Seq::<char>::empty(),
            r.path@ == Seq::<char>::empty(),
            r.context@ == Seq::<char>::empty(),
    {
        Error {
            kind,
            message,
            operation: String::new(),
            path: String::new(),
            context: String::new(),
        }
    }

    /// The kind this error was tagged with at the backend boundary.
    pub fn kind(&self) -> (k: ErrorKind)
        ensures
            k == self.kind,
    {
        self.kind
    }

    /// Enrich the error with the name of the failing operation,
    /// leaving kind and message unchanged.
    pub fn with_operation(self, operation: &str) -> (r: Error)
        ensures
            r.kind == self.kind,
            r.message@ == self.message@,
            r.operation@ == operation@,
            r.path@ == self.path@,
            r.context@ == self.context@,
    {
        Error {
            kind: self.kind,
            message: self.message,
            operation: operation.to_owned(),
            path: self.path,
            context: self.context,
        }
    }

    /// Enrich the error with the path the operation was applied to,
    /// leaving everything else unchanged.
    pub fn with_path(self, path: &str) -> (r: Error)
        ensures
            r.kind == self.kind,
            r.message@ == self.message@,
            r.operation@ == self.operation@,
            r.path@ == path@,
            r.context@ == self.context@,
    {
        Error {
            kind: self.kind,
            message: self.message,
            operation: self.operation,
            path: path.to_owned(),
            context: self.context,
        }
    }

    /// Attach one key/value context pair, appended to any pairs
    /// already attached; everything else is unchanged.
    pub fn with_context(self, key: &str, value: &str) -> (r: Error)
        ensures
            r.kind == self.kind,
            r.message@ == self.message@,
            r.operation@ == self.operation@,
            r.path@ == self.path@,
            self.context@.len() == 0 ==> r.context@ == key@ + "="@ + value@,
            self.context@.len() > 0 ==> r.context@ == self.context@ + ", "@ + key@ + "="@
                + value@,
    {
        let mut context = self.context;
        if context.as_str().unicode_len() > 0 {
            context.append(", ");
        }
        context.append(key);
        context.append("=");
        context.append(value);
        Error {
            kind: self.kind,
            message: self.message,
            operation: self.operation,
            path: self.path,
            context,
        }
    }
}

/// Which error kind an OpenDrive numeric status code maps to.
pub open spec fn spec_kind_for_code(code: u16) -> ErrorKind {
    if code == 401 {
        ErrorKind::PermissionDenied
    } else if code == 404 {
        ErrorKind::NotFound
    } else if code == 409 {
        ErrorKind::AlreadyExists
    } else if code == 429 {
        ErrorKind::RateLimited
    } else {
        ErrorKind::Unexpected
    }
}

/// Map a backend status code into the closed taxonomy.
pub fn error_kind_for_code(code: u16) -> (k: ErrorKind)
    ensures
        k == spec_kind_for_code(code),
{
    match code {
        401 => ErrorKind::PermissionDenied,
        404 => ErrorKind::NotFound,
        409 => ErrorKind::AlreadyExists,
        429 => ErrorKind::RateLimited,
        _ => ErrorKind::Unexpected,
    }
}

/// Which kinds the retry layer may treat as transient.
pub open spec fn spec_kind_is_retryable(kind: ErrorKind) -> bool {
    kind == ErrorKind::RateLimited
}

/// True exactly for the kinds the retry layer may retry; every other
/// kind propagates immediately.
pub fn kind_is_retryable(kind: ErrorKind) -> (r: bool)
    ensures
        r == spec_kind_is_retryable(kind),
{
    match kind {
        ErrorKind::RateLimited => true,
        _ => false,
    }
}

/// Build the error reported when a numeric field of a backend reply does
/// not parse as the number it should hold.
pub fn parse_numeric_types_error(text: &str) -> (r: Error)
    ensures
        r.kind == ErrorKind::Unexpected,
        r.message@ == "parse Numeric types error: "@ + text@,
{
    let mut message = "parse Numeric types error: ".to_owned();
    message.append(text);
    Error {
        kind: ErrorKind::Unexpected,
        message,
        operation: String::new(),
        path: String::new(),
        context: String::new(),
    }
}

} // verus!
