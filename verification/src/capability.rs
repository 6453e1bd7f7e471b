//! The capability descriptor: which operation variants a backend
//! instance declares, and the checks the facade runs before dispatch.
//!
//! A backend must never be invoked for a variant it did not declare;
//! the checks here reject such a call with `Unsupported` before any
//! network request is built.

use vstd::prelude::*;

use crate::error::Error;
use crate::error::ErrorKind;
use crate::ops::OpDelete;
use crate::ops::OpList;
use crate::ops::OpRead;
use crate::ops::OpStat;
use crate::ops::OpWrite;

verus! {

/// The operation variants a backend instance supports.
#[derive(Clone, Copy, Debug, PartialEq, Eq, Structural)]
pub struct Capability {
    pub create_dir: bool,
    pub copy: bool,
    pub rename: bool,
    pub delete: bool,
    pub delete_with_version: bool,
    pub read: bool,
    pub read_with_if_match: bool,
    pub read_with_if_none_match: bool,
    pub read_with_if_modified_since: bool,
    pub read_with_if_unmodified_since: bool,
    pub read_with_version: bool,
    pub stat: bool,
    pub stat_with_if_match: bool,
    pub stat_with_if_none_match: bool,
    pub stat_with_if_modified_since: bool,
    pub stat_with_if_unmodified_since: bool,
    pub stat_with_version: bool,
    pub write: bool,
    pub write_can_append: bool,
    pub write_can_empty: bool,
    pub write_can_multi: bool,
    pub write_with_if_match: bool,
    pub write_with_if_none_match: bool,
    pub write_with_if_not_exists: bool,
    pub list: bool,
    pub list_with_recursive: bool,
    pub shared: bool,
}

impl Capability {
    /// The empty capability: nothing is declared.
    pub fn none() -> (r: Capability)
        ensures
            r == (Capability {
                create_dir: false,
                copy: false,
                rename: false,
                delete: false,
                delete_with_version: false,
                read: false,
                read_with_if_match: false,
                read_with_if_none_match: false,
                read_with_if_modified_since: false,
                read_with_if_unmodified_since: false,
                read_with_version: false,
                stat: false,
                stat_with_if_match: false,
                stat_with_if_none_match: false,
                stat_with_if_modified_since: false,
                stat_with_if_unmodified_since: false,
                stat_with_version: false,
                write: false,
                write_can_append: false,
                write_can_empty: false,
                write_can_multi: false,
                write_with_if_match: false,
                write_with_if_none_match: false,
                write_with_if_not_exists: false,
                list: false,
                list_with_recursive: false,
                shared: false,
            }),
    {
        Capability {
            create_dir: false,
            copy: false,
            rename: false,
            delete: false,
            delete_with_version: false,
            read: false,
            read_with_if_match: false,
            read_with_if_none_match: false,
            read_with_if_modified_since: false,
            read_with_if_unmodified_since: false,
            read_with_version: false,
            stat: false,
            stat_with_if_match: false,
            stat_with_if_none_match: false,
            stat_with_if_modified_since: false,
            stat_with_if_unmodified_since: false,
            stat_with_version: false,
            write: false,
            write_can_append: false,
            write_can_empty: false,
            write_can_multi: false,
            write_with_if_match: false,
            write_with_if_none_match: false,
            write_with_if_not_exists: false,
            list: false,
            list_with_recursive: false,
            shared: false,
        }
    }
}

/// True when the capability declares every variant the stat arguments use.
pub open spec fn spec_stat_args_supported(cap: Capability, args: OpStat) -> bool {
    &&& cap.stat
    &&& args.if_match is Some ==> cap.stat_with_if_match
    &&& args.if_none_match is Some ==> cap.stat_with_if_none_match
    &&& args.if_modified_since is Some ==> cap.stat_with_if_modified_since
    &&& args.if_unmodified_since is Some ==> cap.stat_with_if_unmodified_since
    &&& args.version is Some ==> cap.stat_with_version
}

/// True when the capability declares every variant the read arguments use.
pub open spec fn spec_read_args_supported(cap: Capability, args: OpRead) -> bool {
    &&& cap.read
    &&& args.if_match is Some ==> cap.read_with_if_match
    &&& args.if_none_match is Some ==> cap.read_with_if_none_match
    &&& args.if_modified_since is Some ==> cap.read_with_if_modified_since
    &&& args.if_unmodified_since is Some ==> cap.read_with_if_unmodified_since
    &&& args.version is Some ==> cap.read_with_version
}

/// True when the capability declares every variant the write arguments use.
pub open spec fn spec_write_args_supported(cap: Capability, args: OpWrite) -> bool {
    &&& cap.write
    &&& args.append ==> cap.write_can_append
    &&& args.if_not_exists ==> cap.write_with_if_not_exists
    &&& args.if_match is Some ==> cap.write_with_if_match
    &&& args.if_none_match is Some ==> cap.write_with_if_none_match
    &&& args.concurrent > 1 ==> cap.write_can_multi
}

/// True when the capability declares every variant the list arguments use.
pub open spec fn spec_list_args_supported(cap: Capability, args: OpList) -> bool {
    &&& cap.list
    &&& args.recursive ==> cap.list_with_recursive
}

/// True when the capability declares every variant the delete arguments use.
pub open spec fn spec_delete_args_supported(cap: Capability, args: OpDelete) -> bool {
    &&& cap.delete
    &&& args.version is Some ==> cap.delete_with_version
}

/// Reject stat arguments that use an undeclared variant, before any
/// request is built.
pub fn check_stat_args(cap: &Capability, args: &OpStat) -> (r: Result<(), Error>)
    ensures
        r is Ok <==> spec_stat_args_supported(*cap, *args),
        r matches Err(e) ==> e.kind == ErrorKind::Unsupported,
{
    if !cap.stat {
        return Err(Error::new(ErrorKind::Unsupported, "stat is not supported".to_owned()));
    }
    if args.if_match.is_some() && !cap.stat_with_if_match {
        return Err(
            Error::new(ErrorKind::Unsupported, "stat with if_match is not supported".to_owned()),
        );
    }
    if args.if_none_match.is_some() && !cap.stat_with_if_none_match {
        return Err(
            Error::new(
                ErrorKind::Unsupported,
                "stat with if_none_match is not supported".to_owned(),
            ),
        );
    }
    if args.if_modified_since.is_some() && !cap.stat_with_if_modified_since {
        return Err(
            Error::new(
                ErrorKind::Unsupported,
                "stat with if_modified_since is not supported".to_owned(),
            ),
        );
    }
    if args.if_unmodified_since.is_some() && !cap.stat_with_if_unmodified_since {
        return Err(
            Error::new(
                ErrorKind::Unsupported,
                "stat with if_unmodified_since is not supported".to_owned(),
            ),
        );
    }
    if args.version.is_some() && !cap.stat_with_version {
        return Err(
            Error::new(ErrorKind::Unsupported, "stat with version is not supported".to_owned()),
        );
    }
    Ok(())
}

/// Reject read arguments that use an undeclared variant, before any
/// request is built.
pub fn check_read_args(cap: &Capability, args: &OpRead) -> (r: Result<(), Error>)
    ensures
        r is Ok <==> spec_read_args_supported(*cap, *args),
        r matches Err(e) ==> e.kind == ErrorKind::Unsupported,
{
    if !cap.read {
        return Err(Error::new(ErrorKind::Unsupported, "read is not supported".to_owned()));
    }
    if args.if_match.is_some() && !cap.read_with_if_match {
        return Err(
            Error::new(ErrorKind::Unsupported, "read with if_match is not supported".to_owned()),
        );
    }
    if args.if_none_match.is_some() && !cap.read_with_if_none_match {
        return Err(
            Error::new(
                ErrorKind::Unsupported,
                "read with if_none_match is not supported".to_owned(),
            ),
        );
    }
    if args.if_modified_since.is_some() && !cap.read_with_if_modified_since {
        return Err(
            Error::new(
                ErrorKind::Unsupported,
                "read with if_modified_since is not supported".to_owned(),
            ),
        );
    }
    if args.if_unmodified_since.is_some() && !cap.read_with_if_unmodified_since {
        return Err(
            Error::new(
                ErrorKind::Unsupported,
                "read with if_unmodified_since is not supported".to_owned(),
            ),
        );
    }
    if args.version.is_some() && !cap.read_with_version {
        return Err(
            Error::new(ErrorKind::Unsupported, "read with version is not supported".to_owned()),
        );
    }
    Ok(())
}

/// Reject write arguments that use an undeclared variant, before any
/// request is built.
pub fn check_write_args(cap: &Capability, args: &OpWrite) -> (r: Result<(), Error>)
    ensures
        r is Ok <==> spec_write_args_supported(*cap, *args),
        r matches Err(e) ==> e.kind == ErrorKind::Unsupported,
{
    if !cap.write {
        return Err(Error::new(ErrorKind::Unsupported, "write is not supported".to_owned()));
    }
    if args.append && !cap.write_can_append {
        return Err(
            Error::new(ErrorKind::Unsupported, "write with append is not supported".to_owned()),
        );
    }
    if args.if_not_exists && !cap.write_with_if_not_exists {
        return Err(
            Error::new(
                ErrorKind::Unsupported,
                "write with if_not_exists is not supported".to_owned(),
            ),
        );
    }
    if args.if_match.is_some() && !cap.write_with_if_match {
        return Err(
            Error::new(ErrorKind::Unsupported, "write with if_match is not supported".to_owned()),
        );
    }
    if args.if_none_match.is_some() && !cap.write_with_if_none_match {
        return Err(
            Error::new(
                ErrorKind::Unsupported,
                "write with if_none_match is not supported".to_owned(),
            ),
        );
    }
    if args.concurrent > 1 && !cap.write_can_multi {
        return Err(
            Error::new(
                ErrorKind::Unsupported,
                "concurrent write is not supported".to_owned(),
            ),
        );
    }
    Ok(())
}

/// Reject list arguments that use an undeclared variant, before any
/// request is built.
pub fn check_list_args(cap: &Capability, args: &OpList) -> (r: Result<(), Error>)
    ensures
        r is Ok <==> spec_list_args_supported(*cap, *args),
        r matches Err(e) ==> e.kind == ErrorKind::Unsupported,
{
    if !cap.list {
        return Err(Error::new(ErrorKind::Unsupported, "list is not supported".to_owned()));
    }
    if args.recursive && !cap.list_with_recursive {
        return Err(
            Error::new(ErrorKind::Unsupported, "recursive list is not supported".to_owned()),
        );
    }
    Ok(())
}

/// Reject delete arguments that use an undeclared variant, before any
/// request is built.
pub fn check_delete_args(cap: &Capability, args: &OpDelete) -> (r: Result<(), Error>)
    ensures
        r is Ok <==> spec_delete_args_supported(*cap, *args),
        r matches Err(e) ==> e.kind == ErrorKind::Unsupported,
{
    if !cap.delete {
        return Err(Error::new(ErrorKind::Unsupported, "delete is not supported".to_owned()));
    }
    if args.version.is_some() && !cap.delete_with_version {
        return Err(
            Error::new(ErrorKind::Unsupported, "delete with version is not supported".to_owned()),
        );
    }
    Ok(())
}

} // verus!
