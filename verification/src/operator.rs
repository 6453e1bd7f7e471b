//! The operator facade: path normalization, capability enforcement and
//! error enrichment in front of the backend.
//!
//! Every operation is prepared here before anything is sent: the
//! relative path is joined against the backend's root, and arguments
//! using a variant the capability does not declare are rejected with
//! `Unsupported` — so no network call is ever attempted for them.

use vstd::prelude::*;

use crate::backend::OpendriveAccessor;
use crate::capability::check_delete_args;
use crate::capability::check_list_args;
use crate::capability::check_read_args;
use crate::capability::check_stat_args;
use crate::capability::check_write_args;
use crate::capability::spec_delete_args_supported;
use crate::capability::spec_list_args_supported;
use crate::capability::spec_read_args_supported;
use crate::capability::spec_stat_args_supported;
use crate::capability::spec_write_args_supported;
use crate::error::Error;
use crate::error::ErrorKind;
use crate::ops::OpDelete;
use crate::ops::OpList;
use crate::ops::OpRead;
use crate::ops::OpStat;
use crate::ops::OpWrite;
use crate::path::has_parent_segment;
use crate::path::spec_abs_path;
use crate::path::spec_has_parent_segment;

verus! {

/// The user-facing entry point over one (possibly layered) backend.
pub struct Operator {
    pub accessor: OpendriveAccessor,
}

impl Operator {
    /// Wrap an assembled backend.
    pub fn new(accessor: OpendriveAccessor) -> (r: Operator)
        ensures
            r.accessor.core.root@ == accessor.core.root@,
            r.accessor.core.info.capability == accessor.core.info.capability,
    {
        Operator { accessor }
    }

    /// The backend's root, for contracts below.
    pub open spec fn spec_root(&self) -> Seq<char> {
        self.accessor.core.root@
    }


    /// The absolute path of a call, refused when the relative path
    /// could ascend above the root.
    fn checked_abs_path(&self, path: &str, operation: &str) -> (r: Result<String, Error>)
        requires
            self.accessor.core.spec_root_ok(),
        ensures
            !spec_has_parent_segment(path@) ==> (r matches Ok(p) && p@ == spec_abs_path(
                self.spec_root(),
                path@,
            )),
            spec_has_parent_segment(path@) ==> (r matches Err(e) && e.kind
                == ErrorKind::Unexpected && e.operation@ == operation@ && e.path@ == path@),
    {
        if has_parent_segment(path) {
            return Err(
                Error::new(
                    ErrorKind::Unexpected,
                    "path must not ascend above the root".to_owned(),
                ).with_operation(operation).with_path(path),
            );
        }
        Ok(self.accessor.core.abs_path(path))
    }

    /// Prepare a stat: capability first, then the absolute path. An
    /// undeclared variant never reaches the backend.
    pub fn prepare_stat(&self, path: &str, args: &OpStat) -> (r: Result<String, Error>)
        requires
            self.accessor.core.spec_root_ok(),
        ensures
            !spec_stat_args_supported(self.accessor.core.info.capability, *args) ==> (r matches
            Err(e) && e.kind == ErrorKind::Unsupported && e.operation@ == "stat"@ && e.path@
                == path@),
            spec_stat_args_supported(self.accessor.core.info.capability, *args) && spec_has_parent_segment(
                path@,
            ) ==> (r matches Err(e) && e.kind == ErrorKind::Unexpected && e.operation@ == "stat"@
                && e.path@ == path@),
            spec_stat_args_supported(self.accessor.core.info.capability, *args) && !spec_has_parent_segment(
                path@,
            ) ==> (r matches Ok(p) && p@ == spec_abs_path(self.spec_root(), path@)),
    {
        if let Err(e) = check_stat_args(&self.accessor.core.info.capability, args) {
            return Err(e.with_operation("stat").with_path(path));
        }
        self.checked_abs_path(path, "stat")
    }

    /// Prepare a read: capability first, then the absolute path.
    pub fn prepare_read(&self, path: &str, args: &OpRead) -> (r: Result<String, Error>)
        requires
            self.accessor.core.spec_root_ok(),
        ensures
            !spec_read_args_supported(self.accessor.core.info.capability, *args) ==> (r matches
            Err(e) && e.kind == ErrorKind::Unsupported && e.operation@ == "read"@ && e.path@
                == path@),
            spec_read_args_supported(self.accessor.core.info.capability, *args) && spec_has_parent_segment(
                path@,
            ) ==> (r matches Err(e) && e.kind == ErrorKind::Unexpected && e.operation@ == "read"@
                && e.path@ == path@),
            spec_read_args_supported(self.accessor.core.info.capability, *args) && !spec_has_parent_segment(
                path@,
            ) ==> (r matches Ok(p) && p@ == spec_abs_path(self.spec_root(), path@)),
    {
        if let Err(e) = check_read_args(&self.accessor.core.info.capability, args) {
            return Err(e.with_operation("read").with_path(path));
        }
        self.checked_abs_path(path, "read")
    }

    /// Prepare a write: capability first, then the absolute path.
    pub fn prepare_write(&self, path: &str, args: &OpWrite) -> (r: Result<String, Error>)
        requires
            self.accessor.core.spec_root_ok(),
        ensures
            !spec_write_args_supported(self.accessor.core.info.capability, *args) ==> (r matches
            Err(e) && e.kind == ErrorKind::Unsupported && e.operation@ == "write"@ && e.path@
                == path@),
            spec_write_args_supported(self.accessor.core.info.capability, *args) && spec_has_parent_segment(
                path@,
            ) ==> (r matches Err(e) && e.kind == ErrorKind::Unexpected && e.operation@ == "write"@
                && e.path@ == path@),
            spec_write_args_supported(self.accessor.core.info.capability, *args) && !spec_has_parent_segment(
                path@,
            ) ==> (r matches Ok(p) && p@ == spec_abs_path(self.spec_root(), path@)),
    {
        if let Err(e) = check_write_args(&self.accessor.core.info.capability, args) {
            return Err(e.with_operation("write").with_path(path));
        }
        self.checked_abs_path(path, "write")
    }

    /// Prepare a list: capability first, then the absolute path.
    pub fn prepare_list(&self, path: &str, args: &OpList) -> (r: Result<String, Error>)
        requires
            self.accessor.core.spec_root_ok(),
        ensures
            !spec_list_args_supported(self.accessor.core.info.capability, *args) ==> (r matches
            Err(e) && e.kind == ErrorKind::Unsupported && e.operation@ == "list"@ && e.path@
                == path@),
            spec_list_args_supported(self.accessor.core.info.capability, *args) && spec_has_parent_segment(
                path@,
            ) ==> (r matches Err(e) && e.kind == ErrorKind::Unexpected && e.operation@ == "list"@
                && e.path@ == path@),
            spec_list_args_supported(self.accessor.core.info.capability, *args) && !spec_has_parent_segment(
                path@,
            ) ==> (r matches Ok(p) && p@ == spec_abs_path(self.spec_root(), path@)),
    {
        if let Err(e) = check_list_args(&self.accessor.core.info.capability, args) {
            return Err(e.with_operation("list").with_path(path));
        }
        self.checked_abs_path(path, "list")
    }

    /// Prepare a delete: capability first, then the absolute path.
    pub fn prepare_delete(&self, path: &str, args: &OpDelete) -> (r: Result<String, Error>)
        requires
            self.accessor.core.spec_root_ok(),
        ensures
            !spec_delete_args_supported(self.accessor.core.info.capability, *args) ==> (r matches
            Err(e) && e.kind == ErrorKind::Unsupported && e.operation@ == "delete"@ && e.path@
                == path@),
            spec_delete_args_supported(self.accessor.core.info.capability, *args) && spec_has_parent_segment(
                path@,
            ) ==> (r matches Err(e) && e.kind == ErrorKind::Unexpected && e.operation@ == "delete"@
                && e.path@ == path@),
            spec_delete_args_supported(self.accessor.core.info.capability, *args) && !spec_has_parent_segment(
                path@,
            ) ==> (r matches Ok(p) && p@ == spec_abs_path(self.spec_root(), path@)),
    {
        if let Err(e) = check_delete_args(&self.accessor.core.info.capability, args) {
            return Err(e.with_operation("delete").with_path(path));
        }
        self.checked_abs_path(path, "delete")
    }

    /// Prepare a create-dir: capability first, then the absolute path.
    pub fn prepare_create_dir(&self, path: &str) -> (r: Result<String, Error>)
        requires
            self.accessor.core.spec_root_ok(),
        ensures
            !self.accessor.core.info.capability.create_dir ==> (r matches Err(e) && e.kind
                == ErrorKind::Unsupported && e.operation@ == "create_dir"@ && e.path@ == path@),
            self.accessor.core.info.capability.create_dir && spec_has_parent_segment(
                path@,
            ) ==> (r matches Err(e) && e.kind == ErrorKind::Unexpected && e.operation@
                == "create_dir"@ && e.path@ == path@),
            self.accessor.core.info.capability.create_dir && !spec_has_parent_segment(
                path@,
            ) ==> (r matches Ok(p) && p@ == spec_abs_path(self.spec_root(), path@)),
    {
        if !self.accessor.core.info.capability.create_dir {
            return Err(
                Error::new(
                    ErrorKind::Unsupported,
                    "create_dir is not supported".to_owned(),
                ).with_operation("create_dir").with_path(path),
            );
        }
        self.checked_abs_path(path, "create_dir")
    }

    /// Prepare a rename: the capability gate before any path work.
    pub fn prepare_rename(&self) -> (r: Result<(), Error>)
        ensures
            self.accessor.core.info.capability.rename <==> r is Ok,
            r matches Err(e) ==> e.kind == ErrorKind::Unsupported && e.operation@ == "rename"@,
    {
        if !self.accessor.core.info.capability.rename {
            return Err(
                Error::new(ErrorKind::Unsupported, "rename is not supported".to_owned())
                    .with_operation("rename"),
            );
        }
        Ok(())
    }

    /// Prepare a copy: the capability gate before any path work.
    pub fn prepare_copy(&self) -> (r: Result<(), Error>)
        ensures
            self.accessor.core.info.capability.copy <==> r is Ok,
            r matches Err(e) ==> e.kind == ErrorKind::Unsupported && e.operation@ == "copy"@,
    {
        if !self.accessor.core.info.capability.copy {
            return Err(
                Error::new(ErrorKind::Unsupported, "copy is not supported".to_owned())
                    .with_operation("copy"),
            );
        }
        Ok(())
    }

    /// Enrich a backend failure with the operation name and path, the
    /// kind and message untouched.
    pub fn enrich_error(&self, err: Error, operation: &str, path: &str) -> (r: Error)
        ensures
            r.kind == err.kind,
            r.message@ == err.message@,
            r.operation@ == operation@,
            r.path@ == path@,
    {
        err.with_operation(operation).with_path(path)
    }
}

} // verus!
