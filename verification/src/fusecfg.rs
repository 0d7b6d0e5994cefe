//! Mount descriptions for the FUSE front end: which remote directory
//! appears where, and under which kernel-facing options.

use vstd::prelude::*;
use crate::strutil::str_to_string;

verus! {

/// Kernel-facing options a filesystem is mounted with.
#[derive(Debug, Clone)]
pub struct MountOptions {
    pub uid: Option<u32>,
    pub gid: Option<u32>,
    pub allow_other: bool,
    pub allow_root: bool,
    pub fsname: Option<String>,
    pub subtype: Option<String>,
    pub auto_cache: bool,
    pub auto_unmount: bool,
    pub read_only: bool,
    pub allow_exec: bool,
    pub suid: bool,
    pub dev: bool,
    pub atime: bool,
    pub default_permissions: bool,
}

impl Default for MountOptions {
    /// Named `remotefs`, caching and auto-unmount on, writable,
    /// executable, without suid or device nodes.
    fn default() -> (r: MountOptions)
        ensures
            r.uid is None,
            r.gid is None,
            r.allow_other == false,
            r.allow_root == false,
            crate::config::opt_str_view(r.fsname) == Some("remotefs"@),
            crate::config::opt_str_view(r.subtype) == Some("remotefs"@),
            r.auto_cache == true,
            r.auto_unmount == true,
            r.read_only == false,
            r.allow_exec == true,
            r.suid == false,
            r.dev == false,
            r.atime == true,
            r.default_permissions == true,
    {
        MountOptions {
            uid: None,
            gid: None,
            allow_other: false,
            allow_root: false,
            fsname: Some(str_to_string("remotefs")),
            subtype: Some(str_to_string("remotefs")),
            auto_cache: true,
            auto_unmount: true,
            read_only: false,
            allow_exec: true,
            suid: false,
            dev: false,
            atime: true,
            default_permissions: true,
        }
    }
}

/// One configured mount: local and remote paths, the serving agent,
/// and options where the defaults are not wanted.
#[derive(Debug, Clone)]
pub struct MountPointConfig {
    pub mount_path: String,
    pub remote_path: String,
    pub agent_id: String,
    pub options: Option<MountOptions>,
}

/// A mount as the front end holds it while mounted.
#[derive(Debug, Clone)]
pub struct MountPoint {
    pub mount_path: String,
    pub remote_path: String,
    pub options: MountOptions,
    pub read_only: bool,
}

impl MountPoint {
    /// Build a mount description; its read-only flag is the one the
    /// options carry.
    pub fn new(mount_path: &str, remote_path: &str, options: MountOptions) -> (r: MountPoint)
        ensures
            r.mount_path@ == mount_path@,
            r.remote_path@ == remote_path@,
            r.read_only == options.read_only,
            r.options == options,
    {
        let ro = options.read_only;
        MountPoint {
            mount_path: str_to_string(mount_path),
            remote_path: str_to_string(remote_path),
            read_only: ro,
            options,
        }
    }
}

} // verus!
