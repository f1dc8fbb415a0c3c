//! Common cgroup types and the version-dispatching manager facade.
//!
//! A driver never touches the filesystem itself: it turns a request into
//! directories to ensure and control files to write, and the embedding
//! program carries those out.

use vstd::prelude::*;

verus! {

/// The two kernel cgroup layouts.
#[derive(Debug, Clone, Copy, PartialEq, Eq, Structural)]
pub enum CgroupVersion {
    V1,
    V2,
}

/// What went wrong while working with the cgroup hierarchy.
#[derive(Debug, PartialEq, Eq, Structural)]
pub enum CgroupError {
    /// The default cgroup root is missing or of an unexpected
    /// filesystem type.
    UnsupportedRoot,
    /// No mount-table entry matches the named subsystem.
    MountPointNotFound(crate::cgroups_v1::SubSystemType),
}

/// One pending write of a value into a control file.
#[derive(Debug, Clone, PartialEq)]
pub struct FileWrite {
    pub path: String,
    pub data: String,
}

/// One directory of the unified hierarchy to bring into being (mode 0755
/// if missing), together with the control-file writes that enable its
/// controllers for descendants.
#[derive(Debug, Clone, PartialEq)]
pub struct DirStep {
    pub path: String,
    pub writes: Vec<FileWrite>,
}

/// The resource limits a driver is asked to apply.
#[derive(Debug, Clone)]
pub struct ControllerOpt<'a> {
    pub resources: &'a crate::oci::LinuxResources,
}

/// The runtime's namespace inside every cgroup hierarchy.
pub open spec fn spec_runtime_namespace() -> Seq<char> {
    "smog"@
}

/// The fixed mount point of the default cgroup hierarchy.
pub open spec fn spec_default_cgroup_root() -> Seq<char> {
    "/sys/fs/cgroup"@
}

/// The fixed mount point of the default cgroup hierarchy.
pub fn default_cgroup_root() -> (r: &'static str)
    ensures
        r@ == spec_default_cgroup_root(),
{
    "/sys/fs/cgroup"
}

/// Filesystem magic of a cgroup v2 superblock.
pub const CGROUP2_SUPER_MAGIC: i64 = 0x63677270;

/// Filesystem magic of a tmpfs superblock.
pub const TMPFS_MAGIC: i64 = 0x01021994;

/// Decide the cgroup layout from a probe of the default cgroup root:
/// whether the root exists, and the filesystem magic `statfs` reports
/// for it.  The unified superblock magic means v2; a tmpfs root is the
/// legacy per-subsystem layout, v1.  Only the default layouts are
/// supported.
pub fn get_cgroup_version(root_exists: bool, magic: i64) -> (r: Result<
    CgroupVersion,
    CgroupError,
>)
    ensures
        r is Ok <==> root_exists && (magic == CGROUP2_SUPER_MAGIC || magic == TMPFS_MAGIC),
        (root_exists && magic == CGROUP2_SUPER_MAGIC) ==> r == Ok::<CgroupVersion, CgroupError>(
            CgroupVersion::V2,
        ),
        (root_exists && magic == TMPFS_MAGIC) ==> r == Ok::<CgroupVersion, CgroupError>(
            CgroupVersion::V1,
        ),
        r matches Err(e) ==> e == CgroupError::UnsupportedRoot,
{
    if root_exists {
        if magic == CGROUP2_SUPER_MAGIC {
            Ok(CgroupVersion::V2)
        } else if magic == TMPFS_MAGIC {
            Ok(CgroupVersion::V1)
        } else {
            Err(CgroupError::UnsupportedRoot)
        }
    } else {
        Err(CgroupError::UnsupportedRoot)
    }
}

/// The version-dispatching manager: one closed choice of driver, made
/// once at container-creation time.
pub enum CgroupManager {
    V1(crate::cgroups_v1::Manager),
    V2(crate::cgroups_v2::Manager),
}

impl CgroupManager {
    /// Build the driver for the probed cgroup layout.  The v1 driver
    /// resolves its per-subsystem mount points from the given mount
    /// table; the v2 driver works under the default root.
    pub fn new_cgroup_manager(
        version: CgroupVersion,
        container_id: &str,
        mounts: &Vec<crate::cgroups_v1::MountEntry>,
    ) -> (r: CgroupManager)
        ensures
            version == CgroupVersion::V1 ==> (r matches CgroupManager::V1(m)
                && crate::cgroups_v1::Manager::spec_new(&m, container_id@, mounts@)),
            version == CgroupVersion::V2 ==> (r matches CgroupManager::V2(m)
                && crate::cgroups_v2::Manager::spec_new(
                &m,
                spec_default_cgroup_root(),
                container_id@,
            )),
    {
        match version {
            CgroupVersion::V1 => CgroupManager::V1(
                crate::cgroups_v1::Manager::new(container_id, mounts),
            ),
            CgroupVersion::V2 => CgroupManager::V2(
                crate::cgroups_v2::Manager::new(
                    default_cgroup_root().to_owned(),
                    container_id,
                ),
            ),
        }
    }

    /// The plan that places a process into the container's cgroup.  The
    /// v2 driver creates the hierarchy and writes the pid into the leaf's
    /// `cgroup.procs`; the v1 driver's attachment is an open extension
    /// point and plans nothing.
    pub fn add_task(&self, pid: i32) -> (r: Option<(Vec<DirStep>, FileWrite)>)
        ensures
            self matches CgroupManager::V1(_) ==> r is None,
            self matches CgroupManager::V2(m) ==> (r matches Some(plan)
                && crate::cgroups_v2::Manager::spec_unified_plan(&m, plan.0@, plan.1, pid as int)),
    {
        match self {
            CgroupManager::V1(m) => {
                m.add_task();
                None
            },
            CgroupManager::V2(m) => Some(m.create_unified_cgroup(pid)),
        }
    }

    /// The control-file writes that apply the resource limits.  Only the
    /// v2 CPU controller translates limits in this core; the v1 driver's
    /// apply is an open extension point and plans nothing.
    pub fn apply(&self, controller_opt: &ControllerOpt) -> (r: Vec<FileWrite>)
        requires
            controller_opt.resources.cpu matches Some(c) ==> crate::cgroups_v2::spec_valid_shares(
                c.shares,
            ),
        ensures
            self matches CgroupManager::V1(_) ==> r@.len() == 0,
            self matches CgroupManager::V2(m) ==> crate::cgroups_v2::Manager::spec_apply(
                &m,
                *controller_opt.resources,
                r@,
            ),
    {
        match self {
            CgroupManager::V1(_) => Vec::new(),
            CgroupManager::V2(m) => m.apply(controller_opt),
        }
    }
}

} // verus!
