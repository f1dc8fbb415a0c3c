//! Cgroup v1 (legacy) driver logic: independent per-subsystem
//! hierarchies, each mounted at its own filesystem path, discovered from
//! the process's mount table.  Reading `/proc/self/mountinfo` is the
//! embedding program's part; it hands the table in as plain entries.

use crate::cgroups::CgroupError;
use crate::strutil::path_join;
use crate::strutil::spec_ends_with;
use crate::strutil::spec_path_join;
use crate::strutil::str_ends_with;
use crate::strutil::str_eq;
use vstd::prelude::*;
use vstd::string::StringExecFns;

verus! {

/// The subsystems a legacy kernel may offer.
#[derive(Debug, Clone, Copy, PartialEq, Eq, Hash, Structural)]
pub enum SubSystemType {
    CpuSet,
    Cpu,
    CpuAcct,
    Blkio,
    Memory,
    Devices,
    Freezer,
    NetCls,
    PerfEvent,
    NetPrio,
    HugeTlb,
    Pids,
    Rdma,
    Misc,
}

/// The name a subsystem goes by in the mount table.
pub open spec fn spec_v1_name(t: SubSystemType) -> Seq<char> {
    match t {
        SubSystemType::CpuSet => "cpuset"@,
        SubSystemType::Cpu => "cpu"@,
        SubSystemType::CpuAcct => "cpuacct"@,
        SubSystemType::Blkio => "blkio"@,
        SubSystemType::Memory => "memory"@,
        SubSystemType::Devices => "devices"@,
        SubSystemType::Freezer => "freezer"@,
        SubSystemType::NetCls => "net_cls"@,
        SubSystemType::PerfEvent => "perf_event"@,
        SubSystemType::NetPrio => "net_prio"@,
        SubSystemType::HugeTlb => "hugetlb"@,
        SubSystemType::Pids => "pids"@,
        SubSystemType::Rdma => "rdma"@,
        SubSystemType::Misc => "misc"@,
    }
}

/// Every subsystem, in the order discovery tries them.
pub open spec fn spec_v1_list() -> Seq<SubSystemType> {
    seq![
        SubSystemType::CpuSet,
        SubSystemType::Cpu,
        SubSystemType::CpuAcct,
        SubSystemType::Blkio,
        SubSystemType::Memory,
        SubSystemType::Devices,
        SubSystemType::Freezer,
        SubSystemType::NetCls,
        SubSystemType::PerfEvent,
        SubSystemType::NetPrio,
        SubSystemType::HugeTlb,
        SubSystemType::Pids,
        SubSystemType::Rdma,
        SubSystemType::Misc,
    ]
}

impl SubSystemType {
    /// The name this subsystem goes by in the mount table.
    pub fn name(&self) -> (r: &'static str)
        ensures
            r@ == spec_v1_name(*self),
    {
        match self {
            SubSystemType::CpuSet => "cpuset",
            SubSystemType::Cpu => "cpu",
            SubSystemType::CpuAcct => "cpuacct",
            SubSystemType::Blkio => "blkio",
            SubSystemType::Memory => "memory",
            SubSystemType::Devices => "devices",
            SubSystemType::Freezer => "freezer",
            SubSystemType::NetCls => "net_cls",
            SubSystemType::PerfEvent => "perf_event",
            SubSystemType::NetPrio => "net_prio",
            SubSystemType::HugeTlb => "hugetlb",
            SubSystemType::Pids => "pids",
            SubSystemType::Rdma => "rdma",
            SubSystemType::Misc => "misc",
        }
    }
}

/// Every subsystem, in the order discovery tries them.
pub fn subsystem_list() -> (r: Vec<SubSystemType>)
    ensures
        r@ == spec_v1_list(),
{
    let mut v: Vec<SubSystemType> = Vec::new();
    v.push(SubSystemType::CpuSet);
    v.push(SubSystemType::Cpu);
    v.push(SubSystemType::CpuAcct);
    v.push(SubSystemType::Blkio);
    v.push(SubSystemType::Memory);
    v.push(SubSystemType::Devices);
    v.push(SubSystemType::Freezer);
    v.push(SubSystemType::NetCls);
    v.push(SubSystemType::PerfEvent);
    v.push(SubSystemType::NetPrio);
    v.push(SubSystemType::HugeTlb);
    v.push(SubSystemType::Pids);
    v.push(SubSystemType::Rdma);
    v.push(SubSystemType::Misc);
    proof {
        assert(v@ =~= spec_v1_list());
    }
    v
}

/// One entry of the process's mount table, reduced to the two fields
/// discovery reads.
#[derive(Debug, Clone)]
pub struct MountEntry {
    pub fs_type: String,
    pub mount_point: String,
}

/// Whether a mount-table entry is the mount of the named subsystem: its
/// filesystem type is the cgroup type and its mount point ends with the
/// subsystem's name.  `net_cls`/`net_prio` may be co-mounted under a
/// combined directory name in either order or stand alone, and likewise
/// `cpu`/`cpuacct` under `cpu,cpuacct`.
pub open spec fn spec_entry_matches(
    name: Seq<char>,
    fs_type: Seq<char>,
    mount_point: Seq<char>,
) -> bool {
    fs_type == "cgroup"@ && (if name == "net_cls"@ {
        spec_ends_with(mount_point, "net_cls,net_prio"@) || spec_ends_with(
            mount_point,
            "net_prio,net_cls"@,
        ) || spec_ends_with(mount_point, "net_cls"@)
    } else if name == "net_prio"@ {
        spec_ends_with(mount_point, "net_cls,net_prio"@) || spec_ends_with(
            mount_point,
            "net_prio,net_cls"@,
        ) || spec_ends_with(mount_point, "net_prio"@)
    } else if name == "cpu"@ {
        spec_ends_with(mount_point, "cpu,cpuacct"@) || spec_ends_with(mount_point, "cpu"@)
    } else if name == "cpuacct"@ {
        spec_ends_with(mount_point, "cpu,cpuacct"@) || spec_ends_with(mount_point, "cpuacct"@)
    } else {
        spec_ends_with(mount_point, name)
    })
}

/// The first mount-table entry that mounts the named subsystem.
pub open spec fn spec_mount_lookup(name: Seq<char>, mounts: Seq<MountEntry>) -> Option<MountEntry>
    decreases mounts.len(),
{
    if mounts.len() == 0 {
        None
    } else if spec_entry_matches(name, mounts[0].fs_type@, mounts[0].mount_point@) {
        Some(mounts[0])
    } else {
        spec_mount_lookup(name, mounts.drop_first())
    }
}

fn entry_matches(name: &str, entry: &MountEntry) -> (r: bool)
    ensures
        r == spec_entry_matches(name@, entry.fs_type@, entry.mount_point@),
{
    let mp = entry.mount_point.as_str();
    if !str_eq(entry.fs_type.as_str(), "cgroup") {
        return false;
    }
    if str_eq(name, "net_cls") {
        str_ends_with(mp, "net_cls,net_prio") || str_ends_with(mp, "net_prio,net_cls")
            || str_ends_with(mp, "net_cls")
    } else if str_eq(name, "net_prio") {
        str_ends_with(mp, "net_cls,net_prio") || str_ends_with(mp, "net_prio,net_cls")
            || str_ends_with(mp, "net_prio")
    } else if str_eq(name, "cpu") {
        str_ends_with(mp, "cpu,cpuacct") || str_ends_with(mp, "cpu")
    } else if str_eq(name, "cpuacct") {
        str_ends_with(mp, "cpu,cpuacct") || str_ends_with(mp, "cpuacct")
    } else {
        str_ends_with(mp, name)
    }
}

proof fn lemma_lookup_skip(name: Seq<char>, mounts: Seq<MountEntry>, i: int)
    requires
        0 <= i <= mounts.len(),
        forall|k: int|
            0 <= k < i ==> !spec_entry_matches(
                name,
                (#[trigger] mounts[k]).fs_type@,
                mounts[k].mount_point@,
            ),
    ensures
        spec_mount_lookup(name, mounts) == spec_mount_lookup(name, mounts.skip(i)),
    decreases i,
{
    if i > 0 {
        assert(mounts.drop_first() =~= mounts.skip(1));
        lemma_lookup_skip(name, mounts.drop_first(), i - 1);
        assert(mounts.drop_first().skip(i - 1) =~= mounts.skip(i));
    } else {
        assert(mounts.skip(0) =~= mounts);
    }
}

/// The mount point of the named subsystem's hierarchy: the first
/// mount-table entry that matches it.
pub fn get_subsystem_mount_point(subsystem: &SubSystemType, mounts: &Vec<MountEntry>) -> (r: Result<
    String,
    CgroupError,
>)
    ensures
        spec_mount_lookup(spec_v1_name(*subsystem), mounts@) matches Some(e) ==> (r matches Ok(mp)
            && mp@ == e.mount_point@),
        spec_mount_lookup(spec_v1_name(*subsystem), mounts@) is None ==> r == Err::<
            String,
            CgroupError,
        >(CgroupError::MountPointNotFound(*subsystem)),
{
    let name = subsystem.name();
    let ghost sname = spec_v1_name(*subsystem);
    let mut i: usize = 0;
    while i < mounts.len()
        invariant
            name@ == sname,
            sname == spec_v1_name(*subsystem),
            i <= mounts@.len(),
            forall|k: int|
                0 <= k < i ==> !spec_entry_matches(
                    sname,
                    (#[trigger] mounts@[k]).fs_type@,
                    mounts@[k].mount_point@,
                ),
        decreases mounts@.len() - i,
    {
        if entry_matches(name, &mounts[i]) {
            proof {
                lemma_lookup_skip(sname, mounts@, i as int);
                assert(mounts@.skip(i as int)[0] == mounts@[i as int]);
            }
            return Ok(mounts[i].mount_point.clone());
        }
        i += 1;
    }
    proof {
        lemma_lookup_skip(sname, mounts@, mounts@.len() as int);
        assert(mounts@.skip(mounts@.len() as int) =~= Seq::<MountEntry>::empty());
    }
    Err(CgroupError::MountPointNotFound(*subsystem))
}

/// Whether `subs` is the outcome of resolving each subsystem of `list`
/// in order: one entry per subsystem whose mount point discovery finds,
/// holding the container's path under that mount point, and nothing for
/// a subsystem without a mount.
pub open spec fn spec_resolved(
    list: Seq<SubSystemType>,
    rel: Seq<char>,
    mounts: Seq<MountEntry>,
    subs: Seq<(SubSystemType, String)>,
) -> bool
    decreases list.len(),
{
    if list.len() == 0 {
        subs.len() == 0
    } else {
        match spec_mount_lookup(spec_v1_name(list[0]), mounts) {
            Some(e) => subs.len() > 0 && subs[0].0 == list[0] && subs[0].1@ == spec_path_join(
                e.mount_point@,
                rel,
            ) && spec_resolved(list.drop_first(), rel, mounts, subs.drop_first()),
            None => spec_resolved(list.drop_first(), rel, mounts, subs),
        }
    }
}

fn resolve_subsystems(
    list: &[SubSystemType],
    rel: &str,
    mounts: &Vec<MountEntry>,
) -> (subs: Vec<(SubSystemType, String)>)
    ensures
        spec_resolved(list@, rel@, mounts@, subs@),
    decreases list@.len(),
{
    if list.len() == 0 {
        Vec::new()
    } else {
        let rest = resolve_subsystems(
            vstd::slice::slice_subrange(list, 1, list.len()),
            rel,
            mounts,
        );
        proof {
            assert(list@.subrange(1, list@.len() as int) =~= list@.drop_first());
        }
        match get_subsystem_mount_point(&list[0], mounts) {
            Ok(mount_point) => {
                let ghost rest0 = rest@;
                let mut subs: Vec<(SubSystemType, String)> = Vec::new();
                subs.push((list[0], path_join(mount_point.as_str(), rel)));
                let mut rest = rest;
                subs.append(&mut rest);
                proof {
                    assert(subs@.drop_first() =~= rest0);
                }
                subs
            },
            Err(_) => rest,
        }
    }
}

/// Driver for one container across the legacy per-subsystem hierarchies.
pub struct Manager {
    pub subsystems: Vec<(SubSystemType, String)>,
}

impl Manager {
    /// Whether this manager is the one discovery builds for the given
    /// container from the given mount table.
    pub open spec fn spec_new(
        m: &Manager,
        container_id: Seq<char>,
        mounts: Seq<MountEntry>,
    ) -> bool {
        spec_resolved(spec_v1_list(), "/smog/"@ + container_id, mounts, m.subsystems@)
    }

    /// Discover the per-subsystem hierarchies from the mount table.  A
    /// subsystem without a mount point is skipped; it fails later only
    /// if limits target it.
    pub fn new(container_id: &str, mounts: &Vec<MountEntry>) -> (r: Manager)
        ensures
            Manager::spec_new(&r, container_id@, mounts@),
    {
        let rel = String::from_str("/smog/").concat(container_id);
        let list = subsystem_list();
        let subs = resolve_subsystems(list.as_slice(), rel.as_str(), mounts);
        Manager { subsystems: subs }
    }

    /// Placing a process into the legacy hierarchies is an open
    /// extension point: this core plans nothing for it.
    pub fn add_task(&self) {
    }

    /// The container's directory under the named subsystem's hierarchy:
    /// the subsystem's mount point, then the hierarchy-relative path.
    pub fn get_subsystem_path(
        path: &str,
        subsystem: &SubSystemType,
        mounts: &Vec<MountEntry>,
    ) -> (r: Result<String, CgroupError>)
        ensures
            spec_mount_lookup(spec_v1_name(*subsystem), mounts@) matches Some(e) ==> (r matches Ok(
                p,
            ) && p@ == spec_path_join(e.mount_point@, path@)),
            spec_mount_lookup(spec_v1_name(*subsystem), mounts@) is None ==> r == Err::<
                String,
                CgroupError,
            >(CgroupError::MountPointNotFound(*subsystem)),
    {
        match get_subsystem_mount_point(subsystem, mounts) {
            Ok(mount_point) => Ok(path_join(mount_point.as_str(), path)),
            Err(e) => Err(e),
        }
    }
}

} // verus!
