//! Cgroup v2 (unified hierarchy) driver logic: one hierarchy, every
//! controller enabled on a parent before a descendant may use it, and
//! CPU limits carried over from their legacy ranges.

use crate::cgroups::ControllerOpt;
use crate::cgroups::DirStep;
use crate::cgroups::FileWrite;
use crate::strutil::dec_int_str;
use crate::strutil::dec_str;
use crate::strutil::i64_to_string;
use crate::strutil::path_join;
use crate::strutil::spec_components;
use crate::strutil::spec_path_join;
use crate::strutil::split_components;
use crate::strutil::u64_to_string;
use vstd::prelude::*;
use vstd::string::StringExecFns;

verus! {

/// Largest value accepted by the legacy `cpu.shares` control file.
pub const MAX_SHARES: u64 = 262144;

/// The controllers of the unified hierarchy.
#[derive(Debug, Clone, Copy, PartialEq, Eq, Hash, Structural)]
pub enum SubSystemType {
    Cpu,
    CpuSet,
    Io,
    Memory,
    HugeTlb,
    Pids,
}

/// The name a controller goes by in the kernel's control files.
pub open spec fn spec_subsystem_name(t: SubSystemType) -> Seq<char> {
    match t {
        SubSystemType::Cpu => "cpu"@,
        SubSystemType::CpuSet => "cpuset"@,
        SubSystemType::Io => "io"@,
        SubSystemType::Memory => "memory"@,
        SubSystemType::HugeTlb => "hugetlb"@,
        SubSystemType::Pids => "pids"@,
    }
}

/// The controllers this runtime enables on the unified hierarchy.
pub open spec fn spec_v2_list() -> Seq<SubSystemType> {
    seq![
        SubSystemType::Cpu,
        SubSystemType::CpuSet,
        SubSystemType::Io,
        SubSystemType::Memory,
        SubSystemType::Pids,
    ]
}

impl SubSystemType {
    /// The name the kernel's control files use for this controller.
    pub fn name(&self) -> (r: &'static str)
        ensures
            r@ == spec_subsystem_name(*self),
    {
        match self {
            SubSystemType::Cpu => "cpu",
            SubSystemType::CpuSet => "cpuset",
            SubSystemType::Io => "io",
            SubSystemType::Memory => "memory",
            SubSystemType::HugeTlb => "hugetlb",
            SubSystemType::Pids => "pids",
        }
    }
}

/// The controllers this runtime enables, in the order they are enabled.
pub fn subsystem_list() -> (r: Vec<SubSystemType>)
    ensures
        r@ == spec_v2_list(),
{
    let mut v: Vec<SubSystemType> = Vec::new();
    v.push(SubSystemType::Cpu);
    v.push(SubSystemType::CpuSet);
    v.push(SubSystemType::Io);
    v.push(SubSystemType::Memory);
    v.push(SubSystemType::Pids);
    proof {
        assert(v@ =~= spec_v2_list());
    }
    v
}

/// A subsystem turns the requested limits into control-file writes under
/// the container's cgroup directory.
pub trait SubSystem {
    /// The limits this subsystem can translate.
    spec fn ok(controller_opt: &ControllerOpt) -> bool;

    /// The writes that apply the limits.
    fn apply(controller_opt: &ControllerOpt, cgroup_path: &str) -> (writes: Vec<FileWrite>)
        requires
            Self::ok(controller_opt),
    ;
}

/// A legacy `shares` value the conversion is defined on: zero, or within
/// the legacy `cpu.shares` range.
pub open spec fn spec_valid_shares(shares: Option<u64>) -> bool {
    match shares {
        Some(s) => s == 0 || (2 <= s && s <= MAX_SHARES),
        None => true,
    }
}

/// The text written to `cpu.max`: the quota, or the word `max` unless a
/// positive quota is given, a space, then the period, defaulting to
/// 100000 microseconds unless a positive period is given.
pub open spec fn spec_cpu_max_data(quota: Option<i64>, period: Option<u64>) -> Seq<char> {
    (match quota {
        Some(q) => if q > 0 {
            dec_int_str(q as int)
        } else {
            "max"@
        },
        None => "max"@,
    }) + " "@ + (match period {
        Some(p) => if p > 0 {
            dec_str(p as nat)
        } else {
            "100000"@
        },
        None => "100000"@,
    })
}

/// The writes that apply a CPU block under `dir`: a `cpu.weight` write
/// when a nonzero weight comes out of the shares conversion, then always
/// one `cpu.max` write.
pub open spec fn spec_cpu_writes(
    writes: Seq<FileWrite>,
    dir: Seq<char>,
    shares: Option<u64>,
    quota: Option<i64>,
    period: Option<u64>,
) -> bool {
    let max_at = writes.len() - 1;
    &&& (match shares {
        Some(s) => if spec_convert_shares(s) != 0 {
            writes.len() == 2 && writes[0].path@ == spec_path_join(dir, "cpu.weight"@)
                && writes[0].data@ == dec_str(spec_convert_shares(s) as nat)
        } else {
            writes.len() == 1
        },
        None => writes.len() == 1,
    })
    &&& writes[max_at].path@ == spec_path_join(dir, "cpu.max"@)
    &&& writes[max_at].data@ == spec_cpu_max_data(quota, period)
}

/// CPU controller for the unified hierarchy.
pub struct Cpu {}

/// The weight that the unified hierarchy's `cpu.weight` file gets for a
/// legacy `shares` value: `0` is the no-write sentinel, any other value is
/// mapped affinely from `[2, 262144]` into `[1, 10000]`.
pub open spec fn spec_convert_shares(shares: u64) -> int {
    if shares == 0 {
        0
    } else {
        1 + (shares - 2) * 9999 / 262142
    }
}

impl Cpu {
    /// Translate a legacy cgroup v1 `cpu.shares` value into a cgroup v2
    /// `cpu.weight` value.  Zero is kept as zero, the sentinel meaning
    /// "leave the kernel default in place".
    pub fn convert_shares_to_cgroup2(shares: u64) -> (weight: u64)
        requires
            shares == 0 || (2 <= shares && shares <= MAX_SHARES),
        ensures
            weight == spec_convert_shares(shares),
            shares == 0 ==> weight == 0,
            shares != 0 ==> 1 <= weight && weight <= 10000,
    {
        if shares == 0 {
            return 0;
        }
        let w = 1 + ((shares - 2) * 9999) / 262142;
        proof {
            lemma_convert_shares_range(shares);
        }
        w
    }
}

/// A nonzero legacy `shares` value in range always lands in `[1, 10000]`.
pub proof fn lemma_convert_shares_range(shares: u64)
    requires
        2 <= shares <= MAX_SHARES,
    ensures
        1 <= spec_convert_shares(shares) <= 10000,
{
    let p = (shares - 2) * 9999;
    assert(p <= 262142int * 9999) by {
        vstd::arithmetic::mul::lemma_mul_inequality(shares - 2, 262142, 9999);
    }
    assert(p / 262142 <= 262142int * 9999 / 262142) by {
        vstd::arithmetic::div_mod::lemma_div_is_ordered(p, 262142int * 9999, 262142);
    }
    assert(262142int * 9999 / 262142 == 9999) by {
        vstd::arithmetic::div_mod::lemma_div_by_multiple(9999, 262142);
    }
    assert(p >= 0) by {
        vstd::arithmetic::mul::lemma_mul_nonnegative(shares - 2, 9999);
    }
    assert(p / 262142 >= 0) by {
        vstd::arithmetic::div_mod::lemma_div_is_ordered(0, p, 262142);
    }
}

impl Cpu {
    /// The control-file writes that apply a CPU limit block under the
    /// container's cgroup directory.  A limit that is absent or zero is
    /// left at its kernel default.
    pub fn apply(cpu: &crate::oci::LinuxCpu, path: &str) -> (writes: Vec<FileWrite>)
        requires
            spec_valid_shares(cpu.shares),
        ensures
            spec_cpu_writes(writes@, path@, cpu.shares, cpu.quota, cpu.period),
    {
        let mut writes: Vec<FileWrite> = Vec::new();
        if let Some(shares) = cpu.shares {
            let weight = Self::convert_shares_to_cgroup2(shares);
            if weight != 0 {
                writes.push(
                    FileWrite { path: path_join(path, "cpu.weight"), data: u64_to_string(weight) },
                );
            }
        }
        let quota_string: String = match cpu.quota {
            Some(q) => if q > 0 {
                i64_to_string(q)
            } else {
                String::from_str("max")
            },
            None => String::from_str("max"),
        };
        let period_string: String = match cpu.period {
            Some(p) => if p > 0 {
                u64_to_string(p)
            } else {
                String::from_str("100000")
            },
            None => String::from_str("100000"),
        };
        let mut max_data = quota_string;
        max_data.append(" ");
        max_data.append(period_string.as_str());
        writes.push(FileWrite { path: path_join(path, "cpu.max"), data: max_data });
        writes
    }
}

impl SubSystem for Cpu {
    /// The CPU block's `shares`, if any, must lie where the conversion
    /// is defined.
    open spec fn ok(controller_opt: &ControllerOpt) -> bool {
        match controller_opt.resources.cpu {
            Some(c) => spec_valid_shares(c.shares),
            None => true,
        }
    }

    fn apply(controller_opt: &ControllerOpt, cgroup_path: &str) -> (writes: Vec<FileWrite>) {
        match &controller_opt.resources.cpu {
            Some(cpu) => Cpu::apply(cpu, cgroup_path),
            None => Vec::new(),
        }
    }
}

/// The path reached from `root` after descending the first `j` of the
/// given path components.
pub open spec fn spec_prefix_path(root: Seq<char>, comps: Seq<Seq<char>>, j: int) -> Seq<char>
    decreases j,
{
    if j <= 0 {
        root
    } else {
        spec_path_join(spec_prefix_path(root, comps, j - 1), comps[j - 1])
    }
}

/// The writes that enable every controller of this runtime for the
/// descendants of `dir`: one `+name` token into `cgroup.subtree_control`
/// per controller.
pub open spec fn spec_controller_writes(writes: Seq<FileWrite>, dir: Seq<char>) -> bool {
    &&& writes.len() == spec_v2_list().len()
    &&& forall|i: int|
        0 <= i < writes.len() ==> (#[trigger] writes[i]).path@ == spec_path_join(
            dir,
            "cgroup.subtree_control"@,
        ) && writes[i].data@ == "+"@ + spec_subsystem_name(spec_v2_list()[i])
}

/// Driver for one container's cgroup under the unified hierarchy.
pub struct Manager {
    pub root_path: String,
    pub cgroups_path: String,
    pub full_path: String,
}

impl Manager {
    /// Whether this manager is the one built for the given container
    /// under the given hierarchy root.
    pub open spec fn spec_new(m: &Manager, root: Seq<char>, container_id: Seq<char>) -> bool {
        &&& m.root_path@ == root
        &&& m.cgroups_path@ == crate::cgroups::spec_runtime_namespace() + "/"@ + container_id
        &&& m.full_path@ == spec_path_join(root, m.cgroups_path@)
    }

    /// A driver for the container's cgroup: the hierarchy-relative path
    /// `<runtime-namespace>/<container-id>` under the given root.
    pub fn new(root_path: String, container_id: &str) -> (r: Manager)
        ensures
            Manager::spec_new(&r, root_path@, container_id@),
    {
        let cgroups_path = String::from_str("smog").concat("/").concat(container_id);
        let full_path = path_join(root_path.as_str(), cgroups_path.as_str());
        Manager { root_path, cgroups_path, full_path }
    }

    /// Whether `steps` followed by the `procs` write is the plan that
    /// creates the container's cgroup and moves `pid` into it: every
    /// missing directory between the root and the leaf brought into
    /// being in order, every controller enabled on every directory above
    /// the leaf, and the pid written into the leaf's `cgroup.procs`.
    pub open spec fn spec_unified_plan(
        m: &Manager,
        steps: Seq<DirStep>,
        procs: FileWrite,
        pid: int,
    ) -> bool {
        let comps = spec_components(m.cgroups_path@);
        &&& steps.len() == comps.len()
        &&& forall|j: int|
            0 <= j < steps.len() ==> (#[trigger] steps[j]).path@ == spec_prefix_path(
                m.root_path@,
                comps,
                j + 1,
            )
        &&& forall|j: int|
            0 <= j < steps.len() - 1 ==> spec_controller_writes(
                (#[trigger] steps[j]).writes@,
                steps[j].path@,
            )
        &&& steps.len() > 0 ==> steps[steps.len() - 1].writes@.len() == 0
        &&& procs.path@ == spec_path_join(m.full_path@, "cgroup.procs"@)
        &&& procs.data@ == dec_int_str(pid)
    }

    /// The writes that enable the given controller tokens for the
    /// descendants of `path`.
    pub fn write_controllers(path: &str, controllers: &Vec<String>) -> (writes: Vec<FileWrite>)
        ensures
            writes@.len() == controllers@.len(),
            forall|i: int|
                0 <= i < writes@.len() ==> (#[trigger] writes@[i]).path@ == spec_path_join(
                    path@,
                    "cgroup.subtree_control"@,
                ) && writes@[i].data@ == controllers@[i]@,
    {
        let mut writes: Vec<FileWrite> = Vec::new();
        let mut i: usize = 0;
        while i < controllers.len()
            invariant
                i <= controllers@.len(),
                writes@.len() == i,
                forall|k: int|
                    0 <= k < i ==> (#[trigger] writes@[k]).path@ == spec_path_join(
                        path@,
                        "cgroup.subtree_control"@,
                    ) && writes@[k].data@ == controllers@[k]@,
            decreases controllers@.len() - i,
        {
            writes.push(
                FileWrite {
                    path: path_join(path, "cgroup.subtree_control"),
                    data: controllers[i].clone(),
                },
            );
            i += 1;
        }
        writes
    }

    /// The `+name` tokens of every controller this runtime enables.
    fn controller_tokens() -> (r: Vec<String>)
        ensures
            r@.len() == spec_v2_list().len(),
            forall|i: int|
                0 <= i < r@.len() ==> (#[trigger] r@[i])@ == "+"@ + spec_subsystem_name(
                    spec_v2_list()[i],
                ),
    {
        let list = subsystem_list();
        let mut tokens: Vec<String> = Vec::new();
        let mut i: usize = 0;
        while i < list.len()
            invariant
                list@ == spec_v2_list(),
                i <= list@.len(),
                tokens@.len() == i,
                forall|k: int|
                    0 <= k < i ==> (#[trigger] tokens@[k])@ == "+"@ + spec_subsystem_name(
                        spec_v2_list()[k],
                    ),
            decreases list@.len() - i,
        {
            tokens.push(String::from_str("+").concat(list[i].name()));
            i += 1;
        }
        tokens
    }

    /// The plan that creates the container's cgroup directories and
    /// moves `pid` into the leaf.
    pub fn create_unified_cgroup(&self, pid: i32) -> (r: (Vec<DirStep>, FileWrite))
        ensures
            Manager::spec_unified_plan(self, r.0@, r.1, pid as int),
    {
        let ghost comps_spec = spec_components(self.cgroups_path@);
        let controllers = Self::controller_tokens();
        let comps = split_components(self.cgroups_path.as_str());
        let mut steps: Vec<DirStep> = Vec::new();
        let mut current: String = self.root_path.clone();
        let mut j: usize = 0;
        proof {
            assert(comps@.len() == comps_spec.len());
        }
        while j < comps.len()
            invariant
                comps@.map_values(|p: String| p@) == comps_spec,
                comps@.len() == comps_spec.len(),
                controllers@.len() == spec_v2_list().len(),
                forall|i: int|
                    0 <= i < controllers@.len() ==> (#[trigger] controllers@[i])@ == "+"@
                        + spec_subsystem_name(spec_v2_list()[i]),
                j <= comps@.len(),
                current@ == spec_prefix_path(self.root_path@, comps_spec, j as int),
                steps@.len() == j,
                forall|i: int|
                    0 <= i < j ==> (#[trigger] steps@[i]).path@ == spec_prefix_path(
                        self.root_path@,
                        comps_spec,
                        i + 1,
                    ),
                forall|i: int|
                    0 <= i < j && i < comps_spec.len() - 1 ==> spec_controller_writes(
                        (#[trigger] steps@[i]).writes@,
                        steps@[i].path@,
                    ),
                forall|i: int|
                    0 <= i < j && i == comps_spec.len() - 1 ==> (#[trigger] steps@[i]).writes@.len()
                        == 0,
            decreases comps@.len() - j,
        {
            proof {
                assert(comps@.map_values(|p: String| p@)[j as int] == comps@[j as int]@);
            }
            current = path_join(current.as_str(), comps[j].as_str());
            let writes: Vec<FileWrite> = if j + 1 < comps.len() {
                Self::write_controllers(current.as_str(), &controllers)
            } else {
                Vec::new()
            };
            steps.push(DirStep { path: current.clone(), writes });
            j += 1;
        }
        let procs = FileWrite {
            path: path_join(self.full_path.as_str(), "cgroup.procs"),
            data: i64_to_string(pid as i64),
        };
        (steps, procs)
    }

    /// Whether `writes` applies the resource block to this container's
    /// cgroup: the CPU block's writes under the leaf directory, and
    /// nothing for a block without a CPU section.
    pub open spec fn spec_apply(
        m: &Manager,
        resources: crate::oci::LinuxResources,
        writes: Seq<FileWrite>,
    ) -> bool {
        match resources.cpu {
            Some(c) => spec_cpu_writes(writes, m.full_path@, c.shares, c.quota, c.period),
            None => writes.len() == 0,
        }
    }

    /// The control-file writes that apply the resource limits to this
    /// container's cgroup.  Of the controllers this core enables, only
    /// the CPU controller translates limits.
    pub fn apply(&self, controller_opt: &ControllerOpt) -> (writes: Vec<FileWrite>)
        requires
            controller_opt.resources.cpu matches Some(c) ==> spec_valid_shares(c.shares),
        ensures
            Manager::spec_apply(self, *controller_opt.resources, writes@),
    {
        let mut writes: Vec<FileWrite> = Vec::new();
        let list = subsystem_list();
        let mut i: usize = 0;
        while i < list.len()
            invariant
                list@ == spec_v2_list(),
                i <= list@.len(),
                controller_opt.resources.cpu matches Some(c) ==> spec_valid_shares(c.shares),
                i == 0 ==> writes@.len() == 0,
                i > 0 ==> Manager::spec_apply(self, *controller_opt.resources, writes@),
            decreases list@.len() - i,
        {
            match list[i] {
                SubSystemType::Cpu => {
                    match &controller_opt.resources.cpu {
                        Some(cpu) => {
                            let mut w = Cpu::apply(cpu, self.full_path.as_str());
                            writes.append(&mut w);
                        },
                        None => {},
                    }
                },
                _ => {},
            }
            i += 1;
        }
        writes
    }
}

/// On `[2, 262144]` the shares-to-weight conversion is monotonic
/// non-decreasing.
pub proof fn lemma_convert_shares_monotonic(a: u64, b: u64)
    requires
        2 <= a <= b <= MAX_SHARES,
    ensures
        spec_convert_shares(a) <= spec_convert_shares(b),
{
    assert((a - 2) * 9999 <= (b - 2) * 9999) by {
        vstd::arithmetic::mul::lemma_mul_inequality(a - 2, b - 2, 9999);
    }
    assert((a - 2) * 9999 / 262142 <= (b - 2) * 9999 / 262142) by {
        vstd::arithmetic::mul::lemma_mul_nonnegative(a - 2, 9999);
        vstd::arithmetic::div_mod::lemma_div_is_ordered((a - 2) * 9999, (b - 2) * 9999, 262142);
    }
}

} // verus!
