//! The slice of the OCI bundle specification that the runtime consumes:
//! the root filesystem path, the requested namespaces and the CPU
//! resource limits.  Reading and decoding `config.json` is the embedding
//! program's part; it hands the decoded values in as these types.

use vstd::prelude::*;
use vstd::string::StringExecFns;

verus! {

/// An error in the bundle specification.
#[derive(Debug)]
pub enum OciError {
    Error(String),
}

/// Wrap a message as a specification error.
pub fn oci_error(message: String) -> (r: OciError)
    ensures
        r matches OciError::Error(m) && m@ == message@,
{
    OciError::Error(message)
}

/// The kinds of kernel namespace a container may request.
#[derive(Debug, Clone, Copy, PartialEq, Eq, Structural)]
pub enum NamespaceType {
    Mount,
    Cgroup,
    Uts,
    Ipc,
    User,
    Pid,
    Network,
}

/// The namespace type a textual name stands for, if any.
pub open spec fn spec_namespace_type(s: Seq<char>) -> Option<NamespaceType> {
    if s == "pid"@ {
        Some(NamespaceType::Pid)
    } else if s == "mount"@ {
        Some(NamespaceType::Mount)
    } else if s == "cgroup"@ {
        Some(NamespaceType::Cgroup)
    } else if s == "uts"@ {
        Some(NamespaceType::Uts)
    } else if s == "ipc"@ {
        Some(NamespaceType::Ipc)
    } else if s == "user"@ {
        Some(NamespaceType::User)
    } else if s == "network"@ {
        Some(NamespaceType::Network)
    } else {
        None
    }
}

impl NamespaceType {
    /// Parse a namespace type from its textual name.
    pub fn try_from(namespace: &str) -> (r: Result<NamespaceType, OciError>)
        ensures
            forall|t: NamespaceType| r == Ok::<NamespaceType, OciError>(t) <==> spec_namespace_type(
                namespace@,
            ) == Some(t),
            r matches Err(e) ==> spec_namespace_type(namespace@) is None && (e matches
                OciError::Error(m) && m@ == "unknown namespace "@ + namespace@),
    {
        if crate::strutil::str_eq(namespace, "pid") {
            Ok(NamespaceType::Pid)
        } else if crate::strutil::str_eq(namespace, "mount") {
            Ok(NamespaceType::Mount)
        } else if crate::strutil::str_eq(namespace, "cgroup") {
            Ok(NamespaceType::Cgroup)
        } else if crate::strutil::str_eq(namespace, "uts") {
            Ok(NamespaceType::Uts)
        } else if crate::strutil::str_eq(namespace, "ipc") {
            Ok(NamespaceType::Ipc)
        } else if crate::strutil::str_eq(namespace, "user") {
            Ok(NamespaceType::User)
        } else if crate::strutil::str_eq(namespace, "network") {
            Ok(NamespaceType::Network)
        } else {
            Err(oci_error(String::from_str("unknown namespace ").concat(namespace)))
        }
    }
}

/// One requested namespace: its kind, and, when joining an existing
/// namespace, a path to it (creating namespaces ignores the path).
#[derive(Debug, Clone)]
pub struct Namespace {
    pub typ: NamespaceType,
    pub path: Option<String>,
}

/// The container's root filesystem.
#[derive(Debug, Clone)]
pub struct Root {
    pub path: String,
    pub readonly: bool,
}

/// CPU resource limits.
#[derive(Debug, Clone, PartialEq)]
pub struct LinuxCpu {
    pub shares: Option<u64>,
    pub quota: Option<i64>,
    pub period: Option<u64>,
    pub realtime_runtime: Option<i64>,
    pub realtime_period: Option<u64>,
    pub cpus: Option<String>,
    pub mems: Option<String>,
}

/// Memory resource limits.  Consumed structurally only: the apply logic
/// does not translate them into control-file writes.
#[derive(Debug, Clone, PartialEq)]
pub struct LinuxMemory {
    limit: Option<i64>,
    reservation: Option<i64>,
    swap: Option<i64>,
    kernel: Option<i64>,
    kernel_tcp: Option<i64>,
    swappiness: Option<u64>,
    disable_oom_killer: Option<bool>,
    use_hierarchy: Option<bool>,
}

/// The resource-limit block of the specification.
#[derive(Debug, Clone, PartialEq)]
pub struct LinuxResources {
    pub cpu: Option<LinuxCpu>,
    pub memory: Option<LinuxMemory>,
}

/// The Linux-specific block of the specification.
#[derive(Debug, Clone)]
pub struct Linux {
    pub namespaces: Option<Vec<Namespace>>,
    pub resources: Option<LinuxResources>,
}

/// The fields of an OCI bundle specification that the runtime reads.
#[derive(Debug, Clone)]
pub struct Spec {
    pub oci_version: String,
    pub root: Option<Root>,
    pub linux: Option<Linux>,
}

impl Default for LinuxCpu {
    /// No CPU limit is set.
    fn default() -> (r: Self)
        ensures
            r.shares is None && r.quota is None && r.period is None,
            r.realtime_runtime is None && r.realtime_period is None,
            r.cpus is None && r.mems is None,
    {
        LinuxCpu {
            shares: None,
            quota: None,
            period: None,
            realtime_runtime: None,
            realtime_period: None,
            cpus: None,
            mems: None,
        }
    }
}

impl Default for LinuxMemory {
    /// No memory limit is set.
    fn default() -> (r: Self)
    {
        LinuxMemory {
            limit: None,
            reservation: None,
            swap: None,
            kernel: None,
            kernel_tcp: None,
            swappiness: None,
            disable_oom_killer: None,
            use_hierarchy: None,
        }
    }
}

impl Default for LinuxResources {
    /// No resource block is set.
    fn default() -> (r: Self)
        ensures
            r.cpu is None && r.memory is None,
    {
        LinuxResources { cpu: None, memory: None }
    }
}

} // verus!
