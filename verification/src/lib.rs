//! A minimal OCI-style container runtime library.
//!
//! The library holds the runtime's decision logic: translating resource
//! limits into cgroup control-file writes (v1 and v2 hierarchies), the
//! length-prefixed synchronization protocol between a controller and its
//! forked child, the child's bootstrap plan (namespaces, root pivot, exec),
//! and the container lifecycle state machine.  Performing the resulting
//! syscalls and file writes is left to the embedding program, which feeds
//! the outcomes back in as plain values.

pub mod bootstrap;
pub mod cgroups;
pub mod cgroups_v1;
pub mod cgroups_v2;
pub mod cli;
pub mod container;
pub mod ipc;
pub mod oci;
pub mod opts;
pub mod state;
pub mod strutil;
