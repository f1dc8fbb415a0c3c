//! The forked child's bootstrap: which namespaces to unshare, how to
//! rebase the root filesystem, and when to signal readiness, wait for the
//! start signal and exec the payload.  The child's side of the runtime
//! performs these steps in order and dies on the first failure; this
//! module decides the steps.

use crate::oci::Namespace;
use crate::oci::NamespaceType;
use crate::oci::Root;
use crate::oci::Spec;
use crate::strutil::path_join;
use crate::strutil::spec_path_join;
use vstd::prelude::*;
use vstd::string::StringExecFns;

verus! {

/// One step of the child's bootstrap sequence.
#[derive(Debug, Clone, PartialEq)]
pub enum InitOp {
    /// Unshare one kind of namespace.
    Unshare(NamespaceType),
    /// Set the hostname, inside the freshly unshared uts namespace.
    SetHostname(String),
    /// Make the current root mount private and recursive, so no mount
    /// event propagates to or from the host.
    MountRootPrivate,
    /// Bind-mount the new root onto itself, recursively, so the pivot's
    /// "not on the same filesystem as the current root" constraint can
    /// be met.
    BindRootfs(String),
    /// Change the working directory.
    Chdir(String),
    /// Create a directory and any missing parents.
    CreateDir(String),
    /// Pivot the root: the new root, and the directory that receives
    /// the old root.
    PivotRoot(String, String),
    /// Lazily unmount a path.
    UnmountDetach(String),
    /// Remove a directory tree.
    RemoveDir(String),
    /// Send the readiness word on the synchronization channel.
    SendReady,
    /// Block on the rendezvous socket for the start signal.
    WaitStart,
    /// Replace the process image with the command.
    Exec(String),
}

/// The steps that prepare the new root for the pivot.
pub open spec fn spec_prepare_seg(rootfs: Seq<char>, seg: Seq<InitOp>) -> bool {
    &&& seg.len() == 2
    &&& seg[0] is MountRootPrivate
    &&& (seg[1] matches InitOp::BindRootfs(p) && p@ == rootfs)
}

/// The steps that pivot into the new root and drop the old one.
pub open spec fn spec_pivot_seg(rootfs: Seq<char>, seg: Seq<InitOp>) -> bool {
    &&& seg.len() == 6
    &&& (seg[0] matches InitOp::Chdir(p) && p@ == rootfs)
    &&& (seg[1] matches InitOp::CreateDir(p) && p@ == spec_path_join(rootfs, "oldroot"@))
    &&& (seg[2] matches InitOp::PivotRoot(n, o) && n@ == rootfs && o@ == spec_path_join(
        rootfs,
        "oldroot"@,
    ))
    &&& (seg[3] matches InitOp::UnmountDetach(p) && p@ == "./oldroot"@)
    &&& (seg[4] matches InitOp::RemoveDir(p) && p@ == "./oldroot"@)
    &&& (seg[5] matches InitOp::Chdir(p) && p@ == "/"@)
}

/// The closing steps of every bootstrap: readiness, rendezvous, exec.
pub open spec fn spec_closing_seg(seg: Seq<InitOp>) -> bool {
    &&& seg.len() == 3
    &&& seg[0] is SendReady
    &&& seg[1] is WaitStart
    &&& (seg[2] matches InitOp::Exec(c) && c@ == "/bin/sh"@)
}

/// Whether `ops` is the bootstrap sequence for the requested namespaces:
/// for each namespace in order, the unshare and its follow-up work (the
/// hostname for uts, the root rebase and pivot for mount), then the
/// closing readiness, rendezvous and exec steps.
pub open spec fn spec_init_match(
    namespaces: Seq<Namespace>,
    root: Option<Root>,
    ops: Seq<InitOp>,
) -> bool
    decreases namespaces.len(),
{
    if namespaces.len() == 0 {
        spec_closing_seg(ops)
    } else {
        let t = namespaces[0].typ;
        if t == NamespaceType::Uts {
            &&& ops.len() >= 2
            &&& (ops[0] matches InitOp::Unshare(u) && u == NamespaceType::Uts)
            &&& (ops[1] matches InitOp::SetHostname(h) && h@ == "container"@)
            &&& spec_init_match(namespaces.drop_first(), root, ops.skip(2))
        } else if t == NamespaceType::Mount {
            &&& ops.len() >= 9
            &&& (ops[0] matches InitOp::Unshare(u) && u == NamespaceType::Mount)
            &&& (root matches Some(r) && spec_prepare_seg(r.path@, ops.subrange(1, 3))
                && spec_pivot_seg(r.path@, ops.subrange(3, 9)))
            &&& spec_init_match(namespaces.drop_first(), root, ops.skip(9))
        } else {
            &&& ops.len() >= 1
            &&& (ops[0] matches InitOp::Unshare(u) && u == t)
            &&& spec_init_match(namespaces.drop_first(), root, ops.skip(1))
        }
    }
}

/// Every bootstrap plan ends with the readiness signal, the rendezvous
/// wait and the exec, in that order: the child never executes the
/// payload before its namespaces are set up, the controller was told it
/// is ready, and the start signal arrived.
pub proof fn lemma_bootstrap_order(
    namespaces: Seq<Namespace>,
    root: Option<Root>,
    ops: Seq<InitOp>,
)
    requires
        spec_init_match(namespaces, root, ops),
    ensures
        ops.len() >= 3,
        ops[ops.len() - 3] is SendReady,
        ops[ops.len() - 2] is WaitStart,
        ops[ops.len() - 1] matches InitOp::Exec(c) && c@ == "/bin/sh"@,
    decreases namespaces.len(),
{
    if namespaces.len() > 0 {
        let t = namespaces[0].typ;
        if t == NamespaceType::Uts {
            lemma_bootstrap_order(namespaces.drop_first(), root, ops.skip(2));
        } else if t == NamespaceType::Mount {
            lemma_bootstrap_order(namespaces.drop_first(), root, ops.skip(9));
        } else {
            lemma_bootstrap_order(namespaces.drop_first(), root, ops.skip(1));
        }
    }
}

/// The steps that prepare the new root for the pivot: break mount
/// propagation to the host, then make the new root its own mount.
pub fn prepare_roofs(rootfs: &str) -> (ops: Vec<InitOp>)
    ensures
        spec_prepare_seg(rootfs@, ops@),
{
    let mut ops: Vec<InitOp> = Vec::new();
    ops.push(InitOp::MountRootPrivate);
    ops.push(InitOp::BindRootfs(rootfs.to_owned()));
    ops
}

/// The steps that pivot into the new root: enter it, give the old root a
/// place, pivot, drop and remove the old root, stand in the new `/`.
pub fn pivot_rootfs(rootfs: &str) -> (ops: Vec<InitOp>)
    ensures
        spec_pivot_seg(rootfs@, ops@),
{
    let old_root = path_join(rootfs, "oldroot");
    let mut ops: Vec<InitOp> = Vec::new();
    ops.push(InitOp::Chdir(rootfs.to_owned()));
    ops.push(InitOp::CreateDir(old_root.clone()));
    ops.push(InitOp::PivotRoot(rootfs.to_owned(), old_root));
    ops.push(InitOp::UnmountDetach(String::from_str("./oldroot")));
    ops.push(InitOp::RemoveDir(String::from_str("./oldroot")));
    ops.push(InitOp::Chdir(String::from_str("/")));
    ops
}

fn init_ops_rec(namespaces: &[Namespace], spec: &Spec) -> (ops: Vec<InitOp>)
    requires
        forall|i: int|
            0 <= i < namespaces@.len() && (#[trigger] namespaces@[i]).typ == NamespaceType::Mount
                ==> spec.root is Some,
    ensures
        spec_init_match(namespaces@, spec.root, ops@),
    decreases namespaces@.len(),
{
    if namespaces.len() == 0 {
        let mut ops: Vec<InitOp> = Vec::new();
        ops.push(InitOp::SendReady);
        ops.push(InitOp::WaitStart);
        ops.push(InitOp::Exec(String::from_str("/bin/sh")));
        ops
    } else {
        let rest = init_ops_rec(
            vstd::slice::slice_subrange(namespaces, 1, namespaces.len()),
            spec,
        );
        let ghost rest0 = rest@;
        proof {
            assert(namespaces@.subrange(1, namespaces@.len() as int) =~= namespaces@.drop_first());
        }
        let mut ops: Vec<InitOp> = Vec::new();
        match namespaces[0].typ {
            NamespaceType::Uts => {
                ops.push(InitOp::Unshare(NamespaceType::Uts));
                ops.push(InitOp::SetHostname(String::from_str("container")));
                let mut rest = rest;
                ops.append(&mut rest);
                proof {
                    assert(ops@.skip(2) =~= rest0);
                }
            },
            NamespaceType::Ipc => {
                ops.push(InitOp::Unshare(NamespaceType::Ipc));
                let mut rest = rest;
                ops.append(&mut rest);
                proof {
                    assert(ops@.skip(1) =~= rest0);
                }
            },
            NamespaceType::User => {
                ops.push(InitOp::Unshare(NamespaceType::User));
                let mut rest = rest;
                ops.append(&mut rest);
                proof {
                    assert(ops@.skip(1) =~= rest0);
                }
            },
            NamespaceType::Network => {
                ops.push(InitOp::Unshare(NamespaceType::Network));
                let mut rest = rest;
                ops.append(&mut rest);
                proof {
                    assert(ops@.skip(1) =~= rest0);
                }
            },
            NamespaceType::Pid => {
                ops.push(InitOp::Unshare(NamespaceType::Pid));
                let mut rest = rest;
                ops.append(&mut rest);
                proof {
                    assert(ops@.skip(1) =~= rest0);
                }
            },
            NamespaceType::Cgroup => {
                ops.push(InitOp::Unshare(NamespaceType::Cgroup));
                let mut rest = rest;
                ops.append(&mut rest);
                proof {
                    assert(ops@.skip(1) =~= rest0);
                }
            },
            NamespaceType::Mount => {
                let rootfs: &String = match &spec.root {
                    Some(r) => &r.path,
                    None => vstd::pervasive::unreached(),
                };
                ops.push(InitOp::Unshare(NamespaceType::Mount));
                let mut prep = prepare_roofs(rootfs.as_str());
                let ghost prep0 = prep@;
                ops.append(&mut prep);
                let mut piv = pivot_rootfs(rootfs.as_str());
                let ghost piv0 = piv@;
                ops.append(&mut piv);
                let mut rest = rest;
                ops.append(&mut rest);
                proof {
                    assert(ops@.subrange(1, 3) =~= prep0);
                    assert(ops@.subrange(3, 9) =~= piv0);
                    assert(ops@.skip(9) =~= rest0);
                }
            },
        }
        ops
    }
}

/// The child's whole bootstrap plan for the requested namespaces of a
/// bundle specification.  A mount namespace can only be requested by a
/// specification that names a root filesystem.
pub fn init_process(spec: &Spec, namespaces: &Vec<Namespace>) -> (ops: Vec<InitOp>)
    requires
        forall|i: int|
            0 <= i < namespaces@.len() && (#[trigger] namespaces@[i]).typ == NamespaceType::Mount
                ==> spec.root is Some,
    ensures
        spec_init_match(namespaces@, spec.root, ops@),
{
    init_ops_rec(namespaces.as_slice(), spec)
}

} // verus!
