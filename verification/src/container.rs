//! The container lifecycle controller.
//!
//! Creation is a conversation between this library and the embedding
//! program: the library decides each step and hands back an action (a
//! path to read, a directory to make, a fork to perform, control files
//! to write), the program carries it out and reports what happened, and
//! the library moves the flow forward.  The library never marks a
//! container created before its process is cgroup-attached,
//! resource-limited and has signalled readiness.

use crate::cgroups::CgroupManager;
use crate::cgroups::ControllerOpt;
use crate::cgroups::DirStep;
use crate::cgroups::FileWrite;
use crate::cgroups_v1::MountEntry;
use crate::cgroups_v2::spec_valid_shares;
use crate::bootstrap::InitOp;
use crate::bootstrap::init_process;
use crate::bootstrap::spec_init_match;
use crate::ipc::check_ready;
use crate::ipc::frame_spec;
use crate::ipc::json_string_bytes;
use crate::ipc::parse_frame;
use crate::ipc::notify_message;
use crate::ipc::read_message;
use crate::ipc::spec_ready;
use crate::ipc::spec_start;
use crate::oci::Namespace;
use crate::oci::NamespaceType;
use crate::oci::OciError;
use crate::oci::Spec;
use crate::state::State;
use crate::state::Status;
use crate::state::spec_oci_version;
use crate::state::spec_state_file;
use crate::strutil::path_join;
use crate::strutil::spec_path_join;
use vstd::prelude::*;
use vstd::string::StringSliceAdditionalSpecFns;

verus! {

/// The fixed runtime root under which every container keeps its state
/// directory.
pub open spec fn spec_root_path() -> Seq<char> {
    "/var/run/smog"@
}

/// The name of the rendezvous socket inside a container's directory.
pub open spec fn spec_sock_file() -> Seq<char> {
    "smog.sock"@
}

/// A container known only by its identity: where its bundle lies and
/// where its runtime directory goes.
#[derive(Debug, Clone)]
pub struct Container {
    pub container_id: String,
    pub bundle: String,
    pub root_path: String,
}

/// The runtime directory of a container.
pub open spec fn spec_container_dir(c: Container) -> Seq<char> {
    spec_path_join(c.root_path@, c.container_id@)
}

/// The namespaces a specification requests.
pub open spec fn spec_namespaces(s: Spec) -> Seq<Namespace> {
    match s.linux {
        Some(l) => match l.namespaces {
            Some(v) => v@,
            None => Seq::empty(),
        },
        None => Seq::empty(),
    }
}

/// A specification this controller can carry out: a Linux block is
/// present, a mount namespace comes with a root filesystem, and a CPU
/// `shares` value lies where the weight conversion is defined.
pub open spec fn spec_valid_spec(s: Spec) -> bool {
    &&& s.linux is Some
    &&& (forall|i: int|
        0 <= i < spec_namespaces(s).len() && (#[trigger] spec_namespaces(s)[i]).typ
            == NamespaceType::Mount ==> s.root is Some)
    &&& (match s.linux->0.resources {
        Some(r) => match r.cpu {
            Some(c) => spec_valid_shares(c.shares),
            None => true,
        },
        None => true,
    })
}

fn has_mount_namespace(namespaces: &Vec<Namespace>) -> (r: bool)
    ensures
        r == exists|i: int|
            0 <= i < namespaces@.len() && (#[trigger] namespaces@[i]).typ == NamespaceType::Mount,
{
    let mut i: usize = 0;
    while i < namespaces.len()
        invariant
            i <= namespaces@.len(),
            forall|k: int|
                0 <= k < i ==> (#[trigger] namespaces@[k]).typ != NamespaceType::Mount,
        decreases namespaces@.len() - i,
    {
        if matches!(namespaces[i].typ, NamespaceType::Mount) {
            return true;
        }
        i += 1;
    }
    false
}

fn shares_ok(shares: Option<u64>) -> (r: bool)
    ensures
        r == spec_valid_shares(shares),
{
    match shares {
        Some(s) => s == 0 || (2 <= s && s <= crate::cgroups_v2::MAX_SHARES),
        None => true,
    }
}

fn check_spec(s: &Spec) -> (r: Result<(), CreateError>)
    ensures
        r is Ok <==> spec_valid_spec(*s),
        r matches Err(e) ==> (if s.linux is None {
            e == CreateError::NoLinux
        } else if !(forall|i: int|
            0 <= i < spec_namespaces(*s).len() && (#[trigger] spec_namespaces(*s)[i]).typ
                == NamespaceType::Mount ==> s.root is Some) {
            e == CreateError::NoRootfs
        } else {
            e == CreateError::InvalidShares
        }),
{
    let linux = match &s.linux {
        Some(l) => l,
        None => {
            return Err(CreateError::NoLinux);
        },
    };
    match &linux.namespaces {
        Some(v) => {
            if has_mount_namespace(v) && matches!(&s.root, None) {
                return Err(CreateError::NoRootfs);
            }
        },
        None => {},
    }
    match &linux.resources {
        Some(r) => match &r.cpu {
            Some(c) => {
                if !shares_ok(c.shares) {
                    return Err(CreateError::InvalidShares);
                }
            },
            None => {},
        },
        None => {},
    }
    Ok(())
}

/// Where the creation conversation stands.
#[derive(Debug, Clone, Copy, PartialEq, Eq, Structural)]
pub enum CreatePhase {
    LoadSpec,
    MakeDir,
    BindListener,
    OpenChannel,
    Probe,
    Fork,
    Attach,
    Apply,
    AwaitReady,
    SaveState,
    Done,
    Failed,
}

/// Why a creation was abandoned.
#[derive(Debug, Clone, Copy, PartialEq, Eq, Structural)]
pub enum CreateError {
    /// The specification has no Linux block.
    NoLinux,
    /// A mount namespace was requested without a root filesystem.
    NoRootfs,
    /// A CPU `shares` value lies outside the legacy range.
    InvalidShares,
    /// The specification could not be read or decoded.
    SpecLoadFailed,
    /// The runtime directory could not be created; in particular it
    /// already exists when a container of this id was created before.
    DirFailed,
    /// The rendezvous socket could not be bound.
    ListenerFailed,
    /// The synchronization channel could not be opened.
    ChannelFailed,
    /// The default cgroup root is missing or of an unexpected type.
    UnsupportedCgroup,
    /// The child could not be forked.
    ForkFailed,
    /// The cgroup hierarchy could not be created or the process not
    /// attached.
    AttachFailed,
    /// A resource limit could not be written.
    ApplyFailed,
    /// The channel closed, or the readiness message was not the
    /// readiness word.
    NotReady,
    /// The state file could not be written.
    SaveFailed,
    /// The report does not answer the pending action.
    UnexpectedEvent,
}

/// What the embedding program reports back after carrying out an action.
#[derive(Debug)]
pub enum CreateEvent {
    /// The specification file was read and decoded.
    SpecLoaded(Spec),
    /// The runtime directory now exists and was not there before.
    DirCreated,
    /// The rendezvous socket is bound and listening.
    ListenerBound,
    /// The synchronization channel is open on both ends.
    ChannelOpened,
    /// The default cgroup root was probed: whether it exists, the
    /// filesystem magic reported for it, and the process's mount table.
    Probed(bool, i64, Vec<MountEntry>),
    /// The child was forked and carries this process id.
    Forked(i32),
    /// The attach plan was carried out.
    Attached,
    /// The limit writes were carried out.
    Applied,
    /// One frame arrived on the synchronization channel.
    Message(Vec<u8>),
    /// The state file was written.
    StateSaved,
    /// The pending action failed.
    StepFailed,
}

/// What the embedding program must do next.
#[derive(Debug)]
pub enum CreateAction {
    /// Read and decode the specification file at this path.
    LoadSpec(String),
    /// Create this directory; fail if it already exists.
    CreateDir(String),
    /// Bind the rendezvous listener at this path.
    BindListener(String),
    /// Open the synchronization channel.
    OpenChannel,
    /// Probe this path: does it exist, and what filesystem magic does
    /// `statfs` report; read the mount table alongside.
    ProbeCgroups(String),
    /// Fork; the child carries out this bootstrap plan, the parent
    /// reports the child's pid.
    Fork(Vec<InitOp>),
    /// Carry out the attach plan, directories first, in order.
    AttachCgroup(Option<(Vec<DirStep>, FileWrite)>),
    /// Carry out these control-file writes, in order.
    ApplyLimits(Vec<FileWrite>),
    /// Read one frame from the synchronization channel.
    AwaitReady,
    /// Write this state, as JSON, to this path.
    SaveState(String, State),
    /// The container is created; this is its process id.
    Done(i32),
    /// Creation is abandoned for this reason.
    Fail(CreateError),
}

/// Whether a report answers the action pending in a phase.
pub open spec fn spec_event_answers(phase: CreatePhase, event: CreateEvent) -> bool {
    match phase {
        CreatePhase::LoadSpec => event is SpecLoaded,
        CreatePhase::MakeDir => event is DirCreated,
        CreatePhase::BindListener => event is ListenerBound,
        CreatePhase::OpenChannel => event is ChannelOpened,
        CreatePhase::Probe => event is Probed,
        CreatePhase::Fork => event is Forked,
        CreatePhase::Attach => event is Attached,
        CreatePhase::Apply => event is Applied,
        CreatePhase::AwaitReady => event is Message,
        CreatePhase::SaveState => event is StateSaved,
        CreatePhase::Done => false,
        CreatePhase::Failed => false,
    }
}

/// The reason reported when the pending action of a phase fails.
pub open spec fn spec_fail_code(phase: CreatePhase) -> CreateError {
    match phase {
        CreatePhase::LoadSpec => CreateError::SpecLoadFailed,
        CreatePhase::MakeDir => CreateError::DirFailed,
        CreatePhase::BindListener => CreateError::ListenerFailed,
        CreatePhase::OpenChannel => CreateError::ChannelFailed,
        CreatePhase::Probe => CreateError::UnsupportedCgroup,
        CreatePhase::Fork => CreateError::ForkFailed,
        CreatePhase::Attach => CreateError::AttachFailed,
        CreatePhase::Apply => CreateError::ApplyFailed,
        CreatePhase::AwaitReady => CreateError::NotReady,
        CreatePhase::SaveState => CreateError::SaveFailed,
        CreatePhase::Done => CreateError::UnexpectedEvent,
        CreatePhase::Failed => CreateError::UnexpectedEvent,
    }
}

fn fail_code(phase: CreatePhase) -> (r: CreateError)
    ensures
        r == spec_fail_code(phase),
{
    match phase {
        CreatePhase::LoadSpec => CreateError::SpecLoadFailed,
        CreatePhase::MakeDir => CreateError::DirFailed,
        CreatePhase::BindListener => CreateError::ListenerFailed,
        CreatePhase::OpenChannel => CreateError::ChannelFailed,
        CreatePhase::Probe => CreateError::UnsupportedCgroup,
        CreatePhase::Fork => CreateError::ForkFailed,
        CreatePhase::Attach => CreateError::AttachFailed,
        CreatePhase::Apply => CreateError::ApplyFailed,
        CreatePhase::AwaitReady => CreateError::NotReady,
        CreatePhase::SaveState => CreateError::SaveFailed,
        CreatePhase::Done => CreateError::UnexpectedEvent,
        CreatePhase::Failed => CreateError::UnexpectedEvent,
    }
}

/// One container creation under way.
pub struct CreateFlow {
    pub container: Container,
    pub phase: CreatePhase,
    pub spec: Option<Spec>,
    pub manager: Option<CgroupManager>,
    pub pid: i32,
}

impl CreateFlow {
    /// What holds of a flow between steps: once the specification is
    /// loaded it is a valid one, and a driver exists from the probe on.
    pub open spec fn inv(self) -> bool {
        &&& (self.phase != CreatePhase::LoadSpec && self.phase != CreatePhase::Failed) ==> (
        self.spec matches Some(s) && spec_valid_spec(s))
        &&& (self.phase == CreatePhase::Fork || self.phase == CreatePhase::Attach || self.phase
            == CreatePhase::Apply) ==> self.manager is Some
    }

    /// Move the creation one step forward: take the report on the last
    /// action, hand back the next one.
    pub fn step(&mut self, event: CreateEvent) -> (r: CreateAction)
        requires
            old(self).inv(),
        ensures
            final(self).inv(),
            final(self).container == old(self).container,
            // what was loaded or chosen is carried forward unchanged
            old(self).phase != CreatePhase::LoadSpec ==> final(self).spec == old(self).spec,
            old(self).phase != CreatePhase::Probe ==> final(self).manager == old(self).manager,
            old(self).phase != CreatePhase::Fork ==> final(self).pid == old(self).pid,
            // a report that does not answer the pending action abandons
            // the creation
            (!spec_event_answers(old(self).phase, event) && !(event is StepFailed)) ==> (final(self).phase == CreatePhase::Failed && (r matches CreateAction::Fail(e) && e
                == CreateError::UnexpectedEvent)),
            // the specification is loaded, checked, and kept
            old(self).phase == CreatePhase::LoadSpec ==> (event matches CreateEvent::SpecLoaded(s)
                ==> {
                &&& spec_valid_spec(s) ==> (final(self).phase == CreatePhase::MakeDir && final(self).spec == Some(s) && (r matches CreateAction::CreateDir(p) && p@
                    == spec_container_dir(old(self).container)))
                &&& !spec_valid_spec(s) ==> (final(self).phase == CreatePhase::Failed && (r matches
                CreateAction::Fail(e) && (if s.linux is None {
                    e == CreateError::NoLinux
                } else if !(forall|i: int|
                    0 <= i < spec_namespaces(s).len() && (#[trigger] spec_namespaces(s)[i]).typ
                        == NamespaceType::Mount ==> s.root is Some) {
                    e == CreateError::NoRootfs
                } else {
                    e == CreateError::InvalidShares
                })))
            }),
            // the runtime directory exists: bind the rendezvous socket
            (old(self).phase == CreatePhase::MakeDir && event is DirCreated) ==> (final(self).phase
                == CreatePhase::BindListener && (r matches CreateAction::BindListener(p) && p@
                == spec_path_join(spec_container_dir(old(self).container), spec_sock_file()))),
            // the listener is bound: open the channel
            (old(self).phase == CreatePhase::BindListener && event is ListenerBound) ==> (final(self).phase == CreatePhase::OpenChannel && r is OpenChannel),
            // the channel is open: probe the cgroup root
            (old(self).phase == CreatePhase::OpenChannel && event is ChannelOpened) ==> (final(self).phase == CreatePhase::Probe && (r matches CreateAction::ProbeCgroups(p) && p@
                == crate::cgroups::spec_default_cgroup_root())),
            // the probe answers: pick the driver and fork the child
            old(self).phase == CreatePhase::Probe ==> (event matches CreateEvent::Probed(
                ex,
                magic,
                mounts,
            ) ==> {
                &&& !(ex && (magic == crate::cgroups::CGROUP2_SUPER_MAGIC || magic
                    == crate::cgroups::TMPFS_MAGIC)) ==> (final(self).phase == CreatePhase::Failed
                    && (r matches CreateAction::Fail(e) && e == CreateError::UnsupportedCgroup))
                &&& (ex && (magic == crate::cgroups::CGROUP2_SUPER_MAGIC || magic
                    == crate::cgroups::TMPFS_MAGIC)) ==> (final(self).phase == CreatePhase::Fork
                    && (r matches CreateAction::Fork(plan) && spec_init_match(
                    spec_namespaces(old(self).spec->0),
                    (old(self).spec->0).root,
                    plan@,
                )))
                &&& (ex && magic == crate::cgroups::CGROUP2_SUPER_MAGIC) ==> (final(self).manager matches Some(m) && m matches CgroupManager::V2(v2)
                    && crate::cgroups_v2::Manager::spec_new(
                    &v2,
                    crate::cgroups::spec_default_cgroup_root(),
                    old(self).container.container_id@,
                ))
                &&& (ex && magic == crate::cgroups::TMPFS_MAGIC) ==> (final(self).manager matches
                Some(m) && m matches CgroupManager::V1(v1) && crate::cgroups_v1::Manager::spec_new(
                    &v1,
                    old(self).container.container_id@,
                    mounts@,
                ))
            }),
            // the child exists: attach it to its cgroup
            old(self).phase == CreatePhase::Fork ==> (event matches CreateEvent::Forked(pid) ==> (
            final(self).phase == CreatePhase::Attach && final(self).pid == pid && final(self).manager == old(self).manager && (r matches CreateAction::AttachCgroup(plan) && (match
                old(self).manager {
                Some(CgroupManager::V2(v2)) => plan matches Some(pl)
                    && crate::cgroups_v2::Manager::spec_unified_plan(
                    &v2,
                    pl.0@,
                    pl.1,
                    pid as int,
                ),
                Some(CgroupManager::V1(_)) => plan is None,
                None => true,
            })))),
            // the child is attached: apply limits, or skip straight to
            // the readiness wait when the specification sets none
            (old(self).phase == CreatePhase::Attach && event is Attached && (old(self).spec->0).linux->0.resources is Some) ==> (final(self).phase == CreatePhase::Apply
                && final(self).pid == old(self).pid && (r matches CreateAction::ApplyLimits(ws) && (
            match old(self).manager {
                Some(CgroupManager::V2(v2)) => crate::cgroups_v2::Manager::spec_apply(
                    &v2,
                    ((old(self).spec->0).linux->0).resources->0,
                    ws@,
                ),
                Some(CgroupManager::V1(_)) => ws@.len() == 0,
                None => true,
            }))),
            (old(self).phase == CreatePhase::Attach && event is Attached && (old(self).spec->0).linux->0.resources is None) ==> (final(self).phase == CreatePhase::AwaitReady
                && final(self).pid == old(self).pid && r is AwaitReady),
            // the limits are applied: wait for readiness
            (old(self).phase == CreatePhase::Apply && event is Applied) ==> (final(self).phase
                == CreatePhase::AwaitReady && final(self).pid == old(self).pid && r is AwaitReady),
            // the message decides: only the readiness word saves the
            // created state, a malformed frame or any other word is a
            // fatal protocol violation
            old(self).phase == CreatePhase::AwaitReady ==> (event matches CreateEvent::Message(
                bytes,
            ) ==> {
                &&& (json_string_bytes(spec_ready()).len() <= u32::MAX && bytes@ == frame_spec(
                    json_string_bytes(spec_ready()),
                )) ==> final(self).phase == CreatePhase::SaveState
                &&& parse_frame(bytes@) is None ==> (final(self).phase == CreatePhase::Failed && (
                r matches CreateAction::Fail(e) && e == CreateError::NotReady))
                &&& (forall|s: Seq<char>|
                    ((#[trigger] json_string_bytes(s)).len() <= u32::MAX && bytes@ == frame_spec(
                        json_string_bytes(s),
                    ) && s != spec_ready()) ==> (final(self).phase == CreatePhase::Failed && (
                    r matches CreateAction::Fail(e) && e == CreateError::NotReady)))
            }),
            // whenever a save is asked for, it writes the created state
            // of this container's child into its state file
            r matches CreateAction::SaveState(p, st) ==> (old(self).phase == CreatePhase::AwaitReady
                && p@ == spec_path_join(spec_container_dir(old(self).container), spec_state_file())
                && st.status == Status::Created && st.pid == old(self).pid && st.id@ == old(self).container.container_id@ && st.bundle@ == old(self).container.bundle@
                && st.oci_version@ == spec_oci_version() && final(self).pid == old(self).pid),
            final(self).phase == CreatePhase::SaveState ==> r is SaveState,
            // the state is persisted: the container is created
            (old(self).phase == CreatePhase::SaveState && event is StateSaved) ==> (final(self).phase == CreatePhase::Done && (r matches CreateAction::Done(p) && p == old(self).pid)),
            r matches CreateAction::Done(p) ==> (old(self).phase == CreatePhase::SaveState && p
                == old(self).pid),
            final(self).phase == CreatePhase::Done ==> (old(self).phase == CreatePhase::SaveState
                && event is StateSaved),
            // a failed action abandons the creation with its phase's code
            (event is StepFailed && old(self).phase != CreatePhase::Done && old(self).phase
                != CreatePhase::Failed) ==> (final(self).phase == CreatePhase::Failed && (r matches
            CreateAction::Fail(e) && e == spec_fail_code(old(self).phase))),
            r matches CreateAction::Fail(_) ==> final(self).phase == CreatePhase::Failed,
    {
        let phase = self.phase;
        match (phase, event) {
            (CreatePhase::LoadSpec, CreateEvent::SpecLoaded(s)) => {
                match check_spec(&s) {
                    Ok(_) => {
                        let dir = self.container.create_container_dir();
                        self.spec = Some(s);
                        self.phase = CreatePhase::MakeDir;
                        CreateAction::CreateDir(dir)
                    },
                    Err(e) => {
                        self.phase = CreatePhase::Failed;
                        CreateAction::Fail(e)
                    },
                }
            },
            (CreatePhase::MakeDir, CreateEvent::DirCreated) => {
                let dir = self.container.create_container_dir();
                self.phase = CreatePhase::BindListener;
                CreateAction::BindListener(path_join(dir.as_str(), "smog.sock"))
            },
            (CreatePhase::BindListener, CreateEvent::ListenerBound) => {
                self.phase = CreatePhase::OpenChannel;
                CreateAction::OpenChannel
            },
            (CreatePhase::OpenChannel, CreateEvent::ChannelOpened) => {
                self.phase = CreatePhase::Probe;
                CreateAction::ProbeCgroups(crate::cgroups::default_cgroup_root().to_owned())
            },
            (CreatePhase::Probe, CreateEvent::Probed(root_exists, magic, mounts)) => {
                match crate::cgroups::get_cgroup_version(root_exists, magic) {
                    Ok(version) => {
                        let manager = CgroupManager::new_cgroup_manager(
                            version,
                            self.container.container_id.as_str(),
                            &mounts,
                        );
                        let empty: Vec<Namespace> = Vec::new();
                        let plan: Vec<InitOp> = match &self.spec {
                            Some(s) => {
                                let namespaces: &Vec<Namespace> = match &s.linux {
                                    Some(l) => match &l.namespaces {
                                        Some(v) => v,
                                        None => &empty,
                                    },
                                    None => &empty,
                                };
                                proof {
                                    if (old(self).spec->0).linux->0.namespaces is None {
                                        assert(namespaces@ =~= spec_namespaces(old(self).spec->0));
                                    }
                                }
                                init_process(s, namespaces)
                            },
                            None => vstd::pervasive::unreached(),
                        };
                        self.manager = Some(manager);
                        self.phase = CreatePhase::Fork;
                        CreateAction::Fork(plan)
                    },
                    Err(_) => {
                        self.phase = CreatePhase::Failed;
                        CreateAction::Fail(CreateError::UnsupportedCgroup)
                    },
                }
            },
            (CreatePhase::Fork, CreateEvent::Forked(pid)) => {
                self.pid = pid;
                let plan = match &self.manager {
                    Some(m) => m.add_task(pid),
                    None => None,
                };
                self.phase = CreatePhase::Attach;
                CreateAction::AttachCgroup(plan)
            },
            (CreatePhase::Attach, CreateEvent::Attached) => {
                let has_resources = match &self.spec {
                    Some(s) => match &s.linux {
                        Some(l) => l.resources.is_some(),
                        None => false,
                    },
                    None => false,
                };
                if has_resources {
                    let writes = match (&self.manager, &self.spec) {
                        (Some(m), Some(s)) => match &s.linux {
                            Some(l) => match &l.resources {
                                Some(res) => m.apply(&ControllerOpt { resources: res }),
                                None => vstd::pervasive::unreached(),
                            },
                            None => vstd::pervasive::unreached(),
                        },
                        _ => vstd::pervasive::unreached(),
                    };
                    self.phase = CreatePhase::Apply;
                    CreateAction::ApplyLimits(writes)
                } else {
                    self.phase = CreatePhase::AwaitReady;
                    CreateAction::AwaitReady
                }
            },
            (CreatePhase::Apply, CreateEvent::Applied) => {
                self.phase = CreatePhase::AwaitReady;
                CreateAction::AwaitReady
            },
            (CreatePhase::AwaitReady, CreateEvent::Message(bytes)) => {
                let msg = match read_message(bytes.as_slice()) {
                    Ok(m) => m,
                    Err(_) => {
                        self.phase = CreatePhase::Failed;
                        return CreateAction::Fail(CreateError::NotReady);
                    },
                };
                if check_ready(&msg) {
                    let mut st = State::new(
                        self.container.container_id.as_str(),
                        self.pid,
                        self.container.bundle.clone(),
                    );
                    st.status = Status::Created;
                    let dir = self.container.create_container_dir();
                    let file = State::state_file_path(dir.as_str());
                    self.phase = CreatePhase::SaveState;
                    CreateAction::SaveState(file, st)
                } else {
                    self.phase = CreatePhase::Failed;
                    CreateAction::Fail(CreateError::NotReady)
                }
            },
            (CreatePhase::SaveState, CreateEvent::StateSaved) => {
                self.phase = CreatePhase::Done;
                CreateAction::Done(self.pid)
            },
            (p, CreateEvent::StepFailed) => {
                self.phase = CreatePhase::Failed;
                CreateAction::Fail(fail_code(p))
            },
            _ => {
                self.phase = CreatePhase::Failed;
                CreateAction::Fail(CreateError::UnexpectedEvent)
            },
        }
    }
}

impl Container {
    /// A container under the fixed runtime root.
    pub fn new(container_id: String, bundle: String) -> (r: Container)
        ensures
            r.container_id@ == container_id@,
            r.bundle@ == bundle@,
            r.root_path@ == spec_root_path(),
    {
        Container {
            container_id,
            bundle,
            root_path: <String as vstd::string::StringExecFns>::from_str("/var/run/smog"),
        }
    }

    /// The instance of an already-created container, from the state the
    /// caller read back from the container's state file.
    pub fn load(container_id: String, state: State) -> (r: ContainerInstance)
        ensures
            r.state == state,
            r.dir@ == spec_path_join(spec_root_path(), container_id@),
    {
        let dir = path_join("/var/run/smog", container_id.as_str());
        ContainerInstance { state, dir }
    }

    /// The same container with another bundle.
    pub fn set_bundle(self, bundle: String) -> (r: Container)
        ensures
            r.container_id == self.container_id,
            r.root_path == self.root_path,
            r.bundle@ == bundle@,
    {
        Container { bundle, ..self }
    }

    /// The path of the bundle's specification file; reading and decoding
    /// it is the caller's part.
    pub fn load_spec(&self) -> (r: String)
        ensures
            r@ == spec_path_join(self.bundle@, "config.json"@),
    {
        path_join(self.bundle.as_str(), "config.json")
    }

    /// The container's runtime directory; creating it is the caller's
    /// part, and creation must fail if it already exists.
    pub fn create_container_dir(&self) -> (r: String)
        ensures
            r@ == spec_container_dir(*self),
    {
        path_join(self.root_path.as_str(), self.container_id.as_str())
    }

    /// Open the creation conversation: the flow, and the first action.
    pub fn create(self) -> (r: (CreateFlow, CreateAction))
        ensures
            r.0.phase == CreatePhase::LoadSpec,
            r.0.container == self,
            r.0.spec is None,
            r.0.manager is None,
            r.0.inv(),
            r.1 matches CreateAction::LoadSpec(p) && p@ == spec_path_join(
                self.bundle@,
                "config.json"@,
            ),
    {
        let path = self.load_spec();
        (
            CreateFlow {
                container: self,
                phase: CreatePhase::LoadSpec,
                spec: None,
                manager: None,
                pid: 0,
            },
            CreateAction::LoadSpec(path),
        )
    }

    /// Creating and starting in one go is composed by the embedding
    /// program; nothing is left to decide here.
    pub fn run(self) -> (r: Result<(), OciError>)
        ensures
            r is Ok,
    {
        Ok(())
    }
}

/// What the embedding program performs to start a created container:
/// connect to the rendezvous socket, send the framed start word, close,
/// and persist the updated state at its file.
pub struct StartPlan {
    pub socket_path: String,
    pub message: Vec<u8>,
    pub state_file: String,
}

/// A created container, live or loaded back from its state file.
#[derive(Debug, Clone)]
pub struct ContainerInstance {
    pub state: State,
    pub dir: String,
}

impl ContainerInstance {
    /// An instance over a known state and runtime directory.
    pub fn new(state: State, container_dir: &str) -> (r: ContainerInstance)
        ensures
            r.state == state,
            r.dir@ == container_dir@,
    {
        ContainerInstance { state, dir: container_dir.to_owned() }
    }

    /// An instance from the state the caller read back from the given
    /// runtime directory's state file.
    pub fn load(container_dir: &str, state: State) -> (r: ContainerInstance)
        ensures
            r.state == state,
            r.dir@ == container_dir@,
    {
        ContainerInstance { state, dir: container_dir.to_owned() }
    }

    /// The path of this container's state file; writing the state there
    /// is the caller's part, on every transition.
    pub fn save(&self) -> (r: String)
        ensures
            r@ == spec_path_join(self.dir@, spec_state_file()),
    {
        State::state_file_path(self.dir.as_str())
    }

    /// Mark the container running and say how to deliver the start
    /// signal: the rendezvous socket's path, the framed start word, and
    /// the state file to persist the new status to.
    pub fn start(&mut self) -> (r: StartPlan)
        ensures
            final(self).state.status == Status::Running,
            final(self).state.id == old(self).state.id,
            final(self).state.pid == old(self).state.pid,
            final(self).state.bundle == old(self).state.bundle,
            final(self).state.oci_version == old(self).state.oci_version,
            final(self).state.annotations == old(self).state.annotations,
            final(self).dir == old(self).dir,
            r.socket_path@ == spec_path_join(old(self).dir@, spec_sock_file()),
            r.message@ == frame_spec(vstd::utf8::encode_utf8(spec_start())),
            r.state_file@ == spec_path_join(old(self).dir@, spec_state_file()),
    {
        proof {
            reveal_strlit("start");
            assert(vstd::utf8::is_ascii_chars(spec_start()));
            vstd::utf8::is_ascii_chars_encode_utf8(spec_start());
        }
        let socket_path = path_join(self.dir.as_str(), "smog.sock");
        let message = match notify_message("start") {
            Some(m) => m,
            None => vstd::pervasive::unreached(),
        };
        let state_file = State::state_file_path(self.dir.as_str());
        self.state.status = Status::Running;
        StartPlan { socket_path, message, state_file }
    }
}

} // verus!
