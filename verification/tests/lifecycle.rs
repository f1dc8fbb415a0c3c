use smog::bootstrap::init_process;
use smog::bootstrap::InitOp;
use smog::cgroups::CGROUP2_SUPER_MAGIC;
use smog::cgroups::TMPFS_MAGIC;
use smog::cgroups_v1::MountEntry;
use smog::cli::Create;
use smog::cli::Start;
use smog::container::Container;
use smog::container::ContainerInstance;
use smog::container::CreateAction;
use smog::container::CreateError;
use smog::container::CreateEvent;
use smog::container::CreatePhase;
use smog::ipc::write_message;
use smog::oci::Linux;
use smog::oci::LinuxCpu;
use smog::oci::LinuxResources;
use smog::oci::Namespace;
use smog::oci::NamespaceType;
use smog::oci::OciError;
use smog::oci::Root;
use smog::oci::Spec;
use smog::opts;
use smog::state::State;
use smog::state::Status;

fn uts_spec() -> Spec {
    Spec {
        oci_version: "1.0.2".to_string(),
        root: None,
        linux: Some(Linux {
            namespaces: Some(vec![Namespace { typ: NamespaceType::Uts, path: None }]),
            resources: None,
        }),
    }
}

#[test]
fn test_load_spec() {
    let path = Container::new("".to_string(), ".".to_string()).load_spec();
    println!("{:?}", path);
    assert_eq!(path, "./config.json");
}

#[test]
fn test_create_container_status() {
    let (mut flow, action) = Container::new("aabbcc".to_string(), ".".to_string()).create();
    assert!(matches!(action, CreateAction::LoadSpec(p) if p == "./config.json"));

    let action = flow.step(CreateEvent::SpecLoaded(uts_spec()));
    assert!(matches!(action, CreateAction::CreateDir(p) if p == "/var/run/smog/aabbcc"));

    let action = flow.step(CreateEvent::DirCreated);
    assert!(
        matches!(action, CreateAction::BindListener(p) if p == "/var/run/smog/aabbcc/smog.sock")
    );

    let action = flow.step(CreateEvent::ListenerBound);
    assert!(matches!(action, CreateAction::OpenChannel));

    let action = flow.step(CreateEvent::ChannelOpened);
    assert!(matches!(action, CreateAction::ProbeCgroups(p) if p == "/sys/fs/cgroup"));

    let action = flow.step(CreateEvent::Probed(true, CGROUP2_SUPER_MAGIC, Vec::new()));
    let plan = match action {
        CreateAction::Fork(plan) => plan,
        other => panic!("expected a fork, got {:?}", other),
    };
    assert_eq!(plan[0], InitOp::Unshare(NamespaceType::Uts));
    assert_eq!(plan[1], InitOp::SetHostname("container".to_string()));

    let action = flow.step(CreateEvent::Forked(4242));
    let (steps, procs) = match action {
        CreateAction::AttachCgroup(Some(plan)) => plan,
        other => panic!("expected an attach plan, got {:?}", other),
    };
    assert_eq!(steps.last().unwrap().path, "/sys/fs/cgroup/smog/aabbcc");
    assert_eq!(procs.data, "4242");

    // no resource limits: no limit writes, straight to the readiness wait
    let action = flow.step(CreateEvent::Attached);
    assert!(matches!(action, CreateAction::AwaitReady));

    let ready = write_message(&"ready".to_string()).unwrap();
    let action = flow.step(CreateEvent::Message(ready));
    let (path, state) = match action {
        CreateAction::SaveState(path, state) => (path, state),
        other => panic!("expected a save, got {:?}", other),
    };
    assert_eq!(path, "/var/run/smog/aabbcc/state.json");
    assert_eq!(state.status, Status::Created);
    assert_eq!(state.id, "aabbcc");
    assert_eq!(state.pid, 4242);
    assert_eq!(state.bundle, ".");

    let action = flow.step(CreateEvent::StateSaved);
    assert!(matches!(action, CreateAction::Done(4242)));
}

#[test]
fn test_create_rejects_missing_linux() {
    let spec = Spec { oci_version: "1.0.2".to_string(), root: None, linux: None };
    let (mut flow, _) = Container::new("x".to_string(), ".".to_string()).create();
    let action = flow.step(CreateEvent::SpecLoaded(spec));
    assert!(matches!(action, CreateAction::Fail(CreateError::NoLinux)));
}

#[test]
fn test_create_rejects_mount_without_root() {
    let spec = Spec {
        oci_version: "1.0.2".to_string(),
        root: None,
        linux: Some(Linux {
            namespaces: Some(vec![Namespace { typ: NamespaceType::Mount, path: None }]),
            resources: None,
        }),
    };
    let (mut flow, _) = Container::new("x".to_string(), ".".to_string()).create();
    let action = flow.step(CreateEvent::SpecLoaded(spec));
    assert!(matches!(action, CreateAction::Fail(CreateError::NoRootfs)));
}

#[test]
fn test_create_rejects_bad_shares() {
    let spec = Spec {
        oci_version: "1.0.2".to_string(),
        root: None,
        linux: Some(Linux {
            namespaces: None,
            resources: Some(LinuxResources {
                cpu: Some(LinuxCpu {
                    shares: Some(1),
                    quota: None,
                    period: None,
                    realtime_runtime: None,
                    realtime_period: None,
                    cpus: None,
                    mems: None,
                }),
                memory: None,
            }),
        }),
    };
    let (mut flow, _) = Container::new("x".to_string(), ".".to_string()).create();
    let action = flow.step(CreateEvent::SpecLoaded(spec));
    assert!(matches!(action, CreateAction::Fail(CreateError::InvalidShares)));
}

#[test]
fn test_create_twice_conflicts_on_directory() {
    // the second creation of the same id reaches the directory step and
    // is refused there: the directory already exists
    let (mut flow, _) = Container::new("dup".to_string(), ".".to_string()).create();
    let action = flow.step(CreateEvent::SpecLoaded(uts_spec()));
    assert!(matches!(action, CreateAction::CreateDir(_)));
    let action = flow.step(CreateEvent::StepFailed);
    assert!(matches!(action, CreateAction::Fail(CreateError::DirFailed)));
}

#[test]
fn test_ready_protocol_violation() {
    let (mut flow, _) = Container::new("x".to_string(), ".".to_string()).create();
    flow.step(CreateEvent::SpecLoaded(uts_spec()));
    flow.step(CreateEvent::DirCreated);
    flow.step(CreateEvent::ListenerBound);
    flow.step(CreateEvent::ChannelOpened);
    flow.step(CreateEvent::Probed(true, CGROUP2_SUPER_MAGIC, Vec::new()));
    flow.step(CreateEvent::Forked(7));
    flow.step(CreateEvent::Attached);
    let not_ready = write_message(&"not ready".to_string()).unwrap();
    let action = flow.step(CreateEvent::Message(not_ready));
    assert!(matches!(action, CreateAction::Fail(CreateError::NotReady)));
}

#[test]
fn test_create_with_legacy_cgroups() {
    // a tmpfs cgroup root is the legacy layout: the v1 driver is chosen,
    // whose attach and apply are open extension points that plan nothing
    let spec = Spec {
        oci_version: "1.0.2".to_string(),
        root: None,
        linux: Some(Linux {
            namespaces: None,
            resources: Some(LinuxResources {
                cpu: Some(LinuxCpu {
                    shares: Some(2),
                    quota: None,
                    period: None,
                    realtime_runtime: None,
                    realtime_period: None,
                    cpus: None,
                    mems: None,
                }),
                memory: None,
            }),
        }),
    };
    let (mut flow, _) = Container::new("leg".to_string(), ".".to_string()).create();
    flow.step(CreateEvent::SpecLoaded(spec));
    flow.step(CreateEvent::DirCreated);
    flow.step(CreateEvent::ListenerBound);
    flow.step(CreateEvent::ChannelOpened);
    let table = vec![MountEntry {
        fs_type: "cgroup".to_string(),
        mount_point: "/sys/fs/cgroup/cpu".to_string(),
    }];
    let action = flow.step(CreateEvent::Probed(true, TMPFS_MAGIC, table));
    assert!(matches!(action, CreateAction::Fork(_)));
    let action = flow.step(CreateEvent::Forked(5));
    assert!(matches!(action, CreateAction::AttachCgroup(None)));
    let action = flow.step(CreateEvent::Attached);
    match action {
        CreateAction::ApplyLimits(writes) => assert!(writes.is_empty()),
        other => panic!("expected limit writes, got {:?}", other),
    }
    let action = flow.step(CreateEvent::Applied);
    assert!(matches!(action, CreateAction::AwaitReady));
    let ready = write_message(&"ready".to_string()).unwrap();
    let action = flow.step(CreateEvent::Message(ready));
    assert!(matches!(action, CreateAction::SaveState(_, st) if st.status == Status::Created));
}

#[test]
fn test_start_plan() {
    let state = State::new("aabbcc", 4242, ".".to_string());
    let mut instance = ContainerInstance::new(state, "/var/run/smog/aabbcc");
    let plan = instance.start();
    assert_eq!(instance.state.status, Status::Running);
    assert_eq!(plan.socket_path, "/var/run/smog/aabbcc/smog.sock");
    assert_eq!(plan.state_file, "/var/run/smog/aabbcc/state.json");
    assert_eq!(plan.message, vec![0, 0, 0, 5, b's', b't', b'a', b'r', b't']);
}

#[test]
fn test_state_new() {
    let state = State::new("abc", 17, "/bundle".to_string());
    assert_eq!(state.oci_version, "1.0.2");
    assert_eq!(state.id, "abc");
    assert_eq!(state.status, Status::Creating);
    assert_eq!(state.pid, 17);
    assert_eq!(state.bundle, "/bundle");
    assert_eq!(state.annotations.unwrap().len(), 0);
}

#[test]
fn test_state_file_path() {
    assert_eq!(State::state_file_path("/var/run/smog/abc"), "/var/run/smog/abc/state.json");
}

#[test]
fn test_container_load() {
    let state = State::new("abc", 9, "/bundle".to_string());
    let instance = Container::load("abc".to_string(), state);
    assert_eq!(instance.dir, "/var/run/smog/abc");
    assert_eq!(instance.state.id, "abc");
    assert_eq!(instance.save(), "/var/run/smog/abc/state.json");
}

#[test]
fn test_opts() {
    let (flow, action) = opts::create(Create {
        root: ".".to_string(),
        bundle: "/bundle".to_string(),
        container_id: "abc".to_string(),
    });
    assert_eq!(flow.phase, CreatePhase::LoadSpec);
    assert!(matches!(action, CreateAction::LoadSpec(p) if p == "/bundle/config.json"));

    let dir = opts::start(Start { container_id: "abc".to_string() });
    assert_eq!(dir, "/var/run/smog/abc");
}

#[test]
fn test_namespace_type_try_from() {
    assert!(matches!(NamespaceType::try_from("pid"), Ok(NamespaceType::Pid)));
    assert!(matches!(NamespaceType::try_from("mount"), Ok(NamespaceType::Mount)));
    assert!(matches!(NamespaceType::try_from("cgroup"), Ok(NamespaceType::Cgroup)));
    assert!(matches!(NamespaceType::try_from("uts"), Ok(NamespaceType::Uts)));
    assert!(matches!(NamespaceType::try_from("ipc"), Ok(NamespaceType::Ipc)));
    assert!(matches!(NamespaceType::try_from("user"), Ok(NamespaceType::User)));
    assert!(matches!(NamespaceType::try_from("network"), Ok(NamespaceType::Network)));
    match NamespaceType::try_from("net") {
        Err(OciError::Error(m)) => assert_eq!(m, "unknown namespace net"),
        other => panic!("expected an error, got {:?}", other),
    }
}

#[test]
fn test_oci_error() {
    let OciError::Error(m) = smog::oci::oci_error("bad spec".to_string());
    assert_eq!(m, "bad spec");
}

#[test]
fn test_bootstrap_plan() {
    let spec = Spec {
        oci_version: "1.0.2".to_string(),
        root: Some(Root { path: "/rootfs".to_string(), readonly: false }),
        linux: None,
    };
    let namespaces = vec![
        Namespace { typ: NamespaceType::Uts, path: None },
        Namespace { typ: NamespaceType::Pid, path: None },
        Namespace { typ: NamespaceType::Cgroup, path: None },
        Namespace { typ: NamespaceType::Mount, path: None },
    ];
    let ops = init_process(&spec, &namespaces);
    let expected = vec![
        InitOp::Unshare(NamespaceType::Uts),
        InitOp::SetHostname("container".to_string()),
        InitOp::Unshare(NamespaceType::Pid),
        InitOp::Unshare(NamespaceType::Cgroup),
        InitOp::Unshare(NamespaceType::Mount),
        InitOp::MountRootPrivate,
        InitOp::BindRootfs("/rootfs".to_string()),
        InitOp::Chdir("/rootfs".to_string()),
        InitOp::CreateDir("/rootfs/oldroot".to_string()),
        InitOp::PivotRoot("/rootfs".to_string(), "/rootfs/oldroot".to_string()),
        InitOp::UnmountDetach("./oldroot".to_string()),
        InitOp::RemoveDir("./oldroot".to_string()),
        InitOp::Chdir("/".to_string()),
        InitOp::SendReady,
        InitOp::WaitStart,
        InitOp::Exec("/bin/sh".to_string()),
    ];
    assert_eq!(ops, expected);
}

#[test]
fn test_container_run() {
    assert!(Container::new("x".to_string(), ".".to_string()).run().is_ok());
}
