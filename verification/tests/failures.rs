use smog::bootstrap::pivot_rootfs;
use smog::bootstrap::prepare_roofs;
use smog::bootstrap::InitOp;
use smog::cli::Create;
use smog::container::Container;
use smog::container::ContainerInstance;
use smog::container::CreateAction;
use smog::container::CreateError;
use smog::container::CreateEvent;
use smog::oci::Linux;
use smog::oci::Spec;
use smog::opts;
use smog::state::State;

fn plain_spec() -> Spec {
    Spec {
        oci_version: "1.0.2".to_string(),
        root: None,
        linux: Some(Linux { namespaces: None, resources: None }),
    }
}

fn flow_at_probe() -> smog::container::CreateFlow {
    let (mut flow, _) = opts::create(Create {
        root: ".".to_string(),
        bundle: ".".to_string(),
        container_id: "x".to_string(),
    });
    flow.step(CreateEvent::SpecLoaded(plain_spec()));
    flow.step(CreateEvent::DirCreated);
    flow.step(CreateEvent::ListenerBound);
    flow.step(CreateEvent::ChannelOpened);
    flow
}

#[test]
fn test_fail_codes_follow_the_phase() {
    let expectations = [
        (0, CreateError::SpecLoadFailed),
        (1, CreateError::DirFailed),
        (2, CreateError::ListenerFailed),
        (3, CreateError::ChannelFailed),
        (4, CreateError::UnsupportedCgroup),
    ];
    for (steps, expected) in expectations {
        let (mut flow, _) = opts::create(Create {
            root: ".".to_string(),
            bundle: ".".to_string(),
            container_id: "x".to_string(),
        });
        let events = [
            CreateEvent::SpecLoaded(plain_spec()),
            CreateEvent::DirCreated,
            CreateEvent::ListenerBound,
            CreateEvent::ChannelOpened,
        ];
        for event in events.into_iter().take(steps) {
            flow.step(event);
        }
        match flow.step(CreateEvent::StepFailed) {
            CreateAction::Fail(e) => assert_eq!(e, expected),
            other => panic!("expected a failure, got {:?}", other),
        }
    }
}

#[test]
fn test_fork_and_later_fail_codes() {
    let mut flow = flow_at_probe();
    flow.step(CreateEvent::Probed(true, smog::cgroups::CGROUP2_SUPER_MAGIC, Vec::new()));
    match {
        let mut f = flow_at_probe();
        f.step(CreateEvent::Probed(true, smog::cgroups::CGROUP2_SUPER_MAGIC, Vec::new()));
        f.step(CreateEvent::StepFailed)
    } {
        CreateAction::Fail(e) => assert_eq!(e, CreateError::ForkFailed),
        other => panic!("expected a failure, got {:?}", other),
    }
    flow.step(CreateEvent::Forked(3));
    match flow.step(CreateEvent::StepFailed) {
        CreateAction::Fail(e) => assert_eq!(e, CreateError::AttachFailed),
        other => panic!("expected a failure, got {:?}", other),
    }
}

#[test]
fn test_apply_and_save_fail_codes() {
    let cpu = smog::oci::LinuxCpu {
        shares: Some(2),
        quota: None,
        period: None,
        realtime_runtime: None,
        realtime_period: None,
        cpus: None,
        mems: None,
    };
    let spec = Spec {
        oci_version: "1.0.2".to_string(),
        root: None,
        linux: Some(Linux {
            namespaces: None,
            resources: Some(smog::oci::LinuxResources { cpu: Some(cpu), memory: None }),
        }),
    };
    let (mut flow, _) = opts::create(Create {
        root: ".".to_string(),
        bundle: ".".to_string(),
        container_id: "x".to_string(),
    });
    flow.step(CreateEvent::SpecLoaded(spec));
    flow.step(CreateEvent::DirCreated);
    flow.step(CreateEvent::ListenerBound);
    flow.step(CreateEvent::ChannelOpened);
    flow.step(CreateEvent::Probed(true, smog::cgroups::CGROUP2_SUPER_MAGIC, Vec::new()));
    flow.step(CreateEvent::Forked(3));
    // limits are present, so the attach leads into the apply
    let action = flow.step(CreateEvent::Attached);
    match action {
        CreateAction::ApplyLimits(writes) => {
            assert_eq!(writes.len(), 2);
            assert_eq!(writes[0].data, "1");
        }
        other => panic!("expected limit writes, got {:?}", other),
    }
    match flow.step(CreateEvent::StepFailed) {
        CreateAction::Fail(e) => assert_eq!(e, CreateError::ApplyFailed),
        other => panic!("expected a failure, got {:?}", other),
    }
}

#[test]
fn test_save_fail_code() {
    let mut flow = flow_at_probe();
    flow.step(CreateEvent::Probed(true, smog::cgroups::CGROUP2_SUPER_MAGIC, Vec::new()));
    flow.step(CreateEvent::Forked(3));
    flow.step(CreateEvent::Attached);
    let ready = smog::ipc::write_message(&"ready".to_string()).unwrap();
    flow.step(CreateEvent::Message(ready));
    match flow.step(CreateEvent::StepFailed) {
        CreateAction::Fail(e) => assert_eq!(e, CreateError::SaveFailed),
        other => panic!("expected a failure, got {:?}", other),
    }
}

#[test]
fn test_probe_unsupported_root() {
    let mut flow = flow_at_probe();
    let action = flow.step(CreateEvent::Probed(false, 0, Vec::new()));
    assert!(matches!(action, CreateAction::Fail(CreateError::UnsupportedCgroup)));

    let mut flow = flow_at_probe();
    let action = flow.step(CreateEvent::Probed(true, 0x9123683e, Vec::new()));
    assert!(matches!(action, CreateAction::Fail(CreateError::UnsupportedCgroup)));
}

#[test]
fn test_unexpected_event_fails() {
    let (mut flow, _) = opts::create(Create {
        root: ".".to_string(),
        bundle: ".".to_string(),
        container_id: "x".to_string(),
    });
    // the first action loads the spec; a directory report does not answer it
    let action = flow.step(CreateEvent::DirCreated);
    assert!(matches!(action, CreateAction::Fail(CreateError::UnexpectedEvent)));
}

#[test]
fn test_bad_frame_is_not_ready() {
    let mut flow = flow_at_probe();
    flow.step(CreateEvent::Probed(true, smog::cgroups::CGROUP2_SUPER_MAGIC, Vec::new()));
    flow.step(CreateEvent::Forked(3));
    flow.step(CreateEvent::Attached);
    let action = flow.step(CreateEvent::Message(vec![1, 2]));
    assert!(matches!(action, CreateAction::Fail(CreateError::NotReady)));
}

#[test]
fn test_prepare_roofs() {
    let ops = prepare_roofs("/rootfs");
    assert_eq!(
        ops,
        vec![InitOp::MountRootPrivate, InitOp::BindRootfs("/rootfs".to_string())]
    );
}

#[test]
fn test_pivot_rootfs() {
    let ops = pivot_rootfs("/rootfs");
    assert_eq!(ops[0], InitOp::Chdir("/rootfs".to_string()));
    assert_eq!(ops[1], InitOp::CreateDir("/rootfs/oldroot".to_string()));
    assert_eq!(
        ops[2],
        InitOp::PivotRoot("/rootfs".to_string(), "/rootfs/oldroot".to_string())
    );
    assert_eq!(ops[3], InitOp::UnmountDetach("./oldroot".to_string()));
    assert_eq!(ops[4], InitOp::RemoveDir("./oldroot".to_string()));
    assert_eq!(ops[5], InitOp::Chdir("/".to_string()));
}

#[test]
fn test_set_bundle() {
    let c = Container::new("abc".to_string(), ".".to_string());
    let c = c.set_bundle("/elsewhere".to_string());
    assert_eq!(c.bundle, "/elsewhere");
    assert_eq!(c.container_id, "abc");
    assert_eq!(c.load_spec(), "/elsewhere/config.json");
}

#[test]
fn test_container_instance_load() {
    let state = State::new("abc", 9, "/bundle".to_string());
    let instance = ContainerInstance::load("/var/run/smog/abc", state);
    assert_eq!(instance.dir, "/var/run/smog/abc");
    assert_eq!(instance.state.pid, 9);
}

#[test]
fn test_subsystem_names() {
    assert_eq!(smog::cgroups_v2::SubSystemType::Cpu.name(), "cpu");
    assert_eq!(smog::cgroups_v2::SubSystemType::HugeTlb.name(), "hugetlb");
    assert_eq!(smog::cgroups_v1::SubSystemType::NetCls.name(), "net_cls");
    assert_eq!(smog::cgroups_v1::SubSystemType::PerfEvent.name(), "perf_event");
    assert_eq!(smog::cgroups_v1::SubSystemType::Rdma.name(), "rdma");
}
