//! MicroVMs: their processes, their shims and their disks.

use oas::config::Config;
use oas::driver::agent::{AgentAction, AgentWait};
use oas::driver::diag::{DeviceInfo, KvmDiag};
use oas::driver::firecracker::{content_length, status_code, Exchange, FirecrackerClient};
use oas::driver::identity::{
    find_fc_pid, verify_fc_pid, ProcEntry, ShimMeta, TerminateAction, Termination,
};
use oas::driver::real_driver::{
    list_vm, socket_owner, state_to_status, CreateVmPhase, CreateVmReply, DeletePhase, GetVmPhase,
    KillPhase, KillReply, RealDriver, WaitPhase,
};
use oas::driver::shim::{create_response, inputs_from, CreateRequest, CreateResponse, Watch};
use oas::driver::vm_core::{
    PrepStep, RestoreAction, RestoreInputs, RestoreReply, VmCore, VmCoreState, VmHandle,
};
use oas::driver::{DriverError, VmLifecycle, VmNet, VmSpec};
use oas::net::setup::RunFailure;
use oas::storage::{
    DiskConfig, ProvisionAction, ProvisionReply, RealStorageManager, StorageError,
};
use oas::types::SandboxId;

fn inputs() -> RestoreInputs {
    RestoreInputs {
        bundle_dir: "/snap".to_string(),
        netns_path: "/ns".to_string(),
        rw_layer_path: Some("/rw.ext4".to_string()),
        jailer_uid: 1,
        jailer_gid: 2,
        chroot_base_dir: "/jail".to_string(),
        firecracker_bin: "/fc".to_string(),
        jailer_bin: "/jailer".to_string(),
        cloud_disk_dev: None,
    }
}

fn fresh(cfg: Config) -> VmCore {
    VmCore::new(cfg, "sb1".to_string())
}

/// Answers every question so that all goes well.
fn good(a: &RestoreAction) -> RestoreReply {
    match a {
        RestoreAction::ProbePath(_) => RestoreReply::Flag(true),
        RestoreAction::FindPid(_) => RestoreReply::Pid(Some(77)),
        RestoreAction::ReadDebugFlag => RestoreReply::Flag(false),
        RestoreAction::ProbeAlive(_) => RestoreReply::Flag(true),
        RestoreAction::StatMntns(_) => RestoreReply::Inode(99),
        RestoreAction::Prepare(_)
        | RestoreAction::Pause
        | RestoreAction::DumpDiag(_)
        | RestoreAction::WriteMeta(_)
        | RestoreAction::Terminate(_) => RestoreReply::Done,
        other => match format!("{other:?}").as_str() {
            "ProbeCgroup2" | "ReadCgroup" | "Cgroup" => RestoreReply::Flag(true),
            _ => RestoreReply::Done,
        },
    }
}

#[test]
fn a_microvm_is_restored_in_a_jail() {
    let core = fresh(Config::default());
    let mut op = core.fresh_restore(&inputs(), 5);
    let mut copied = Vec::new();
    let mut ran = Vec::new();
    let mut loaded = false;
    let handle = loop {
        let a = op.action();
        match &a {
            RestoreAction::Finish(r) => break r.clone().unwrap(),
            RestoreAction::Prepare(PrepStep::Copy { dst, .. }) => copied.push(dst.clone()),
            RestoreAction::WriteMeta(m) => {
                assert_eq!((m.fc_pid, m.mntns_inode, m.shim_pid), (77, 99, 5))
            }
            _ => {}
        }
        let text = format!("{a:?}");
        if text.contains("program") {
            ran.push(text.clone());
        }
        if text.contains("vmstate:") {
            loaded = true;
        }
        let before = op.clone();
        op.advance(good(&a));
        if op == before {
            op.advance(RestoreReply::Flag(true));
        }
        assert!(op != before, "{text}");
    };
    assert_eq!((handle.fc_pid, handle.mntns_inode), (77, 99));
    assert_eq!(copied.len(), 5);
    assert!(copied[4].ends_with("/data.ext4"));
    assert!(ran[0].contains("/jailer") && ran[0].contains("--daemonize"));
    assert!(loaded);
}

#[test]
fn a_snapshot_that_does_not_load_ends_its_process() {
    let core = fresh(Config::default());
    let mut op = core.fresh_restore(&inputs(), 5);
    let mut ended = Vec::new();
    let error = loop {
        let a = op.action();
        let text = format!("{a:?}");
        match &a {
            RestoreAction::Finish(r) => break r.clone().unwrap_err(),
            RestoreAction::Terminate(pid) => ended.push(*pid),
            _ => {}
        }
        if text.contains("vmstate:") {
            op.advance(RestoreReply::Failed("bad snapshot".to_string()));
            continue;
        }
        let before = op.clone();
        op.advance(good(&a));
        if op == before {
            op.advance(RestoreReply::Flag(true));
        }
    };
    assert_eq!(ended, vec![77]);
    assert_eq!(error, "bad snapshot");
}

#[test]
fn a_socket_that_does_not_come_is_not_waited_for_for_ever() {
    let core = fresh(Config::default());
    let mut op = core.fresh_restore(&inputs(), 5);
    let mut steps = 0;
    let error = loop {
        let a = op.action();
        if let RestoreAction::Finish(r) = &a {
            break r.clone().unwrap_err();
        }
        let before = op.clone();
        if matches!(a, RestoreAction::ProbePath(_)) {
            op.advance(RestoreReply::Flag(false));
        } else {
            op.advance(good(&a));
            if op == before {
                op.advance(RestoreReply::Flag(true));
            }
        }
        steps += 1;
        assert!(steps < 10_000);
    };
    assert_eq!(error, "timeout waiting for firecracker socket");
}

#[test]
fn a_cloud_disk_is_refused() {
    let core = fresh(Config::default());
    let mut i = inputs();
    i.cloud_disk_dev = Some("/dev/vdz".to_string());
    let op = core.fresh_restore(&i, 5);
    assert!(matches!(op.action(), RestoreAction::Finish(Err(_))));
}

#[test]
fn a_creation_with_a_cloud_disk_reads_as_failed() {
    let mut core = fresh(Config::default());
    let mut i = inputs();
    i.cloud_disk_dev = Some("/dev/vdz".to_string());
    let mut op = core.create(&i, 5);
    assert!(matches!(op.action(), RestoreAction::FindPid(_)));
    op.advance(RestoreReply::Pid(None));
    assert_eq!(
        op.action(),
        RestoreAction::Finish(Err("cloud disk restore not supported in MVP".to_string()))
    );
    core.finish_create(&op);
    assert_eq!(core.liveness(false), (VmCoreState::Failed, 0));

    // An empty name is no disk.
    i.cloud_disk_dev = Some(String::new());
    let mut op = core.create(&i, 5);
    op.advance(RestoreReply::Pid(None));
    assert!(matches!(op.action(), RestoreAction::Prepare(_)));
    op.advance(RestoreReply::Failed("full".to_string()));
    assert_eq!(
        op.action(),
        RestoreAction::Finish(Err("mkdir jail root: full".to_string()))
    );
    core.finish_create(&op);
    assert_eq!(core.liveness(true), (VmCoreState::Failed, 0));
}

#[test]
fn a_take_over_without_a_process_fails() {
    let core = fresh(Config::default());
    let mut op = core.re_attach(&inputs(), 5);
    assert!(matches!(op.action(), RestoreAction::FindPid(_)));
    op.advance(RestoreReply::Pid(None));
    assert_eq!(
        op.action(),
        RestoreAction::Finish(Err("no live firecracker to re-attach".to_string()))
    );
}

#[test]
fn a_microvm_that_runs_is_not_made_again() {
    let mut core = fresh(Config::default());
    assert_eq!(core.liveness(true), (VmCoreState::NotExist, 0));
    let mut op = core.create(&inputs(), 5);
    loop {
        let a = op.action();
        if matches!(a, RestoreAction::Finish(_)) {
            break;
        }
        let before = op.clone();
        op.advance(good(&a));
        if op == before {
            op.advance(RestoreReply::Flag(true));
        }
    }
    core.finish_create(&op);
    assert_eq!(core.liveness(true), (VmCoreState::Running, 77));
    assert_eq!(core.liveness(false), (VmCoreState::Stopped, 77));
    assert_eq!(core.watched_pid(), Some(77));

    let mut op = core.create(&inputs(), 5);
    assert_eq!(op.action(), RestoreAction::ProbeAlive(77));
    op.advance(RestoreReply::Flag(true));
    op.advance(RestoreReply::Inode(99));
    match op.action() {
        RestoreAction::Finish(Ok(h)) => assert_eq!(h.fc_pid, 77),
        other => panic!("{other:?}"),
    }
    assert_eq!(core.cleanup(), Some(77));
    assert_eq!(core.liveness(true).0, VmCoreState::Stopped);
    assert!(core.meta_path().starts_with(core.sandbox_dir()));
    assert!(core.jail_root().starts_with(core.sandbox_dir()));
    assert_eq!(core.sandbox_id(), "sb1");
}

#[test]
fn an_answer_comes_in_pieces() {
    let mut e = Exchange::new();
    assert_eq!(e.feed(&b"HTTP/1.1 204 No Content\r\nContent-".to_vec()), None);
    assert_eq!(e.feed(&b"Length: 5\r\n\r\nhe".to_vec()), None);
    let r = e.feed(&b"llo and more".to_vec()).unwrap().unwrap();
    assert_eq!(r, (204, "hello".to_string()));

    let mut e = Exchange::new();
    assert!(e.feed(&vec![]).unwrap().is_err());

    let mut e = Exchange::new();
    e.feed(&b"HTTP/1.1 400 Bad\r\ncontent-length: 9\r\n\r\n".to_vec());
    e.feed(&vec![0x61, 0xff]);
    let r = e.feed(&vec![]).unwrap().unwrap();
    assert_eq!(r, (400, "a\u{fffd}".to_string()));

    assert_eq!(content_length("x: 1\r\nCONTENT-LENGTH:  7"), 7);
    assert_eq!(content_length("x: 1"), 0);
    assert_eq!(status_code("HTTP/1.1 200 OK\r\nx: y"), 200);
    assert_eq!(status_code("nonsense"), 0);
}

#[test]
fn requests_to_a_microvm() {
    let c = FirecrackerClient::new("/s".to_string());
    let r = c.put_logger("fc.log");
    assert_eq!(r.method, "PUT");
    let t = r.text();
    assert!(t.starts_with("PUT /logger HTTP/1.1\r\n"));
    assert!(t.contains(&format!("Content-Length: {}\r\n", r.body.len())));
    assert!(t.ends_with(&r.body));
    let l = c.put_snapshot_load("vmstate.src", "mem.src");
    assert!(l.body.contains("vmstate.src") && l.body.contains("mem.src"));
    assert!(FirecrackerClient::snapshot_loaded(Ok((204, String::new()))).is_ok());
    assert!(FirecrackerClient::snapshot_loaded(Ok((400, "x".to_string()))).is_err());
    assert!(FirecrackerClient::is_instance(&Ok((200, "{}".to_string())))
        || !FirecrackerClient::is_instance(&Ok((500, "{}".to_string()))));
    assert!(matches!(c.connect_error("e"), DriverError::FirecrackerApi(_)));
    assert_eq!(c.get_info().method, "GET");
}

fn meta() -> ShimMeta {
    ShimMeta { fc_pid: 7, mntns_inode: 8, started_at: 0, shim_pid: 9 }
}

#[test]
fn a_process_is_the_one_that_was_noted() {
    assert!(verify_fc_pid(true, Some(8), &meta()));
    assert!(!verify_fc_pid(true, Some(9), &meta()));
    assert!(!verify_fc_pid(true, None, &meta()));
    assert!(!verify_fc_pid(false, Some(8), &meta()));
    let p = |name: &str, comm: &str, root: Option<(u64, u64)>| ProcEntry {
        name: name.to_string(),
        comm: comm.to_string(),
        root,
    };
    let all = vec![
        p("self", "firecracker", Some((1, 2))),
        p("10", "bash", Some((1, 2))),
        p("11", "firecracker", Some((1, 3))),
        p("12", "firecracker", Some((1, 2))),
    ];
    assert_eq!(find_fc_pid(Some((1, 2)), &all), Some(12));
    assert_eq!(find_fc_pid(None, &all), None);
    let named = vec![
        p("13", "firecracker-x\n", Some((1, 2))),
        p("14", "firecracker\n", Some((1, 2))),
    ];
    assert_eq!(find_fc_pid(Some((1, 2)), &named), Some(14));
}

#[test]
fn a_process_is_asked_before_it_is_killed() {
    let mut t = Termination::Asking;
    let mut killed = false;
    let mut steps = 0;
    loop {
        match t.action() {
            TerminateAction::Finish => break,
            TerminateAction::Kill => killed = true,
            _ => {}
        }
        t.advance(true);
        steps += 1;
        assert!(steps < 1000);
    }
    assert!(killed);
    let mut t = Termination::Asking;
    loop {
        match t.action() {
            TerminateAction::Finish => break,
            TerminateAction::Kill => panic!("it ended by itself"),
            _ => {}
        }
        t.advance(false);
    }
}

#[test]
fn an_agent_is_waited_for() {
    let mut w = AgentWait::new("/var/run/netns/oas-sb".to_string(), "172.16.0.2".to_string(), 10000, 3);
    assert_eq!(w.action(), AgentAction::ReadClock);
    w.advance(true);
    match w.action() {
        AgentAction::Run(words) => {
            assert_eq!(words[..4], ["netns", "exec", "oas-sb", "python3"]);
            assert!(words[5].contains("('172.16.0.2',10000)"));
        }
        other => panic!("{other:?}"),
    }
    w.advance(false);
    match w.action() {
        AgentAction::Run(words) => assert!(words.iter().any(|x| x == "bash")),
        other => panic!("{other:?}"),
    }
    w.advance(true);
    assert_eq!(w.action(), AgentAction::Finish(Ok(())));
    let mut w = AgentWait::new("/ns".to_string(), "1.1.1.1".to_string(), 1, 3);
    w.advance(false);
    assert!(matches!(w.action(), AgentAction::Finish(Err(_))));
}

#[test]
fn what_is_noted_of_a_microvm() {
    let d = KvmDiag {
        sandbox_id: "sb1".to_string(),
        shim_pid: 5,
        shim_cgroup: Ok("0::/x\n".to_string()),
        shim_mntns: Err("no".to_string()),
        fc_pid: 7,
        fc_cgroup: Ok("0::/y".to_string()),
        fc_status: Ok("Uid:\t1".to_string()),
        fc_mntns: Ok("mnt:[1]".to_string()),
        kvm_mode: Ok(0o20666),
        jail_dev: Ok(vec!["kvm".to_string()]),
        jail_kvm: Ok(DeviceInfo { mode: 0o20660, uid: 1, gid: 2, rdev: 10 << 8 | 232 }),
    };
    let t = d.text();
    assert!(t.contains("sb1"));
    assert!(t.contains("0::/x"));
    assert!(t.contains("no"));
}

#[test]
fn shims_answer() {
    let req = CreateRequest {
        sandbox_id: "sb1".to_string(),
        bundle_dir: "/b".to_string(),
        netns_path: "/ns".to_string(),
        tap_name: "tap0".to_string(),
        rw_layer_path: String::new(),
        cloud_disk_dev: "/dev/x".to_string(),
        jailer_uid: 1,
        jailer_gid: 2,
        chroot_base_dir: "/c".to_string(),
        firecracker_bin: "/f".to_string(),
        jailer_bin: "/j".to_string(),
    };
    let i = inputs_from(&req);
    assert_eq!(i.rw_layer_path, None);
    assert_eq!(i.cloud_disk_dev, Some("/dev/x".to_string()));
    let ok = create_response(&Ok(VmHandle { fc_pid: 1, mntns_inode: 2, guest: None }));
    assert_eq!((ok.state.as_str(), ok.error.as_str()), ("Running", ""));
    let bad = create_response(&Err("e".to_string()));
    assert_eq!((bad.state.as_str(), bad.error.as_str()), ("Failed", "e"));
    assert_eq!(VmCoreState::NotExist.as_resp_str(), "Pending");
    let mut w = Watch { started: false };
    assert!(w.start());
    assert!(!w.start());
}

#[test]
fn microvms_by_their_sockets() {
    assert_eq!(socket_owner("oas-shim-sb1.sock"), Some("sb1".to_string()));
    assert_eq!(socket_owner("other.sock"), None);
    let id = SandboxId("sb1".to_string());
    assert_eq!(state_to_status(&id, "Running").lifecycle, VmLifecycle::Running);
    assert!(state_to_status(&id, "Running").healthy);
    assert_eq!(state_to_status(&id, "Stopped").lifecycle, VmLifecycle::Stopped);
    let l = list_vm(&vec![
        (SandboxId("a".to_string()), Ok("Running".to_string())),
        (SandboxId("b".to_string()), Err(DriverError::Shim("x".to_string()))),
    ]);
    assert_eq!(l[0].id.as_str(), "a");

    let cfg = Config::default();
    let mut d = RealDriver::new(cfg, "/etc/oas.toml".to_string());
    assert!(!d.rediscover("oas-shim-sb1.sock", "/run/oas-shim-sb1.sock", true));
    assert!(d.index.contains_key("sb1"));
    assert!(d.rediscover("oas-shim-sb2.sock", "/run/oas-shim-sb2.sock", false));
    assert!(!d.index.contains_key("sb2"));
    d.deleted(&id);
    assert!(!d.index.contains_key("sb1"));
    assert!(d.shim_args("sb1").contains(&"sb1".to_string()));
    assert!(RealDriver::address("/run/x.sock").ends_with("/run/x.sock"));
    assert!(RealDriver::meta_path("/d").starts_with("/d/"));
    assert!(matches!(RealDriver::connect_error("s", "e"), DriverError::Shim(_)));
}

#[test]
fn a_microvm_is_made_through_its_shim() {
    let mut d = RealDriver::new(Config::default(), String::new());
    let id = SandboxId("sb1".to_string());
    let net = VmNet { netns_path: "/ns".to_string(), tap_name: "tap0".to_string() };
    let spec = VmSpec { rw_layer_path: None, cloud_disk_dev: None };
    let mut op = d.create_vm(&id, &net, 0, &spec).unwrap();
    assert_eq!(op.request.netns_path, "/ns");
    op.advance(CreateVmReply::Exists(false));
    assert_eq!(op.phase, CreateVmPhase::Spawn);
    op.advance(CreateVmReply::Spawned(Ok(())));
    assert_eq!(op.phase, CreateVmPhase::Call);
    op.advance(CreateVmReply::Answered(Ok(CreateResponse {
        state: "Running".to_string(),
        error: String::new(),
    })));
    assert_eq!(op.phase, CreateVmPhase::Done(Ok(())));
    d.created(&op);
    assert!(d.index.contains_key("sb1"));
    assert!(d.create_vm(&id, &net, 9, &spec).is_err());

    let mut op = d.create_vm(&id, &net, 0, &spec).unwrap();
    op.advance(CreateVmReply::Exists(true));
    assert_eq!(op.phase, CreateVmPhase::Call);
    op.advance(CreateVmReply::Answered(Ok(CreateResponse {
        state: "Failed".to_string(),
        error: "bad".to_string(),
    })));
    assert!(matches!(op.phase, CreateVmPhase::Done(Err(_))));
}

#[test]
fn waiting_and_ending() {
    let mut w = WaitPhase::begin();
    let mut steps = 0;
    while w.result().is_none() {
        w.advance(false);
        steps += 1;
        assert!(steps < 10_000);
    }
    assert!(w.result().unwrap().is_err());
    let mut w = WaitPhase::begin();
    w.advance(true);
    assert_eq!(w.result(), Some(Ok(())));

    let mut p = GetVmPhase::begin();
    let id = SandboxId("sb1".to_string());
    p.answered(&id, Ok("Running".to_string()));
    assert!(matches!(p, GetVmPhase::Done(Ok(_))));

    let mut p = DeletePhase::begin();
    p.advance(true);
    let mut steps = 0;
    while p != DeletePhase::Done {
        p.advance(false);
        steps += 1;
        assert!(steps < 100);
    }

    let mut k = KillPhase::emergency_kill();
    k.advance(KillReply::Meta(Some(meta())));
    assert_eq!(k, KillPhase::Check(meta()));
    k.advance(KillReply::Meta(None));
    assert_eq!(k, KillPhase::Check(meta()));
}

/// Runs a request for disks to its end. `there` tells whether files are there,
/// and `fail` which program fails. Returns the answer and what was run.
fn provision(
    m: &RealStorageManager,
    type_id: u8,
    there: bool,
    fail: &str,
) -> (Result<DiskConfig, StorageError>, Vec<String>) {
    let mut op = m.provision("sb1", type_id, None);
    let mut ran = Vec::new();
    loop {
        match op.action() {
            ProvisionAction::Finish(r) => return (r, ran),
            ProvisionAction::ProbeFile(_) => op.advance(ProvisionReply::Exists(there)),
            ProvisionAction::Run { program, args } => {
                ran.push(format!("{program} {}", args.join(" ")));
                if program == fail {
                    op.advance(ProvisionReply::RunFailed(RunFailure::Exit("full".to_string())));
                } else {
                    op.advance(ProvisionReply::Done);
                }
            }
            _ => op.advance(ProvisionReply::Done),
        }
    }
}

#[test]
fn a_layer_out_of_a_template() {
    let m = RealStorageManager::new(Config::default());
    let (r, ran) = provision(&m, 1, true, "");
    let disk = r.unwrap();
    let path = disk.rw_layer_path.clone().unwrap();
    assert!(path.ends_with("/sb1.ext4"));
    assert_eq!(ran, vec![format!("tune2fs -U random {path}")]);
    assert_eq!(RealStorageManager::cleanup(&disk), Some(path));

    let (r, ran) = provision(&m, 1, false, "");
    assert!(r.unwrap_err().message().contains("rw CoW template does not exist: "));
    assert!(ran.is_empty());

    let (r, _) = provision(&m, 1, true, "tune2fs");
    assert!(r.unwrap_err().message().ends_with(" failed: full"));
}

#[test]
fn a_layer_without_a_template() {
    let mut cfg = Config::default();
    cfg.rw_template_path = None;
    let m = RealStorageManager::new(cfg.clone());
    let (r, ran) = provision(&m, 1, true, "");
    assert!(r
        .unwrap_err()
        .message()
        .contains("rw_template_path is required when reflink_required=true"));
    assert!(ran.is_empty());

    cfg.reflink_required = false;
    cfg.rw_size_mib = 32;
    let m = RealStorageManager::new(cfg);
    let (r, ran) = provision(&m, 1, true, "");
    let path = r.unwrap().rw_layer_path.unwrap();
    assert_eq!(ran, vec![format!("truncate -s 32M {path}"), format!("mkfs.ext4 -F {path}")]);
}

#[test]
fn a_type_without_a_layer_has_none() {
    let m = RealStorageManager::new(Config::default());
    let (r, ran) = provision(&m, 0, true, "");
    assert_eq!(r, Ok(DiskConfig { rw_layer_path: None, cloud_disk_dev: None }));
    assert!(ran.is_empty());
    assert_eq!(
        RealStorageManager::cleanup(&DiskConfig { rw_layer_path: None, cloud_disk_dev: None }),
        None
    );
}

#[test]
fn a_default_has_no_disk_and_no_network() {
    assert_eq!(VmSpec::default(), VmSpec { rw_layer_path: None, cloud_disk_dev: None });
    assert_eq!(DiskConfig::default(), DiskConfig { rw_layer_path: None, cloud_disk_dev: None });
    assert_eq!(
        VmNet::default(),
        VmNet { netns_path: String::new(), tap_name: String::new() }
    );
}
