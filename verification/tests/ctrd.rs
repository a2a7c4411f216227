//! The shim that containerd starts for a pod.

use oas::config::Config;
use oas::ctrd::bundle::{
    bundle_spec, config_path, parse_bundle_spec, read_failure, BundleSpec, ContainerType, OciLinux,
    OciNamespace, OciSpec,
};
use oas::ctrd::start::{action_start, bundle_dir, reported, resolve_grouping};
use oas::ctrd::task::{Answer, CreateTask, TaskService, TaskStatus, FAKE_CONTAINER_PID};
use oas::ctrd::vm::{
    build_restore_inputs, map_state, MockVm, RealVm, VmCreateArgs, VmRunInfo, VmState,
};
use oas::driver::vm_core::VmCoreState;
use oas::strmap::StrMap;
use serde_json::Value;

/// The part of a description that is looked at, as it is read from JSON.
fn oci(json: &str) -> Result<OciSpec, String> {
    let v: Value = serde_json::from_str(json).map_err(|e| e.to_string())?;
    let mut annotations = StrMap::new();
    if let Some(a) = v["annotations"].as_object() {
        for (k, x) in a {
            annotations.insert(k.clone(), x.as_str().unwrap().to_string());
        }
    }
    let linux = v["linux"].as_object().map(|l| OciLinux {
        namespaces: match l["namespaces"].as_array() {
            Some(n) => n
                .iter()
                .map(|x| OciNamespace {
                    ns_type: x["type"].as_str().unwrap().to_string(),
                    path: x["path"].as_str().unwrap_or("").to_string(),
                })
                .collect(),
            None => vec![],
        },
    });
    Ok(OciSpec { annotations, linux })
}

fn parsed(json: &str) -> Result<BundleSpec, String> {
    parse_bundle_spec(oci(json))
}

#[test]
fn sandbox_task_with_netns() {
    let s = parsed(
        r#"{
            "annotations": {
                "io.kubernetes.cri.container-type": "sandbox"
            },
            "linux": {
                "namespaces": [
                    {"type": "network", "path": "/var/run/netns/cni-abc"},
                    {"type": "pid"}
                ]
            }
        }"#,
    )
    .unwrap();
    assert_eq!(s.container_type, ContainerType::Sandbox);
    assert_eq!(s.sandbox_id, None);
    assert_eq!(s.netns_path.as_deref(), Some("/var/run/netns/cni-abc"));
}

#[test]
fn container_task_references_pod() {
    let s = parsed(
        r#"{
            "annotations": {
                "io.kubernetes.cri.container-type": "container",
                "io.kubernetes.cri.sandbox-id": "pod-xyz"
            }
        }"#,
    )
    .unwrap();
    assert_eq!(s.container_type, ContainerType::Container);
    assert_eq!(s.sandbox_id.as_deref(), Some("pod-xyz"));
    assert_eq!(s.netns_path, None);
}

#[test]
fn bare_spec_defaults_to_sandbox() {
    let s = parsed(r#"{"ociVersion": "1.0.0"}"#).unwrap();
    assert_eq!(s.container_type, ContainerType::Sandbox);
    assert_eq!(s.sandbox_id, None);
    assert_eq!(s.netns_path, None);
}

#[test]
fn empty_netns_path_is_none() {
    let s = parsed(
        r#"{
            "linux": {"namespaces": [{"type": "network", "path": ""}]}
        }"#,
    )
    .unwrap();
    assert_eq!(s.netns_path, None);
}

#[test]
fn container_task_groups_onto_pod() {
    let spec = parsed(
        r#"{"annotations":{"io.kubernetes.cri.container-type":"container","io.kubernetes.cri.sandbox-id":"pod-xyz"}}"#,
    );
    assert_eq!(resolve_grouping(spec, "ctr-123"), "pod-xyz");
}

#[test]
fn sandbox_task_uses_own_id() {
    let spec = parsed(r#"{"annotations":{"io.kubernetes.cri.container-type":"sandbox"}}"#);
    assert_eq!(resolve_grouping(spec, "pod-xyz"), "pod-xyz");
}

#[test]
fn missing_config_falls_back_to_id() {
    let dir = bundle_dir("/nonexistent-bundle-dir-xyz");
    assert_eq!(config_path(&dir), "/nonexistent-bundle-dir-xyz/config.json");
    let spec = Err(read_failure(&dir, "No such file or directory (os error 2)"));
    assert_eq!(resolve_grouping(spec, "sb-42"), "sb-42");
}

#[test]
fn a_type_is_told_by_an_annotation() {
    let s = parsed(r#"{"annotations":{"agent-sandbox/type":"2"}}"#).unwrap();
    assert_eq!(s.type_id, Some(2));
    let s = parsed(r#"{"annotations":{"agent-sandbox/type":"big"}}"#).unwrap();
    assert_eq!(s.type_id, None);
    let e = parsed("{").unwrap_err();
    assert!(e.starts_with("parse config.json: "));
    let mut annotations = StrMap::new();
    annotations.insert("io.kubernetes.cri.sandbox-id".to_string(), String::new());
    assert_eq!(bundle_spec(&OciSpec { annotations, linux: None }).sandbox_id, None);
}

#[test]
fn one_group_has_one_address() {
    let a = action_start("k8s.io", "pod", "/run/containerd/containerd.sock", "pod");
    let b = action_start("k8s.io", "ctr", "/run/containerd/containerd.sock", "pod");
    let c = action_start("k8s.io", "ctr", "/run/containerd/containerd.sock", "other");
    assert_eq!(a.address, b.address);
    assert_ne!(a.address, c.address);
    assert_eq!(
        a.address,
        containerd_shim::socket_address("/run/containerd/containerd.sock", "k8s.io", "pod")
    );
    assert_eq!(format!("unix://{}", a.sock_path), a.address);
    assert_eq!(
        b.args,
        vec![
            "--namespace",
            "k8s.io",
            "--id",
            "ctr",
            "--address",
            "/run/containerd/containerd.sock",
            "--socket",
            b.address.as_str(),
            "run",
        ]
    );
    assert_eq!(reported("unix:///a", " unix:///b\n"), "unix:///b");
    assert_eq!(reported("unix:///a", " \n"), "unix:///a");
    assert_eq!(bundle_dir(""), ".");
}

fn spec(t: ContainerType) -> BundleSpec {
    BundleSpec {
        container_type: t,
        sandbox_id: None,
        netns_path: Some("/ns".to_string()),
        type_id: None,
    }
}

#[test]
fn a_shim_ends_when_both_its_tasks_are_deleted() {
    let mut vm = MockVm::new();
    let mut s = TaskService::new();
    let args = match s.create("pod", "/b", Ok(spec(ContainerType::Sandbox))).unwrap() {
        CreateTask::MakeVm(a) => a,
        other => panic!("{other:?}"),
    };
    assert_eq!(
        args,
        VmCreateArgs { sandbox_id: "pod".to_string(), netns_path: "/ns".to_string(), type_id: 0 }
    );
    let made = vm.create(args);
    let pid = s.created("pod", made, vm.status().1).unwrap();
    assert_eq!(pid, 424242);
    assert_eq!(
        s.create("ctr", "/b", Ok(spec(ContainerType::Container))).unwrap(),
        CreateTask::Done(FAKE_CONTAINER_PID)
    );

    assert_eq!(s.start("pod"), Ok(Answer::AskVm));
    let started = vm.start().map(|_| ());
    assert_eq!(s.started(started, vm.status().1), Ok(424242));
    assert_eq!(s.start("ctr"), Ok(Answer::Known(424243)));
    assert_eq!(s.state("pod"), Ok(Answer::AskVm));
    let (state, pid) = vm.status();
    assert_eq!(s.vm_state(state, pid).status, TaskStatus::Running);
    assert_eq!(s.wait("ctr"), Ok(Answer::Known(None)));
    assert_eq!(s.connect("ctr"), Answer::Known(424243));
    assert_eq!(s.connect("pod"), Answer::AskVm);
    assert_eq!(s.connect("nope"), Answer::Known(0));
    assert!(!s.shutdown());

    assert_eq!(s.kill("ctr"), Ok(Answer::Known(())));
    assert_eq!(s.wait("ctr"), Ok(Answer::Known(Some(0))));
    match s.state("ctr").unwrap() {
        Answer::Known(r) => {
            assert_eq!(r.status, TaskStatus::Stopped);
            assert!(r.ended);
        }
        other => panic!("{other:?}"),
    }
    match s.delete("ctr") {
        Answer::Known(d) => {
            assert_eq!((d.pid, d.exit_status, d.exit), (424243, 0, false));
        }
        other => panic!("{other:?}"),
    }

    assert_eq!(s.kill("pod"), Ok(Answer::AskVm));
    assert!(s.killed(vm.stop(0)).is_ok());
    let (state, pid) = vm.status();
    assert_eq!(s.vm_state(state, pid).status, TaskStatus::Stopped);
    assert_eq!(vm.wait(), Some(0));
    assert_eq!(s.delete("pod"), Answer::AskVm);
    let _ = vm.stop(0);
    let d = s.deleted("pod", vm.status().1);
    assert!(d.exit);
    assert!(s.shutdown());
    assert_eq!(vm.calls(), vec!["create", "start", "stop", "stop"]);
}

#[test]
fn requests_for_tasks_that_there_are_not() {
    let mut s = TaskService::new();
    assert_eq!(s.start("x"), Err("start: task x not found".to_string()));
    assert_eq!(s.state("x"), Err("state: task x not found".to_string()));
    assert_eq!(s.wait("x"), Err("wait: task x not found".to_string()));
    assert_eq!(s.kill("x"), Err("kill: task x not found".to_string()));
    match s.delete("x") {
        Answer::Known(d) => assert_eq!((d.pid, d.exit_status, d.exit), (0, 0, true)),
        other => panic!("{other:?}"),
    }
    assert_eq!(
        s.create("x", "/b", Err("gone".to_string())),
        Err("create: load bundle /b: gone".to_string())
    );
    assert_eq!(
        s.created("x", Err("full".to_string()), 0),
        Err("create: vm create: full".to_string())
    );
    assert_eq!(s.started(Err("no".to_string()), 0), Err("start: vm start: no".to_string()));
    assert_eq!(s.killed(Err("no".to_string())), Err("kill: vm stop: no".to_string()));
}

#[test]
fn states_of_a_microvm() {
    assert_eq!(VmState::NotExist.as_ctrld_str(), "notexist");
    assert_eq!(VmState::Running.as_ctrld_str(), "running");
    assert_eq!(VmState::Stopped.as_ctrld_str(), "stopped");
    assert_eq!(map_state(VmCoreState::Failed), VmState::Stopped);
    let mut vm = MockVm::new();
    assert_eq!(vm.start(), Err("start: vm not running (state=NotExist)".to_string()));
    assert_eq!(vm.wait(), None);
    vm.shutdown().unwrap();
    assert_eq!(vm.wait(), Some(0));
    assert_eq!(vm.status(), (VmState::NotExist, 0));
}

fn args(type_id: u8, netns: &str) -> VmCreateArgs {
    VmCreateArgs { sandbox_id: "sb".to_string(), netns_path: netns.to_string(), type_id }
}

#[test]
fn what_a_microvm_is_restored_from() {
    let cfg = Config::default();
    let i = build_restore_inputs(&cfg, &args(0, "")).unwrap();
    assert_eq!(i.netns_path, "/var/run/netns/oas-sb");
    assert_eq!(i.rw_layer_path, None);
    let i = build_restore_inputs(&cfg, &args(1, "/ns")).unwrap();
    assert_eq!(i.netns_path, "/ns");
    assert!(i.rw_layer_path.unwrap().ends_with("/sb.ext4"));
    assert_eq!(
        build_restore_inputs(&cfg, &args(9, "")),
        Err("unknown type_id 9".to_string())
    );
    assert_eq!(
        build_restore_inputs(&cfg, &args(2, "")),
        Err("type 2 cloud-disk restore not supported in MVP".to_string())
    );

    let mut vm = RealVm::new(cfg);
    assert_eq!(vm.start(true), Err("start: vm not created".to_string()));
    assert_eq!(vm.status(true), (VmState::NotExist, 0));
    assert!(vm.create(&args(9, "")).is_err());
    assert!(vm.core.is_none());
    vm.create(&args(0, "")).unwrap();
    assert_eq!(
        vm.start(true),
        Err("start: vm not running (state=NotExist)".to_string())
    );
    assert_eq!(vm.stop(), None);
    assert_eq!(vm.wait(), Some(0));
    assert_eq!(vm.status(true), (VmState::Stopped, 0));
}

/// The message holds a text under its first field and, under its second, a
/// message that holds a text under its first field.
#[test]
fn runtime_info_is_encoded() {
    let mut expected: Vec<u8> = vec![0x0a, 20];
    expected.extend_from_slice(b"io.containerd.oas.v2");
    expected.extend_from_slice(&[0x12, 7, 0x0a, 5]);
    expected.extend_from_slice(b"0.1.0");
    assert_eq!(oas::ctrd::info::show_info(), Ok(expected));
}

#[test]
fn an_answer_that_tells_of_nothing_has_no_bytes() {
    assert_eq!(oas::ctrd::info::show_deleted(), Ok(Vec::new()));
}

#[test]
fn a_default_is_empty() {
    let args = VmCreateArgs::default();
    assert_eq!((args.sandbox_id.as_str(), args.netns_path.as_str(), args.type_id), ("", "", 0));
    assert_eq!(VmRunInfo::default(), VmRunInfo { pid: 0 });
    assert_eq!(MockVm::default(), MockVm::new());
}
