//! Messages of the interface and what they mean inside.

use oas::cri::convert::{
    container_config_to_create_req, container_filter, container_metadata_from_domain,
    container_metadata_to_domain, container_state, dns_config_to_domain, exit_reason_str,
    image_info_to_image, mount_to_domain, pod_metadata_to_domain, record_to_container,
    record_to_container_stats, record_to_container_status, record_to_sandbox,
    record_to_sandbox_status, records_to_pod_sandbox_stats, sandbox_config_to_create_req,
    sandbox_filter, sandbox_metadata_from_domain, sandbox_state, secs_to_ns, ANNOT_TYPE,
};
use oas::cri::error::{swallow_not_found, to_status, unimpl, Code};
use oas::cri::pb;
use oas::cri::runtime_svc::pod_cidr;
use oas::manager::facade::image_info;
use oas::manager::OasError;
use oas::strmap::StrMap;
use oas::types::{
    ContainerExitReason, ContainerMetadata, ContainerRecord, ContainerState, LinuxResources,
    MountPropagation, SandboxMetadata, SandboxRecord, SandboxState,
};

fn one(k: &str, v: &str) -> StrMap<String> {
    let mut m = StrMap::new();
    m.insert(k.to_string(), v.to_string());
    m
}

#[test]
fn metadata_roundtrip_preserved() {
    let m = pb::PodSandboxMetadata {
        name: "nginx".to_string(),
        uid: "uid-123".to_string(),
        namespace: "default".to_string(),
        attempt: 2,
    };
    let d = pod_metadata_to_domain(&m);
    assert_eq!(d.name, "nginx");
    assert_eq!(d.uid, "uid-123");
    assert_eq!(d.namespace, "default");
    assert_eq!(d.attempt, 2);
    let back = sandbox_metadata_from_domain(&d);
    assert_eq!(back.name, m.name);
    assert_eq!(back.uid, m.uid);
    assert_eq!(back.namespace, m.namespace);
    assert_eq!(back.attempt, m.attempt);
}

#[test]
fn labels_annotations_pass_through() {
    let labels = one("k", "v");
    let ann = one(ANNOT_TYPE, "1");
    let cfg = pb::PodSandboxConfig {
        metadata: Some(pb::PodSandboxMetadata {
            name: "n".to_string(),
            uid: "u".to_string(),
            namespace: "ns".to_string(),
            attempt: 0,
        }),
        hostname: "h".to_string(),
        log_directory: "/log".to_string(),
        labels: labels.clone(),
        annotations: ann.clone(),
        ..pb::PodSandboxConfig::default()
    };
    let req = sandbox_config_to_create_req(&cfg, "oas").unwrap();
    assert_eq!(req.labels, labels);
    assert_eq!(req.annotations, ann);
    assert_eq!(req.type_id, 1);
    assert_eq!(req.runtime_handler, "oas");
}

#[test]
fn state_mapping() {
    assert_eq!(sandbox_state(SandboxState::Ready), pb::PodSandboxState::SandboxReady.code());
    assert_eq!(
        container_state(ContainerState::Exited),
        pb::ContainerState::ContainerExited.code()
    );
}

#[test]
fn missing_type_annotation_is_invalid_argument() {
    let cfg = pb::PodSandboxConfig {
        metadata: Some(pb::PodSandboxMetadata::default()),
        ..pb::PodSandboxConfig::default()
    };
    match sandbox_config_to_create_req(&cfg, "oas") {
        Err(OasError::InvalidArgument(_)) => {}
        other => panic!("expected InvalidArgument, got {other:?}"),
    }
}

fn sandbox() -> SandboxRecord {
    SandboxRecord {
        sandbox_id: "sb-1".to_string(),
        pod_uid: "uid-1".to_string(),
        metadata: SandboxMetadata {
            name: "n".to_string(),
            namespace: "ns".to_string(),
            uid: "uid-1".to_string(),
            attempt: 0,
        },
        labels: StrMap::new(),
        annotations: StrMap::new(),
        type_id: 0,
        runtime_handler: "oas".to_string(),
        vm_id: 0,
        netns_path: "/var/run/netns/oas-sb-1".to_string(),
        tap_name: "tapH0".to_string(),
        mac: "06:00:AC:10:00:02".to_string(),
        pod_ip: "10.244.0.2".to_string(),
        gateway: "10.244.0.254".to_string(),
        rw_layer_path: None,
        cloud_disk_dev: None,
        state: SandboxState::Ready,
        created_at: 1,
        host_veth: String::new(),
    }
}

#[test]
fn runtime_handler_roundtrip_in_sandbox_status() {
    let rec = sandbox();
    let status = record_to_sandbox_status(&rec);
    assert_eq!(status.runtime_handler, "oas");
    assert_eq!(record_to_sandbox(&rec).runtime_handler, "oas");
}

fn container() -> ContainerRecord {
    ContainerRecord {
        container_id: "ct-1".to_string(),
        sandbox_id: "sb-1".to_string(),
        metadata: ContainerMetadata { name: "c".to_string(), attempt: 3 },
        image: "img-a".to_string(),
        command: vec![],
        args: vec![],
        env: vec![],
        mounts: vec![],
        resources: LinuxResources::default(),
        state: ContainerState::Exited,
        created_at: 5,
        started_at: Some(6),
        finished_at: None,
        exit_code: 137,
        reason: Some(ContainerExitReason::OomKilled),
        message: "oom".to_string(),
        labels: one("a", "b"),
        annotations: one("c", "d"),
    }
}

#[test]
fn a_sandbox_is_told_as_it_is_kept() {
    let mut r = sandbox();
    r.labels = one("l", "1");
    r.annotations = one("a", "2");
    let s = record_to_sandbox_status(&r);
    assert_eq!(s.id, "sb-1");
    assert_eq!(s.labels, r.labels);
    assert_eq!(s.annotations, r.annotations);
    assert_eq!(s.created_at, 1_000_000_000);
    assert_eq!(s.network.unwrap().ip, "10.244.0.2");
    let l = record_to_sandbox(&r);
    assert_eq!(l.labels, r.labels);
    assert_eq!(l.metadata.unwrap().uid, "uid-1");
}

#[test]
fn a_container_is_told_as_it_is_kept() {
    let r = container();
    let s = record_to_container_status(&r);
    assert_eq!(s.exit_code, 137);
    assert_eq!(s.reason, "OOMKilled");
    assert_eq!(s.message, "oom");
    assert_eq!(s.created_at, 5_000_000_000);
    assert_eq!(s.started_at, 6_000_000_000);
    assert_eq!(s.finished_at, 0);
    assert_eq!(s.image_id, "img-a");
    assert_eq!(s.labels, r.labels);
    assert_eq!(
        container_metadata_to_domain(&s.metadata.unwrap()),
        r.metadata
    );
    assert_eq!(container_metadata_from_domain(&r.metadata).attempt, 3);
    let l = record_to_container(&r);
    assert_eq!(l.pod_sandbox_id, "sb-1");
    assert_eq!(l.state, pb::ContainerState::ContainerExited.code());
    let t = record_to_container_stats(&r);
    assert_eq!(t.cpu.unwrap().timestamp, 6_000_000_000);
    assert_eq!(t.writable_layer.unwrap().fs_id.unwrap().mountpoint, "/");
}

#[test]
fn statistics_of_a_pod_never_have_the_time_zero() {
    let mut s = sandbox();
    s.created_at = 0;
    let t = records_to_pod_sandbox_stats(&s, vec![container()]);
    let linux = t.linux.unwrap();
    assert_eq!(linux.cpu.unwrap().timestamp, 1);
    assert_eq!(linux.containers.len(), 1);
    assert_eq!(linux.network.unwrap().default_interface.unwrap().name, "eth0");
}

#[test]
fn seconds_that_do_not_fit_are_the_nearest_that_do() {
    assert_eq!(secs_to_ns(2), 2_000_000_000);
    assert_eq!(secs_to_ns(i64::MAX), i64::MAX);
    assert_eq!(secs_to_ns(i64::MIN), i64::MIN);
}

#[test]
fn reasons_in_a_word() {
    assert_eq!(exit_reason_str(None), "");
    assert_eq!(exit_reason_str(Some(ContainerExitReason::Completed)), "Completed");
    assert_eq!(exit_reason_str(Some(ContainerExitReason::Error)), "Error");
}

#[test]
fn annotations_of_a_pod() {
    let mut cfg = pb::PodSandboxConfig {
        metadata: Some(pb::PodSandboxMetadata::default()),
        annotations: one(ANNOT_TYPE, "2"),
        ..pb::PodSandboxConfig::default()
    };
    cfg.annotations.insert("agent-sandbox/cloud-disk".to_string(), "/dev/vdz".to_string());
    cfg.annotations.insert("agent-sandbox/rw-size".to_string(), "1024".to_string());
    let q = sandbox_config_to_create_req(&cfg, "").unwrap();
    assert_eq!(q.type_id, 2);
    assert_eq!(q.cloud_disk_ref, Some("/dev/vdz".to_string()));
    assert_eq!(q.rw_size, Some(1024));
    assert_eq!(q.runtime_handler, "oas");

    cfg.annotations.insert("agent-sandbox/cloud-disk".to_string(), String::new());
    cfg.annotations.insert("agent-sandbox/rw-size".to_string(), "much".to_string());
    let q = sandbox_config_to_create_req(&cfg, "x").unwrap();
    assert_eq!(q.cloud_disk_ref, None);
    assert_eq!(q.rw_size, None);
    assert_eq!(q.runtime_handler, "x");

    cfg.annotations.insert(ANNOT_TYPE.to_string(), "256".to_string());
    assert_eq!(
        sandbox_config_to_create_req(&cfg, "x"),
        Err(OasError::InvalidArgument("invalid agent-sandbox/type: 256".to_string()))
    );
    cfg.metadata = None;
    assert_eq!(
        sandbox_config_to_create_req(&cfg, "x"),
        Err(OasError::InvalidArgument("missing sandbox metadata".to_string()))
    );
}

#[test]
fn what_a_container_asks_for() {
    let mut cfg = pb::ContainerConfig {
        metadata: Some(pb::ContainerMetadata { name: "c".to_string(), attempt: 1 }),
        image: Some(pb::ImageSpec { image: "img-a".to_string() }),
        envs: vec![pb::KeyValue { key: "K".to_string(), value: "V".to_string() }],
        mounts: vec![
            pb::Mount {
                container_path: "/c".to_string(),
                host_path: "/h".to_string(),
                readonly: true,
                propagation: 2,
            },
            pb::Mount {
                container_path: "/d".to_string(),
                host_path: "/i".to_string(),
                readonly: false,
                propagation: 9,
            },
        ],
        linux: Some(pb::LinuxContainerConfig {
            resources: Some(pb::LinuxContainerResources {
                cpu_shares: 512,
                memory_limit_in_bytes: 0,
            }),
        }),
        ..pb::ContainerConfig::default()
    };
    let q = container_config_to_create_req("sb", &cfg).unwrap();
    assert_eq!(q.pod_sandbox_id, "sb");
    assert_eq!(q.envs[0].key, "K");
    assert_eq!(q.mounts[0].propagation, MountPropagation::Bidirectional);
    assert!(q.mounts[0].read_only);
    assert_eq!(q.mounts[1].propagation, MountPropagation::Private);
    assert_eq!(q.resources.cpu_shares, Some(512));
    assert_eq!(q.resources.memory_limit_bytes, None);
    assert_eq!(
        mount_to_domain(&pb::Mount {
            container_path: String::new(),
            host_path: String::new(),
            readonly: false,
            propagation: 1,
        })
        .propagation,
        MountPropagation::HostToContainer
    );
    cfg.image = None;
    assert_eq!(
        container_config_to_create_req("sb", &cfg),
        Err(OasError::InvalidArgument("missing container image".to_string()))
    );
    cfg.metadata = None;
    assert_eq!(
        container_config_to_create_req("sb", &cfg),
        Err(OasError::InvalidArgument("missing container metadata".to_string()))
    );
}

#[test]
fn filters_inside() {
    assert_eq!(sandbox_filter(None).id, None);
    let f = sandbox_filter(Some(&pb::PodSandboxFilter {
        id: "a".to_string(),
        state: Some(pb::PodSandboxStateValue { state: 7 }),
        label_selector: one("k", "v"),
    }));
    assert_eq!(f.id, Some("a".to_string()));
    assert_eq!(f.state, Some(SandboxState::NotReady));
    assert_eq!(f.label_selector, one("k", "v"));
    let f = container_filter(Some(&pb::ContainerFilter {
        id: String::new(),
        pod_sandbox_id: "sb".to_string(),
        state: Some(pb::ContainerStateValue { state: 1 }),
        label_selector: StrMap::new(),
    }));
    assert_eq!(f.id, None);
    assert_eq!(f.sandbox_id, Some("sb".to_string()));
    assert_eq!(f.state, Some(ContainerState::Running));
    for (n, s) in [
        (0, ContainerState::Created),
        (2, ContainerState::Exited),
        (3, ContainerState::Unknown),
        (-1, ContainerState::Unknown),
    ] {
        let f = container_filter(Some(&pb::ContainerFilter {
            state: Some(pb::ContainerStateValue { state: n }),
            ..pb::ContainerFilter::default()
        }));
        assert_eq!(f.state, Some(s));
    }
}

#[test]
fn names_and_images() {
    let d = dns_config_to_domain(&pb::DnsConfig {
        servers: vec!["1.1.1.1".to_string()],
        searches: vec!["local".to_string()],
        options: vec!["ndots:5".to_string()],
    });
    assert_eq!(d.servers, vec!["1.1.1.1".to_string()]);
    assert_eq!(d.options, vec!["ndots:5".to_string()]);
    let i = image_info_to_image(&image_info("img-a"));
    assert_eq!(i.id, "sha256:img-a");
    assert_eq!(i.repo_tags, vec!["img-a".to_string()]);
    assert_eq!(i.size, 1_048_576);
    assert!(i.pinned);
    assert_eq!(i.spec.unwrap().image, "img-a");
}

#[test]
fn errors_as_the_interface_tells_them() {
    let s = |e: OasError| to_status(e);
    assert_eq!(s(OasError::NotFound("x".to_string())).code, Code::NotFound);
    assert_eq!(s(OasError::ImageNotInList("x".to_string())).code, Code::NotFound);
    assert_eq!(s(OasError::TypeMismatch("x".to_string())).code, Code::InvalidArgument);
    assert_eq!(s(OasError::InvalidArgument("x".to_string())).code, Code::InvalidArgument);
    assert_eq!(s(OasError::Conflict("x".to_string())).code, Code::AlreadyExists);
    assert_eq!(s(OasError::Unavailable("x".to_string())).code, Code::Unavailable);
    let e = OasError::Internal("x".to_string());
    let m = e.message();
    let t = s(e);
    assert_eq!((t.code, t.message), (Code::Internal, m));
    assert!(swallow_not_found(Err(OasError::NotFound("x".to_string()))).is_ok());
    assert!(swallow_not_found(Err(OasError::Conflict("x".to_string()))).is_err());
    let u = unimpl("Exec");
    assert_eq!(u.code, Code::Unimplemented);
    assert_eq!(u.message, "Exec is not supported (oas MVP non-target)");
}

#[test]
fn the_range_of_addresses_in_a_configuration() {
    let req = |c: &str| pb::UpdateRuntimeConfigRequest {
        runtime_config: Some(pb::RuntimeConfig {
            network_config: Some(pb::NetworkConfig { pod_cidr: c.to_string() }),
        }),
    };
    assert_eq!(pod_cidr(&req("10.0.0.0/8")), Some("10.0.0.0/8".to_string()));
    assert_eq!(pod_cidr(&req("")), None);
    assert_eq!(pod_cidr(&pb::UpdateRuntimeConfigRequest { runtime_config: None }), None);
}
