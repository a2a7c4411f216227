//! What every store does, in memory and in a database.

use oas::store::ipam::{ip_to_string, next_free, parse_cidr};
use oas::store::memory::{MemoryStore, MemoryTxn};
use oas::store::redb::{found, RedbStore, RedbTxn};
use oas::store::records::{decode_rows, find_by_uid};
use oas::store::select::select_sandboxes;
use oas::store::{Store, StoreError, Txn};
use oas::strmap::StrMap;
use oas::types::{
    ContainerExitReason, ContainerFilter, ContainerMetadata, ContainerRecord, ContainerState,
    IpLease, LinuxResources, Mount, MountPropagation, SandboxFilter, SandboxMetadata,
    SandboxRecord, SandboxState,
};
use serde_json::Value;

// Records as JSON.

fn text(s: &str) -> Value {
    Value::String(s.to_string())
}

fn opt_text(s: &Option<String>) -> Value {
    match s {
        Some(s) => text(s),
        None => Value::Null,
    }
}

fn opt_num(n: Option<i64>) -> Value {
    match n {
        Some(n) => Value::from(n),
        None => Value::Null,
    }
}

fn texts(v: &[String]) -> Value {
    Value::Array(v.iter().map(|s| text(s)).collect())
}

fn pairs(m: &StrMap<String>) -> Value {
    let mut o = serde_json::Map::new();
    for i in 0..m.len() {
        o.insert(m.key_at(i).to_string(), text(m.value_at(i)));
    }
    Value::Object(o)
}

fn get_text(v: &Value, k: &str) -> String {
    v[k].as_str().unwrap().to_string()
}

fn get_opt(v: &Value, k: &str) -> Option<String> {
    v[k].as_str().map(|s| s.to_string())
}

fn get_texts(v: &Value, k: &str) -> Vec<String> {
    v[k].as_array().unwrap().iter().map(|s| s.as_str().unwrap().to_string()).collect()
}

fn get_pairs(v: &Value, k: &str) -> StrMap<String> {
    let mut m = StrMap::new();
    for (k, v) in v[k].as_object().unwrap() {
        m.insert(k.clone(), v.as_str().unwrap().to_string());
    }
    m
}

fn sandbox_bytes(r: &SandboxRecord) -> Vec<u8> {
    let mut meta = serde_json::Map::new();
    meta.insert("name".to_string(), text(&r.metadata.name));
    meta.insert("namespace".to_string(), text(&r.metadata.namespace));
    meta.insert("uid".to_string(), text(&r.metadata.uid));
    meta.insert("attempt".to_string(), Value::from(r.metadata.attempt));
    let mut o = serde_json::Map::new();
    o.insert("sandbox_id".to_string(), text(&r.sandbox_id));
    o.insert("pod_uid".to_string(), text(&r.pod_uid));
    o.insert("metadata".to_string(), Value::Object(meta));
    o.insert("labels".to_string(), pairs(&r.labels));
    o.insert("annotations".to_string(), pairs(&r.annotations));
    o.insert("type_id".to_string(), Value::from(r.type_id));
    o.insert("runtime_handler".to_string(), text(&r.runtime_handler));
    o.insert("vm_id".to_string(), Value::from(r.vm_id));
    o.insert("netns_path".to_string(), text(&r.netns_path));
    o.insert("tap_name".to_string(), text(&r.tap_name));
    o.insert("mac".to_string(), text(&r.mac));
    o.insert("pod_ip".to_string(), text(&r.pod_ip));
    o.insert("gateway".to_string(), text(&r.gateway));
    o.insert("rw_layer_path".to_string(), opt_text(&r.rw_layer_path));
    o.insert("cloud_disk_dev".to_string(), opt_text(&r.cloud_disk_dev));
    o.insert("state".to_string(), text(&format!("{:?}", r.state)));
    o.insert("created_at".to_string(), Value::from(r.created_at));
    o.insert("host_veth".to_string(), text(&r.host_veth));
    serde_json::to_vec(&Value::Object(o)).unwrap()
}

fn sandbox_of(b: &[u8]) -> SandboxRecord {
    let v: Value = serde_json::from_slice(b).unwrap();
    let m = &v["metadata"];
    SandboxRecord {
        sandbox_id: get_text(&v, "sandbox_id"),
        pod_uid: get_text(&v, "pod_uid"),
        metadata: SandboxMetadata {
            name: get_text(m, "name"),
            namespace: get_text(m, "namespace"),
            uid: get_text(m, "uid"),
            attempt: m["attempt"].as_u64().unwrap() as u32,
        },
        labels: get_pairs(&v, "labels"),
        annotations: get_pairs(&v, "annotations"),
        type_id: v["type_id"].as_u64().unwrap() as u8,
        runtime_handler: get_text(&v, "runtime_handler"),
        vm_id: v["vm_id"].as_u64().unwrap(),
        netns_path: get_text(&v, "netns_path"),
        tap_name: get_text(&v, "tap_name"),
        mac: get_text(&v, "mac"),
        pod_ip: get_text(&v, "pod_ip"),
        gateway: get_text(&v, "gateway"),
        rw_layer_path: get_opt(&v, "rw_layer_path"),
        cloud_disk_dev: get_opt(&v, "cloud_disk_dev"),
        state: match v["state"].as_str().unwrap() {
            "Ready" => SandboxState::Ready,
            _ => SandboxState::NotReady,
        },
        created_at: v["created_at"].as_i64().unwrap(),
        host_veth: get_text(&v, "host_veth"),
    }
}

fn container_bytes(r: &ContainerRecord) -> Vec<u8> {
    let mut meta = serde_json::Map::new();
    meta.insert("name".to_string(), text(&r.metadata.name));
    meta.insert("attempt".to_string(), Value::from(r.metadata.attempt));
    let mut res = serde_json::Map::new();
    res.insert(
        "cpu_shares".to_string(),
        match r.resources.cpu_shares {
            Some(n) => Value::from(n),
            None => Value::Null,
        },
    );
    res.insert("memory_limit_bytes".to_string(), opt_num(r.resources.memory_limit_bytes));
    let mounts = r
        .mounts
        .iter()
        .map(|m| {
            let mut o = serde_json::Map::new();
            o.insert("container_path".to_string(), text(&m.container_path));
            o.insert("host_path".to_string(), text(&m.host_path));
            o.insert("read_only".to_string(), Value::from(m.read_only));
            o.insert("propagation".to_string(), text(&format!("{:?}", m.propagation)));
            Value::Object(o)
        })
        .collect();
    let mut o = serde_json::Map::new();
    o.insert("container_id".to_string(), text(&r.container_id));
    o.insert("sandbox_id".to_string(), text(&r.sandbox_id));
    o.insert("metadata".to_string(), Value::Object(meta));
    o.insert("image".to_string(), text(&r.image));
    o.insert("command".to_string(), texts(&r.command));
    o.insert("args".to_string(), texts(&r.args));
    o.insert("env".to_string(), texts(&r.env));
    o.insert("mounts".to_string(), Value::Array(mounts));
    o.insert("resources".to_string(), Value::Object(res));
    o.insert("state".to_string(), text(&format!("{:?}", r.state)));
    o.insert("created_at".to_string(), Value::from(r.created_at));
    o.insert("started_at".to_string(), opt_num(r.started_at));
    o.insert("finished_at".to_string(), opt_num(r.finished_at));
    o.insert("exit_code".to_string(), Value::from(r.exit_code));
    o.insert(
        "reason".to_string(),
        match r.reason {
            Some(x) => text(&format!("{x:?}")),
            None => Value::Null,
        },
    );
    o.insert("message".to_string(), text(&r.message));
    o.insert("labels".to_string(), pairs(&r.labels));
    o.insert("annotations".to_string(), pairs(&r.annotations));
    serde_json::to_vec(&Value::Object(o)).unwrap()
}

fn container_of(b: &[u8]) -> ContainerRecord {
    let v: Value = serde_json::from_slice(b).unwrap();
    let mounts = v["mounts"]
        .as_array()
        .unwrap()
        .iter()
        .map(|m| Mount {
            container_path: get_text(m, "container_path"),
            host_path: get_text(m, "host_path"),
            read_only: m["read_only"].as_bool().unwrap(),
            propagation: match m["propagation"].as_str().unwrap() {
                "HostToContainer" => MountPropagation::HostToContainer,
                "Bidirectional" => MountPropagation::Bidirectional,
                _ => MountPropagation::Private,
            },
        })
        .collect();
    ContainerRecord {
        container_id: get_text(&v, "container_id"),
        sandbox_id: get_text(&v, "sandbox_id"),
        metadata: ContainerMetadata {
            name: get_text(&v["metadata"], "name"),
            attempt: v["metadata"]["attempt"].as_u64().unwrap() as u32,
        },
        image: get_text(&v, "image"),
        command: get_texts(&v, "command"),
        args: get_texts(&v, "args"),
        env: get_texts(&v, "env"),
        mounts,
        resources: LinuxResources {
            cpu_shares: v["resources"]["cpu_shares"].as_u64(),
            memory_limit_bytes: v["resources"]["memory_limit_bytes"].as_i64(),
        },
        state: match v["state"].as_str().unwrap() {
            "Created" => ContainerState::Created,
            "Running" => ContainerState::Running,
            "Exited" => ContainerState::Exited,
            _ => ContainerState::Unknown,
        },
        created_at: v["created_at"].as_i64().unwrap(),
        started_at: v["started_at"].as_i64(),
        finished_at: v["finished_at"].as_i64(),
        exit_code: v["exit_code"].as_i64().unwrap() as i32,
        reason: match v["reason"].as_str() {
            Some("Completed") => Some(ContainerExitReason::Completed),
            Some("Error") => Some(ContainerExitReason::Error),
            Some(_) => Some(ContainerExitReason::OomKilled),
            None => None,
        },
        message: get_text(&v, "message"),
        labels: get_pairs(&v, "labels"),
        annotations: get_pairs(&v, "annotations"),
    }
}

// Both stores behind one face.

enum Tx<'a> {
    Memory(&'a mut MemoryTxn),
    Redb(&'a mut RedbTxn),
}

impl Tx<'_> {
    fn put_sandbox(&mut self, r: &SandboxRecord) -> Result<(), StoreError> {
        match self {
            Tx::Memory(t) => t.put_sandbox(r),
            Tx::Redb(t) => t.put_sandbox(&r.sandbox_id, &sandbox_bytes(r)),
        }
    }
    fn put_container(&mut self, r: &ContainerRecord) -> Result<(), StoreError> {
        match self {
            Tx::Memory(t) => t.put_container(r),
            Tx::Redb(t) => t.put_container(&r.container_id, &container_bytes(r)),
        }
    }
    fn delete_sandbox(&mut self, id: &str) -> Result<(), StoreError> {
        match self {
            Tx::Memory(t) => t.delete_sandbox(id),
            Tx::Redb(t) => t.delete_sandbox(id),
        }
    }
    fn delete_container(&mut self, id: &str) -> Result<(), StoreError> {
        match self {
            Tx::Memory(t) => t.delete_container(id),
            Tx::Redb(t) => t.delete_container(id),
        }
    }
    fn lease_ip(&mut self, cidr: &str) -> Result<IpLease, StoreError> {
        match self {
            Tx::Memory(t) => t.lease_ip(cidr),
            Tx::Redb(t) => t.lease_ip(cidr),
        }
    }
    fn release_ip(&mut self, l: &IpLease) -> Result<(), StoreError> {
        match self {
            Tx::Memory(t) => t.release_ip(l),
            Tx::Redb(t) => t.release_ip(l),
        }
    }
}

enum Backend {
    Memory(MemoryStore),
    Redb(RedbStore),
}

impl Backend {
    fn get_sandbox(&self, id: &str) -> Result<SandboxRecord, StoreError> {
        match self {
            Backend::Memory(s) => s.get_sandbox(id),
            Backend::Redb(s) => s.get_sandbox(id).map(|b| sandbox_of(&b)),
        }
    }
    fn get_sandbox_by_uid(&self, uid: &str) -> Result<Option<SandboxRecord>, StoreError> {
        match self {
            Backend::Memory(s) => s.get_sandbox_by_uid(uid),
            Backend::Redb(s) => s.get_sandbox_by_uid(uid, &|b: &Vec<u8>| Ok(sandbox_of(b))),
        }
    }
    fn list_sandboxes(&self, f: &SandboxFilter) -> Result<Vec<SandboxRecord>, StoreError> {
        match self {
            Backend::Memory(s) => s.list_sandboxes(f),
            Backend::Redb(s) => s.list_sandboxes(f, &|b: &Vec<u8>| Ok(sandbox_of(b))),
        }
    }
    fn get_container(&self, id: &str) -> Result<ContainerRecord, StoreError> {
        match self {
            Backend::Memory(s) => s.get_container(id),
            Backend::Redb(s) => s.get_container(id).map(|b| container_of(&b)),
        }
    }
    fn list_containers(&self, f: &ContainerFilter) -> Result<Vec<ContainerRecord>, StoreError> {
        match self {
            Backend::Memory(s) => s.list_containers(f),
            Backend::Redb(s) => s.list_containers(f, &|b: &Vec<u8>| Ok(container_of(b))),
        }
    }
    fn lease_ip(&mut self, cidr: &str) -> Result<IpLease, StoreError> {
        match self {
            Backend::Memory(s) => s.lease_ip(cidr),
            Backend::Redb(s) => s.lease_ip(cidr),
        }
    }
    fn release_ip(&mut self, l: &IpLease) -> Result<(), StoreError> {
        match self {
            Backend::Memory(s) => s.release_ip(l),
            Backend::Redb(s) => s.release_ip(l),
        }
    }
    fn transaction(
        &mut self,
        f: impl FnOnce(&mut Tx) -> Result<(), StoreError>,
    ) -> Result<(), StoreError> {
        match self {
            Backend::Memory(s) => s.transaction(|t: &mut MemoryTxn| f(&mut Tx::Memory(t))),
            Backend::Redb(s) => s.transaction(|t: &mut RedbTxn| f(&mut Tx::Redb(t))),
        }
    }
    fn put_sandbox(&mut self, r: &SandboxRecord) -> Result<(), StoreError> {
        match self {
            Backend::Memory(s) => s.put_sandbox(r),
            Backend::Redb(s) => s.put_sandbox(&r.sandbox_id, &sandbox_bytes(r)),
        }
    }
    fn put_container(&mut self, r: &ContainerRecord) -> Result<(), StoreError> {
        match self {
            Backend::Memory(s) => s.put_container(r),
            Backend::Redb(s) => s.put_container(&r.container_id, &container_bytes(r)),
        }
    }
    fn delete_sandbox(&mut self, id: &str) -> Result<(), StoreError> {
        match self {
            Backend::Memory(s) => s.delete_sandbox(id),
            Backend::Redb(s) => s.delete_sandbox(id),
        }
    }
    fn delete_container(&mut self, id: &str) -> Result<(), StoreError> {
        match self {
            Backend::Memory(s) => s.delete_container(id),
            Backend::Redb(s) => s.delete_container(id),
        }
    }
}

fn sb(id: &str, uid: &str, state: SandboxState) -> SandboxRecord {
    SandboxRecord {
        sandbox_id: id.to_string(),
        pod_uid: uid.to_string(),
        metadata: SandboxMetadata {
            name: format!("n-{id}"),
            namespace: "ns".to_string(),
            uid: uid.to_string(),
            attempt: 0,
        },
        labels: StrMap::new(),
        annotations: StrMap::new(),
        type_id: 0,
        runtime_handler: String::new(),
        vm_id: 0,
        netns_path: format!("/ns/{id}"),
        tap_name: "tap0".to_string(),
        mac: "aa".to_string(),
        pod_ip: "10.0.0.1".to_string(),
        gateway: "10.0.0.1".to_string(),
        rw_layer_path: None,
        cloud_disk_dev: None,
        state,
        created_at: 100,
        host_veth: String::new(),
    }
}

fn ct(id: &str, sid: &str, state: ContainerState) -> ContainerRecord {
    ContainerRecord {
        container_id: id.to_string(),
        sandbox_id: sid.to_string(),
        metadata: ContainerMetadata { name: format!("c-{id}"), attempt: 0 },
        image: "img-a".to_string(),
        command: vec!["sh".to_string()],
        args: vec!["-c".to_string(), "true".to_string()],
        env: vec!["K=V".to_string()],
        mounts: vec![],
        resources: LinuxResources::default(),
        state,
        created_at: 100,
        started_at: None,
        finished_at: None,
        exit_code: 0,
        reason: None,
        message: String::new(),
        labels: StrMap::new(),
        annotations: StrMap::new(),
    }
}

fn one(k: &str, v: &str) -> StrMap<String> {
    let mut m = StrMap::new();
    m.insert(k.to_string(), v.to_string());
    m
}

fn run_store_tests(make: impl Fn() -> Backend) {
    sandbox_crud(&make);
    sandbox_get_by_uid(&make);
    sandbox_list_filters(&make);
    sandbox_delete_idempotent(&make);
    container_crud(&make);
    container_list_filters(&make);
    container_delete_idempotent(&make);
    ipam(&make);
    transaction_commit_and_rollback(&make);
    metadata_passthrough(&make);
}

fn sandbox_crud(make: &impl Fn() -> Backend) {
    let mut s = make();
    let r = sb("sb1", "uid1", SandboxState::Ready);
    s.put_sandbox(&r).unwrap();
    let got = s.get_sandbox("sb1").unwrap();
    assert_eq!(got.sandbox_id, "sb1");
    assert_eq!(got.pod_uid, "uid1");
    assert_eq!(got.state, SandboxState::Ready);
    assert_eq!(got, r);

    let mut r2 = r.clone();
    r2.tap_name = "tap9".to_string();
    s.put_sandbox(&r2).unwrap();
    assert_eq!(s.get_sandbox("sb1").unwrap().tap_name, "tap9");

    match s.get_sandbox("nope") {
        Err(StoreError::NotFound(_)) => {}
        other => panic!("expected NotFound, got {other:?}"),
    }
}

fn sandbox_get_by_uid(make: &impl Fn() -> Backend) {
    let mut s = make();
    s.put_sandbox(&sb("sb1", "uid1", SandboxState::Ready)).unwrap();
    assert_eq!(s.get_sandbox_by_uid("uid1").unwrap().unwrap().sandbox_id, "sb1");
    assert!(s.get_sandbox_by_uid("uid2").unwrap().is_none());
}

fn sandbox_list_filters(make: &impl Fn() -> Backend) {
    let mut s = make();
    let mut a = sb("a", "ua", SandboxState::Ready);
    a.labels.insert("env".to_string(), "prod".to_string());
    let mut b = sb("b", "ub", SandboxState::NotReady);
    b.labels.insert("env".to_string(), "dev".to_string());
    s.put_sandbox(&b).unwrap();
    s.put_sandbox(&a).unwrap();

    let all = s.list_sandboxes(&SandboxFilter::default()).unwrap();
    assert_eq!(all.len(), 2);
    assert_eq!(all[0].sandbox_id, "a");

    let f = SandboxFilter { id: Some("a".to_string()), ..SandboxFilter::default() };
    let r = s.list_sandboxes(&f).unwrap();
    assert_eq!(r.len(), 1);
    assert_eq!(r[0].sandbox_id, "a");

    let f = SandboxFilter { label_selector: one("env", "prod"), ..SandboxFilter::default() };
    let r = s.list_sandboxes(&f).unwrap();
    assert_eq!(r.len(), 1);
    assert_eq!(r[0].sandbox_id, "a");

    let f = SandboxFilter { state: Some(SandboxState::NotReady), ..SandboxFilter::default() };
    let r = s.list_sandboxes(&f).unwrap();
    assert_eq!(r.len(), 1);
    assert_eq!(r[0].sandbox_id, "b");

    let f = SandboxFilter { pod_uid: Some("ub".to_string()), ..SandboxFilter::default() };
    let r = s.list_sandboxes(&f).unwrap();
    assert_eq!(r.len(), 1);
    assert_eq!(r[0].sandbox_id, "b");

    let f = SandboxFilter {
        label_selector: one("env", "prod"),
        state: Some(SandboxState::Ready),
        ..SandboxFilter::default()
    };
    assert_eq!(s.list_sandboxes(&f).unwrap().len(), 1);
}

fn sandbox_delete_idempotent(make: &impl Fn() -> Backend) {
    let mut s = make();
    s.put_sandbox(&sb("sb1", "uid1", SandboxState::Ready)).unwrap();
    s.delete_sandbox("sb1").unwrap();
    match s.get_sandbox("sb1") {
        Err(StoreError::NotFound(_)) => {}
        other => panic!("expected NotFound after delete, got {other:?}"),
    }
    s.delete_sandbox("sb1").unwrap();
    s.delete_sandbox("never").unwrap();
}

fn container_crud(make: &impl Fn() -> Backend) {
    let mut s = make();
    let r = ct("c1", "sb1", ContainerState::Created);
    s.put_container(&r).unwrap();
    let got = s.get_container("c1").unwrap();
    assert_eq!(got.container_id, "c1");
    assert_eq!(got.sandbox_id, "sb1");

    let mut r2 = r.clone();
    r2.state = ContainerState::Running;
    s.put_container(&r2).unwrap();
    assert_eq!(s.get_container("c1").unwrap().state, ContainerState::Running);

    match s.get_container("nope") {
        Err(StoreError::NotFound(_)) => {}
        other => panic!("expected NotFound, got {other:?}"),
    }
}

fn container_list_filters(make: &impl Fn() -> Backend) {
    let mut s = make();
    let mut c1 = ct("c1", "sb1", ContainerState::Running);
    c1.labels.insert("tier".to_string(), "web".to_string());
    let mut c2 = ct("c2", "sb1", ContainerState::Exited);
    c2.labels.insert("tier".to_string(), "worker".to_string());
    let c3 = ct("c3", "sb2", ContainerState::Created);
    s.put_container(&c1).unwrap();
    s.put_container(&c2).unwrap();
    s.put_container(&c3).unwrap();

    let all = s.list_containers(&ContainerFilter::default()).unwrap();
    assert_eq!(all.len(), 3);

    let f = ContainerFilter { sandbox_id: Some("sb1".to_string()), ..ContainerFilter::default() };
    assert_eq!(s.list_containers(&f).unwrap().len(), 2);

    let f = ContainerFilter { id: Some("c3".to_string()), ..ContainerFilter::default() };
    let r = s.list_containers(&f).unwrap();
    assert_eq!(r.len(), 1);
    assert_eq!(r[0].container_id, "c3");

    let f = ContainerFilter { label_selector: one("tier", "web"), ..ContainerFilter::default() };
    assert_eq!(s.list_containers(&f).unwrap().len(), 1);

    let f = ContainerFilter { state: Some(ContainerState::Exited), ..ContainerFilter::default() };
    assert_eq!(s.list_containers(&f).unwrap().len(), 1);
}

fn container_delete_idempotent(make: &impl Fn() -> Backend) {
    let mut s = make();
    s.put_container(&ct("c1", "sb1", ContainerState::Created)).unwrap();
    s.delete_container("c1").unwrap();
    match s.get_container("c1") {
        Err(StoreError::NotFound(_)) => {}
        other => panic!("expected NotFound after delete, got {other:?}"),
    }
    s.delete_container("c1").unwrap();
    s.delete_container("never").unwrap();
}

fn ipam(make: &impl Fn() -> Backend) {
    let mut s = make();
    let l1 = s.lease_ip("10.244.0.0/30").unwrap();
    assert_eq!(l1.cidr, "10.244.0.0/30");
    let l2 = s.lease_ip("10.244.0.0/30").unwrap();
    assert_ne!(l1.ip, l2.ip);

    match s.lease_ip("10.244.0.0/30") {
        Err(StoreError::Db(_)) => {}
        other => panic!("expected ipam exhaustion (Db), got {other:?}"),
    }

    s.release_ip(&l1).unwrap();
    let l3 = s.lease_ip("10.244.0.0/30").unwrap();
    assert_eq!(l3.ip, l1.ip, "released ip should be reusable");

    s.release_ip(&IpLease {
        ip: "10.244.0.99".to_string(),
        cidr: "10.244.0.0/30".to_string(),
        sandbox_id: String::new(),
    })
    .unwrap();
}

fn transaction_commit_and_rollback(make: &impl Fn() -> Backend) {
    let mut s = make();
    s.transaction(|t| {
        t.put_sandbox(&sb("sb1", "uid1", SandboxState::Ready))?;
        t.put_container(&ct("c1", "sb1", ContainerState::Created))?;
        Ok(())
    })
    .unwrap();
    assert!(s.get_sandbox("sb1").is_ok());
    assert!(s.get_container("c1").is_ok());

    s.transaction(|t| {
        t.put_sandbox(&sb("sb2", "uid2", SandboxState::Ready))?;
        t.put_container(&ct("c2", "sb2", ContainerState::Created))?;
        Err(StoreError::Other("boom".to_string()))
    })
    .unwrap_err();
    match s.get_sandbox("sb2") {
        Err(StoreError::NotFound(_)) => {}
        other => panic!("expected rollback, got {other:?}"),
    }
    match s.get_container("c2") {
        Err(StoreError::NotFound(_)) => {}
        other => panic!("expected rollback, got {other:?}"),
    }

    let mut s2 = make();
    let lease = s2.lease_ip("10.244.0.0/24").unwrap();
    let mut sb_rec = sb("sb1", "uid1", SandboxState::Ready);
    sb_rec.pod_ip = lease.ip.clone();
    s2.put_sandbox(&sb_rec).unwrap();
    let lease_clone = lease.clone();
    s2.transaction(move |t| {
        t.delete_sandbox("sb1")?;
        t.release_ip(&lease_clone)?;
        Ok(())
    })
    .unwrap();
    assert!(s2.get_sandbox("sb1").is_err());
    let again = s2.lease_ip("10.244.0.0/24").unwrap();
    assert_eq!(again.ip, lease.ip);

    s.transaction(|_t| Ok(())).unwrap();
}

fn metadata_passthrough(make: &impl Fn() -> Backend) {
    let mut s = make();
    let mut r = sb("sb1", "uid1", SandboxState::Ready);
    r.metadata = SandboxMetadata {
        name: "pod-name".to_string(),
        namespace: "kube-system".to_string(),
        uid: "uid-xyz".to_string(),
        attempt: 7,
    };
    r.labels.insert("a/b".to_string(), "v1".to_string());
    r.labels.insert("k".to_string(), "v2".to_string());
    r.annotations.insert("agent-sandbox/type".to_string(), "1".to_string());
    s.put_sandbox(&r).unwrap();
    let got = s.get_sandbox("sb1").unwrap();
    assert_eq!(got.metadata, r.metadata);
    assert_eq!(got.labels, r.labels);
    assert_eq!(got.annotations, r.annotations);

    let mut c = ct("c1", "sb1", ContainerState::Exited);
    c.exit_code = 137;
    c.reason = Some(ContainerExitReason::OomKilled);
    c.message = "oom".to_string();
    c.labels.insert("app".to_string(), "x".to_string());
    s.put_container(&c).unwrap();
    let cg = s.get_container("c1").unwrap();
    assert_eq!(cg.exit_code, 137);
    assert_eq!(cg.reason, Some(ContainerExitReason::OomKilled));
    assert_eq!(cg.message, "oom");
    assert_eq!(cg.labels, c.labels);
}

#[test]
fn memory_store_conformance() {
    run_store_tests(|| Backend::Memory(MemoryStore::new()));
}

#[test]
fn redb_store_conformance() {
    run_store_tests(|| Backend::Redb(RedbStore::open_in_memory().unwrap()));
}

#[test]
fn a_transaction_sees_its_own_writes() {
    for mut s in [
        Backend::Memory(MemoryStore::new()),
        Backend::Redb(RedbStore::open_in_memory().unwrap()),
    ] {
        s.transaction(|t| {
            let a = t.lease_ip("10.0.0.0/29")?;
            let b = t.lease_ip("10.0.0.0/29")?;
            assert_eq!(a.ip, "10.0.0.1");
            assert_eq!(b.ip, "10.0.0.2");
            t.put_container(&ct("c", "s", ContainerState::Created))?;
            t.delete_container("c")?;
            Ok(())
        })
        .unwrap();
        assert!(s.get_container("c").is_err());
        assert_eq!(s.lease_ip("10.0.0.0/29").unwrap().ip, "10.0.0.3");
    }
}

#[test]
fn rows_come_in_the_order_of_their_keys_and_as_they_were_written() {
    let mut s = RedbStore::open_in_memory().unwrap();
    s.put_sandbox("b", &[2, 0, 255]).unwrap();
    s.put_sandbox("a", &[1]).unwrap();
    s.put_container("a", &[9]).unwrap();
    assert_eq!(
        s.sandbox_rows().unwrap(),
        vec![("a".to_string(), vec![1]), ("b".to_string(), vec![2, 0, 255])]
    );
    assert_eq!(s.get_sandbox("b").unwrap(), vec![2, 0, 255]);
    assert_eq!(s.get_container("a").unwrap(), vec![9]);
    assert_eq!(
        s.get_container("b"),
        Err(StoreError::NotFound("container b".to_string()))
    );
    s.delete_sandbox("b").unwrap();
    s.delete_container("a").unwrap();
    assert_eq!(s.sandbox_rows().unwrap().len(), 1);
    assert!(s.container_rows().unwrap().is_empty());
}

#[test]
fn a_database_keeps_what_it_held() {
    let db = redb::Database::builder()
        .create_with_backend(redb::backends::InMemoryBackend::new())
        .unwrap();
    let t = db.begin_write().unwrap();
    {
        let table = redb::TableDefinition::<&str, &[u8]>::new("sandbox");
        let mut rows = t.open_table(table).unwrap();
        rows.insert("x", &[7u8][..]).unwrap();
    }
    t.commit().unwrap();
    let s = RedbStore::from_db(db).unwrap();
    assert_eq!(s.get_sandbox("x").unwrap(), vec![7]);
    assert!(s.container_rows().unwrap().is_empty());
}

#[test]
fn a_new_database_has_its_tables() {
    let mut s = RedbStore::open_in_memory().unwrap();
    assert_eq!(s.sandbox_rows(), Ok(Vec::new()));
    assert_eq!(s.container_rows(), Ok(Vec::new()));
    assert_eq!(s.get_sandbox("a"), Err(StoreError::NotFound("sandbox a".to_string())));
    assert_eq!(s.get_container("a"), Err(StoreError::NotFound("container a".to_string())));
    s.delete_sandbox("a").unwrap();
    assert_eq!(s.sandbox_rows(), Ok(Vec::new()));
}

#[test]
fn a_new_database_has_no_records() {
    let mut s = RedbStore::open_in_memory().unwrap();
    let other = RedbStore::open_in_memory().unwrap();
    let sandbox = |b: &Vec<u8>| Ok(sandbox_of(b));
    let container = |b: &Vec<u8>| Ok(container_of(b));
    assert_eq!(s.list_sandboxes(&SandboxFilter::default(), &sandbox), Ok(Vec::new()));
    assert_eq!(s.list_containers(&ContainerFilter::default(), &container), Ok(Vec::new()));
    assert_eq!(s.get_sandbox_by_uid("u", &sandbox), Ok(None));
    assert_eq!(s.get_sandbox("nope"), Err(StoreError::NotFound("sandbox nope".to_string())));

    let r = sb("a", "u", SandboxState::Ready);
    s.put_sandbox("a", &sandbox_bytes(&r)).unwrap();
    assert_eq!(s.get_sandbox_by_uid("u", &sandbox), Ok(Some(r)));
    assert_eq!(other.get_sandbox_by_uid("u", &sandbox), Ok(None));
    assert_eq!(other.list_sandboxes(&SandboxFilter::default(), &sandbox), Ok(Vec::new()));
}

#[test]
fn a_record_that_cannot_be_read_is_an_error() {
    let refuse = |b: &Vec<u8>| {
        if b.is_empty() {
            Err(StoreError::Db("torn".to_string()))
        } else {
            Ok(sandbox_of(b))
        }
    };
    let row = |id: &str, uid: &str| {
        (id.to_string(), sandbox_bytes(&sb(id, uid, SandboxState::Ready)))
    };
    let rows = vec![row("a", "u1"), ("b".to_string(), Vec::new()), row("c", "u3")];
    assert_eq!(decode_rows(&rows, &refuse), Err(StoreError::Db("torn".to_string())));
    assert_eq!(find_by_uid(&rows, "u1", &refuse).unwrap().unwrap().sandbox_id, "a");
    assert_eq!(find_by_uid(&rows, "u3", &refuse), Err(StoreError::Db("torn".to_string())));
    let rows = vec![row("a", "u1"), row("b", "u1"), row("c", "u3")];
    assert_eq!(decode_rows(&rows, &refuse).unwrap().len(), 3);
    assert_eq!(find_by_uid(&rows, "u1", &refuse).unwrap().unwrap().sandbox_id, "a");
    assert_eq!(find_by_uid(&rows, "u3", &refuse).unwrap().unwrap().sandbox_id, "c");
    assert_eq!(find_by_uid(&rows, "u4", &refuse), Ok(None));

    let mut s = RedbStore::open_in_memory().unwrap();
    s.put_sandbox("b", &[]).unwrap();
    assert_eq!(
        s.list_sandboxes(&SandboxFilter::default(), &refuse),
        Err(StoreError::Db("torn".to_string()))
    );
}

#[test]
fn a_row_is_found_missing_or_unreadable() {
    assert_eq!(found(Ok(Some(vec![1, 2])), "sandbox", "a"), Ok(vec![1, 2]));
    assert_eq!(
        found(Ok(None), "sandbox", "a"),
        Err(StoreError::NotFound("sandbox a".to_string()))
    );
    assert_eq!(
        found(Err("torn page".to_string()), "sandbox", "a"),
        Err(StoreError::Db("torn page".to_string()))
    );
}

#[test]
fn a_transaction_that_errs_keeps_nothing() {
    let mut s = RedbStore::open_in_memory().unwrap();
    s.put_sandbox("a", &[1]).unwrap();
    let r = s.transaction(|t| {
        t.put_sandbox("a", &[2])?;
        t.delete_sandbox("a")?;
        t.lease_ip("10.0.0.0/30")?;
        Err(StoreError::Other("boom".to_string()))
    });
    assert_eq!(r, Err(StoreError::Other("boom".to_string())));
    assert_eq!(s.get_sandbox("a"), Ok(vec![1]));
    assert_eq!(s.lease_ip("10.0.0.0/30").unwrap().ip, "10.0.0.1");
}

#[test]
fn a_refused_lease_takes_no_address() {
    let mut s = RedbStore::open_in_memory().unwrap();
    assert!(s.lease_ip("10.0.0.0").is_err());
    let lease = s.lease_ip("10.0.0.0/30").unwrap();
    assert_eq!(lease.ip, "10.0.0.1");
    s.release_ip(&lease).unwrap();
    assert_eq!(s.lease_ip("10.0.0.0/30").unwrap().ip, "10.0.0.1");
}

#[test]
fn a_database_with_other_tables_is_refused() {
    let db = redb::Database::builder()
        .create_with_backend(redb::backends::InMemoryBackend::new())
        .unwrap();
    let t = db.begin_write().unwrap();
    {
        let table = redb::TableDefinition::<u64, u64>::new("sandbox");
        t.open_table(table).unwrap();
    }
    t.commit().unwrap();
    assert!(matches!(RedbStore::from_db(db), Err(StoreError::Db(_))));
}

#[test]
fn records_with_one_id_stay_in_the_order_they_came() {
    let mut first = sb("x", "u1", SandboxState::Ready);
    first.mac = "1".to_string();
    let mut second = sb("x", "u2", SandboxState::Ready);
    second.mac = "2".to_string();
    let all = vec![first, sb("a", "u3", SandboxState::Ready), second];
    let l = select_sandboxes(&all, &SandboxFilter::default());
    let order: Vec<&str> = l.iter().map(|r| r.pod_uid.as_str()).collect();
    assert_eq!(order, vec!["u3", "u1", "u2"]);
}

#[test]
fn blocks_of_addresses() {
    assert_eq!(parse_cidr("10.244.0.0/24").unwrap(), (0x0af4_0000, 24));
    assert_eq!(ip_to_string(0x0af4_0001), "10.244.0.1");
    for bad in ["10.0.0.0", "10.0.0.0/33", "10.0.0/8", "10.0.0.256/8", "a.b.c.d/8", ""] {
        assert!(matches!(parse_cidr(bad), Err(StoreError::Other(_))), "{bad}");
    }
    let none: StrMap<bool> = StrMap::new();
    assert_eq!(next_free(&none, "10.0.0.77/24").unwrap(), "10.0.0.1");
    assert_eq!(next_free(&none, "10.0.0.4/31").unwrap(), "10.0.0.4");
    assert_eq!(
        next_free(&none, "10.0.0.4/32"),
        Err(StoreError::Db("ipam exhausted: 10.0.0.4/32".to_string()))
    );
    assert_eq!(
        next_free(&none, "nope"),
        Err(StoreError::Other("bad cidr: nope".to_string()))
    );
    let mut used: StrMap<bool> = StrMap::new();
    used.insert("10.0.0.1".to_string(), true);
    assert_eq!(next_free(&used, "10.0.0.0/24").unwrap(), "10.0.0.2");
}

#[test]
fn errors_as_text() {
    assert_eq!(StoreError::NotFound("sandbox x".to_string()).message(), "not found: sandbox x");
}
