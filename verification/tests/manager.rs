//! The life of sandboxes and containers, on backends that only keep count.

use oas::config::Config;
use oas::cri::convert;
use oas::cri::error::{swallow_not_found, Code, Status};
use oas::cri::image_svc::ImageSvc;
use oas::cri::pb;
use oas::cri::runtime_svc::{
    container_stats_filter, containers_of, sandbox_stats_filter, told, RuntimeSvc,
};
use oas::driver::{DriverError, VmId};
use oas::manager::clock::FakeClock;
use oas::manager::containers::{
    ContainerStatus, CreateContainer, RemoveContainer, StartContainer, StopContainer,
};
use oas::manager::facade::OasManager;
use oas::manager::id::IdGenerator;
use oas::manager::sandboxes::{
    ManagerAction, ManagerReply, RemoveSandbox, RunSandbox, StopSandbox,
};
use oas::manager::{CreateContainerRequest, CreateSandboxRequest, OasError, StubManager};
use oas::mock::{ImmediateReadiness, MockDriver, MockNet, MockStorage, NeverReadyReadiness};
use oas::store::memory::MemoryStore;
use oas::store::{Store, StoreError};
use oas::strmap::StrMap;
use oas::types::{
    ContainerExitReason, ContainerFilter, ContainerMetadata, ContainerRecord, ContainerState,
    KeyValue, LinuxResources, SandboxFilter, SandboxMetadata, SandboxRecord, SandboxState,
};

struct Env {
    mgr: OasManager,
    store: MemoryStore,
    driver: MockDriver,
    net: MockNet,
    storage: MockStorage,
    clock: FakeClock,
    ids: IdGenerator,
    ready: bool,
    /// What containers were asked of the driver.
    containers: Vec<String>,
    fail_container: bool,
    fail_put: bool,
    /// A microVM that is deleted goes on to run.
    never_stops: bool,
    pauses: usize,
}

fn the_config() -> Config {
    Config::default()
}

impl Env {
    fn new() -> Env {
        Env {
            mgr: OasManager::new(the_config()),
            store: MemoryStore::new(),
            driver: MockDriver::new(),
            net: MockNet::new("10.244.0.0/24", "10.244.0.254"),
            storage: MockStorage::new(),
            clock: FakeClock::new(1_700_000_000),
            ids: IdGenerator::new(),
            ready: true,
            containers: Vec::new(),
            fail_container: false,
            fail_put: false,
            never_stops: false,
            pauses: 0,
        }
    }

    fn container_op(&mut self, op: &str) -> ManagerReply {
        self.containers.push(op.to_string());
        if self.fail_container {
            ManagerReply::Driver(Err(DriverError::Other("injected".to_string())))
        } else {
            ManagerReply::Driver(Ok(()))
        }
    }

    fn perform(&mut self, action: ManagerAction) -> ManagerReply {
        match action {
            ManagerAction::Lock(_) => ManagerReply::Done,
            ManagerAction::FindByUid(uid) => {
                ManagerReply::Found(self.store.get_sandbox_by_uid(&uid))
            }
            ManagerAction::ReadSandbox(id) => ManagerReply::Sandbox(self.store.get_sandbox(&id)),
            ManagerAction::ReadContainer(id) => {
                ManagerReply::Container(self.store.get_container(&id))
            }
            ManagerAction::PutSandbox(r) => {
                if self.fail_put {
                    ManagerReply::Stored(Err(StoreError::Db("full".to_string())))
                } else {
                    ManagerReply::Stored(self.store.put_sandbox(&r))
                }
            }
            ManagerAction::PutContainer(r) => ManagerReply::Stored(self.store.put_container(&r)),
            ManagerAction::DeleteSandbox(id) => {
                ManagerReply::Stored(self.store.delete_sandbox(&id))
            }
            ManagerAction::DeleteContainer(id) => {
                ManagerReply::Stored(self.store.delete_container(&id))
            }
            ManagerAction::NewSandboxId => {
                ManagerReply::Id(self.ids.sandbox_id().as_str().to_string())
            }
            ManagerAction::NewContainerId => ManagerReply::Id(self.ids.container_id()),
            ManagerAction::SetupNet(id) => {
                ManagerReply::Net(self.net.setup(&mut self.store, &id))
            }
            ManagerAction::TeardownNet(net) => {
                let _ = self.net.teardown(&mut self.store, &net);
                ManagerReply::Done
            }
            ManagerAction::Provision { sandbox_id, type_id, cloud_disk_ref } => ManagerReply::Disk(
                self.storage.provision(&sandbox_id, type_id, &cloud_disk_ref),
            ),
            ManagerAction::CleanupDisk(d) => {
                let _ = self.storage.cleanup(&d);
                ManagerReply::Done
            }
            ManagerAction::CreateVm { sandbox_id, netns_path, type_id, spec, .. } => {
                ManagerReply::Vm(self.driver.create_vm(&sandbox_id, &netns_path, type_id, &spec))
            }
            ManagerAction::WaitReady(vm) => ManagerReply::Ready(if self.ready {
                ImmediateReadiness.wait_ready(vm)
            } else {
                NeverReadyReadiness.wait_ready(vm)
            }),
            ManagerAction::DeleteVm { vm_id, .. } => {
                if !self.never_stops {
                    let _ = self.driver.delete_vm(vm_id);
                }
                ManagerReply::Done
            }
            ManagerAction::GetVm { vm_id, .. } => {
                ManagerReply::Lifecycle(self.driver.get_vm(vm_id).map(|s| s.lifecycle))
            }
            ManagerAction::Pause => {
                self.pauses += 1;
                ManagerReply::Done
            }
            ManagerAction::CreateContainer { container_id, .. } => {
                self.container_op(&format!("create {container_id}"))
            }
            ManagerAction::StartContainer { container_id, .. } => {
                self.container_op(&format!("start {container_id}"))
            }
            ManagerAction::StopContainer { container_id, timeout, .. } => {
                self.container_op(&format!("stop {container_id} {timeout}"))
            }
            ManagerAction::RemoveContainer { container_id, .. } => {
                self.container_op(&format!("remove {container_id}"))
            }
            ManagerAction::ContainerStatus { container_id, .. } => {
                self.container_op(&format!("status {container_id}"))
            }
            ManagerAction::Finish => unreachable!(),
        }
    }

    fn drive_run(&mut self, mut op: RunSandbox) -> Result<String, OasError> {
        loop {
            if let Some(r) = op.result() {
                return r;
            }
            let reply = self.perform(op.action());
            op.advance(reply, self.clock.now);
        }
    }

    fn run_sandbox(&mut self, req: CreateSandboxRequest) -> Result<String, OasError> {
        let op = self.mgr.run_sandbox(req);
        self.drive_run(op)
    }

    fn drive_stop(&mut self, mut op: StopSandbox) -> Result<(), OasError> {
        loop {
            if let Some(r) = op.result() {
                return r;
            }
            let reply = self.perform(op.action());
            op.advance(reply);
        }
    }

    fn stop_sandbox(&mut self, id: &str) -> Result<(), OasError> {
        let op = self.mgr.stop_sandbox(id);
        self.drive_stop(op)
    }

    fn drive_remove(&mut self, mut op: RemoveSandbox) -> Result<(), OasError> {
        loop {
            if let Some(r) = op.result() {
                return r;
            }
            let reply = self.perform(op.action());
            op.advance(reply);
        }
    }

    fn remove_sandbox(&mut self, id: &str) -> Result<(), OasError> {
        let op = self.mgr.remove_sandbox(id);
        self.drive_remove(op)
    }

    fn drive_create(&mut self, mut op: CreateContainer) -> Result<String, OasError> {
        loop {
            if let Some(r) = op.result() {
                return r;
            }
            let reply = self.perform(op.action());
            op.advance(reply, self.clock.now);
        }
    }

    fn create_container(&mut self, req: CreateContainerRequest) -> Result<String, OasError> {
        let op = self.mgr.create_container(req);
        self.drive_create(op)
    }

    fn drive_start_ct(&mut self, mut op: StartContainer) -> Result<(), OasError> {
        loop {
            if let Some(r) = op.result() {
                return r;
            }
            let reply = self.perform(op.action());
            op.advance(reply, self.clock.now);
        }
    }

    fn start_container(&mut self, id: &str) -> Result<(), OasError> {
        let op = self.mgr.start_container(id);
        self.drive_start_ct(op)
    }

    fn drive_stop_ct(&mut self, mut op: StopContainer) -> Result<(), OasError> {
        loop {
            if let Some(r) = op.result() {
                return r;
            }
            let reply = self.perform(op.action());
            op.advance(reply, self.clock.now);
        }
    }

    fn stop_container(&mut self, id: &str, timeout: i64) -> Result<(), OasError> {
        let op = self.mgr.stop_container(id, timeout);
        self.drive_stop_ct(op)
    }

    fn drive_remove_ct(&mut self, mut op: RemoveContainer) -> Result<(), OasError> {
        loop {
            if let Some(r) = op.result() {
                return r;
            }
            let reply = self.perform(op.action());
            op.advance(reply);
        }
    }

    fn remove_container(&mut self, id: &str) -> Result<(), OasError> {
        let op = self.mgr.remove_container(id);
        self.drive_remove_ct(op)
    }

    fn drive_status_ct(&mut self, mut op: ContainerStatus) -> Result<ContainerRecord, OasError> {
        loop {
            if let Some(r) = op.result() {
                return r;
            }
            let reply = self.perform(op.action());
            op.advance(reply);
        }
    }

    fn container_status(&mut self, id: &str) -> Result<ContainerRecord, OasError> {
        let op = self.mgr.container_status(id);
        self.drive_status_ct(op)
    }

    fn sandbox_status(&self, id: &str) -> Result<SandboxRecord, OasError> {
        self.mgr.sandbox_status(self.store.get_sandbox(id))
    }

    fn list_sandboxes(&self, f: SandboxFilter) -> Result<Vec<SandboxRecord>, OasError> {
        self.mgr.list_sandboxes(self.store.list_sandboxes(&f))
    }

    fn list_containers(&self, f: ContainerFilter) -> Result<Vec<ContainerRecord>, OasError> {
        self.mgr.list_containers(self.store.list_containers(&f))
    }
}

fn sandbox_req(uid: &str, type_id: u8) -> CreateSandboxRequest {
    CreateSandboxRequest {
        metadata: SandboxMetadata {
            name: format!("pod-{uid}"),
            namespace: "default".to_string(),
            uid: uid.to_string(),
            attempt: 0,
        },
        labels: StrMap::new(),
        annotations: StrMap::new(),
        hostname: "host".to_string(),
        log_directory: "/logs".to_string(),
        dns_config: None,
        cgroup_parent: String::new(),
        type_id,
        cloud_disk_ref: None,
        rw_size: None,
        runtime_handler: "oas".to_string(),
    }
}

fn container_req(sandbox_id: &str, image: &str) -> CreateContainerRequest {
    CreateContainerRequest {
        pod_sandbox_id: sandbox_id.to_string(),
        metadata: ContainerMetadata { name: "c0".to_string(), attempt: 0 },
        image: image.to_string(),
        command: vec!["sh".to_string()],
        args: vec![],
        working_dir: String::new(),
        envs: vec![KeyValue { key: "K".to_string(), value: "V".to_string() }],
        mounts: vec![],
        labels: StrMap::new(),
        annotations: StrMap::new(),
        log_path: String::new(),
        resources: LinuxResources::default(),
        tty: false,
        stdin: false,
        stdin_once: false,
    }
}

#[test]
fn run_sandbox_happy() {
    let mut env = Env::new();
    let id = env.run_sandbox(sandbox_req("uid1", 0)).unwrap();
    assert!(id.starts_with("sb-"));
    let rec = env.sandbox_status(&id).unwrap();
    assert_eq!(rec.state, SandboxState::Ready);
    assert_eq!(rec.pod_uid, "uid1");
    assert!(!rec.pod_ip.is_empty());
    assert!(rec.vm_id > 0);
    assert_eq!(rec.created_at, 1_700_000_000);
    assert_eq!(env.driver.create_count(), 1);
    assert_eq!(env.net.setup_count(), 1);
    assert_eq!(env.storage.provision_count(), 1);
}

#[test]
fn run_sandbox_idempotent_by_uid() {
    let mut env = Env::new();
    let id1 = env.run_sandbox(sandbox_req("uid1", 0)).unwrap();
    let id2 = env.run_sandbox(sandbox_req("uid1", 0)).unwrap();
    assert_eq!(id1, id2);
    assert_eq!(env.driver.create_count(), 1, "no second VM");
}

#[test]
fn run_sandbox_notready_then_conflict() {
    let mut env = Env::new();
    let id = env.run_sandbox(sandbox_req("uid1", 0)).unwrap();
    env.stop_sandbox(&id).unwrap();
    let err = env.run_sandbox(sandbox_req("uid1", 0)).unwrap_err();
    assert!(matches!(err, OasError::Conflict(_)));
}

#[test]
fn run_sandbox_type2_missing_cloud_disk() {
    let mut env = Env::new();
    let err = env.run_sandbox(sandbox_req("uid1", 2)).unwrap_err();
    assert!(matches!(err, OasError::InvalidArgument(_)));
    assert_eq!(env.driver.create_count(), 0);
    assert_eq!(env.net.setup_count(), 0);
}

#[test]
fn run_sandbox_type0_with_cloud_disk() {
    let mut env = Env::new();
    let mut req = sandbox_req("uid1", 0);
    req.cloud_disk_ref = Some("/dev/vdz".to_string());
    let err = env.run_sandbox(req).unwrap_err();
    assert!(matches!(err, OasError::InvalidArgument(_)));
}

#[test]
fn run_sandbox_storage_fail_rolls_back_net() {
    let mut env = Env::new();
    env.storage.fail_provision(true);
    let err = env.run_sandbox(sandbox_req("uid1", 0)).unwrap_err();
    assert!(matches!(err, OasError::Internal(_)));
    assert_eq!(env.net.teardown_count(), 1, "net rolled back");
    assert_eq!(env.driver.create_count(), 0, "create_vm not reached");
    assert_eq!(env.storage.provision_count(), 1);
}

#[test]
fn run_sandbox_create_vm_fail_rolls_back() {
    let mut env = Env::new();
    env.driver.fail_create(true);
    let err = env.run_sandbox(sandbox_req("uid1", 0)).unwrap_err();
    assert!(matches!(err, OasError::Unavailable(_)));
    assert_eq!(env.storage.cleanup_count(), 1, "storage rolled back");
    assert_eq!(env.net.teardown_count(), 1, "net rolled back");
    assert_eq!(env.driver.delete_count(), 0, "no vm to delete");
}

#[test]
fn run_sandbox_readiness_timeout_rolls_back_all() {
    let mut env = Env::new();
    env.ready = false;
    let err = env.run_sandbox(sandbox_req("uid1", 0)).unwrap_err();
    assert!(matches!(err, OasError::Unavailable(_)));
    assert_eq!(env.driver.create_count(), 1);
    assert_eq!(env.driver.delete_count(), 1, "orphan VM deleted");
    assert_eq!(env.storage.cleanup_count(), 1);
    assert_eq!(env.net.teardown_count(), 1);
    assert!(env.store.get_sandbox_by_uid("uid1").unwrap().is_none(), "no record persisted");
}

#[test]
fn stop_sandbox_polls_to_stopped_then_notready() {
    let mut env = Env::new();
    let id = env.run_sandbox(sandbox_req("uid1", 0)).unwrap();
    env.stop_sandbox(&id).unwrap();
    assert_eq!(env.driver.delete_count(), 1);
    assert!(env.driver.get_count() >= 1, "polled get_vm");
    assert_eq!(env.net.teardown_count(), 1, "IP released");
    let rec = env.sandbox_status(&id).unwrap();
    assert_eq!(rec.state, SandboxState::NotReady);
}

#[test]
fn remove_sandbox_idempotent() {
    let mut env = Env::new();
    let id = env.run_sandbox(sandbox_req("uid1", 0)).unwrap();
    env.stop_sandbox(&id).unwrap();
    env.remove_sandbox(&id).unwrap();
    env.remove_sandbox(&id).unwrap();
    assert!(matches!(env.sandbox_status(&id), Err(OasError::NotFound(_))));
    assert_eq!(env.storage.cleanup_count(), 1);
}

#[test]
fn read_paths_never_call_driver() {
    let mut env = Env::new();
    let id = env.run_sandbox(sandbox_req("uid1", 0)).unwrap();
    let _ = env.sandbox_status(&id);
    let _ = env.list_sandboxes(SandboxFilter::default());
    assert_eq!(env.driver.get_count(), 0);
    assert_eq!(env.driver.list_count(), 0);
}

fn run_sandbox_type0(env: &mut Env) -> String {
    env.run_sandbox(sandbox_req("uid1", 0)).unwrap()
}

#[test]
fn create_container_happy() {
    let mut env = Env::new();
    let sid = run_sandbox_type0(&mut env);
    let cid = env.create_container(container_req(&sid, "img-a")).unwrap();
    assert!(cid.starts_with("ct-"));
    let c = env.container_status(&cid).unwrap();
    assert_eq!(c.state, ContainerState::Created);
    assert_eq!(c.image, "img-a");
    assert_eq!(c.exit_code, 0);
    assert_eq!(c.env, vec!["K=V".to_string()]);
}

#[test]
fn create_container_image_not_in_whitelist() {
    let mut env = Env::new();
    let sid = run_sandbox_type0(&mut env);
    let err = env.create_container(container_req(&sid, "img-x")).unwrap_err();
    assert!(matches!(err, OasError::ImageNotInList(_)));
}

#[test]
fn create_container_memory_exceeds_type() {
    let mut env = Env::new();
    let sid = run_sandbox_type0(&mut env);
    let mut r = container_req(&sid, "img-a");
    r.resources.memory_limit_bytes = Some(600 * 1_048_576);
    let err = env.create_container(r).unwrap_err();
    assert!(matches!(err, OasError::TypeMismatch(_)));
}

#[test]
fn create_container_sandbox_missing() {
    let mut env = Env::new();
    let err = env.create_container(container_req("nope", "img-a")).unwrap_err();
    assert!(matches!(err, OasError::NotFound(_)));
}

#[test]
fn start_container_created_to_running() {
    let mut env = Env::new();
    let sid = run_sandbox_type0(&mut env);
    let cid = env.create_container(container_req(&sid, "img-a")).unwrap();
    env.start_container(&cid).unwrap();
    let c = env.container_status(&cid).unwrap();
    assert_eq!(c.state, ContainerState::Running);
    assert_eq!(c.started_at, Some(1_700_000_000));
}

#[test]
fn start_container_running_idempotent() {
    let mut env = Env::new();
    let sid = run_sandbox_type0(&mut env);
    let cid = env.create_container(container_req(&sid, "img-a")).unwrap();
    env.start_container(&cid).unwrap();
    env.start_container(&cid).unwrap();
    assert_eq!(env.container_status(&cid).unwrap().state, ContainerState::Running);
}

#[test]
fn start_container_exited_conflict() {
    let mut env = Env::new();
    let sid = run_sandbox_type0(&mut env);
    let cid = env.create_container(container_req(&sid, "img-a")).unwrap();
    env.stop_container(&cid, 10).unwrap();
    let err = env.start_container(&cid).unwrap_err();
    assert!(matches!(err, OasError::Conflict(_)));
}

#[test]
fn stop_container_created_to_exited() {
    let mut env = Env::new();
    let sid = run_sandbox_type0(&mut env);
    let cid = env.create_container(container_req(&sid, "img-a")).unwrap();
    env.stop_container(&cid, 10).unwrap();
    let c = env.container_status(&cid).unwrap();
    assert_eq!(c.state, ContainerState::Exited);
    assert_eq!(c.exit_code, 0);
    assert_eq!(c.reason, Some(ContainerExitReason::Completed));
    assert!(c.finished_at.is_some());
}

#[test]
fn stop_container_running_to_exited() {
    let mut env = Env::new();
    let sid = run_sandbox_type0(&mut env);
    let cid = env.create_container(container_req(&sid, "img-a")).unwrap();
    env.start_container(&cid).unwrap();
    env.stop_container(&cid, 10).unwrap();
    let c = env.container_status(&cid).unwrap();
    assert_eq!(c.state, ContainerState::Exited);
    assert_eq!(c.exit_code, 0);
}

#[test]
fn stop_container_idempotent_on_exited() {
    let mut env = Env::new();
    let sid = run_sandbox_type0(&mut env);
    let cid = env.create_container(container_req(&sid, "img-a")).unwrap();
    env.stop_container(&cid, 10).unwrap();
    env.stop_container(&cid, 10).unwrap();
    assert_eq!(env.container_status(&cid).unwrap().state, ContainerState::Exited);
}

#[test]
fn stop_container_missing_ok() {
    let mut env = Env::new();
    env.stop_container("nope", 10).unwrap();
}

#[test]
fn remove_container_idempotent() {
    let mut env = Env::new();
    let sid = run_sandbox_type0(&mut env);
    let cid = env.create_container(container_req(&sid, "img-a")).unwrap();
    env.remove_container(&cid).unwrap();
    env.remove_container(&cid).unwrap();
    assert!(matches!(env.container_status(&cid), Err(OasError::NotFound(_))));
}

#[test]
fn list_containers_by_sandbox() {
    let mut env = Env::new();
    let sid = run_sandbox_type0(&mut env);
    let c1 = env.create_container(container_req(&sid, "img-a")).unwrap();
    let c2 = env.create_container(container_req(&sid, "img-a")).unwrap();
    let filter = ContainerFilter { sandbox_id: Some(sid.clone()), ..ContainerFilter::default() };
    let list = env.list_containers(filter).unwrap();
    assert_eq!(list.len(), 2);
    assert!(list.iter().any(|c| c.container_id == c1));
    assert!(list.iter().any(|c| c.container_id == c2));
}

#[test]
fn container_status_never_calls_driver() {
    let mut env = Env::new();
    let sid = run_sandbox_type0(&mut env);
    let cid = env.create_container(container_req(&sid, "img-a")).unwrap();
    let _ = env.container_status(&cid);
    let _ = env.list_containers(ContainerFilter::default());
    assert_eq!(env.driver.get_count(), 0);
}

#[test]
fn image_status_hit_and_miss() {
    let env = Env::new();
    assert!(env.mgr.image_status("img-a").unwrap().is_some());
    assert!(env.mgr.image_status("img-x").unwrap().is_none());
}

#[test]
fn pull_image_whitelist_and_reject() {
    let env = Env::new();
    assert_eq!(env.mgr.pull_image("img-b").unwrap(), "img-b");
    let err = env.mgr.pull_image("img-x").unwrap_err();
    assert!(matches!(err, OasError::ImageNotInList(_)));
}

#[test]
fn list_images_flattens_whitelist() {
    let env = Env::new();
    let imgs = env.mgr.list_images().unwrap();
    assert_eq!(imgs.len(), 3);
    let refs: Vec<&str> = imgs.iter().map(|i| i.image_ref.as_str()).collect();
    assert!(refs.contains(&"img-a"));
    assert!(refs.contains(&"img-b"));
    assert!(refs.contains(&"img-c"));
}

#[test]
fn remove_image_noop() {
    let env = Env::new();
    env.mgr.remove_image("img-a").unwrap();
}

#[test]
fn version_and_status_fixed() {
    let env = Env::new();
    let v = env.mgr.version().unwrap();
    assert_eq!(v.runtime_name, "only-agent-sandbox");
    assert_eq!(v.runtime_api_version, "v1");
    let s = env.mgr.status().unwrap();
    assert_eq!(s.conditions.len(), 2);
    assert!(s.conditions.iter().all(|c| c.status));
}

// The same life as it looks through the interface.

struct Front {
    env: Env,
    rt: RuntimeSvc,
    img: ImageSvc,
}

fn pod_cfg(uid: &str, type_id: u8) -> pb::PodSandboxConfig {
    let mut annotations = StrMap::new();
    annotations.insert("agent-sandbox/type".to_string(), type_id.to_string());
    pb::PodSandboxConfig {
        metadata: Some(pb::PodSandboxMetadata {
            name: format!("pod-{uid}"),
            uid: uid.to_string(),
            namespace: "default".to_string(),
            attempt: 0,
        }),
        annotations,
        ..pb::PodSandboxConfig::default()
    }
}

fn container_cfg(image: &str) -> pb::ContainerConfig {
    pb::ContainerConfig {
        metadata: Some(pb::ContainerMetadata { name: "c0".to_string(), attempt: 0 }),
        image: Some(pb::ImageSpec { image: image.to_string() }),
        command: vec!["sh".to_string()],
        ..pb::ContainerConfig::default()
    }
}

impl Front {
    fn new() -> Front {
        Front {
            env: Env::new(),
            rt: RuntimeSvc::new(OasManager::new(the_config())),
            img: ImageSvc::new(OasManager::new(the_config())),
        }
    }

    fn run(&mut self, config: Option<pb::PodSandboxConfig>, handler: &str) -> Result<String, Status> {
        let op = self.rt.run_pod_sandbox(&pb::RunPodSandboxRequest {
            config,
            runtime_handler: handler.to_string(),
        })?;
        told(self.env.drive_run(op))
    }

    fn run_pod(&mut self, uid: &str) -> String {
        self.run(Some(pod_cfg(uid, 0)), "").unwrap()
    }

    fn create(&mut self, sb: &str, image: &str) -> Result<String, Status> {
        let op = self.rt.create_container(&pb::CreateContainerRequest {
            pod_sandbox_id: sb.to_string(),
            config: Some(container_cfg(image)),
        })?;
        told(self.env.drive_create(op))
    }

    fn start(&mut self, id: &str) -> Result<(), Status> {
        let op = self.rt.start_container(id);
        told(self.env.drive_start_ct(op))
    }

    fn stop_ct(&mut self, id: &str) -> Result<(), Status> {
        let op = self.rt.stop_container(id, 10);
        swallow_not_found(self.env.drive_stop_ct(op))
    }

    fn remove_ct(&mut self, id: &str) -> Result<(), Status> {
        let op = self.rt.remove_container(id);
        swallow_not_found(self.env.drive_remove_ct(op))
    }

    fn ct_status(&mut self, id: &str) -> Result<pb::ContainerStatus, Status> {
        let op = self.rt.container_status(id);
        let found = self.env.drive_status_ct(op);
        self.rt.container_status_response(found)
    }

    fn stop(&mut self, id: &str) -> Result<(), Status> {
        let op = self.rt.stop_pod_sandbox(id);
        swallow_not_found(self.env.drive_stop(op))
    }

    fn remove(&mut self, id: &str) -> Result<(), Status> {
        let op = self.rt.remove_pod_sandbox(id);
        swallow_not_found(self.env.drive_remove(op))
    }

    fn status(&self, id: &str) -> Result<pb::PodSandboxStatus, Status> {
        self.rt.pod_sandbox_status(self.env.store.get_sandbox(id))
    }

    fn list(&self, f: Option<&pb::PodSandboxFilter>) -> Vec<pb::PodSandbox> {
        let filter = convert::sandbox_filter(f);
        self.rt.list_pod_sandbox(self.env.store.list_sandboxes(&filter)).unwrap()
    }

    fn list_ct(&self, f: Option<&pb::ContainerFilter>) -> Vec<pb::Container> {
        let filter = convert::container_filter(f);
        self.rt.list_containers(self.env.store.list_containers(&filter)).unwrap()
    }
}

#[test]
fn e2e_full_lifecycle() {
    let mut c = Front::new();
    let sb_id = c.run_pod("uid-e2e");
    assert!(!sb_id.is_empty());
    let status = c.status(&sb_id).unwrap();
    assert_eq!(status.state, pb::PodSandboxState::SandboxReady.code());
    assert!(!status.network.unwrap().ip.is_empty());

    let cid = c.create(&sb_id, "img-a").unwrap();
    assert_eq!(
        c.ct_status(&cid).unwrap().state,
        pb::ContainerState::ContainerCreated.code()
    );
    c.start(&cid).unwrap();
    let cs = c.ct_status(&cid).unwrap();
    assert_eq!(cs.state, pb::ContainerState::ContainerRunning.code());
    assert!(cs.started_at > 0);

    c.stop_ct(&cid).unwrap();
    let cs = c.ct_status(&cid).unwrap();
    assert_eq!(cs.state, pb::ContainerState::ContainerExited.code());
    assert_eq!(cs.exit_code, 0);
    assert_eq!(cs.reason, "Completed");

    c.remove_ct(&cid).unwrap();
    assert_eq!(c.ct_status(&cid).unwrap_err().code, Code::NotFound);

    c.stop(&sb_id).unwrap();
    assert_eq!(c.status(&sb_id).unwrap().state, pb::PodSandboxState::SandboxNotready.code());

    c.remove(&sb_id).unwrap();
    assert_eq!(c.status(&sb_id).unwrap_err().code, Code::NotFound);
}

#[test]
fn e2e_list_pod_sandbox_after_run() {
    let mut c = Front::new();
    c.run_pod("uid-1");
    let items = c.list(None);
    assert_eq!(items.len(), 1);
    assert_eq!(items[0].state, pb::PodSandboxState::SandboxReady.code());
    assert_eq!(items[0].metadata.as_ref().unwrap().uid, "uid-1");
}

#[test]
fn e2e_list_containers_filter_by_sandbox() {
    let mut c = Front::new();
    let sb_id = c.run_pod("uid-1");
    c.create(&sb_id, "img-a").unwrap();
    c.create(&sb_id, "img-a").unwrap();
    let f = pb::ContainerFilter { pod_sandbox_id: sb_id.clone(), ..pb::ContainerFilter::default() };
    let containers = c.list_ct(Some(&f));
    assert_eq!(containers.len(), 2);
    assert!(containers.iter().all(|c| c.pod_sandbox_id == sb_id));
}

#[test]
fn e2e_image_status_whitelist() {
    let c = Front::new();
    let hit = c
        .img
        .image_status(&Some(pb::ImageSpec { image: "img-a".to_string() }))
        .unwrap();
    assert!(hit.is_some());
    let miss = c
        .img
        .image_status(&Some(pb::ImageSpec { image: "img-x".to_string() }))
        .unwrap();
    assert!(miss.is_none());
    assert_eq!(c.img.list_images().unwrap().len(), 3);
}

#[test]
fn e2e_create_container_image_not_whitelisted_returns_not_found() {
    let mut c = Front::new();
    let sb_id = c.run_pod("uid-1");
    let err = c.create(&sb_id, "img-x").unwrap_err();
    assert_eq!(err.code, Code::NotFound);
}

#[test]
fn e2e_run_sandbox_idempotent_by_uid() {
    let mut c = Front::new();
    let id1 = c.run_pod("uid-1");
    let id2 = c.run_pod("uid-1");
    assert_eq!(id1, id2);
    assert_eq!(c.env.driver.create_count(), 1);
}

#[test]
fn e2e_remove_pod_sandbox_idempotent() {
    let mut c = Front::new();
    let sb_id = c.run_pod("uid-1");
    c.stop(&sb_id).unwrap();
    c.remove(&sb_id).unwrap();
    c.remove(&sb_id).unwrap();
}

#[test]
fn e2e_kubelet_protocol_sandbox_lifecycle() {
    let mut c = Front::new();
    let v = c.rt.version("0.1.0".to_string()).unwrap();
    assert_eq!(v.version, "0.1.0");
    assert_eq!(v.runtime_name, "only-agent-sandbox");
    assert_eq!(v.runtime_api_version, "v1");
    let conds = c.rt.status().unwrap().conditions;
    assert!(conds.iter().any(|x| x.condition_type == "RuntimeReady" && x.status));
    assert!(conds.iter().any(|x| x.condition_type == "NetworkReady" && x.status));

    let fs = c.img.image_fs_info().unwrap();
    assert!(!fs.image_filesystems.is_empty());

    let sb_id = c.run_pod("uid-kubelet");
    let st = c.status(&sb_id).unwrap();
    assert_eq!(st.state, pb::PodSandboxState::SandboxReady.code());
    assert!(!st.network.unwrap().ip.is_empty());

    let get_before = c.env.driver.get_count();
    let list_before = c.env.driver.list_count();
    let create_before = c.env.driver.create_count();
    for _ in 0..3 {
        let items = c.list(None);
        assert_eq!(items.len(), 1);
        assert_eq!(items[0].id, sb_id);
        assert_eq!(items[0].state, pb::PodSandboxState::SandboxReady.code());
        assert_eq!(c.status(&sb_id).unwrap().state, pb::PodSandboxState::SandboxReady.code());
    }
    assert_eq!(c.env.driver.get_count(), get_before);
    assert_eq!(c.env.driver.list_count(), list_before);
    assert_eq!(c.env.driver.create_count(), create_before);

    c.stop(&sb_id).unwrap();
    assert_eq!(c.status(&sb_id).unwrap().state, pb::PodSandboxState::SandboxNotready.code());
    assert_eq!(c.list(None).len(), 1);

    c.remove(&sb_id).unwrap();
    assert_eq!(c.status(&sb_id).unwrap_err().code, Code::NotFound);
    assert!(c.list(None).is_empty());

    assert_eq!(c.env.driver.create_count(), 1);
    assert_eq!(c.env.driver.delete_count(), 1);
    assert_eq!(c.env.net.teardown_count(), 1);
}

// What else holds.

#[test]
fn a_request_without_a_known_handler_or_config_is_refused() {
    let mut c = Front::new();
    let err = c.run(Some(pod_cfg("u", 0)), " runc ").unwrap_err();
    assert_eq!(err.code, Code::InvalidArgument);
    assert_eq!(err.message, "unsupported runtime_handler: runc");
    let err = c.run(None, "oas").unwrap_err();
    assert_eq!(err.message, "missing pod sandbox config");
    assert!(c.run(Some(pod_cfg("u", 0)), "  oas ").is_ok());
    let err = c
        .rt
        .create_container(&pb::CreateContainerRequest {
            pod_sandbox_id: "x".to_string(),
            config: None,
        })
        .map(|_| ())
        .unwrap_err();
    assert_eq!(err.message, "missing container config");
    assert_eq!(c.img.pull_image(&None).unwrap_err().message, "missing image");
    assert_eq!(c.img.remove_image(&None).unwrap_err().code, Code::InvalidArgument);
    let err = c
        .img
        .pull_image(&Some(pb::ImageSpec { image: "img-x".to_string() }))
        .unwrap_err();
    assert_eq!(err.code, Code::NotFound);
}

#[test]
fn a_record_that_cannot_be_stored_leaves_nothing_behind() {
    let mut env = Env::new();
    env.fail_put = true;
    let err = env.run_sandbox(sandbox_req("uid1", 0)).unwrap_err();
    assert!(matches!(err, OasError::Internal(_)));
    assert_eq!(env.driver.delete_count(), 1);
    assert_eq!(env.storage.cleanup_count(), 1);
    assert_eq!(env.net.teardown_count(), 1);
    assert_eq!(env.store.lease_ip("10.244.0.0/24").unwrap().ip, "10.244.0.1");
}

#[test]
fn a_microvm_that_does_not_stop_is_waited_for_no_longer_than_allowed() {
    let mut env = Env::new();
    let id = env.run_sandbox(sandbox_req("uid1", 0)).unwrap();
    env.never_stops = true;
    env.stop_sandbox(&id).unwrap();
    assert_eq!(env.pauses, env.driver.get_count());
    assert!(env.pauses > 1);
    assert_eq!(env.net.teardown_count(), 1);
    assert_eq!(env.sandbox_status(&id).unwrap().state, SandboxState::NotReady);
}

#[test]
fn a_container_that_the_microvm_refuses_has_no_record() {
    let mut env = Env::new();
    let sid = run_sandbox_type0(&mut env);
    env.fail_container = true;
    let err = env.create_container(container_req(&sid, "img-a")).unwrap_err();
    assert!(matches!(err, OasError::Unavailable(_)));
    assert!(env.list_containers(ContainerFilter::default()).unwrap().is_empty());
}

#[test]
fn a_setup_that_fails_or_a_type_that_is_unknown_makes_nothing() {
    let mut env = Env::new();
    env.net.fail_setup(true);
    assert!(env.run_sandbox(sandbox_req("uid1", 0)).is_err());
    assert_eq!(env.storage.provision_count(), 0);
    let mut env = Env::new();
    assert!(env.run_sandbox(sandbox_req("uid1", 9)).is_err());
    assert_eq!(env.net.setup_count(), 0);
}

#[test]
fn statistics_are_those_of_each_pod() {
    let mut c = Front::new();
    let a = c.run_pod("uid-a");
    let b = c.run_pod("uid-b");
    c.create(&a, "img-a").unwrap();
    c.create(&a, "img-a").unwrap();
    let filter = sandbox_stats_filter(&None);
    let mut op = c.rt.list_pod_sandbox_stats(c.env.store.list_sandboxes(&filter)).unwrap();
    while let Some(f) = op.wants() {
        let found = c.env.list_containers(f);
        op.advance(found).unwrap();
    }
    assert_eq!(op.stats.len(), 2);
    assert_eq!(op.stats[0].attributes.as_ref().unwrap().id, a);
    assert_eq!(op.stats[0].linux.as_ref().unwrap().containers.len(), 2);
    assert_eq!(op.stats[1].attributes.as_ref().unwrap().id, b);
    assert!(op.stats[1].linux.as_ref().unwrap().containers.is_empty());
    assert!(op.advance(Err(OasError::Internal("x".to_string()))).is_err());

    let stats = c
        .rt
        .pod_sandbox_stats(
            c.env.store.get_sandbox(&a),
            c.env.store.list_containers(&containers_of(&a)),
        )
        .unwrap();
    assert_eq!(stats.linux.unwrap().cpu.unwrap().timestamp, 1_700_000_000_000_000_000);
    let err = c
        .rt
        .pod_sandbox_stats(
            c.env.store.get_sandbox("nope"),
            c.env.store.list_containers(&containers_of("nope")),
        )
        .unwrap_err();
    assert_eq!(err.code, Code::NotFound);

    let f = container_stats_filter(&Some(pb::ContainerStatsFilter {
        id: String::new(),
        pod_sandbox_id: b,
        label_selector: StrMap::new(),
    }));
    assert!(c.rt.list_container_stats(c.env.store.list_containers(&f)).unwrap().is_empty());
    let cid = c.list_ct(None)[0].id.clone();
    let found = c.env.container_status(&cid);
    let s = c.rt.container_stats(found).unwrap();
    assert_eq!(s.attributes.unwrap().id, cid);
}

#[test]
fn a_manager_without_backends_answers_what_it_can() {
    let m = StubManager::new();
    assert_eq!(m.version().unwrap().runtime_name, "only-agent-sandbox");
    assert_eq!(m.status().unwrap().conditions.len(), 2);
    assert_eq!(
        m.run_sandbox(&sandbox_req("u", 0)),
        Err(OasError::Unavailable("manager not implemented (§3.2)".to_string()))
    );
    assert!(StubManager::default().stop_sandbox("x").is_ok());
    assert!(m.stop_sandbox("x").is_ok());
    assert!(m.remove_sandbox("x").is_ok());
    assert!(matches!(m.sandbox_status("x"), Err(OasError::NotFound(_))));
    assert!(m.list_sandboxes(&SandboxFilter::default()).unwrap().is_empty());
    assert!(m.create_container(&container_req("x", "img-a")).is_err());
}

#[test]
fn mock_driver_keeps_count() {
    let mut d = MockDriver::new();
    let spec = oas::driver::VmSpec { rw_layer_path: None, cloud_disk_dev: None };
    let a = d.create_vm("sb-a", "/ns/a", 0, &spec).unwrap();
    let b = d.create_vm("sb-b", "/ns/b", 1, &spec).unwrap();
    assert_eq!((a, b), (VmId(1), VmId(2)));
    assert_eq!(d.get_vm(b).unwrap().lifecycle, oas::driver::VmLifecycle::Running);
    d.delete_vm(b).unwrap();
    d.delete_vm(VmId(7)).unwrap();
    assert_eq!(d.get_vm(b).unwrap().lifecycle, oas::driver::VmLifecycle::Stopped);
    assert_eq!(d.get_vm(VmId(7)), Err(DriverError::NotFound("7".to_string())));
    assert_eq!(d.list_vm().unwrap().len(), 2);
    assert_eq!(
        (d.create_count(), d.get_count(), d.delete_count(), d.list_count()),
        (2, 3, 2, 1)
    );
}

#[test]
fn requests_that_are_not_served_are_refused_by_name() {
    let svc = RuntimeSvc::new(OasManager::new(the_config()));
    let refusals = [
        (svc.update_container_resources(), "UpdateContainerResources"),
        (svc.reopen_container_log(), "ReopenContainerLog"),
        (svc.exec_sync(), "ExecSync"),
        (svc.exec(), "Exec"),
        (svc.attach(), "Attach"),
        (svc.port_forward(), "PortForward"),
        (svc.checkpoint_container(), "CheckpointContainer"),
        (svc.get_container_events(), "GetContainerEvents"),
        (svc.list_metric_descriptors(), "ListMetricDescriptors"),
        (svc.list_pod_sandbox_metrics(), "ListPodSandboxMetrics"),
        (svc.runtime_config(), "RuntimeConfig"),
        (svc.update_pod_sandbox_resources(), "UpdatePodSandboxResources"),
    ];
    for (refusal, name) in refusals {
        let message = format!("{name} is not supported (oas MVP non-target)");
        assert_eq!(refusal, Err(Status { code: Code::Unimplemented, message }));
    }
}

#[test]
fn a_pod_has_one_sandbox_at_a_time_and_a_new_one_once_it_is_removed() {
    let mut env = Env::new();
    let first = env.run_sandbox(sandbox_req("uid-1", 0)).unwrap();
    env.run_sandbox(sandbox_req("uid-2", 0)).unwrap();
    env.stop_sandbox(&first).unwrap();
    assert!(matches!(env.run_sandbox(sandbox_req("uid-1", 0)), Err(OasError::Conflict(_))));
    env.remove_sandbox(&first).unwrap();
    let second = env.run_sandbox(sandbox_req("uid-1", 0)).unwrap();
    assert_ne!(first, second);
    let all = env.store.list_sandboxes(&SandboxFilter::default()).unwrap();
    let of_pod: Vec<&SandboxRecord> = all.iter().filter(|s| s.pod_uid == "uid-1").collect();
    assert_eq!(of_pod.len(), 1);
    assert_eq!(of_pod[0].sandbox_id, second);
}

#[test]
fn handshake_and_stub_short_circuit() {
    let rt = RuntimeSvc::new(OasManager::new(the_config()));
    let img = ImageSvc::new(OasManager::new(the_config()));
    let stub = StubManager::new();

    let v = rt.version("0.1.0".to_string()).unwrap();
    assert_eq!(v.version, "0.1.0");
    assert_eq!(v.runtime_name, "only-agent-sandbox");
    assert_eq!(v.runtime_api_version, "v1");

    let conditions = rt.status().unwrap().conditions;
    assert_eq!(conditions.len(), 2);
    assert!(conditions.iter().any(|c| c.condition_type == "RuntimeReady" && c.status));
    assert!(conditions.iter().any(|c| c.condition_type == "NetworkReady" && c.status));

    assert!(stub.list_images().unwrap().is_empty());

    let fs = img.image_fs_info().unwrap();
    assert!(!fs.image_filesystems.is_empty());
    assert!(fs.image_filesystems[0].timestamp > 0);
    assert_eq!(fs.image_filesystems[0].fs_id.as_ref().unwrap().mountpoint, "/");
    assert!(fs.container_filesystems.is_empty());

    let filter = container_stats_filter(&None);
    let none = stub.list_containers(&filter).unwrap();
    assert!(rt.list_container_stats(Ok(none)).unwrap().is_empty());

    let mut annotations = StrMap::new();
    annotations.insert("agent-sandbox/type".to_string(), "0".to_string());
    let cfg = pb::PodSandboxConfig {
        metadata: Some(pb::PodSandboxMetadata {
            name: "n".to_string(),
            uid: "u".to_string(),
            namespace: "ns".to_string(),
            attempt: 0,
        }),
        annotations,
        ..Default::default()
    };
    let req = convert::sandbox_config_to_create_req(&cfg, "").unwrap();
    let err = told(stub.run_sandbox(&req)).unwrap_err();
    assert_eq!(err.code, Code::Unavailable);
}

#[test]
fn names_sort_in_the_order_of_their_numbers() {
    let mut g = oas::manager::id::IdGenerator { sb: 9, ct: 15 };
    let ids: Vec<String> = (0..300).map(|_| g.sandbox_id().0).collect();
    assert_eq!(ids[0], "sb-0000000000000009");
    assert_eq!(ids[1], "sb-000000000000000a");
    assert!(ids.windows(2).all(|w| w[0] < w[1]));
    let ids: Vec<String> = (0..300).map(|_| g.container_id()).collect();
    assert_eq!(ids[1], "ct-0000000000000010");
    assert!(ids.windows(2).all(|w| w[0] < w[1]));
}
