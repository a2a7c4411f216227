//! Messages of the interface and what they mean inside. Metadata, labels and
//! annotations are passed on as they are.

use vstd::prelude::*;

use crate::cri::pb;
use crate::manager::{
    CreateContainerRequest, CreateContainerRequestView, CreateSandboxRequest,
    CreateSandboxRequestView, ImageInfo, ImageInfoView, OasError, OasErrorView,
};
use crate::model::Duplicate;
use crate::strmap::StrMap;
use crate::text;
use crate::types::{
    ContainerExitReason, ContainerFilter, ContainerFilterView, ContainerMetadata,
    ContainerMetadataView, ContainerRecord, ContainerRecordView, ContainerState, DnsConfig,
    DnsConfigView, KeyValue, KeyValueView, LinuxResources, Mount, MountPropagation, MountView,
    SandboxFilter, SandboxFilterView, SandboxMetadata, SandboxMetadataView, SandboxRecord,
    SandboxRecordView, SandboxState,
};

verus! {

/// What names a pod, inside.
pub open spec fn pod_metadata_in(m: pb::PodSandboxMetadataView) -> SandboxMetadataView {
    SandboxMetadataView {
        name: m.name,
        namespace: m.namespace,
        uid: m.uid,
        attempt: m.attempt,
    }
}

/// What names a pod, inside.
pub fn pod_metadata_to_domain(m: &pb::PodSandboxMetadata) -> (r: SandboxMetadata)
    ensures
        r@ == pod_metadata_in(m@),
{
    SandboxMetadata {
        name: m.name.clone(),
        namespace: m.namespace.clone(),
        uid: m.uid.clone(),
        attempt: m.attempt,
    }
}

/// What names a container, inside.
pub open spec fn container_metadata_in(m: pb::ContainerMetadataView) -> ContainerMetadataView {
    ContainerMetadataView { name: m.name, attempt: m.attempt }
}

/// What names a container, inside.
pub fn container_metadata_to_domain(m: &pb::ContainerMetadata) -> (r: ContainerMetadata)
    ensures
        r@ == container_metadata_in(m@),
{
    ContainerMetadata { name: m.name.clone(), attempt: m.attempt }
}

/// What names a pod, outside.
pub open spec fn pod_metadata_out(m: SandboxMetadataView) -> pb::PodSandboxMetadataView {
    pb::PodSandboxMetadataView {
        name: m.name,
        uid: m.uid,
        namespace: m.namespace,
        attempt: m.attempt,
    }
}

/// What names a pod, outside.
pub fn sandbox_metadata_from_domain(m: &SandboxMetadata) -> (r: pb::PodSandboxMetadata)
    ensures
        r@ == pod_metadata_out(m@),
{
    pb::PodSandboxMetadata {
        name: m.name.clone(),
        uid: m.uid.clone(),
        namespace: m.namespace.clone(),
        attempt: m.attempt,
    }
}

/// What names a container, outside.
pub open spec fn container_metadata_out(m: ContainerMetadataView) -> pb::ContainerMetadataView {
    pb::ContainerMetadataView { name: m.name, attempt: m.attempt }
}

/// What names a container, outside.
pub fn container_metadata_from_domain(m: &ContainerMetadata) -> (r: pb::ContainerMetadata)
    ensures
        r@ == container_metadata_out(m@),
{
    pb::ContainerMetadata { name: m.name.clone(), attempt: m.attempt }
}

/// Metadata that goes in and comes out again is the same.
pub proof fn metadata_is_kept(
    a: pb::PodSandboxMetadataView,
    b: SandboxMetadataView,
    c: pb::ContainerMetadataView,
    d: ContainerMetadataView,
)
    ensures
        pod_metadata_out(pod_metadata_in(a)) == a,
        pod_metadata_in(pod_metadata_out(b)) == b,
        container_metadata_out(container_metadata_in(c)) == c,
        container_metadata_in(container_metadata_out(d)) == d,
{
}

/// The number that a state of a sandbox has outside.
pub open spec fn sandbox_state_out(s: SandboxState) -> i32 {
    match s {
        SandboxState::Ready => pb::PodSandboxState::SandboxReady.number(),
        SandboxState::NotReady => pb::PodSandboxState::SandboxNotready.number(),
    }
}

/// The number that a state of a sandbox has outside.
pub fn sandbox_state(s: SandboxState) -> (r: i32)
    ensures
        r == sandbox_state_out(s),
{
    match s {
        SandboxState::Ready => pb::PodSandboxState::SandboxReady.code(),
        SandboxState::NotReady => pb::PodSandboxState::SandboxNotready.code(),
    }
}

/// The number that a state of a container has outside.
pub open spec fn container_state_out(s: ContainerState) -> i32 {
    match s {
        ContainerState::Created => pb::ContainerState::ContainerCreated.number(),
        ContainerState::Running => pb::ContainerState::ContainerRunning.number(),
        ContainerState::Exited => pb::ContainerState::ContainerExited.number(),
        ContainerState::Unknown => pb::ContainerState::ContainerUnknown.number(),
    }
}

/// The number that a state of a container has outside.
pub fn container_state(s: ContainerState) -> (r: i32)
    ensures
        r == container_state_out(s),
{
    match s {
        ContainerState::Created => pb::ContainerState::ContainerCreated.code(),
        ContainerState::Running => pb::ContainerState::ContainerRunning.code(),
        ContainerState::Exited => pb::ContainerState::ContainerExited.code(),
        ContainerState::Unknown => pb::ContainerState::ContainerUnknown.code(),
    }
}

/// The state of a sandbox that a number stands for.
pub open spec fn sandbox_state_in(n: i32) -> SandboxState {
    if n == pb::PodSandboxState::SandboxReady.number() {
        SandboxState::Ready
    } else {
        SandboxState::NotReady
    }
}

/// The state of a container that a number stands for.
pub open spec fn container_state_in(n: i32) -> ContainerState {
    if n == pb::ContainerState::ContainerCreated.number() {
        ContainerState::Created
    } else if n == pb::ContainerState::ContainerRunning.number() {
        ContainerState::Running
    } else if n == pb::ContainerState::ContainerExited.number() {
        ContainerState::Exited
    } else {
        ContainerState::Unknown
    }
}

/// A state that goes out and is asked for again is the same.
pub proof fn states_are_kept(s: SandboxState, c: ContainerState)
    ensures
        sandbox_state_in(sandbox_state_out(s)) == s,
        container_state_in(container_state_out(c)) == c,
{
}

/// Why a container ended, in a word.
pub open spec fn reason_text(r: Option<ContainerExitReason>) -> Seq<char> {
    match r {
        None => ""@,
        Some(ContainerExitReason::Completed) => "Completed"@,
        Some(ContainerExitReason::Error) => "Error"@,
        Some(ContainerExitReason::OomKilled) => "OOMKilled"@,
    }
}

/// Why a container ended, in a word.
pub fn exit_reason_str(r: Option<ContainerExitReason>) -> (s: &'static str)
    ensures
        s@ == reason_text(r),
{
    match r {
        None => "",
        Some(ContainerExitReason::Completed) => "Completed",
        Some(ContainerExitReason::Error) => "Error",
        Some(ContainerExitReason::OomKilled) => "OOMKilled",
    }
}

/// Name resolution, inside.
pub open spec fn dns_in(d: pb::DnsConfigView) -> DnsConfigView {
    DnsConfigView { servers: d.servers, searches: d.searches, options: d.options }
}

/// Name resolution, inside.
pub fn dns_config_to_domain(d: &pb::DnsConfig) -> (r: DnsConfig)
    ensures
        r@ == dns_in(d@),
{
    DnsConfig {
        servers: d.servers.duplicate(),
        searches: d.searches.duplicate(),
        options: d.options.duplicate(),
    }
}

/// A variable, inside.
pub open spec fn keyvalue_in(kv: pb::KeyValueView) -> KeyValueView {
    KeyValueView { key: kv.key, value: kv.value }
}

/// A variable, inside.
pub fn keyvalue_to_domain(kv: &pb::KeyValue) -> (r: KeyValue)
    ensures
        r@ == keyvalue_in(kv@),
{
    KeyValue { key: kv.key.clone(), value: kv.value.clone() }
}

/// The way a mount spreads, inside. An unknown number is the most careful way.
pub open spec fn propagation_in(p: i32) -> MountPropagation {
    if p == pb::MountPropagation::PropagationHostToContainer.number() {
        MountPropagation::HostToContainer
    } else if p == pb::MountPropagation::PropagationBidirectional.number() {
        MountPropagation::Bidirectional
    } else {
        MountPropagation::Private
    }
}

/// The way a mount spreads, inside.
pub fn mount_propagation_to_domain(p: i32) -> (r: MountPropagation)
    ensures
        r == propagation_in(p),
{
    if p == pb::MountPropagation::PropagationHostToContainer.code() {
        MountPropagation::HostToContainer
    } else if p == pb::MountPropagation::PropagationBidirectional.code() {
        MountPropagation::Bidirectional
    } else {
        MountPropagation::Private
    }
}

/// A mount, inside.
pub open spec fn mount_in(m: pb::MountView) -> MountView {
    MountView {
        container_path: m.container_path,
        host_path: m.host_path,
        read_only: m.readonly,
        propagation: propagation_in(m.propagation),
    }
}

/// A mount, inside.
pub fn mount_to_domain(m: &pb::Mount) -> (r: Mount)
    ensures
        r@ == mount_in(m@),
{
    Mount {
        container_path: m.container_path.clone(),
        host_path: m.host_path.clone(),
        read_only: m.readonly,
        propagation: mount_propagation_to_domain(m.propagation),
    }
}

/// Resource limits, inside: what is not positive is no limit.
pub open spec fn resources_in(r: pb::LinuxContainerResources) -> LinuxResources {
    LinuxResources {
        cpu_shares: if r.cpu_shares > 0 {
            Some(r.cpu_shares as u64)
        } else {
            None
        },
        memory_limit_bytes: if r.memory_limit_in_bytes > 0 {
            Some(r.memory_limit_in_bytes)
        } else {
            None
        },
    }
}

/// Resource limits, inside.
pub fn linux_resources_to_domain(r: &pb::LinuxContainerResources) -> (s: LinuxResources)
    ensures
        s == resources_in(*r),
{
    LinuxResources {
        cpu_shares: if r.cpu_shares > 0 {
            Some(r.cpu_shares as u64)
        } else {
            None
        },
        memory_limit_bytes: if r.memory_limit_in_bytes > 0 {
            Some(r.memory_limit_in_bytes)
        } else {
            None
        },
    }
}

/// An image, outside.
pub open spec fn image_out(image: Seq<char>) -> pb::ImageSpecView {
    pb::ImageSpecView { image }
}

fn image_spec(image: &str) -> (r: pb::ImageSpec)
    ensures
        r@ == image_out(image@),
{
    pb::ImageSpec { image: image.to_owned() }
}

/// The annotation that tells the type of a sandbox.
pub const ANNOT_TYPE: &'static str = "agent-sandbox/type";

/// The annotation that tells the cloud disk of a sandbox.
pub const ANNOT_CLOUD_DISK: &'static str = "agent-sandbox/cloud-disk";

/// The annotation that tells the size of the writable layer.
pub const ANNOT_RW_SIZE: &'static str = "agent-sandbox/rw-size";

/// The type that annotations tell, as far as they do.
pub open spec fn type_id_in(ann: Map<Seq<char>, Seq<char>>) -> Result<u8, OasErrorView> {
    if ann.contains_key(ANNOT_TYPE@) {
        match text::parse_dec(ann[ANNOT_TYPE@], 255) {
            Some(n) => Ok(n as u8),
            None => Err(
                OasErrorView::InvalidArgument(
                    "invalid agent-sandbox/type: "@ + ann[ANNOT_TYPE@],
                ),
            ),
        }
    } else {
        Err(OasErrorView::InvalidArgument("missing annotation agent-sandbox/type"@))
    }
}

/// The type that annotations tell.
pub fn parse_type_id(annotations: &StrMap<String>) -> (r: Result<u8, OasError>)
    ensures
        crate::model::result_view(r) == type_id_in(annotations@),
{
    match annotations.get(ANNOT_TYPE) {
        Some(raw) => match text::parse_number(raw.as_str(), 255) {
            Some(n) => Ok(n as u8),
            None => Err(
                OasError::InvalidArgument(
                    text::cat2("invalid agent-sandbox/type: ", raw.as_str()),
                ),
            ),
        },
        None => Err(
            OasError::InvalidArgument("missing annotation agent-sandbox/type".to_owned()),
        ),
    }
}

/// The cloud disk that annotations tell: an empty one is none.
pub open spec fn cloud_disk_in(ann: Map<Seq<char>, Seq<char>>) -> Option<Seq<char>> {
    if ann.contains_key(ANNOT_CLOUD_DISK@) && ann[ANNOT_CLOUD_DISK@].len() > 0 {
        Some(ann[ANNOT_CLOUD_DISK@])
    } else {
        None
    }
}

/// The size of the writable layer that annotations tell: one that cannot be
/// read is none.
pub open spec fn rw_size_in(ann: Map<Seq<char>, Seq<char>>) -> Option<u64> {
    if ann.contains_key(ANNOT_RW_SIZE@) {
        match text::parse_dec(ann[ANNOT_RW_SIZE@], u64::MAX as nat) {
            Some(n) => Some(n as u64),
            None => None,
        }
    } else {
        None
    }
}

/// The handler of a request: the own one where none is named.
pub open spec fn handler_in(handler: Seq<char>) -> Seq<char> {
    if handler.len() == 0 {
        "oas"@
    } else {
        handler
    }
}

/// What a pod asks for, inside. Its metadata must be there, and its
/// annotations must tell a type.
pub open spec fn sandbox_request_in(
    cfg: pb::PodSandboxConfigView,
    handler: Seq<char>,
) -> Result<CreateSandboxRequestView, OasErrorView> {
    match cfg.metadata {
        None => Err(OasErrorView::InvalidArgument("missing sandbox metadata"@)),
        Some(m) => match type_id_in(cfg.annotations) {
            Err(e) => Err(e),
            Ok(type_id) => Ok(
                CreateSandboxRequestView {
                    metadata: pod_metadata_in(m),
                    labels: cfg.labels,
                    annotations: cfg.annotations,
                    hostname: cfg.hostname,
                    log_directory: cfg.log_directory,
                    dns_config: match cfg.dns_config {
                        Some(d) => Some(dns_in(d)),
                        None => None,
                    },
                    cgroup_parent: match cfg.linux {
                        Some(l) => l.cgroup_parent,
                        None => ""@,
                    },
                    type_id,
                    cloud_disk_ref: cloud_disk_in(cfg.annotations),
                    rw_size: rw_size_in(cfg.annotations),
                    runtime_handler: handler_in(handler),
                },
            ),
        },
    }
}

/// What a pod asks for, inside.
pub fn sandbox_config_to_create_req(cfg: &pb::PodSandboxConfig, runtime_handler: &str) -> (r: Result<
    CreateSandboxRequest,
    OasError,
>)
    ensures
        crate::model::result_view(r) == sandbox_request_in(cfg@, runtime_handler@),
{
    let metadata = match &cfg.metadata {
        Some(m) => m,
        None => {
            return Err(OasError::InvalidArgument("missing sandbox metadata".to_owned()));
        },
    };
    let type_id: u8 = match parse_type_id(&cfg.annotations) {
        Ok(t) => t,
        Err(e) => {
            return Err(e);
        },
    };
    let cloud_disk_ref: Option<String> = match cfg.annotations.get(ANNOT_CLOUD_DISK) {
        Some(s) => opt_string(s.as_str()),
        None => None,
    };
    let rw_size: Option<u64> = match cfg.annotations.get(ANNOT_RW_SIZE) {
        Some(s) => text::parse_number(s.as_str(), u64::MAX),
        None => None,
    };
    let cgroup_parent = match &cfg.linux {
        Some(l) => l.cgroup_parent.clone(),
        None => "".to_owned(),
    };
    let dns_config = match &cfg.dns_config {
        Some(d) => Some(dns_config_to_domain(d)),
        None => None,
    };
    let handler = if text::is_empty(runtime_handler) {
        "oas".to_owned()
    } else {
        runtime_handler.to_owned()
    };
    Ok(
        CreateSandboxRequest {
            metadata: pod_metadata_to_domain(metadata),
            labels: cfg.labels.duplicate(),
            annotations: cfg.annotations.duplicate(),
            hostname: cfg.hostname.clone(),
            log_directory: cfg.log_directory.clone(),
            dns_config,
            cgroup_parent,
            type_id,
            cloud_disk_ref,
            rw_size,
            runtime_handler: handler,
        },
    )
}

/// Labels and annotations of a pod are passed on as they are, and its metadata
/// comes out as it went in.
pub proof fn pod_is_passed_on(cfg: pb::PodSandboxConfigView, handler: Seq<char>)
    ensures
        sandbox_request_in(cfg, handler) matches Ok(r) ==> {
            &&& r.labels == cfg.labels
            &&& r.annotations == cfg.annotations
            &&& cfg.metadata == Some(pod_metadata_out(r.metadata))
        },
{
}

/// What a container asks for, inside. Its metadata and its image must be there.
pub open spec fn container_request_in(
    pod_sandbox_id: Seq<char>,
    cfg: pb::ContainerConfigView,
) -> Result<CreateContainerRequestView, OasErrorView> {
    match (cfg.metadata, cfg.image) {
        (None, _) => Err(OasErrorView::InvalidArgument("missing container metadata"@)),
        (_, None) => Err(OasErrorView::InvalidArgument("missing container image"@)),
        (Some(m), Some(i)) => Ok(
            CreateContainerRequestView {
                pod_sandbox_id,
                metadata: container_metadata_in(m),
                image: i.image,
                command: cfg.command,
                args: cfg.args,
                working_dir: cfg.working_dir,
                envs: Seq::new(cfg.envs.len(), |j: int| keyvalue_in(cfg.envs[j])),
                mounts: Seq::new(cfg.mounts.len(), |j: int| mount_in(cfg.mounts[j])),
                labels: cfg.labels,
                annotations: cfg.annotations,
                log_path: cfg.log_path,
                resources: match cfg.linux {
                    Some(l) => match l.resources {
                        Some(r) => resources_in(r),
                        None => LinuxResources { cpu_shares: None, memory_limit_bytes: None },
                    },
                    None => LinuxResources { cpu_shares: None, memory_limit_bytes: None },
                },
                tty: cfg.tty,
                stdin: cfg.stdin,
                stdin_once: cfg.stdin_once,
            },
        ),
    }
}

fn keyvalues_to_domain(kvs: &Vec<pb::KeyValue>) -> (r: Vec<KeyValue>)
    ensures
        r.deep_view() == Seq::new(kvs@.len(), |j: int| keyvalue_in(kvs.deep_view()[j])),
{
    let mut r: Vec<KeyValue> = Vec::new();
    let mut i: usize = 0;
    while i < kvs.len()
        invariant
            i <= kvs@.len(),
            r@.len() == i,
            forall|j: int| 0 <= j < i ==> (#[trigger] r@[j])@ == keyvalue_in(kvs@[j]@),
        decreases kvs@.len() - i,
    {
        r.push(keyvalue_to_domain(&kvs[i]));
        i = i + 1;
    }
    assert(r.deep_view() =~= Seq::new(kvs@.len(), |j: int| keyvalue_in(kvs.deep_view()[j])));
    r
}

fn mounts_to_domain(ms: &Vec<pb::Mount>) -> (r: Vec<Mount>)
    ensures
        r.deep_view() == Seq::new(ms@.len(), |j: int| mount_in(ms.deep_view()[j])),
{
    let mut r: Vec<Mount> = Vec::new();
    let mut i: usize = 0;
    while i < ms.len()
        invariant
            i <= ms@.len(),
            r@.len() == i,
            forall|j: int| 0 <= j < i ==> (#[trigger] r@[j])@ == mount_in(ms@[j]@),
        decreases ms@.len() - i,
    {
        r.push(mount_to_domain(&ms[i]));
        i = i + 1;
    }
    assert(r.deep_view() =~= Seq::new(ms@.len(), |j: int| mount_in(ms.deep_view()[j])));
    r
}

/// What a container asks for, inside.
pub fn container_config_to_create_req(pod_sandbox_id: &str, cfg: &pb::ContainerConfig) -> (r: Result<
    CreateContainerRequest,
    OasError,
>)
    ensures
        crate::model::result_view(r) == container_request_in(pod_sandbox_id@, cfg@),
{
    let metadata = match &cfg.metadata {
        Some(m) => m,
        None => {
            return Err(OasError::InvalidArgument("missing container metadata".to_owned()));
        },
    };
    let image = match &cfg.image {
        Some(i) => i,
        None => {
            return Err(OasError::InvalidArgument("missing container image".to_owned()));
        },
    };
    let resources = match &cfg.linux {
        Some(l) => match &l.resources {
            Some(r) => linux_resources_to_domain(r),
            None => LinuxResources::default(),
        },
        None => LinuxResources::default(),
    };
    let q = CreateContainerRequest {
        pod_sandbox_id: pod_sandbox_id.to_owned(),
        metadata: container_metadata_to_domain(metadata),
        image: image.image.clone(),
        command: cfg.command.duplicate(),
        args: cfg.args.duplicate(),
        working_dir: cfg.working_dir.clone(),
        envs: keyvalues_to_domain(&cfg.envs),
        mounts: mounts_to_domain(&cfg.mounts),
        labels: cfg.labels.duplicate(),
        annotations: cfg.annotations.duplicate(),
        log_path: cfg.log_path.clone(),
        resources,
        tty: cfg.tty,
        stdin: cfg.stdin,
        stdin_once: cfg.stdin_once,
    };
    proof {
        let want = container_request_in(pod_sandbox_id@, cfg@)->Ok_0;
        assert(q@.envs =~= want.envs);
        assert(q@.mounts =~= want.mounts);
    }
    Ok(q)
}

/// Seconds as nanoseconds; what does not fit is the nearest that does.
pub open spec fn nanos(s: int) -> int {
    let n = s * 1_000_000_000;
    if n > i64::MAX {
        i64::MAX as int
    } else if n < i64::MIN {
        i64::MIN as int
    } else {
        n
    }
}

/// Seconds as nanoseconds.
pub fn secs_to_ns(s: i64) -> (r: i64)
    ensures
        r == nanos(s as int),
{
    let n: i128 = (s as i128) * 1_000_000_000;
    if n > i64::MAX as i128 {
        i64::MAX
    } else if n < i64::MIN as i128 {
        i64::MIN
    } else {
        n as i64
    }
}

/// A text, where it is not empty.
pub open spec fn present(s: Seq<char>) -> Option<Seq<char>> {
    if s.len() == 0 {
        None
    } else {
        Some(s)
    }
}

/// A text, where it is not empty.
pub fn opt_string(s: &str) -> (r: Option<String>)
    ensures
        r.deep_view() == present(s@),
{
    if text::is_empty(s) {
        None
    } else {
        Some(s.to_owned())
    }
}

/// What is told of a sandbox on its own.
pub open spec fn sandbox_status_out(r: SandboxRecordView) -> pb::PodSandboxStatusView {
    pb::PodSandboxStatusView {
        id: r.sandbox_id,
        metadata: Some(pod_metadata_out(r.metadata)),
        state: sandbox_state_out(r.state),
        created_at: nanos(r.created_at as int) as i64,
        network: Some(pb::PodSandboxNetworkStatusView { ip: r.pod_ip, additional_ips: seq![] }),
        labels: r.labels,
        annotations: r.annotations,
        runtime_handler: r.runtime_handler,
    }
}

/// What is told of a sandbox on its own.
pub fn record_to_sandbox_status(r: &SandboxRecord) -> (s: pb::PodSandboxStatus)
    ensures
        s@ == sandbox_status_out(r@),
{
    let network = pb::PodSandboxNetworkStatus { ip: r.pod_ip.clone(), additional_ips: Vec::new() };
    assert(network@.additional_ips =~= seq![]);
    pb::PodSandboxStatus {
        id: r.sandbox_id.clone(),
        metadata: Some(sandbox_metadata_from_domain(&r.metadata)),
        state: sandbox_state(r.state),
        created_at: secs_to_ns(r.created_at),
        network: Some(network),
        labels: r.labels.duplicate(),
        annotations: r.annotations.duplicate(),
        runtime_handler: r.runtime_handler.clone(),
    }
}

/// What is told of a sandbox in a listing.
pub open spec fn sandbox_out(r: SandboxRecordView) -> pb::PodSandboxView {
    pb::PodSandboxView {
        id: r.sandbox_id,
        metadata: Some(pod_metadata_out(r.metadata)),
        state: sandbox_state_out(r.state),
        created_at: nanos(r.created_at as int) as i64,
        labels: r.labels,
        annotations: r.annotations,
        runtime_handler: r.runtime_handler,
    }
}

/// What is told of a sandbox in a listing.
pub fn record_to_sandbox(r: &SandboxRecord) -> (s: pb::PodSandbox)
    ensures
        s@ == sandbox_out(r@),
{
    pb::PodSandbox {
        id: r.sandbox_id.clone(),
        metadata: Some(sandbox_metadata_from_domain(&r.metadata)),
        state: sandbox_state(r.state),
        created_at: secs_to_ns(r.created_at),
        labels: r.labels.duplicate(),
        annotations: r.annotations.duplicate(),
        runtime_handler: r.runtime_handler.clone(),
    }
}

/// Which sandboxes a listing is about, inside.
pub open spec fn sandbox_filter_in(f: Option<pb::PodSandboxFilterView>) -> SandboxFilterView {
    match f {
        None => SandboxFilterView {
            id: None,
            pod_uid: None,
            label_selector: Map::empty(),
            state: None,
        },
        Some(f) => SandboxFilterView {
            id: present(f.id),
            pod_uid: None,
            label_selector: f.label_selector,
            state: match f.state {
                Some(v) => Some(sandbox_state_in(v.state)),
                None => None,
            },
        },
    }
}

/// Which sandboxes a listing is about, inside.
pub fn sandbox_filter(f: Option<&pb::PodSandboxFilter>) -> (r: SandboxFilter)
    ensures
        r@ == sandbox_filter_in(
            match f {
                Some(g) => Some(g@),
                None => None,
            },
        ),
{
    match f {
        None => SandboxFilter::default(),
        Some(f) => SandboxFilter {
            id: opt_string(f.id.as_str()),
            pod_uid: None,
            label_selector: f.label_selector.duplicate(),
            state: match f.state {
                Some(v) => {
                    if v.state == pb::PodSandboxState::SandboxReady.code() {
                        Some(SandboxState::Ready)
                    } else {
                        Some(SandboxState::NotReady)
                    }
                },
                None => None,
            },
        },
    }
}

/// A time that may be absent, as nanoseconds or zero.
pub open spec fn nanos_or_zero(t: Option<i64>) -> i64 {
    match t {
        Some(s) => nanos(s as int) as i64,
        None => 0,
    }
}

fn opt_ns(t: Option<i64>) -> (r: i64)
    ensures
        r == nanos_or_zero(t),
{
    match t {
        Some(s) => secs_to_ns(s),
        None => 0,
    }
}

/// What is told of a container on its own.
pub open spec fn container_status_out(r: ContainerRecordView) -> pb::ContainerStatusView {
    pb::ContainerStatusView {
        id: r.container_id,
        metadata: Some(container_metadata_out(r.metadata)),
        state: container_state_out(r.state),
        created_at: nanos(r.created_at as int) as i64,
        started_at: nanos_or_zero(r.started_at),
        finished_at: nanos_or_zero(r.finished_at),
        exit_code: r.exit_code,
        image: Some(image_out(r.image)),
        image_ref: r.image,
        reason: reason_text(r.reason),
        message: r.message,
        labels: r.labels,
        annotations: r.annotations,
        mounts: seq![],
        log_path: ""@,
        image_id: r.image,
        stop_signal: 0,
    }
}

/// What is told of a container on its own.
pub fn record_to_container_status(r: &ContainerRecord) -> (s: pb::ContainerStatus)
    ensures
        s@ == container_status_out(r@),
{
    let s = pb::ContainerStatus {
        id: r.container_id.clone(),
        metadata: Some(container_metadata_from_domain(&r.metadata)),
        state: container_state(r.state),
        created_at: secs_to_ns(r.created_at),
        started_at: opt_ns(r.started_at),
        finished_at: opt_ns(r.finished_at),
        exit_code: r.exit_code,
        image: Some(image_spec(r.image.as_str())),
        image_ref: r.image.clone(),
        reason: exit_reason_str(r.reason).to_owned(),
        message: r.message.clone(),
        labels: r.labels.duplicate(),
        annotations: r.annotations.duplicate(),
        mounts: Vec::new(),
        log_path: "".to_owned(),
        image_id: r.image.clone(),
        stop_signal: 0,
    };
    assert(s@.mounts =~= seq![]);
    s
}

/// What is told of a container in a listing.
pub open spec fn container_out(r: ContainerRecordView) -> pb::ContainerView {
    pb::ContainerView {
        id: r.container_id,
        pod_sandbox_id: r.sandbox_id,
        metadata: Some(container_metadata_out(r.metadata)),
        image: Some(image_out(r.image)),
        image_ref: r.image,
        state: container_state_out(r.state),
        created_at: nanos(r.created_at as int) as i64,
        labels: r.labels,
        annotations: r.annotations,
        image_id: r.image,
    }
}

/// What is told of a container in a listing.
pub fn record_to_container(r: &ContainerRecord) -> (s: pb::Container)
    ensures
        s@ == container_out(r@),
{
    pb::Container {
        id: r.container_id.clone(),
        pod_sandbox_id: r.sandbox_id.clone(),
        metadata: Some(container_metadata_from_domain(&r.metadata)),
        image: Some(image_spec(r.image.as_str())),
        image_ref: r.image.clone(),
        state: container_state(r.state),
        created_at: secs_to_ns(r.created_at),
        labels: r.labels.duplicate(),
        annotations: r.annotations.duplicate(),
        image_id: r.image.clone(),
    }
}

/// Which containers a listing is about, inside.
pub open spec fn container_filter_in(f: Option<pb::ContainerFilterView>) -> ContainerFilterView {
    match f {
        None => ContainerFilterView {
            id: None,
            sandbox_id: None,
            label_selector: Map::empty(),
            state: None,
        },
        Some(f) => ContainerFilterView {
            id: present(f.id),
            sandbox_id: present(f.pod_sandbox_id),
            label_selector: f.label_selector,
            state: match f.state {
                Some(v) => Some(container_state_in(v.state)),
                None => None,
            },
        },
    }
}

/// Which containers a listing is about, inside.
pub fn container_filter(f: Option<&pb::ContainerFilter>) -> (r: ContainerFilter)
    ensures
        r@ == container_filter_in(
            match f {
                Some(g) => Some(g@),
                None => None,
            },
        ),
{
    match f {
        None => ContainerFilter::default(),
        Some(f) => ContainerFilter {
            id: opt_string(f.id.as_str()),
            sandbox_id: opt_string(f.pod_sandbox_id.as_str()),
            label_selector: f.label_selector.duplicate(),
            state: match f.state {
                Some(v) => {
                    if v.state == pb::ContainerState::ContainerCreated.code() {
                        Some(ContainerState::Created)
                    } else if v.state == pb::ContainerState::ContainerRunning.code() {
                        Some(ContainerState::Running)
                    } else if v.state == pb::ContainerState::ContainerExited.code() {
                        Some(ContainerState::Exited)
                    } else {
                        Some(ContainerState::Unknown)
                    }
                },
                None => None,
            },
        },
    }
}

/// What is told of an image.
pub open spec fn image_info_out(i: ImageInfoView) -> pb::ImageView {
    pb::ImageView {
        id: i.id,
        repo_tags: i.repo_tags,
        repo_digests: i.repo_digests,
        size: i.size,
        username: i.username,
        spec: Some(image_out(i.image_ref)),
        pinned: i.pinned,
    }
}

/// What is told of an image.
pub fn image_info_to_image(i: &ImageInfo) -> (r: pb::Image)
    ensures
        r@ == image_info_out(i@),
{
    pb::Image {
        id: i.id.clone(),
        repo_tags: i.repo_tags.duplicate(),
        repo_digests: i.repo_digests.duplicate(),
        size: i.size,
        username: i.username.clone(),
        spec: Some(image_spec(i.image_ref.as_str())),
        pinned: i.pinned,
    }
}

/// A measure that is not taken.
pub open spec fn zero() -> Option<pb::UInt64Value> {
    Some(pb::UInt64Value { value: 0 })
}

fn none_used() -> (r: Option<pb::UInt64Value>)
    ensures
        r == zero(),
{
    Some(pb::UInt64Value { value: 0 })
}

/// No use of processors, at a time.
pub open spec fn cpu_at(timestamp: i64) -> pb::CpuUsage {
    pb::CpuUsage { timestamp, usage_core_nano_seconds: zero(), usage_nano_cores: zero() }
}

fn cpu_usage(timestamp: i64) -> (r: pb::CpuUsage)
    ensures
        r == cpu_at(timestamp),
{
    pb::CpuUsage { timestamp, usage_core_nano_seconds: none_used(), usage_nano_cores: none_used() }
}

/// No use of memory, at a time.
pub open spec fn memory_at(timestamp: i64) -> pb::MemoryUsage {
    pb::MemoryUsage {
        timestamp,
        working_set_bytes: zero(),
        available_bytes: zero(),
        usage_bytes: zero(),
        rss_bytes: zero(),
        page_faults: zero(),
        major_page_faults: zero(),
    }
}

fn memory_usage(timestamp: i64) -> (r: pb::MemoryUsage)
    ensures
        r == memory_at(timestamp),
{
    pb::MemoryUsage {
        timestamp,
        working_set_bytes: none_used(),
        available_bytes: none_used(),
        usage_bytes: none_used(),
        rss_bytes: none_used(),
        page_faults: none_used(),
        major_page_faults: none_used(),
    }
}

/// No use of the root file system, at a time.
pub open spec fn root_fs_at(timestamp: i64) -> pb::FilesystemUsageView {
    pb::FilesystemUsageView {
        timestamp,
        fs_id: Some(pb::FilesystemIdentifierView { mountpoint: "/"@ }),
        used_bytes: zero(),
        inodes_used: zero(),
    }
}

/// No use of the root file system, at a time.
pub fn root_fs_usage(timestamp: i64) -> (r: pb::FilesystemUsage)
    ensures
        r@ == root_fs_at(timestamp),
{
    pb::FilesystemUsage {
        timestamp,
        fs_id: Some(pb::FilesystemIdentifier { mountpoint: "/".to_owned() }),
        used_bytes: none_used(),
        inodes_used: none_used(),
    }
}

/// The time that statistics of a container are of: its start, or else its
/// creation.
pub open spec fn container_time(r: ContainerRecordView) -> i64 {
    match r.started_at {
        Some(s) => nanos(s as int) as i64,
        None => nanos(r.created_at as int) as i64,
    }
}

/// Statistics of a container. No use is measured.
pub open spec fn container_stats_out(r: ContainerRecordView) -> pb::ContainerStatsView {
    let t = container_time(r);
    pb::ContainerStatsView {
        attributes: Some(
            pb::ContainerAttributesView {
                id: r.container_id,
                metadata: Some(container_metadata_out(r.metadata)),
                labels: r.labels,
                annotations: r.annotations,
            },
        ),
        cpu: Some(cpu_at(t)),
        memory: Some(memory_at(t)),
        writable_layer: Some(root_fs_at(t)),
        swap: Some(
            pb::SwapUsage {
                timestamp: t,
                swap_available_bytes: zero(),
                swap_usage_bytes: zero(),
            },
        ),
        io: Some(pb::IoUsage { timestamp: t }),
    }
}

/// Statistics of a container.
pub fn record_to_container_stats(r: &ContainerRecord) -> (s: pb::ContainerStats)
    ensures
        s@ == container_stats_out(r@),
{
    let t: i64 = match r.started_at {
        Some(s) => secs_to_ns(s),
        None => secs_to_ns(r.created_at),
    };
    pb::ContainerStats {
        attributes: Some(
            pb::ContainerAttributes {
                id: r.container_id.clone(),
                metadata: Some(container_metadata_from_domain(&r.metadata)),
                labels: r.labels.duplicate(),
                annotations: r.annotations.duplicate(),
            },
        ),
        cpu: Some(cpu_usage(t)),
        memory: Some(memory_usage(t)),
        writable_layer: Some(root_fs_usage(t)),
        swap: Some(
            pb::SwapUsage {
                timestamp: t,
                swap_available_bytes: none_used(),
                swap_usage_bytes: none_used(),
            },
        ),
        io: Some(pb::IoUsage { timestamp: t }),
    }
}

/// Statistics of each of several containers.
pub open spec fn all_stats_out(c: Seq<ContainerRecordView>) -> Seq<pb::ContainerStatsView> {
    Seq::new(c.len(), |i: int| container_stats_out(c[i]))
}

/// Statistics of each of several containers.
pub fn records_to_container_stats(c: &Vec<ContainerRecord>) -> (r: Vec<pb::ContainerStats>)
    ensures
        r.deep_view() == all_stats_out(c.deep_view()),
{
    let mut r: Vec<pb::ContainerStats> = Vec::new();
    let mut i: usize = 0;
    while i < c.len()
        invariant
            i <= c@.len(),
            r@.len() == i,
            forall|j: int| 0 <= j < i ==> (#[trigger] r@[j])@ == container_stats_out(c@[j]@),
        decreases c@.len() - i,
    {
        r.push(record_to_container_stats(&c[i]));
        i = i + 1;
    }
    assert(r.deep_view() =~= all_stats_out(c.deep_view()));
    r
}

/// The time that statistics of a sandbox are of: its creation, and never zero.
pub open spec fn sandbox_time(r: SandboxRecordView) -> i64 {
    let t = nanos(r.created_at as int);
    if t < 1 {
        1
    } else {
        t as i64
    }
}

/// No use of the network, at a time.
pub open spec fn network_at(timestamp: i64) -> pb::NetworkUsageView {
    pb::NetworkUsageView {
        timestamp,
        default_interface: Some(
            pb::NetworkInterfaceUsageView {
                name: "eth0"@,
                rx_bytes: zero(),
                rx_errors: zero(),
                tx_bytes: zero(),
                tx_errors: zero(),
            },
        ),
        interfaces: seq![],
    }
}

fn network_usage(timestamp: i64) -> (r: pb::NetworkUsage)
    ensures
        r@ == network_at(timestamp),
{
    let r = pb::NetworkUsage {
        timestamp,
        default_interface: Some(
            pb::NetworkInterfaceUsage {
                name: "eth0".to_owned(),
                rx_bytes: none_used(),
                rx_errors: none_used(),
                tx_bytes: none_used(),
                tx_errors: none_used(),
            },
        ),
        interfaces: Vec::new(),
    };
    assert(r@.interfaces =~= seq![]);
    r
}

/// Statistics of a sandbox and its containers. No use is measured.
pub open spec fn sandbox_stats_out(
    s: SandboxRecordView,
    c: Seq<ContainerRecordView>,
) -> pb::PodSandboxStatsView {
    let t = sandbox_time(s);
    pb::PodSandboxStatsView {
        attributes: Some(
            pb::PodSandboxAttributesView {
                id: s.sandbox_id,
                metadata: Some(pod_metadata_out(s.metadata)),
                labels: s.labels,
                annotations: s.annotations,
            },
        ),
        linux: Some(
            pb::LinuxPodSandboxStatsView {
                cpu: Some(cpu_at(t)),
                memory: Some(memory_at(t)),
                network: Some(network_at(t)),
                process: Some(pb::ProcessUsage { timestamp: t, process_count: zero() }),
                containers: all_stats_out(c),
                io: Some(pb::IoUsage { timestamp: t }),
            },
        ),
    }
}

/// Statistics of a sandbox and its containers.
pub fn records_to_pod_sandbox_stats(sandbox: &SandboxRecord, containers: Vec<ContainerRecord>) -> (r:
    pb::PodSandboxStats)
    ensures
        r@ == sandbox_stats_out(sandbox@, containers.deep_view()),
{
    let mut t: i64 = secs_to_ns(sandbox.created_at);
    if t < 1 {
        t = 1;
    }
    pb::PodSandboxStats {
        attributes: Some(
            pb::PodSandboxAttributes {
                id: sandbox.sandbox_id.clone(),
                metadata: Some(sandbox_metadata_from_domain(&sandbox.metadata)),
                labels: sandbox.labels.duplicate(),
                annotations: sandbox.annotations.duplicate(),
            },
        ),
        linux: Some(
            pb::LinuxPodSandboxStats {
                cpu: Some(cpu_usage(t)),
                memory: Some(memory_usage(t)),
                network: Some(network_usage(t)),
                process: Some(pb::ProcessUsage { timestamp: t, process_count: none_used() }),
                containers: records_to_container_stats(&containers),
                io: Some(pb::IoUsage { timestamp: t }),
            },
        ),
    }
}

/// All that is told of a sandbox, on its own, in a listing and in statistics,
/// has its metadata, labels and annotations as they are kept.
pub proof fn sandbox_is_told_whole(s: SandboxRecordView, c: Seq<ContainerRecordView>)
    ensures
        sandbox_status_out(s).labels == s.labels,
        sandbox_status_out(s).annotations == s.annotations,
        sandbox_status_out(s).metadata == Some(pod_metadata_out(s.metadata)),
        sandbox_out(s).labels == s.labels,
        sandbox_out(s).annotations == s.annotations,
        sandbox_out(s).metadata == Some(pod_metadata_out(s.metadata)),
        sandbox_status_out(s).runtime_handler == s.runtime_handler,
        sandbox_out(s).runtime_handler == s.runtime_handler,
        sandbox_stats_out(s, c).attributes.unwrap().labels == s.labels,
        sandbox_stats_out(s, c).attributes.unwrap().annotations == s.annotations,
{
}

/// All that is told of a container has its metadata, labels, annotations and
/// exit code as they are kept.
pub proof fn container_is_told_whole(c: ContainerRecordView)
    ensures
        container_status_out(c).labels == c.labels,
        container_status_out(c).annotations == c.annotations,
        container_status_out(c).metadata == Some(container_metadata_out(c.metadata)),
        container_status_out(c).exit_code == c.exit_code,
        container_status_out(c).message == c.message,
        container_out(c).labels == c.labels,
        container_out(c).annotations == c.annotations,
        container_out(c).metadata == Some(container_metadata_out(c.metadata)),
{
}

} // verus!
