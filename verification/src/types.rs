//! The records that the store keeps and the layers exchange.

use vstd::prelude::*;

use crate::model::Duplicate;
use crate::strmap::StrMap;

verus! {

/// The name of a sandbox, and of the one microVM behind it.
#[derive(Debug, PartialEq, Eq, Hash)]
pub struct SandboxId(pub String);

impl SandboxId {
    /// The id as text.
    pub fn as_str(&self) -> (s: &str)
        ensures
            s@ == self.0@,
    {
        self.0.as_str()
    }
}

impl DeepView for SandboxId {
    type V = Seq<char>;

    open spec fn deep_view(&self) -> Seq<char> {
        self.0@
    }
}

impl View for SandboxId {
    type V = Seq<char>;

    open spec fn view(&self) -> Seq<char> {
        self.0@
    }
}

impl Duplicate for SandboxId {
    fn duplicate(&self) -> (r: Self) {
        SandboxId(self.0.clone())
    }
}

impl Clone for SandboxId {
    fn clone(&self) -> (r: Self)
        ensures
            r@ == self@,
    {
        self.duplicate()
    }
}

/// An address handed out by the address pool.
#[derive(Debug, PartialEq)]
pub struct IpLease {
    /// The address, such as `10.244.1.5`.
    pub ip: String,
    /// The pool that it comes from, such as `10.244.1.0/24`.
    pub cidr: String,
    /// The sandbox that holds it.
    pub sandbox_id: String,
}

/// The abstract value of [`IpLease`].
#[verifier::ext_equal]
pub struct IpLeaseView {
    pub ip: Seq<char>,
    pub cidr: Seq<char>,
    pub sandbox_id: Seq<char>,
}

impl DeepView for IpLease {
    type V = IpLeaseView;

    open spec fn deep_view(&self) -> IpLeaseView {
        IpLeaseView {
            ip: self.ip@,
            cidr: self.cidr@,
            sandbox_id: self.sandbox_id@,
        }
    }
}

impl View for IpLease {
    type V = IpLeaseView;

    open spec fn view(&self) -> IpLeaseView {
        self.deep_view()
    }
}

impl Duplicate for IpLease {
    fn duplicate(&self) -> (r: Self) {
        IpLease {
            ip: self.ip.duplicate(),
            cidr: self.cidr.duplicate(),
            sandbox_id: self.sandbox_id.duplicate(),
        }
    }
}

impl Clone for IpLease {
    fn clone(&self) -> (r: Self)
        ensures
            r@ == self@,
    {
        self.duplicate()
    }
}

/// Whether a sandbox can be used.
#[derive(Debug, Clone, Copy, PartialEq, Eq, Structural)]
pub enum SandboxState {
    Ready,
    NotReady,
}

impl DeepView for SandboxState {
    type V = SandboxState;

    open spec fn deep_view(&self) -> SandboxState {
        *self
    }
}

impl Duplicate for SandboxState {
    fn duplicate(&self) -> (r: Self) {
        *self
    }
}

/// The stage of life of a container.
#[derive(Debug, Clone, Copy, PartialEq, Eq, Structural)]
pub enum ContainerState {
    Created,
    Running,
    Exited,
    Unknown,
}

impl DeepView for ContainerState {
    type V = ContainerState;

    open spec fn deep_view(&self) -> ContainerState {
        *self
    }
}

impl Duplicate for ContainerState {
    fn duplicate(&self) -> (r: Self) {
        *self
    }
}

/// Why the process of a container ended.
#[derive(Debug, Clone, Copy, PartialEq, Eq, Structural)]
pub enum ContainerExitReason {
    Completed,
    Error,
    OomKilled,
}

impl DeepView for ContainerExitReason {
    type V = ContainerExitReason;

    open spec fn deep_view(&self) -> ContainerExitReason {
        *self
    }
}

impl Duplicate for ContainerExitReason {
    fn duplicate(&self) -> (r: Self) {
        *self
    }
}

/// What names a pod, kept as it was given.
#[derive(Debug, PartialEq)]
pub struct SandboxMetadata {
    pub name: String,
    pub namespace: String,
    /// The pod's unique id.
    pub uid: String,
    pub attempt: u32,
}

/// The abstract value of [`SandboxMetadata`].
#[verifier::ext_equal]
pub struct SandboxMetadataView {
    pub name: Seq<char>,
    pub namespace: Seq<char>,
    pub uid: Seq<char>,
    pub attempt: u32,
}

impl DeepView for SandboxMetadata {
    type V = SandboxMetadataView;

    open spec fn deep_view(&self) -> SandboxMetadataView {
        SandboxMetadataView {
            name: self.name@,
            namespace: self.namespace@,
            uid: self.uid@,
            attempt: self.attempt,
        }
    }
}

impl View for SandboxMetadata {
    type V = SandboxMetadataView;

    open spec fn view(&self) -> SandboxMetadataView {
        self.deep_view()
    }
}

impl Duplicate for SandboxMetadata {
    fn duplicate(&self) -> (r: Self) {
        SandboxMetadata {
            name: self.name.duplicate(),
            namespace: self.namespace.duplicate(),
            uid: self.uid.duplicate(),
            attempt: self.attempt,
        }
    }
}

impl Clone for SandboxMetadata {
    fn clone(&self) -> (r: Self)
        ensures
            r@ == self@,
    {
        self.duplicate()
    }
}

/// What names a container, kept as it was given.
#[derive(Debug, PartialEq)]
pub struct ContainerMetadata {
    pub name: String,
    pub attempt: u32,
}

/// The abstract value of [`ContainerMetadata`].
#[verifier::ext_equal]
pub struct ContainerMetadataView {
    pub name: Seq<char>,
    pub attempt: u32,
}

impl DeepView for ContainerMetadata {
    type V = ContainerMetadataView;

    open spec fn deep_view(&self) -> ContainerMetadataView {
        ContainerMetadataView {
            name: self.name@,
            attempt: self.attempt,
        }
    }
}

impl View for ContainerMetadata {
    type V = ContainerMetadataView;

    open spec fn view(&self) -> ContainerMetadataView {
        self.deep_view()
    }
}

impl Duplicate for ContainerMetadata {
    fn duplicate(&self) -> (r: Self) {
        ContainerMetadata {
            name: self.name.duplicate(),
            attempt: self.attempt,
        }
    }
}

impl Clone for ContainerMetadata {
    fn clone(&self) -> (r: Self)
        ensures
            r@ == self@,
    {
        self.duplicate()
    }
}

/// How a mount spreads between host and container.
#[derive(Debug, Clone, Copy, PartialEq, Eq, Structural)]
pub enum MountPropagation {
    Private,
    HostToContainer,
    Bidirectional,
}

impl DeepView for MountPropagation {
    type V = MountPropagation;

    open spec fn deep_view(&self) -> MountPropagation {
        *self
    }
}

impl Duplicate for MountPropagation {
    fn duplicate(&self) -> (r: Self) {
        *self
    }
}

/// A mount of a container.
#[derive(Debug, PartialEq)]
pub struct Mount {
    pub container_path: String,
    pub host_path: String,
    pub read_only: bool,
    pub propagation: MountPropagation,
}

/// The abstract value of [`Mount`].
#[verifier::ext_equal]
pub struct MountView {
    pub container_path: Seq<char>,
    pub host_path: Seq<char>,
    pub read_only: bool,
    pub propagation: MountPropagation,
}

impl DeepView for Mount {
    type V = MountView;

    open spec fn deep_view(&self) -> MountView {
        MountView {
            container_path: self.container_path@,
            host_path: self.host_path@,
            read_only: self.read_only,
            propagation: self.propagation,
        }
    }
}

impl View for Mount {
    type V = MountView;

    open spec fn view(&self) -> MountView {
        self.deep_view()
    }
}

impl Duplicate for Mount {
    fn duplicate(&self) -> (r: Self) {
        Mount {
            container_path: self.container_path.duplicate(),
            host_path: self.host_path.duplicate(),
            read_only: self.read_only,
            propagation: self.propagation,
        }
    }
}

impl Clone for Mount {
    fn clone(&self) -> (r: Self)
        ensures
            r@ == self@,
    {
        self.duplicate()
    }
}

/// Resource limits of a container.
#[derive(Debug, Clone, Copy, PartialEq)]
pub struct LinuxResources {
    pub cpu_shares: Option<u64>,
    pub memory_limit_bytes: Option<i64>,
}

impl Default for LinuxResources {
    fn default() -> (r: Self)
        ensures
            r == (LinuxResources { cpu_shares: None, memory_limit_bytes: None }),
    {
        LinuxResources { cpu_shares: None, memory_limit_bytes: None }
    }
}

impl DeepView for LinuxResources {
    type V = LinuxResources;

    open spec fn deep_view(&self) -> LinuxResources {
        *self
    }
}

impl Duplicate for LinuxResources {
    fn duplicate(&self) -> (r: Self) {
        *self
    }
}

/// An environment variable.
#[derive(Debug, PartialEq)]
pub struct KeyValue {
    pub key: String,
    pub value: String,
}

/// The abstract value of [`KeyValue`].
#[verifier::ext_equal]
pub struct KeyValueView {
    pub key: Seq<char>,
    pub value: Seq<char>,
}

impl DeepView for KeyValue {
    type V = KeyValueView;

    open spec fn deep_view(&self) -> KeyValueView {
        KeyValueView {
            key: self.key@,
            value: self.value@,
        }
    }
}

impl View for KeyValue {
    type V = KeyValueView;

    open spec fn view(&self) -> KeyValueView {
        self.deep_view()
    }
}

impl Duplicate for KeyValue {
    fn duplicate(&self) -> (r: Self) {
        KeyValue {
            key: self.key.duplicate(),
            value: self.value.duplicate(),
        }
    }
}

impl Clone for KeyValue {
    fn clone(&self) -> (r: Self)
        ensures
            r@ == self@,
    {
        self.duplicate()
    }
}

/// Name resolution of a pod.
#[derive(Debug, PartialEq)]
pub struct DnsConfig {
    pub servers: Vec<String>,
    pub searches: Vec<String>,
    pub options: Vec<String>,
}

/// The abstract value of [`DnsConfig`].
#[verifier::ext_equal]
pub struct DnsConfigView {
    pub servers: Seq<Seq<char>>,
    pub searches: Seq<Seq<char>>,
    pub options: Seq<Seq<char>>,
}

impl DeepView for DnsConfig {
    type V = DnsConfigView;

    open spec fn deep_view(&self) -> DnsConfigView {
        DnsConfigView {
            servers: self.servers.deep_view(),
            searches: self.searches.deep_view(),
            options: self.options.deep_view(),
        }
    }
}

impl View for DnsConfig {
    type V = DnsConfigView;

    open spec fn view(&self) -> DnsConfigView {
        self.deep_view()
    }
}

impl Duplicate for DnsConfig {
    fn duplicate(&self) -> (r: Self) {
        DnsConfig {
            servers: self.servers.duplicate(),
            searches: self.searches.duplicate(),
            options: self.options.duplicate(),
        }
    }
}

impl Clone for DnsConfig {
    fn clone(&self) -> (r: Self)
        ensures
            r@ == self@,
    {
        self.duplicate()
    }
}

impl Default for DnsConfig {
    fn default() -> (r: Self)
        ensures
            r@ == (DnsConfigView { servers: seq![], searches: seq![], options: seq![] }),
    {
        let r = DnsConfig { servers: Vec::new(), searches: Vec::new(), options: Vec::new() };
        assert(r@.servers =~= seq![]);
        assert(r@.searches =~= seq![]);
        assert(r@.options =~= seq![]);
        r
    }
}

/// What is kept of a sandbox. At most one sandbox stands for a pod, by `pod_uid`.
#[derive(Debug, PartialEq)]
pub struct SandboxRecord {
    pub sandbox_id: String,
    pub pod_uid: String,
    pub metadata: SandboxMetadata,
    pub labels: StrMap<String>,
    pub annotations: StrMap<String>,
    pub type_id: u8,
    pub runtime_handler: String,
    pub vm_id: u64,
    pub netns_path: String,
    pub tap_name: String,
    pub mac: String,
    pub pod_ip: String,
    pub gateway: String,
    pub rw_layer_path: Option<String>,
    pub cloud_disk_dev: Option<String>,
    pub state: SandboxState,
    /// Seconds since the Unix epoch.
    pub created_at: i64,
    /// The host end of the pod's link, empty where there is none.
    pub host_veth: String,
}

/// The abstract value of [`SandboxRecord`].
#[verifier::ext_equal]
pub struct SandboxRecordView {
    pub sandbox_id: Seq<char>,
    pub pod_uid: Seq<char>,
    pub metadata: SandboxMetadataView,
    pub labels: Map<Seq<char>, Seq<char>>,
    pub annotations: Map<Seq<char>, Seq<char>>,
    pub type_id: u8,
    pub runtime_handler: Seq<char>,
    pub vm_id: u64,
    pub netns_path: Seq<char>,
    pub tap_name: Seq<char>,
    pub mac: Seq<char>,
    pub pod_ip: Seq<char>,
    pub gateway: Seq<char>,
    pub rw_layer_path: Option<Seq<char>>,
    pub cloud_disk_dev: Option<Seq<char>>,
    pub state: SandboxState,
    pub created_at: i64,
    pub host_veth: Seq<char>,
}

impl DeepView for SandboxRecord {
    type V = SandboxRecordView;

    open spec fn deep_view(&self) -> SandboxRecordView {
        SandboxRecordView {
            sandbox_id: self.sandbox_id@,
            pod_uid: self.pod_uid@,
            metadata: self.metadata.deep_view(),
            labels: self.labels.deep_view(),
            annotations: self.annotations.deep_view(),
            type_id: self.type_id,
            runtime_handler: self.runtime_handler@,
            vm_id: self.vm_id,
            netns_path: self.netns_path@,
            tap_name: self.tap_name@,
            mac: self.mac@,
            pod_ip: self.pod_ip@,
            gateway: self.gateway@,
            rw_layer_path: self.rw_layer_path.deep_view(),
            cloud_disk_dev: self.cloud_disk_dev.deep_view(),
            state: self.state,
            created_at: self.created_at,
            host_veth: self.host_veth@,
        }
    }
}

impl View for SandboxRecord {
    type V = SandboxRecordView;

    open spec fn view(&self) -> SandboxRecordView {
        self.deep_view()
    }
}

impl Duplicate for SandboxRecord {
    fn duplicate(&self) -> (r: Self) {
        SandboxRecord {
            sandbox_id: self.sandbox_id.duplicate(),
            pod_uid: self.pod_uid.duplicate(),
            metadata: self.metadata.duplicate(),
            labels: self.labels.duplicate(),
            annotations: self.annotations.duplicate(),
            type_id: self.type_id,
            runtime_handler: self.runtime_handler.duplicate(),
            vm_id: self.vm_id,
            netns_path: self.netns_path.duplicate(),
            tap_name: self.tap_name.duplicate(),
            mac: self.mac.duplicate(),
            pod_ip: self.pod_ip.duplicate(),
            gateway: self.gateway.duplicate(),
            rw_layer_path: self.rw_layer_path.duplicate(),
            cloud_disk_dev: self.cloud_disk_dev.duplicate(),
            state: self.state,
            created_at: self.created_at,
            host_veth: self.host_veth.duplicate(),
        }
    }
}

impl Clone for SandboxRecord {
    fn clone(&self) -> (r: Self)
        ensures
            r@ == self@,
    {
        self.duplicate()
    }
}

/// What is kept of a container.
#[derive(Debug, PartialEq)]
pub struct ContainerRecord {
    pub container_id: String,
    pub sandbox_id: String,
    pub metadata: ContainerMetadata,
    pub image: String,
    pub command: Vec<String>,
    pub args: Vec<String>,
    /// Each of the form `KEY=VALUE`.
    pub env: Vec<String>,
    pub mounts: Vec<Mount>,
    pub resources: LinuxResources,
    pub state: ContainerState,
    pub created_at: i64,
    pub started_at: Option<i64>,
    pub finished_at: Option<i64>,
    pub exit_code: i32,
    pub reason: Option<ContainerExitReason>,
    pub message: String,
    pub labels: StrMap<String>,
    pub annotations: StrMap<String>,
}

/// The abstract value of [`ContainerRecord`].
#[verifier::ext_equal]
pub struct ContainerRecordView {
    pub container_id: Seq<char>,
    pub sandbox_id: Seq<char>,
    pub metadata: ContainerMetadataView,
    pub image: Seq<char>,
    pub command: Seq<Seq<char>>,
    pub args: Seq<Seq<char>>,
    pub env: Seq<Seq<char>>,
    pub mounts: Seq<MountView>,
    pub resources: LinuxResources,
    pub state: ContainerState,
    pub created_at: i64,
    pub started_at: Option<i64>,
    pub finished_at: Option<i64>,
    pub exit_code: i32,
    pub reason: Option<ContainerExitReason>,
    pub message: Seq<char>,
    pub labels: Map<Seq<char>, Seq<char>>,
    pub annotations: Map<Seq<char>, Seq<char>>,
}

impl DeepView for ContainerRecord {
    type V = ContainerRecordView;

    open spec fn deep_view(&self) -> ContainerRecordView {
        ContainerRecordView {
            container_id: self.container_id@,
            sandbox_id: self.sandbox_id@,
            metadata: self.metadata.deep_view(),
            image: self.image@,
            command: self.command.deep_view(),
            args: self.args.deep_view(),
            env: self.env.deep_view(),
            mounts: self.mounts.deep_view(),
            resources: self.resources,
            state: self.state,
            created_at: self.created_at,
            started_at: self.started_at.deep_view(),
            finished_at: self.finished_at.deep_view(),
            exit_code: self.exit_code,
            reason: self.reason.deep_view(),
            message: self.message@,
            labels: self.labels.deep_view(),
            annotations: self.annotations.deep_view(),
        }
    }
}

impl View for ContainerRecord {
    type V = ContainerRecordView;

    open spec fn view(&self) -> ContainerRecordView {
        self.deep_view()
    }
}

impl Duplicate for ContainerRecord {
    fn duplicate(&self) -> (r: Self) {
        ContainerRecord {
            container_id: self.container_id.duplicate(),
            sandbox_id: self.sandbox_id.duplicate(),
            metadata: self.metadata.duplicate(),
            image: self.image.duplicate(),
            command: self.command.duplicate(),
            args: self.args.duplicate(),
            env: self.env.duplicate(),
            mounts: self.mounts.duplicate(),
            resources: self.resources,
            state: self.state,
            created_at: self.created_at,
            started_at: self.started_at.duplicate(),
            finished_at: self.finished_at.duplicate(),
            exit_code: self.exit_code,
            reason: self.reason.duplicate(),
            message: self.message.duplicate(),
            labels: self.labels.duplicate(),
            annotations: self.annotations.duplicate(),
        }
    }
}

impl Clone for ContainerRecord {
    fn clone(&self) -> (r: Self)
        ensures
            r@ == self@,
    {
        self.duplicate()
    }
}

/// Which sandboxes a listing is about. An absent part admits all.
#[derive(Debug, PartialEq)]
pub struct SandboxFilter {
    pub id: Option<String>,
    pub pod_uid: Option<String>,
    pub label_selector: StrMap<String>,
    pub state: Option<SandboxState>,
}

/// The abstract value of [`SandboxFilter`].
#[verifier::ext_equal]
pub struct SandboxFilterView {
    pub id: Option<Seq<char>>,
    pub pod_uid: Option<Seq<char>>,
    pub label_selector: Map<Seq<char>, Seq<char>>,
    pub state: Option<SandboxState>,
}

impl DeepView for SandboxFilter {
    type V = SandboxFilterView;

    open spec fn deep_view(&self) -> SandboxFilterView {
        SandboxFilterView {
            id: self.id.deep_view(),
            pod_uid: self.pod_uid.deep_view(),
            label_selector: self.label_selector.deep_view(),
            state: self.state.deep_view(),
        }
    }
}

impl View for SandboxFilter {
    type V = SandboxFilterView;

    open spec fn view(&self) -> SandboxFilterView {
        self.deep_view()
    }
}

impl Duplicate for SandboxFilter {
    fn duplicate(&self) -> (r: Self) {
        SandboxFilter {
            id: self.id.duplicate(),
            pod_uid: self.pod_uid.duplicate(),
            label_selector: self.label_selector.duplicate(),
            state: self.state.duplicate(),
        }
    }
}

impl Clone for SandboxFilter {
    fn clone(&self) -> (r: Self)
        ensures
            r@ == self@,
    {
        self.duplicate()
    }
}

/// Which containers a listing is about. An absent part admits all.
#[derive(Debug, PartialEq)]
pub struct ContainerFilter {
    pub id: Option<String>,
    pub sandbox_id: Option<String>,
    pub label_selector: StrMap<String>,
    pub state: Option<ContainerState>,
}

/// The abstract value of [`ContainerFilter`].
#[verifier::ext_equal]
pub struct ContainerFilterView {
    pub id: Option<Seq<char>>,
    pub sandbox_id: Option<Seq<char>>,
    pub label_selector: Map<Seq<char>, Seq<char>>,
    pub state: Option<ContainerState>,
}

impl DeepView for ContainerFilter {
    type V = ContainerFilterView;

    open spec fn deep_view(&self) -> ContainerFilterView {
        ContainerFilterView {
            id: self.id.deep_view(),
            sandbox_id: self.sandbox_id.deep_view(),
            label_selector: self.label_selector.deep_view(),
            state: self.state.deep_view(),
        }
    }
}

impl View for ContainerFilter {
    type V = ContainerFilterView;

    open spec fn view(&self) -> ContainerFilterView {
        self.deep_view()
    }
}

impl Duplicate for ContainerFilter {
    fn duplicate(&self) -> (r: Self) {
        ContainerFilter {
            id: self.id.duplicate(),
            sandbox_id: self.sandbox_id.duplicate(),
            label_selector: self.label_selector.duplicate(),
            state: self.state.duplicate(),
        }
    }
}

impl Clone for ContainerFilter {
    fn clone(&self) -> (r: Self)
        ensures
            r@ == self@,
    {
        self.duplicate()
    }
}

impl Default for SandboxFilter {
    fn default() -> (r: Self)
        ensures
            r@ == (SandboxFilterView {
                id: None,
                pod_uid: None,
                label_selector: Map::empty(),
                state: None,
            }),
    {
        SandboxFilter { id: None, pod_uid: None, label_selector: StrMap::new(), state: None }
    }
}

impl Default for ContainerFilter {
    fn default() -> (r: Self)
        ensures
            r@ == (ContainerFilterView {
                id: None,
                sandbox_id: None,
                label_selector: Map::empty(),
                state: None,
            }),
    {
        ContainerFilter { id: None, sandbox_id: None, label_selector: StrMap::new(), state: None }
    }
}

} // verus!
