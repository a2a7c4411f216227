//! The messages of the container runtime interface, as far as they are used.

use vstd::prelude::*;

use crate::model::Duplicate;
use crate::strmap::StrMap;

verus! {

/// What names a pod.
#[derive(Debug, PartialEq)]
pub struct PodSandboxMetadata {
    pub name: String,
    pub uid: String,
    pub namespace: String,
    pub attempt: u32,
}

/// The abstract value of [`PodSandboxMetadata`].
#[verifier::ext_equal]
pub struct PodSandboxMetadataView {
    pub name: Seq<char>,
    pub uid: Seq<char>,
    pub namespace: Seq<char>,
    pub attempt: u32,
}

impl DeepView for PodSandboxMetadata {
    type V = PodSandboxMetadataView;

    open spec fn deep_view(&self) -> PodSandboxMetadataView {
        PodSandboxMetadataView {
            name: self.name@,
            uid: self.uid@,
            namespace: self.namespace@,
            attempt: self.attempt,
        }
    }
}

impl View for PodSandboxMetadata {
    type V = PodSandboxMetadataView;

    open spec fn view(&self) -> PodSandboxMetadataView {
        self.deep_view()
    }
}

impl Duplicate for PodSandboxMetadata {
    fn duplicate(&self) -> (r: Self) {
        PodSandboxMetadata {
            name: self.name.duplicate(),
            uid: self.uid.duplicate(),
            namespace: self.namespace.duplicate(),
            attempt: self.attempt,
        }
    }
}

impl Clone for PodSandboxMetadata {
    fn clone(&self) -> (r: Self)
        ensures
            r@ == self@,
    {
        self.duplicate()
    }
}

impl Default for PodSandboxMetadata {
    fn default() -> (r: Self)
        ensures
            r@ == (PodSandboxMetadataView {
                name: ""@,
                uid: ""@,
                namespace: ""@,
                attempt: 0,
            }),
    {
        let r = PodSandboxMetadata {
            name: "".to_owned(),
            uid: "".to_owned(),
            namespace: "".to_owned(),
            attempt: 0,
        };
        r
    }
}

/// What names a container.
#[derive(Debug, PartialEq)]
pub struct ContainerMetadata {
    pub name: String,
    pub attempt: u32,
}

/// The abstract value of [`ContainerMetadata`].
#[verifier::ext_equal]
pub struct ContainerMetadataView {
    pub name: Seq<char>,
    pub attempt: u32,
}

impl DeepView for ContainerMetadata {
    type V = ContainerMetadataView;

    open spec fn deep_view(&self) -> ContainerMetadataView {
        ContainerMetadataView {
            name: self.name@,
            attempt: self.attempt,
        }
    }
}

impl View for ContainerMetadata {
    type V = ContainerMetadataView;

    open spec fn view(&self) -> ContainerMetadataView {
        self.deep_view()
    }
}

impl Duplicate for ContainerMetadata {
    fn duplicate(&self) -> (r: Self) {
        ContainerMetadata {
            name: self.name.duplicate(),
            attempt: self.attempt,
        }
    }
}

impl Clone for ContainerMetadata {
    fn clone(&self) -> (r: Self)
        ensures
            r@ == self@,
    {
        self.duplicate()
    }
}

impl Default for ContainerMetadata {
    fn default() -> (r: Self)
        ensures
            r@ == (ContainerMetadataView {
                name: ""@,
                attempt: 0,
            }),
    {
        let r = ContainerMetadata {
            name: "".to_owned(),
            attempt: 0,
        };
        r
    }
}

/// Name resolution of a pod.
#[derive(Debug, PartialEq)]
pub struct DnsConfig {
    pub servers: Vec<String>,
    pub searches: Vec<String>,
    pub options: Vec<String>,
}

/// The abstract value of [`DnsConfig`].
#[verifier::ext_equal]
pub struct DnsConfigView {
    pub servers: Seq<Seq<char>>,
    pub searches: Seq<Seq<char>>,
    pub options: Seq<Seq<char>>,
}

impl DeepView for DnsConfig {
    type V = DnsConfigView;

    open spec fn deep_view(&self) -> DnsConfigView {
        DnsConfigView {
            servers: self.servers.deep_view(),
            searches: self.searches.deep_view(),
            options: self.options.deep_view(),
        }
    }
}

impl View for DnsConfig {
    type V = DnsConfigView;

    open spec fn view(&self) -> DnsConfigView {
        self.deep_view()
    }
}

impl Duplicate for DnsConfig {
    fn duplicate(&self) -> (r: Self) {
        DnsConfig {
            servers: self.servers.duplicate(),
            searches: self.searches.duplicate(),
            options: self.options.duplicate(),
        }
    }
}

impl Clone for DnsConfig {
    fn clone(&self) -> (r: Self)
        ensures
            r@ == self@,
    {
        self.duplicate()
    }
}

/// An environment variable.
#[derive(Debug, PartialEq)]
pub struct KeyValue {
    pub key: String,
    pub value: String,
}

/// The abstract value of [`KeyValue`].
#[verifier::ext_equal]
pub struct KeyValueView {
    pub key: Seq<char>,
    pub value: Seq<char>,
}

impl DeepView for KeyValue {
    type V = KeyValueView;

    open spec fn deep_view(&self) -> KeyValueView {
        KeyValueView {
            key: self.key@,
            value: self.value@,
        }
    }
}

impl View for KeyValue {
    type V = KeyValueView;

    open spec fn view(&self) -> KeyValueView {
        self.deep_view()
    }
}

impl Duplicate for KeyValue {
    fn duplicate(&self) -> (r: Self) {
        KeyValue {
            key: self.key.duplicate(),
            value: self.value.duplicate(),
        }
    }
}

impl Clone for KeyValue {
    fn clone(&self) -> (r: Self)
        ensures
            r@ == self@,
    {
        self.duplicate()
    }
}

/// A mount of a container.
#[derive(Debug, PartialEq)]
pub struct Mount {
    pub container_path: String,
    pub host_path: String,
    pub readonly: bool,
    pub propagation: i32,
}

/// The abstract value of [`Mount`].
#[verifier::ext_equal]
pub struct MountView {
    pub container_path: Seq<char>,
    pub host_path: Seq<char>,
    pub readonly: bool,
    pub propagation: i32,
}

impl DeepView for Mount {
    type V = MountView;

    open spec fn deep_view(&self) -> MountView {
        MountView {
            container_path: self.container_path@,
            host_path: self.host_path@,
            readonly: self.readonly,
            propagation: self.propagation,
        }
    }
}

impl View for Mount {
    type V = MountView;

    open spec fn view(&self) -> MountView {
        self.deep_view()
    }
}

impl Duplicate for Mount {
    fn duplicate(&self) -> (r: Self) {
        Mount {
            container_path: self.container_path.duplicate(),
            host_path: self.host_path.duplicate(),
            readonly: self.readonly,
            propagation: self.propagation,
        }
    }
}

impl Clone for Mount {
    fn clone(&self) -> (r: Self)
        ensures
            r@ == self@,
    {
        self.duplicate()
    }
}

/// Resource limits of a container, zero where there is none.
#[derive(Debug, Clone, Copy, PartialEq)]
pub struct LinuxContainerResources {
    pub cpu_shares: i64,
    pub memory_limit_in_bytes: i64,
}

impl DeepView for LinuxContainerResources {
    type V = LinuxContainerResources;

    open spec fn deep_view(&self) -> LinuxContainerResources {
        *self
    }
}

impl Duplicate for LinuxContainerResources {
    fn duplicate(&self) -> (r: Self) {
        *self
    }
}

/// What a container asks of Linux.
#[derive(Debug, Clone, Copy, PartialEq)]
pub struct LinuxContainerConfig {
    pub resources: Option<LinuxContainerResources>,
}

impl DeepView for LinuxContainerConfig {
    type V = LinuxContainerConfig;

    open spec fn deep_view(&self) -> LinuxContainerConfig {
        *self
    }
}

impl Duplicate for LinuxContainerConfig {
    fn duplicate(&self) -> (r: Self) {
        *self
    }
}

/// What a pod asks of Linux.
#[derive(Debug, PartialEq)]
pub struct LinuxPodSandboxConfig {
    pub cgroup_parent: String,
}

/// The abstract value of [`LinuxPodSandboxConfig`].
#[verifier::ext_equal]
pub struct LinuxPodSandboxConfigView {
    pub cgroup_parent: Seq<char>,
}

impl DeepView for LinuxPodSandboxConfig {
    type V = LinuxPodSandboxConfigView;

    open spec fn deep_view(&self) -> LinuxPodSandboxConfigView {
        LinuxPodSandboxConfigView {
            cgroup_parent: self.cgroup_parent@,
        }
    }
}

impl View for LinuxPodSandboxConfig {
    type V = LinuxPodSandboxConfigView;

    open spec fn view(&self) -> LinuxPodSandboxConfigView {
        self.deep_view()
    }
}

impl Duplicate for LinuxPodSandboxConfig {
    fn duplicate(&self) -> (r: Self) {
        LinuxPodSandboxConfig {
            cgroup_parent: self.cgroup_parent.duplicate(),
        }
    }
}

impl Clone for LinuxPodSandboxConfig {
    fn clone(&self) -> (r: Self)
        ensures
            r@ == self@,
    {
        self.duplicate()
    }
}

/// What a pod is to be.
#[derive(Debug, PartialEq)]
pub struct PodSandboxConfig {
    pub metadata: Option<PodSandboxMetadata>,
    pub hostname: String,
    pub log_directory: String,
    pub dns_config: Option<DnsConfig>,
    pub labels: StrMap<String>,
    pub annotations: StrMap<String>,
    pub linux: Option<LinuxPodSandboxConfig>,
}

/// The abstract value of [`PodSandboxConfig`].
#[verifier::ext_equal]
pub struct PodSandboxConfigView {
    pub metadata: Option<PodSandboxMetadataView>,
    pub hostname: Seq<char>,
    pub log_directory: Seq<char>,
    pub dns_config: Option<DnsConfigView>,
    pub labels: Map<Seq<char>, Seq<char>>,
    pub annotations: Map<Seq<char>, Seq<char>>,
    pub linux: Option<LinuxPodSandboxConfigView>,
}

impl DeepView for PodSandboxConfig {
    type V = PodSandboxConfigView;

    open spec fn deep_view(&self) -> PodSandboxConfigView {
        PodSandboxConfigView {
            metadata: self.metadata.deep_view(),
            hostname: self.hostname@,
            log_directory: self.log_directory@,
            dns_config: self.dns_config.deep_view(),
            labels: self.labels.deep_view(),
            annotations: self.annotations.deep_view(),
            linux: self.linux.deep_view(),
        }
    }
}

impl View for PodSandboxConfig {
    type V = PodSandboxConfigView;

    open spec fn view(&self) -> PodSandboxConfigView {
        self.deep_view()
    }
}

impl Duplicate for PodSandboxConfig {
    fn duplicate(&self) -> (r: Self) {
        PodSandboxConfig {
            metadata: self.metadata.duplicate(),
            hostname: self.hostname.duplicate(),
            log_directory: self.log_directory.duplicate(),
            dns_config: self.dns_config.duplicate(),
            labels: self.labels.duplicate(),
            annotations: self.annotations.duplicate(),
            linux: self.linux.duplicate(),
        }
    }
}

impl Clone for PodSandboxConfig {
    fn clone(&self) -> (r: Self)
        ensures
            r@ == self@,
    {
        self.duplicate()
    }
}

impl Default for PodSandboxConfig {
    fn default() -> (r: Self)
        ensures
            r@ == (PodSandboxConfigView {
                metadata: None,
                hostname: ""@,
                log_directory: ""@,
                dns_config: None,
                labels: Map::empty(),
                annotations: Map::empty(),
                linux: None,
            }),
    {
        let r = PodSandboxConfig {
            metadata: None,
            hostname: "".to_owned(),
            log_directory: "".to_owned(),
            dns_config: None,
            labels: StrMap::new(),
            annotations: StrMap::new(),
            linux: None,
        };
        r
    }
}

/// An image.
#[derive(Debug, PartialEq)]
pub struct ImageSpec {
    pub image: String,
}

/// The abstract value of [`ImageSpec`].
#[verifier::ext_equal]
pub struct ImageSpecView {
    pub image: Seq<char>,
}

impl DeepView for ImageSpec {
    type V = ImageSpecView;

    open spec fn deep_view(&self) -> ImageSpecView {
        ImageSpecView {
            image: self.image@,
        }
    }
}

impl View for ImageSpec {
    type V = ImageSpecView;

    open spec fn view(&self) -> ImageSpecView {
        self.deep_view()
    }
}

impl Duplicate for ImageSpec {
    fn duplicate(&self) -> (r: Self) {
        ImageSpec {
            image: self.image.duplicate(),
        }
    }
}

impl Clone for ImageSpec {
    fn clone(&self) -> (r: Self)
        ensures
            r@ == self@,
    {
        self.duplicate()
    }
}

/// What a container is to be.
#[derive(Debug, PartialEq)]
pub struct ContainerConfig {
    pub metadata: Option<ContainerMetadata>,
    pub image: Option<ImageSpec>,
    pub command: Vec<String>,
    pub args: Vec<String>,
    pub working_dir: String,
    pub envs: Vec<KeyValue>,
    pub mounts: Vec<Mount>,
    pub labels: StrMap<String>,
    pub annotations: StrMap<String>,
    pub log_path: String,
    pub stdin: bool,
    pub stdin_once: bool,
    pub tty: bool,
    pub linux: Option<LinuxContainerConfig>,
}

/// The abstract value of [`ContainerConfig`].
#[verifier::ext_equal]
pub struct ContainerConfigView {
    pub metadata: Option<ContainerMetadataView>,
    pub image: Option<ImageSpecView>,
    pub command: Seq<Seq<char>>,
    pub args: Seq<Seq<char>>,
    pub working_dir: Seq<char>,
    pub envs: Seq<KeyValueView>,
    pub mounts: Seq<MountView>,
    pub labels: Map<Seq<char>, Seq<char>>,
    pub annotations: Map<Seq<char>, Seq<char>>,
    pub log_path: Seq<char>,
    pub stdin: bool,
    pub stdin_once: bool,
    pub tty: bool,
    pub linux: Option<LinuxContainerConfig>,
}

impl DeepView for ContainerConfig {
    type V = ContainerConfigView;

    open spec fn deep_view(&self) -> ContainerConfigView {
        ContainerConfigView {
            metadata: self.metadata.deep_view(),
            image: self.image.deep_view(),
            command: self.command.deep_view(),
            args: self.args.deep_view(),
            working_dir: self.working_dir@,
            envs: self.envs.deep_view(),
            mounts: self.mounts.deep_view(),
            labels: self.labels.deep_view(),
            annotations: self.annotations.deep_view(),
            log_path: self.log_path@,
            stdin: self.stdin,
            stdin_once: self.stdin_once,
            tty: self.tty,
            linux: self.linux.deep_view(),
        }
    }
}

impl View for ContainerConfig {
    type V = ContainerConfigView;

    open spec fn view(&self) -> ContainerConfigView {
        self.deep_view()
    }
}

impl Duplicate for ContainerConfig {
    fn duplicate(&self) -> (r: Self) {
        ContainerConfig {
            metadata: self.metadata.duplicate(),
            image: self.image.duplicate(),
            command: self.command.duplicate(),
            args: self.args.duplicate(),
            working_dir: self.working_dir.duplicate(),
            envs: self.envs.duplicate(),
            mounts: self.mounts.duplicate(),
            labels: self.labels.duplicate(),
            annotations: self.annotations.duplicate(),
            log_path: self.log_path.duplicate(),
            stdin: self.stdin,
            stdin_once: self.stdin_once,
            tty: self.tty,
            linux: self.linux.duplicate(),
        }
    }
}

impl Clone for ContainerConfig {
    fn clone(&self) -> (r: Self)
        ensures
            r@ == self@,
    {
        self.duplicate()
    }
}

impl Default for ContainerConfig {
    fn default() -> (r: Self)
        ensures
            r@ == (ContainerConfigView {
                metadata: None,
                image: None,
                command: seq![],
                args: seq![],
                working_dir: ""@,
                envs: seq![],
                mounts: seq![],
                labels: Map::empty(),
                annotations: Map::empty(),
                log_path: ""@,
                stdin: false,
                stdin_once: false,
                tty: false,
                linux: None,
            }),
    {
        let r = ContainerConfig {
            metadata: None,
            image: None,
            command: Vec::new(),
            args: Vec::new(),
            working_dir: "".to_owned(),
            envs: Vec::new(),
            mounts: Vec::new(),
            labels: StrMap::new(),
            annotations: StrMap::new(),
            log_path: "".to_owned(),
            stdin: false,
            stdin_once: false,
            tty: false,
            linux: None,
        };
        assert(r@.command =~= seq![]);
        assert(r@.args =~= seq![]);
        assert(r@.envs =~= seq![]);
        assert(r@.mounts =~= seq![]);
        r
    }
}

/// The addresses of a pod.
#[derive(Debug, PartialEq)]
pub struct PodSandboxNetworkStatus {
    pub ip: String,
    pub additional_ips: Vec<String>,
}

/// The abstract value of [`PodSandboxNetworkStatus`].
#[verifier::ext_equal]
pub struct PodSandboxNetworkStatusView {
    pub ip: Seq<char>,
    pub additional_ips: Seq<Seq<char>>,
}

impl DeepView for PodSandboxNetworkStatus {
    type V = PodSandboxNetworkStatusView;

    open spec fn deep_view(&self) -> PodSandboxNetworkStatusView {
        PodSandboxNetworkStatusView {
            ip: self.ip@,
            additional_ips: self.additional_ips.deep_view(),
        }
    }
}

impl View for PodSandboxNetworkStatus {
    type V = PodSandboxNetworkStatusView;

    open spec fn view(&self) -> PodSandboxNetworkStatusView {
        self.deep_view()
    }
}

impl Duplicate for PodSandboxNetworkStatus {
    fn duplicate(&self) -> (r: Self) {
        PodSandboxNetworkStatus {
            ip: self.ip.duplicate(),
            additional_ips: self.additional_ips.duplicate(),
        }
    }
}

impl Clone for PodSandboxNetworkStatus {
    fn clone(&self) -> (r: Self)
        ensures
            r@ == self@,
    {
        self.duplicate()
    }
}

/// What is told of a pod on its own.
#[derive(Debug, PartialEq)]
pub struct PodSandboxStatus {
    pub id: String,
    pub metadata: Option<PodSandboxMetadata>,
    pub state: i32,
    pub created_at: i64,
    pub network: Option<PodSandboxNetworkStatus>,
    pub labels: StrMap<String>,
    pub annotations: StrMap<String>,
    pub runtime_handler: String,
}

/// The abstract value of [`PodSandboxStatus`].
#[verifier::ext_equal]
pub struct PodSandboxStatusView {
    pub id: Seq<char>,
    pub metadata: Option<PodSandboxMetadataView>,
    pub state: i32,
    pub created_at: i64,
    pub network: Option<PodSandboxNetworkStatusView>,
    pub labels: Map<Seq<char>, Seq<char>>,
    pub annotations: Map<Seq<char>, Seq<char>>,
    pub runtime_handler: Seq<char>,
}

impl DeepView for PodSandboxStatus {
    type V = PodSandboxStatusView;

    open spec fn deep_view(&self) -> PodSandboxStatusView {
        PodSandboxStatusView {
            id: self.id@,
            metadata: self.metadata.deep_view(),
            state: self.state,
            created_at: self.created_at,
            network: self.network.deep_view(),
            labels: self.labels.deep_view(),
            annotations: self.annotations.deep_view(),
            runtime_handler: self.runtime_handler@,
        }
    }
}

impl View for PodSandboxStatus {
    type V = PodSandboxStatusView;

    open spec fn view(&self) -> PodSandboxStatusView {
        self.deep_view()
    }
}

impl Duplicate for PodSandboxStatus {
    fn duplicate(&self) -> (r: Self) {
        PodSandboxStatus {
            id: self.id.duplicate(),
            metadata: self.metadata.duplicate(),
            state: self.state,
            created_at: self.created_at,
            network: self.network.duplicate(),
            labels: self.labels.duplicate(),
            annotations: self.annotations.duplicate(),
            runtime_handler: self.runtime_handler.duplicate(),
        }
    }
}

impl Clone for PodSandboxStatus {
    fn clone(&self) -> (r: Self)
        ensures
            r@ == self@,
    {
        self.duplicate()
    }
}

/// What is told of a pod in a listing.
#[derive(Debug, PartialEq)]
pub struct PodSandbox {
    pub id: String,
    pub metadata: Option<PodSandboxMetadata>,
    pub state: i32,
    pub created_at: i64,
    pub labels: StrMap<String>,
    pub annotations: StrMap<String>,
    pub runtime_handler: String,
}

/// The abstract value of [`PodSandbox`].
#[verifier::ext_equal]
pub struct PodSandboxView {
    pub id: Seq<char>,
    pub metadata: Option<PodSandboxMetadataView>,
    pub state: i32,
    pub created_at: i64,
    pub labels: Map<Seq<char>, Seq<char>>,
    pub annotations: Map<Seq<char>, Seq<char>>,
    pub runtime_handler: Seq<char>,
}

impl DeepView for PodSandbox {
    type V = PodSandboxView;

    open spec fn deep_view(&self) -> PodSandboxView {
        PodSandboxView {
            id: self.id@,
            metadata: self.metadata.deep_view(),
            state: self.state,
            created_at: self.created_at,
            labels: self.labels.deep_view(),
            annotations: self.annotations.deep_view(),
            runtime_handler: self.runtime_handler@,
        }
    }
}

impl View for PodSandbox {
    type V = PodSandboxView;

    open spec fn view(&self) -> PodSandboxView {
        self.deep_view()
    }
}

impl Duplicate for PodSandbox {
    fn duplicate(&self) -> (r: Self) {
        PodSandbox {
            id: self.id.duplicate(),
            metadata: self.metadata.duplicate(),
            state: self.state,
            created_at: self.created_at,
            labels: self.labels.duplicate(),
            annotations: self.annotations.duplicate(),
            runtime_handler: self.runtime_handler.duplicate(),
        }
    }
}

impl Clone for PodSandbox {
    fn clone(&self) -> (r: Self)
        ensures
            r@ == self@,
    {
        self.duplicate()
    }
}

/// A state of pods to look for.
#[derive(Debug, Clone, Copy, PartialEq)]
pub struct PodSandboxStateValue {
    pub state: i32,
}

impl DeepView for PodSandboxStateValue {
    type V = PodSandboxStateValue;

    open spec fn deep_view(&self) -> PodSandboxStateValue {
        *self
    }
}

impl Duplicate for PodSandboxStateValue {
    fn duplicate(&self) -> (r: Self) {
        *self
    }
}

/// Which pods a listing is about.
#[derive(Debug, PartialEq)]
pub struct PodSandboxFilter {
    pub id: String,
    pub state: Option<PodSandboxStateValue>,
    pub label_selector: StrMap<String>,
}

/// The abstract value of [`PodSandboxFilter`].
#[verifier::ext_equal]
pub struct PodSandboxFilterView {
    pub id: Seq<char>,
    pub state: Option<PodSandboxStateValue>,
    pub label_selector: Map<Seq<char>, Seq<char>>,
}

impl DeepView for PodSandboxFilter {
    type V = PodSandboxFilterView;

    open spec fn deep_view(&self) -> PodSandboxFilterView {
        PodSandboxFilterView {
            id: self.id@,
            state: self.state.deep_view(),
            label_selector: self.label_selector.deep_view(),
        }
    }
}

impl View for PodSandboxFilter {
    type V = PodSandboxFilterView;

    open spec fn view(&self) -> PodSandboxFilterView {
        self.deep_view()
    }
}

impl Duplicate for PodSandboxFilter {
    fn duplicate(&self) -> (r: Self) {
        PodSandboxFilter {
            id: self.id.duplicate(),
            state: self.state.duplicate(),
            label_selector: self.label_selector.duplicate(),
        }
    }
}

impl Clone for PodSandboxFilter {
    fn clone(&self) -> (r: Self)
        ensures
            r@ == self@,
    {
        self.duplicate()
    }
}

impl Default for PodSandboxFilter {
    fn default() -> (r: Self)
        ensures
            r@ == (PodSandboxFilterView {
                id: ""@,
                state: None,
                label_selector: Map::empty(),
            }),
    {
        let r = PodSandboxFilter {
            id: "".to_owned(),
            state: None,
            label_selector: StrMap::new(),
        };
        r
    }
}

/// A state of containers to look for.
#[derive(Debug, Clone, Copy, PartialEq)]
pub struct ContainerStateValue {
    pub state: i32,
}

impl DeepView for ContainerStateValue {
    type V = ContainerStateValue;

    open spec fn deep_view(&self) -> ContainerStateValue {
        *self
    }
}

impl Duplicate for ContainerStateValue {
    fn duplicate(&self) -> (r: Self) {
        *self
    }
}

/// Which containers a listing is about.
#[derive(Debug, PartialEq)]
pub struct ContainerFilter {
    pub id: String,
    pub state: Option<ContainerStateValue>,
    pub pod_sandbox_id: String,
    pub label_selector: StrMap<String>,
}

/// The abstract value of [`ContainerFilter`].
#[verifier::ext_equal]
pub struct ContainerFilterView {
    pub id: Seq<char>,
    pub state: Option<ContainerStateValue>,
    pub pod_sandbox_id: Seq<char>,
    pub label_selector: Map<Seq<char>, Seq<char>>,
}

impl DeepView for ContainerFilter {
    type V = ContainerFilterView;

    open spec fn deep_view(&self) -> ContainerFilterView {
        ContainerFilterView {
            id: self.id@,
            state: self.state.deep_view(),
            pod_sandbox_id: self.pod_sandbox_id@,
            label_selector: self.label_selector.deep_view(),
        }
    }
}

impl View for ContainerFilter {
    type V = ContainerFilterView;

    open spec fn view(&self) -> ContainerFilterView {
        self.deep_view()
    }
}

impl Duplicate for ContainerFilter {
    fn duplicate(&self) -> (r: Self) {
        ContainerFilter {
            id: self.id.duplicate(),
            state: self.state.duplicate(),
            pod_sandbox_id: self.pod_sandbox_id.duplicate(),
            label_selector: self.label_selector.duplicate(),
        }
    }
}

impl Clone for ContainerFilter {
    fn clone(&self) -> (r: Self)
        ensures
            r@ == self@,
    {
        self.duplicate()
    }
}

impl Default for ContainerFilter {
    fn default() -> (r: Self)
        ensures
            r@ == (ContainerFilterView {
                id: ""@,
                state: None,
                pod_sandbox_id: ""@,
                label_selector: Map::empty(),
            }),
    {
        let r = ContainerFilter {
            id: "".to_owned(),
            state: None,
            pod_sandbox_id: "".to_owned(),
            label_selector: StrMap::new(),
        };
        r
    }
}

/// What is told of a container on its own.
#[derive(Debug, PartialEq)]
pub struct ContainerStatus {
    pub id: String,
    pub metadata: Option<ContainerMetadata>,
    pub state: i32,
    pub created_at: i64,
    pub started_at: i64,
    pub finished_at: i64,
    pub exit_code: i32,
    pub image: Option<ImageSpec>,
    pub image_ref: String,
    pub reason: String,
    pub message: String,
    pub labels: StrMap<String>,
    pub annotations: StrMap<String>,
    pub mounts: Vec<Mount>,
    pub log_path: String,
    pub image_id: String,
    pub stop_signal: i32,
}

/// The abstract value of [`ContainerStatus`].
#[verifier::ext_equal]
pub struct ContainerStatusView {
    pub id: Seq<char>,
    pub metadata: Option<ContainerMetadataView>,
    pub state: i32,
    pub created_at: i64,
    pub started_at: i64,
    pub finished_at: i64,
    pub exit_code: i32,
    pub image: Option<ImageSpecView>,
    pub image_ref: Seq<char>,
    pub reason: Seq<char>,
    pub message: Seq<char>,
    pub labels: Map<Seq<char>, Seq<char>>,
    pub annotations: Map<Seq<char>, Seq<char>>,
    pub mounts: Seq<MountView>,
    pub log_path: Seq<char>,
    pub image_id: Seq<char>,
    pub stop_signal: i32,
}

impl DeepView for ContainerStatus {
    type V = ContainerStatusView;

    open spec fn deep_view(&self) -> ContainerStatusView {
        ContainerStatusView {
            id: self.id@,
            metadata: self.metadata.deep_view(),
            state: self.state,
            created_at: self.created_at,
            started_at: self.started_at,
            finished_at: self.finished_at,
            exit_code: self.exit_code,
            image: self.image.deep_view(),
            image_ref: self.image_ref@,
            reason: self.reason@,
            message: self.message@,
            labels: self.labels.deep_view(),
            annotations: self.annotations.deep_view(),
            mounts: self.mounts.deep_view(),
            log_path: self.log_path@,
            image_id: self.image_id@,
            stop_signal: self.stop_signal,
        }
    }
}

impl View for ContainerStatus {
    type V = ContainerStatusView;

    open spec fn view(&self) -> ContainerStatusView {
        self.deep_view()
    }
}

impl Duplicate for ContainerStatus {
    fn duplicate(&self) -> (r: Self) {
        ContainerStatus {
            id: self.id.duplicate(),
            metadata: self.metadata.duplicate(),
            state: self.state,
            created_at: self.created_at,
            started_at: self.started_at,
            finished_at: self.finished_at,
            exit_code: self.exit_code,
            image: self.image.duplicate(),
            image_ref: self.image_ref.duplicate(),
            reason: self.reason.duplicate(),
            message: self.message.duplicate(),
            labels: self.labels.duplicate(),
            annotations: self.annotations.duplicate(),
            mounts: self.mounts.duplicate(),
            log_path: self.log_path.duplicate(),
            image_id: self.image_id.duplicate(),
            stop_signal: self.stop_signal,
        }
    }
}

impl Clone for ContainerStatus {
    fn clone(&self) -> (r: Self)
        ensures
            r@ == self@,
    {
        self.duplicate()
    }
}

/// What is told of a container in a listing.
#[derive(Debug, PartialEq)]
pub struct Container {
    pub id: String,
    pub pod_sandbox_id: String,
    pub metadata: Option<ContainerMetadata>,
    pub image: Option<ImageSpec>,
    pub image_ref: String,
    pub state: i32,
    pub created_at: i64,
    pub labels: StrMap<String>,
    pub annotations: StrMap<String>,
    pub image_id: String,
}

/// The abstract value of [`Container`].
#[verifier::ext_equal]
pub struct ContainerView {
    pub id: Seq<char>,
    pub pod_sandbox_id: Seq<char>,
    pub metadata: Option<ContainerMetadataView>,
    pub image: Option<ImageSpecView>,
    pub image_ref: Seq<char>,
    pub state: i32,
    pub created_at: i64,
    pub labels: Map<Seq<char>, Seq<char>>,
    pub annotations: Map<Seq<char>, Seq<char>>,
    pub image_id: Seq<char>,
}

impl DeepView for Container {
    type V = ContainerView;

    open spec fn deep_view(&self) -> ContainerView {
        ContainerView {
            id: self.id@,
            pod_sandbox_id: self.pod_sandbox_id@,
            metadata: self.metadata.deep_view(),
            image: self.image.deep_view(),
            image_ref: self.image_ref@,
            state: self.state,
            created_at: self.created_at,
            labels: self.labels.deep_view(),
            annotations: self.annotations.deep_view(),
            image_id: self.image_id@,
        }
    }
}

impl View for Container {
    type V = ContainerView;

    open spec fn view(&self) -> ContainerView {
        self.deep_view()
    }
}

impl Duplicate for Container {
    fn duplicate(&self) -> (r: Self) {
        Container {
            id: self.id.duplicate(),
            pod_sandbox_id: self.pod_sandbox_id.duplicate(),
            metadata: self.metadata.duplicate(),
            image: self.image.duplicate(),
            image_ref: self.image_ref.duplicate(),
            state: self.state,
            created_at: self.created_at,
            labels: self.labels.duplicate(),
            annotations: self.annotations.duplicate(),
            image_id: self.image_id.duplicate(),
        }
    }
}

impl Clone for Container {
    fn clone(&self) -> (r: Self)
        ensures
            r@ == self@,
    {
        self.duplicate()
    }
}

/// What is told of an image.
#[derive(Debug, PartialEq)]
pub struct Image {
    pub id: String,
    pub repo_tags: Vec<String>,
    pub repo_digests: Vec<String>,
    pub size: u64,
    pub username: String,
    pub spec: Option<ImageSpec>,
    pub pinned: bool,
}

/// The abstract value of [`Image`].
#[verifier::ext_equal]
pub struct ImageView {
    pub id: Seq<char>,
    pub repo_tags: Seq<Seq<char>>,
    pub repo_digests: Seq<Seq<char>>,
    pub size: u64,
    pub username: Seq<char>,
    pub spec: Option<ImageSpecView>,
    pub pinned: bool,
}

impl DeepView for Image {
    type V = ImageView;

    open spec fn deep_view(&self) -> ImageView {
        ImageView {
            id: self.id@,
            repo_tags: self.repo_tags.deep_view(),
            repo_digests: self.repo_digests.deep_view(),
            size: self.size,
            username: self.username@,
            spec: self.spec.deep_view(),
            pinned: self.pinned,
        }
    }
}

impl View for Image {
    type V = ImageView;

    open spec fn view(&self) -> ImageView {
        self.deep_view()
    }
}

impl Duplicate for Image {
    fn duplicate(&self) -> (r: Self) {
        Image {
            id: self.id.duplicate(),
            repo_tags: self.repo_tags.duplicate(),
            repo_digests: self.repo_digests.duplicate(),
            size: self.size,
            username: self.username.duplicate(),
            spec: self.spec.duplicate(),
            pinned: self.pinned,
        }
    }
}

impl Clone for Image {
    fn clone(&self) -> (r: Self)
        ensures
            r@ == self@,
    {
        self.duplicate()
    }
}

/// A number that may be absent.
#[derive(Debug, Clone, Copy, PartialEq)]
pub struct UInt64Value {
    pub value: u64,
}

impl DeepView for UInt64Value {
    type V = UInt64Value;

    open spec fn deep_view(&self) -> UInt64Value {
        *self
    }
}

impl Duplicate for UInt64Value {
    fn duplicate(&self) -> (r: Self) {
        *self
    }
}

/// Use of processors.
#[derive(Debug, Clone, Copy, PartialEq)]
pub struct CpuUsage {
    pub timestamp: i64,
    pub usage_core_nano_seconds: Option<UInt64Value>,
    pub usage_nano_cores: Option<UInt64Value>,
}

impl DeepView for CpuUsage {
    type V = CpuUsage;

    open spec fn deep_view(&self) -> CpuUsage {
        *self
    }
}

impl Duplicate for CpuUsage {
    fn duplicate(&self) -> (r: Self) {
        *self
    }
}

/// Use of memory.
#[derive(Debug, Clone, Copy, PartialEq)]
pub struct MemoryUsage {
    pub timestamp: i64,
    pub working_set_bytes: Option<UInt64Value>,
    pub available_bytes: Option<UInt64Value>,
    pub usage_bytes: Option<UInt64Value>,
    pub rss_bytes: Option<UInt64Value>,
    pub page_faults: Option<UInt64Value>,
    pub major_page_faults: Option<UInt64Value>,
}

impl DeepView for MemoryUsage {
    type V = MemoryUsage;

    open spec fn deep_view(&self) -> MemoryUsage {
        *self
    }
}

impl Duplicate for MemoryUsage {
    fn duplicate(&self) -> (r: Self) {
        *self
    }
}

/// A file system.
#[derive(Debug, PartialEq)]
pub struct FilesystemIdentifier {
    pub mountpoint: String,
}

/// The abstract value of [`FilesystemIdentifier`].
#[verifier::ext_equal]
pub struct FilesystemIdentifierView {
    pub mountpoint: Seq<char>,
}

impl DeepView for FilesystemIdentifier {
    type V = FilesystemIdentifierView;

    open spec fn deep_view(&self) -> FilesystemIdentifierView {
        FilesystemIdentifierView {
            mountpoint: self.mountpoint@,
        }
    }
}

impl View for FilesystemIdentifier {
    type V = FilesystemIdentifierView;

    open spec fn view(&self) -> FilesystemIdentifierView {
        self.deep_view()
    }
}

impl Duplicate for FilesystemIdentifier {
    fn duplicate(&self) -> (r: Self) {
        FilesystemIdentifier {
            mountpoint: self.mountpoint.duplicate(),
        }
    }
}

impl Clone for FilesystemIdentifier {
    fn clone(&self) -> (r: Self)
        ensures
            r@ == self@,
    {
        self.duplicate()
    }
}

/// Use of a file system.
#[derive(Debug, PartialEq)]
pub struct FilesystemUsage {
    pub timestamp: i64,
    pub fs_id: Option<FilesystemIdentifier>,
    pub used_bytes: Option<UInt64Value>,
    pub inodes_used: Option<UInt64Value>,
}

/// The abstract value of [`FilesystemUsage`].
#[verifier::ext_equal]
pub struct FilesystemUsageView {
    pub timestamp: i64,
    pub fs_id: Option<FilesystemIdentifierView>,
    pub used_bytes: Option<UInt64Value>,
    pub inodes_used: Option<UInt64Value>,
}

impl DeepView for FilesystemUsage {
    type V = FilesystemUsageView;

    open spec fn deep_view(&self) -> FilesystemUsageView {
        FilesystemUsageView {
            timestamp: self.timestamp,
            fs_id: self.fs_id.deep_view(),
            used_bytes: self.used_bytes.deep_view(),
            inodes_used: self.inodes_used.deep_view(),
        }
    }
}

impl View for FilesystemUsage {
    type V = FilesystemUsageView;

    open spec fn view(&self) -> FilesystemUsageView {
        self.deep_view()
    }
}

impl Duplicate for FilesystemUsage {
    fn duplicate(&self) -> (r: Self) {
        FilesystemUsage {
            timestamp: self.timestamp,
            fs_id: self.fs_id.duplicate(),
            used_bytes: self.used_bytes.duplicate(),
            inodes_used: self.inodes_used.duplicate(),
        }
    }
}

impl Clone for FilesystemUsage {
    fn clone(&self) -> (r: Self)
        ensures
            r@ == self@,
    {
        self.duplicate()
    }
}

/// Use of swap space.
#[derive(Debug, Clone, Copy, PartialEq)]
pub struct SwapUsage {
    pub timestamp: i64,
    pub swap_available_bytes: Option<UInt64Value>,
    pub swap_usage_bytes: Option<UInt64Value>,
}

impl DeepView for SwapUsage {
    type V = SwapUsage;

    open spec fn deep_view(&self) -> SwapUsage {
        *self
    }
}

impl Duplicate for SwapUsage {
    fn duplicate(&self) -> (r: Self) {
        *self
    }
}

/// Use of input and output.
#[derive(Debug, Clone, Copy, PartialEq)]
pub struct IoUsage {
    pub timestamp: i64,
}

impl DeepView for IoUsage {
    type V = IoUsage;

    open spec fn deep_view(&self) -> IoUsage {
        *self
    }
}

impl Duplicate for IoUsage {
    fn duplicate(&self) -> (r: Self) {
        *self
    }
}

/// What names a container in statistics.
#[derive(Debug, PartialEq)]
pub struct ContainerAttributes {
    pub id: String,
    pub metadata: Option<ContainerMetadata>,
    pub labels: StrMap<String>,
    pub annotations: StrMap<String>,
}

/// The abstract value of [`ContainerAttributes`].
#[verifier::ext_equal]
pub struct ContainerAttributesView {
    pub id: Seq<char>,
    pub metadata: Option<ContainerMetadataView>,
    pub labels: Map<Seq<char>, Seq<char>>,
    pub annotations: Map<Seq<char>, Seq<char>>,
}

impl DeepView for ContainerAttributes {
    type V = ContainerAttributesView;

    open spec fn deep_view(&self) -> ContainerAttributesView {
        ContainerAttributesView {
            id: self.id@,
            metadata: self.metadata.deep_view(),
            labels: self.labels.deep_view(),
            annotations: self.annotations.deep_view(),
        }
    }
}

impl View for ContainerAttributes {
    type V = ContainerAttributesView;

    open spec fn view(&self) -> ContainerAttributesView {
        self.deep_view()
    }
}

impl Duplicate for ContainerAttributes {
    fn duplicate(&self) -> (r: Self) {
        ContainerAttributes {
            id: self.id.duplicate(),
            metadata: self.metadata.duplicate(),
            labels: self.labels.duplicate(),
            annotations: self.annotations.duplicate(),
        }
    }
}

impl Clone for ContainerAttributes {
    fn clone(&self) -> (r: Self)
        ensures
            r@ == self@,
    {
        self.duplicate()
    }
}

/// Statistics of a container.
#[derive(Debug, PartialEq)]
pub struct ContainerStats {
    pub attributes: Option<ContainerAttributes>,
    pub cpu: Option<CpuUsage>,
    pub memory: Option<MemoryUsage>,
    pub writable_layer: Option<FilesystemUsage>,
    pub swap: Option<SwapUsage>,
    pub io: Option<IoUsage>,
}

/// The abstract value of [`ContainerStats`].
#[verifier::ext_equal]
pub struct ContainerStatsView {
    pub attributes: Option<ContainerAttributesView>,
    pub cpu: Option<CpuUsage>,
    pub memory: Option<MemoryUsage>,
    pub writable_layer: Option<FilesystemUsageView>,
    pub swap: Option<SwapUsage>,
    pub io: Option<IoUsage>,
}

impl DeepView for ContainerStats {
    type V = ContainerStatsView;

    open spec fn deep_view(&self) -> ContainerStatsView {
        ContainerStatsView {
            attributes: self.attributes.deep_view(),
            cpu: self.cpu.deep_view(),
            memory: self.memory.deep_view(),
            writable_layer: self.writable_layer.deep_view(),
            swap: self.swap.deep_view(),
            io: self.io.deep_view(),
        }
    }
}

impl View for ContainerStats {
    type V = ContainerStatsView;

    open spec fn view(&self) -> ContainerStatsView {
        self.deep_view()
    }
}

impl Duplicate for ContainerStats {
    fn duplicate(&self) -> (r: Self) {
        ContainerStats {
            attributes: self.attributes.duplicate(),
            cpu: self.cpu.duplicate(),
            memory: self.memory.duplicate(),
            writable_layer: self.writable_layer.duplicate(),
            swap: self.swap.duplicate(),
            io: self.io.duplicate(),
        }
    }
}

impl Clone for ContainerStats {
    fn clone(&self) -> (r: Self)
        ensures
            r@ == self@,
    {
        self.duplicate()
    }
}

/// What names a pod in statistics.
#[derive(Debug, PartialEq)]
pub struct PodSandboxAttributes {
    pub id: String,
    pub metadata: Option<PodSandboxMetadata>,
    pub labels: StrMap<String>,
    pub annotations: StrMap<String>,
}

/// The abstract value of [`PodSandboxAttributes`].
#[verifier::ext_equal]
pub struct PodSandboxAttributesView {
    pub id: Seq<char>,
    pub metadata: Option<PodSandboxMetadataView>,
    pub labels: Map<Seq<char>, Seq<char>>,
    pub annotations: Map<Seq<char>, Seq<char>>,
}

impl DeepView for PodSandboxAttributes {
    type V = PodSandboxAttributesView;

    open spec fn deep_view(&self) -> PodSandboxAttributesView {
        PodSandboxAttributesView {
            id: self.id@,
            metadata: self.metadata.deep_view(),
            labels: self.labels.deep_view(),
            annotations: self.annotations.deep_view(),
        }
    }
}

impl View for PodSandboxAttributes {
    type V = PodSandboxAttributesView;

    open spec fn view(&self) -> PodSandboxAttributesView {
        self.deep_view()
    }
}

impl Duplicate for PodSandboxAttributes {
    fn duplicate(&self) -> (r: Self) {
        PodSandboxAttributes {
            id: self.id.duplicate(),
            metadata: self.metadata.duplicate(),
            labels: self.labels.duplicate(),
            annotations: self.annotations.duplicate(),
        }
    }
}

impl Clone for PodSandboxAttributes {
    fn clone(&self) -> (r: Self)
        ensures
            r@ == self@,
    {
        self.duplicate()
    }
}

/// Use of a network interface.
#[derive(Debug, PartialEq)]
pub struct NetworkInterfaceUsage {
    pub name: String,
    pub rx_bytes: Option<UInt64Value>,
    pub rx_errors: Option<UInt64Value>,
    pub tx_bytes: Option<UInt64Value>,
    pub tx_errors: Option<UInt64Value>,
}

/// The abstract value of [`NetworkInterfaceUsage`].
#[verifier::ext_equal]
pub struct NetworkInterfaceUsageView {
    pub name: Seq<char>,
    pub rx_bytes: Option<UInt64Value>,
    pub rx_errors: Option<UInt64Value>,
    pub tx_bytes: Option<UInt64Value>,
    pub tx_errors: Option<UInt64Value>,
}

impl DeepView for NetworkInterfaceUsage {
    type V = NetworkInterfaceUsageView;

    open spec fn deep_view(&self) -> NetworkInterfaceUsageView {
        NetworkInterfaceUsageView {
            name: self.name@,
            rx_bytes: self.rx_bytes.deep_view(),
            rx_errors: self.rx_errors.deep_view(),
            tx_bytes: self.tx_bytes.deep_view(),
            tx_errors: self.tx_errors.deep_view(),
        }
    }
}

impl View for NetworkInterfaceUsage {
    type V = NetworkInterfaceUsageView;

    open spec fn view(&self) -> NetworkInterfaceUsageView {
        self.deep_view()
    }
}

impl Duplicate for NetworkInterfaceUsage {
    fn duplicate(&self) -> (r: Self) {
        NetworkInterfaceUsage {
            name: self.name.duplicate(),
            rx_bytes: self.rx_bytes.duplicate(),
            rx_errors: self.rx_errors.duplicate(),
            tx_bytes: self.tx_bytes.duplicate(),
            tx_errors: self.tx_errors.duplicate(),
        }
    }
}

impl Clone for NetworkInterfaceUsage {
    fn clone(&self) -> (r: Self)
        ensures
            r@ == self@,
    {
        self.duplicate()
    }
}

/// Use of the network.
#[derive(Debug, PartialEq)]
pub struct NetworkUsage {
    pub timestamp: i64,
    pub default_interface: Option<NetworkInterfaceUsage>,
    pub interfaces: Vec<NetworkInterfaceUsage>,
}

/// The abstract value of [`NetworkUsage`].
#[verifier::ext_equal]
pub struct NetworkUsageView {
    pub timestamp: i64,
    pub default_interface: Option<NetworkInterfaceUsageView>,
    pub interfaces: Seq<NetworkInterfaceUsageView>,
}

impl DeepView for NetworkUsage {
    type V = NetworkUsageView;

    open spec fn deep_view(&self) -> NetworkUsageView {
        NetworkUsageView {
            timestamp: self.timestamp,
            default_interface: self.default_interface.deep_view(),
            interfaces: self.interfaces.deep_view(),
        }
    }
}

impl View for NetworkUsage {
    type V = NetworkUsageView;

    open spec fn view(&self) -> NetworkUsageView {
        self.deep_view()
    }
}

impl Duplicate for NetworkUsage {
    fn duplicate(&self) -> (r: Self) {
        NetworkUsage {
            timestamp: self.timestamp,
            default_interface: self.default_interface.duplicate(),
            interfaces: self.interfaces.duplicate(),
        }
    }
}

impl Clone for NetworkUsage {
    fn clone(&self) -> (r: Self)
        ensures
            r@ == self@,
    {
        self.duplicate()
    }
}

/// Number of processes.
#[derive(Debug, Clone, Copy, PartialEq)]
pub struct ProcessUsage {
    pub timestamp: i64,
    pub process_count: Option<UInt64Value>,
}

impl DeepView for ProcessUsage {
    type V = ProcessUsage;

    open spec fn deep_view(&self) -> ProcessUsage {
        *self
    }
}

impl Duplicate for ProcessUsage {
    fn duplicate(&self) -> (r: Self) {
        *self
    }
}

/// Statistics of a pod on Linux.
#[derive(Debug, PartialEq)]
pub struct LinuxPodSandboxStats {
    pub cpu: Option<CpuUsage>,
    pub memory: Option<MemoryUsage>,
    pub network: Option<NetworkUsage>,
    pub process: Option<ProcessUsage>,
    pub containers: Vec<ContainerStats>,
    pub io: Option<IoUsage>,
}

/// The abstract value of [`LinuxPodSandboxStats`].
#[verifier::ext_equal]
pub struct LinuxPodSandboxStatsView {
    pub cpu: Option<CpuUsage>,
    pub memory: Option<MemoryUsage>,
    pub network: Option<NetworkUsageView>,
    pub process: Option<ProcessUsage>,
    pub containers: Seq<ContainerStatsView>,
    pub io: Option<IoUsage>,
}

impl DeepView for LinuxPodSandboxStats {
    type V = LinuxPodSandboxStatsView;

    open spec fn deep_view(&self) -> LinuxPodSandboxStatsView {
        LinuxPodSandboxStatsView {
            cpu: self.cpu.deep_view(),
            memory: self.memory.deep_view(),
            network: self.network.deep_view(),
            process: self.process.deep_view(),
            containers: self.containers.deep_view(),
            io: self.io.deep_view(),
        }
    }
}

impl View for LinuxPodSandboxStats {
    type V = LinuxPodSandboxStatsView;

    open spec fn view(&self) -> LinuxPodSandboxStatsView {
        self.deep_view()
    }
}

impl Duplicate for LinuxPodSandboxStats {
    fn duplicate(&self) -> (r: Self) {
        LinuxPodSandboxStats {
            cpu: self.cpu.duplicate(),
            memory: self.memory.duplicate(),
            network: self.network.duplicate(),
            process: self.process.duplicate(),
            containers: self.containers.duplicate(),
            io: self.io.duplicate(),
        }
    }
}

impl Clone for LinuxPodSandboxStats {
    fn clone(&self) -> (r: Self)
        ensures
            r@ == self@,
    {
        self.duplicate()
    }
}

/// Statistics of a pod.
#[derive(Debug, PartialEq)]
pub struct PodSandboxStats {
    pub attributes: Option<PodSandboxAttributes>,
    pub linux: Option<LinuxPodSandboxStats>,
}

/// The abstract value of [`PodSandboxStats`].
#[verifier::ext_equal]
pub struct PodSandboxStatsView {
    pub attributes: Option<PodSandboxAttributesView>,
    pub linux: Option<LinuxPodSandboxStatsView>,
}

impl DeepView for PodSandboxStats {
    type V = PodSandboxStatsView;

    open spec fn deep_view(&self) -> PodSandboxStatsView {
        PodSandboxStatsView {
            attributes: self.attributes.deep_view(),
            linux: self.linux.deep_view(),
        }
    }
}

impl View for PodSandboxStats {
    type V = PodSandboxStatsView;

    open spec fn view(&self) -> PodSandboxStatsView {
        self.deep_view()
    }
}

impl Duplicate for PodSandboxStats {
    fn duplicate(&self) -> (r: Self) {
        PodSandboxStats {
            attributes: self.attributes.duplicate(),
            linux: self.linux.duplicate(),
        }
    }
}

impl Clone for PodSandboxStats {
    fn clone(&self) -> (r: Self)
        ensures
            r@ == self@,
    {
        self.duplicate()
    }
}

/// Names and versions.
#[derive(Debug, PartialEq)]
pub struct VersionResponse {
    pub version: String,
    pub runtime_name: String,
    pub runtime_version: String,
    pub runtime_api_version: String,
}

/// The abstract value of [`VersionResponse`].
#[verifier::ext_equal]
pub struct VersionResponseView {
    pub version: Seq<char>,
    pub runtime_name: Seq<char>,
    pub runtime_version: Seq<char>,
    pub runtime_api_version: Seq<char>,
}

impl DeepView for VersionResponse {
    type V = VersionResponseView;

    open spec fn deep_view(&self) -> VersionResponseView {
        VersionResponseView {
            version: self.version@,
            runtime_name: self.runtime_name@,
            runtime_version: self.runtime_version@,
            runtime_api_version: self.runtime_api_version@,
        }
    }
}

impl View for VersionResponse {
    type V = VersionResponseView;

    open spec fn view(&self) -> VersionResponseView {
        self.deep_view()
    }
}

impl Duplicate for VersionResponse {
    fn duplicate(&self) -> (r: Self) {
        VersionResponse {
            version: self.version.duplicate(),
            runtime_name: self.runtime_name.duplicate(),
            runtime_version: self.runtime_version.duplicate(),
            runtime_api_version: self.runtime_api_version.duplicate(),
        }
    }
}

impl Clone for VersionResponse {
    fn clone(&self) -> (r: Self)
        ensures
            r@ == self@,
    {
        self.duplicate()
    }
}

/// A condition of the runtime.
#[derive(Debug, PartialEq)]
pub struct RuntimeCondition {
    pub condition_type: String,
    pub status: bool,
    pub reason: String,
    pub message: String,
}

/// The abstract value of [`RuntimeCondition`].
#[verifier::ext_equal]
pub struct RuntimeConditionView {
    pub condition_type: Seq<char>,
    pub status: bool,
    pub reason: Seq<char>,
    pub message: Seq<char>,
}

impl DeepView for RuntimeCondition {
    type V = RuntimeConditionView;

    open spec fn deep_view(&self) -> RuntimeConditionView {
        RuntimeConditionView {
            condition_type: self.condition_type@,
            status: self.status,
            reason: self.reason@,
            message: self.message@,
        }
    }
}

impl View for RuntimeCondition {
    type V = RuntimeConditionView;

    open spec fn view(&self) -> RuntimeConditionView {
        self.deep_view()
    }
}

impl Duplicate for RuntimeCondition {
    fn duplicate(&self) -> (r: Self) {
        RuntimeCondition {
            condition_type: self.condition_type.duplicate(),
            status: self.status,
            reason: self.reason.duplicate(),
            message: self.message.duplicate(),
        }
    }
}

impl Clone for RuntimeCondition {
    fn clone(&self) -> (r: Self)
        ensures
            r@ == self@,
    {
        self.duplicate()
    }
}

/// What a handler can do.
#[derive(Debug, Clone, Copy, PartialEq)]
pub struct RuntimeHandlerFeatures {
    pub recursive_read_only_mounts: bool,
    pub user_namespaces: bool,
}

impl DeepView for RuntimeHandlerFeatures {
    type V = RuntimeHandlerFeatures;

    open spec fn deep_view(&self) -> RuntimeHandlerFeatures {
        *self
    }
}

impl Duplicate for RuntimeHandlerFeatures {
    fn duplicate(&self) -> (r: Self) {
        *self
    }
}

/// A handler of the runtime.
#[derive(Debug, PartialEq)]
pub struct RuntimeHandler {
    pub name: String,
    pub features: Option<RuntimeHandlerFeatures>,
}

/// The abstract value of [`RuntimeHandler`].
#[verifier::ext_equal]
pub struct RuntimeHandlerView {
    pub name: Seq<char>,
    pub features: Option<RuntimeHandlerFeatures>,
}

impl DeepView for RuntimeHandler {
    type V = RuntimeHandlerView;

    open spec fn deep_view(&self) -> RuntimeHandlerView {
        RuntimeHandlerView {
            name: self.name@,
            features: self.features.deep_view(),
        }
    }
}

impl View for RuntimeHandler {
    type V = RuntimeHandlerView;

    open spec fn view(&self) -> RuntimeHandlerView {
        self.deep_view()
    }
}

impl Duplicate for RuntimeHandler {
    fn duplicate(&self) -> (r: Self) {
        RuntimeHandler {
            name: self.name.duplicate(),
            features: self.features.duplicate(),
        }
    }
}

impl Clone for RuntimeHandler {
    fn clone(&self) -> (r: Self)
        ensures
            r@ == self@,
    {
        self.duplicate()
    }
}

/// Conditions and handlers of the runtime.
#[derive(Debug, PartialEq)]
pub struct StatusResponse {
    pub conditions: Vec<RuntimeCondition>,
    pub runtime_handlers: Vec<RuntimeHandler>,
}

/// The abstract value of [`StatusResponse`].
#[verifier::ext_equal]
pub struct StatusResponseView {
    pub conditions: Seq<RuntimeConditionView>,
    pub runtime_handlers: Seq<RuntimeHandlerView>,
}

impl DeepView for StatusResponse {
    type V = StatusResponseView;

    open spec fn deep_view(&self) -> StatusResponseView {
        StatusResponseView {
            conditions: self.conditions.deep_view(),
            runtime_handlers: self.runtime_handlers.deep_view(),
        }
    }
}

impl View for StatusResponse {
    type V = StatusResponseView;

    open spec fn view(&self) -> StatusResponseView {
        self.deep_view()
    }
}

impl Duplicate for StatusResponse {
    fn duplicate(&self) -> (r: Self) {
        StatusResponse {
            conditions: self.conditions.duplicate(),
            runtime_handlers: self.runtime_handlers.duplicate(),
        }
    }
}

impl Clone for StatusResponse {
    fn clone(&self) -> (r: Self)
        ensures
            r@ == self@,
    {
        self.duplicate()
    }
}

/// A request for a pod.
#[derive(Debug, PartialEq)]
pub struct RunPodSandboxRequest {
    pub config: Option<PodSandboxConfig>,
    pub runtime_handler: String,
}

/// The abstract value of [`RunPodSandboxRequest`].
#[verifier::ext_equal]
pub struct RunPodSandboxRequestView {
    pub config: Option<PodSandboxConfigView>,
    pub runtime_handler: Seq<char>,
}

impl DeepView for RunPodSandboxRequest {
    type V = RunPodSandboxRequestView;

    open spec fn deep_view(&self) -> RunPodSandboxRequestView {
        RunPodSandboxRequestView {
            config: self.config.deep_view(),
            runtime_handler: self.runtime_handler@,
        }
    }
}

impl View for RunPodSandboxRequest {
    type V = RunPodSandboxRequestView;

    open spec fn view(&self) -> RunPodSandboxRequestView {
        self.deep_view()
    }
}

impl Duplicate for RunPodSandboxRequest {
    fn duplicate(&self) -> (r: Self) {
        RunPodSandboxRequest {
            config: self.config.duplicate(),
            runtime_handler: self.runtime_handler.duplicate(),
        }
    }
}

impl Clone for RunPodSandboxRequest {
    fn clone(&self) -> (r: Self)
        ensures
            r@ == self@,
    {
        self.duplicate()
    }
}

/// A request for a container.
#[derive(Debug, PartialEq)]
pub struct CreateContainerRequest {
    pub pod_sandbox_id: String,
    pub config: Option<ContainerConfig>,
}

/// The abstract value of [`CreateContainerRequest`].
#[verifier::ext_equal]
pub struct CreateContainerRequestView {
    pub pod_sandbox_id: Seq<char>,
    pub config: Option<ContainerConfigView>,
}

impl DeepView for CreateContainerRequest {
    type V = CreateContainerRequestView;

    open spec fn deep_view(&self) -> CreateContainerRequestView {
        CreateContainerRequestView {
            pod_sandbox_id: self.pod_sandbox_id@,
            config: self.config.deep_view(),
        }
    }
}

impl View for CreateContainerRequest {
    type V = CreateContainerRequestView;

    open spec fn view(&self) -> CreateContainerRequestView {
        self.deep_view()
    }
}

impl Duplicate for CreateContainerRequest {
    fn duplicate(&self) -> (r: Self) {
        CreateContainerRequest {
            pod_sandbox_id: self.pod_sandbox_id.duplicate(),
            config: self.config.duplicate(),
        }
    }
}

impl Clone for CreateContainerRequest {
    fn clone(&self) -> (r: Self)
        ensures
            r@ == self@,
    {
        self.duplicate()
    }
}

/// The network as the cluster has it.
#[derive(Debug, PartialEq)]
pub struct NetworkConfig {
    pub pod_cidr: String,
}

/// The abstract value of [`NetworkConfig`].
#[verifier::ext_equal]
pub struct NetworkConfigView {
    pub pod_cidr: Seq<char>,
}

impl DeepView for NetworkConfig {
    type V = NetworkConfigView;

    open spec fn deep_view(&self) -> NetworkConfigView {
        NetworkConfigView {
            pod_cidr: self.pod_cidr@,
        }
    }
}

impl View for NetworkConfig {
    type V = NetworkConfigView;

    open spec fn view(&self) -> NetworkConfigView {
        self.deep_view()
    }
}

impl Duplicate for NetworkConfig {
    fn duplicate(&self) -> (r: Self) {
        NetworkConfig {
            pod_cidr: self.pod_cidr.duplicate(),
        }
    }
}

impl Clone for NetworkConfig {
    fn clone(&self) -> (r: Self)
        ensures
            r@ == self@,
    {
        self.duplicate()
    }
}

/// The configuration as the cluster has it.
#[derive(Debug, PartialEq)]
pub struct RuntimeConfig {
    pub network_config: Option<NetworkConfig>,
}

/// The abstract value of [`RuntimeConfig`].
#[verifier::ext_equal]
pub struct RuntimeConfigView {
    pub network_config: Option<NetworkConfigView>,
}

impl DeepView for RuntimeConfig {
    type V = RuntimeConfigView;

    open spec fn deep_view(&self) -> RuntimeConfigView {
        RuntimeConfigView {
            network_config: self.network_config.deep_view(),
        }
    }
}

impl View for RuntimeConfig {
    type V = RuntimeConfigView;

    open spec fn view(&self) -> RuntimeConfigView {
        self.deep_view()
    }
}

impl Duplicate for RuntimeConfig {
    fn duplicate(&self) -> (r: Self) {
        RuntimeConfig {
            network_config: self.network_config.duplicate(),
        }
    }
}

impl Clone for RuntimeConfig {
    fn clone(&self) -> (r: Self)
        ensures
            r@ == self@,
    {
        self.duplicate()
    }
}

/// A new configuration.
#[derive(Debug, PartialEq)]
pub struct UpdateRuntimeConfigRequest {
    pub runtime_config: Option<RuntimeConfig>,
}

/// The abstract value of [`UpdateRuntimeConfigRequest`].
#[verifier::ext_equal]
pub struct UpdateRuntimeConfigRequestView {
    pub runtime_config: Option<RuntimeConfigView>,
}

impl DeepView for UpdateRuntimeConfigRequest {
    type V = UpdateRuntimeConfigRequestView;

    open spec fn deep_view(&self) -> UpdateRuntimeConfigRequestView {
        UpdateRuntimeConfigRequestView {
            runtime_config: self.runtime_config.deep_view(),
        }
    }
}

impl View for UpdateRuntimeConfigRequest {
    type V = UpdateRuntimeConfigRequestView;

    open spec fn view(&self) -> UpdateRuntimeConfigRequestView {
        self.deep_view()
    }
}

impl Duplicate for UpdateRuntimeConfigRequest {
    fn duplicate(&self) -> (r: Self) {
        UpdateRuntimeConfigRequest {
            runtime_config: self.runtime_config.duplicate(),
        }
    }
}

impl Clone for UpdateRuntimeConfigRequest {
    fn clone(&self) -> (r: Self)
        ensures
            r@ == self@,
    {
        self.duplicate()
    }
}

/// Which containers statistics are about.
#[derive(Debug, PartialEq)]
pub struct ContainerStatsFilter {
    pub id: String,
    pub pod_sandbox_id: String,
    pub label_selector: StrMap<String>,
}

/// The abstract value of [`ContainerStatsFilter`].
#[verifier::ext_equal]
pub struct ContainerStatsFilterView {
    pub id: Seq<char>,
    pub pod_sandbox_id: Seq<char>,
    pub label_selector: Map<Seq<char>, Seq<char>>,
}

impl DeepView for ContainerStatsFilter {
    type V = ContainerStatsFilterView;

    open spec fn deep_view(&self) -> ContainerStatsFilterView {
        ContainerStatsFilterView {
            id: self.id@,
            pod_sandbox_id: self.pod_sandbox_id@,
            label_selector: self.label_selector.deep_view(),
        }
    }
}

impl View for ContainerStatsFilter {
    type V = ContainerStatsFilterView;

    open spec fn view(&self) -> ContainerStatsFilterView {
        self.deep_view()
    }
}

impl Duplicate for ContainerStatsFilter {
    fn duplicate(&self) -> (r: Self) {
        ContainerStatsFilter {
            id: self.id.duplicate(),
            pod_sandbox_id: self.pod_sandbox_id.duplicate(),
            label_selector: self.label_selector.duplicate(),
        }
    }
}

impl Clone for ContainerStatsFilter {
    fn clone(&self) -> (r: Self)
        ensures
            r@ == self@,
    {
        self.duplicate()
    }
}

/// Which pods statistics are about.
#[derive(Debug, PartialEq)]
pub struct PodSandboxStatsFilter {
    pub id: String,
    pub label_selector: StrMap<String>,
}

/// The abstract value of [`PodSandboxStatsFilter`].
#[verifier::ext_equal]
pub struct PodSandboxStatsFilterView {
    pub id: Seq<char>,
    pub label_selector: Map<Seq<char>, Seq<char>>,
}

impl DeepView for PodSandboxStatsFilter {
    type V = PodSandboxStatsFilterView;

    open spec fn deep_view(&self) -> PodSandboxStatsFilterView {
        PodSandboxStatsFilterView {
            id: self.id@,
            label_selector: self.label_selector.deep_view(),
        }
    }
}

impl View for PodSandboxStatsFilter {
    type V = PodSandboxStatsFilterView;

    open spec fn view(&self) -> PodSandboxStatsFilterView {
        self.deep_view()
    }
}

impl Duplicate for PodSandboxStatsFilter {
    fn duplicate(&self) -> (r: Self) {
        PodSandboxStatsFilter {
            id: self.id.duplicate(),
            label_selector: self.label_selector.duplicate(),
        }
    }
}

impl Clone for PodSandboxStatsFilter {
    fn clone(&self) -> (r: Self)
        ensures
            r@ == self@,
    {
        self.duplicate()
    }
}

/// File systems of images and containers.
#[derive(Debug, PartialEq)]
pub struct ImageFsInfoResponse {
    pub image_filesystems: Vec<FilesystemUsage>,
    pub container_filesystems: Vec<FilesystemUsage>,
}

/// The abstract value of [`ImageFsInfoResponse`].
#[verifier::ext_equal]
pub struct ImageFsInfoResponseView {
    pub image_filesystems: Seq<FilesystemUsageView>,
    pub container_filesystems: Seq<FilesystemUsageView>,
}

impl DeepView for ImageFsInfoResponse {
    type V = ImageFsInfoResponseView;

    open spec fn deep_view(&self) -> ImageFsInfoResponseView {
        ImageFsInfoResponseView {
            image_filesystems: self.image_filesystems.deep_view(),
            container_filesystems: self.container_filesystems.deep_view(),
        }
    }
}

impl View for ImageFsInfoResponse {
    type V = ImageFsInfoResponseView;

    open spec fn view(&self) -> ImageFsInfoResponseView {
        self.deep_view()
    }
}

impl Duplicate for ImageFsInfoResponse {
    fn duplicate(&self) -> (r: Self) {
        ImageFsInfoResponse {
            image_filesystems: self.image_filesystems.duplicate(),
            container_filesystems: self.container_filesystems.duplicate(),
        }
    }
}

impl Clone for ImageFsInfoResponse {
    fn clone(&self) -> (r: Self)
        ensures
            r@ == self@,
    {
        self.duplicate()
    }
}

/// The states of a pod, as numbers.
#[derive(Debug, Clone, Copy, PartialEq, Eq, Structural)]
pub enum PodSandboxState {
    SandboxReady,
    SandboxNotready,
}

impl PodSandboxState {
    /// The number of a state.
    pub open spec fn number(self) -> i32 {
        match self {
            PodSandboxState::SandboxReady => 0,
            PodSandboxState::SandboxNotready => 1,
        }
    }

    /// The number of a state.
    pub fn code(self) -> (n: i32)
        ensures
            n == self.number(),
    {
        match self {
            PodSandboxState::SandboxReady => 0,
            PodSandboxState::SandboxNotready => 1,
        }
    }
}

/// The states of a container, as numbers.
#[derive(Debug, Clone, Copy, PartialEq, Eq, Structural)]
pub enum ContainerState {
    ContainerCreated,
    ContainerRunning,
    ContainerExited,
    ContainerUnknown,
}

impl ContainerState {
    /// The number of a state.
    pub open spec fn number(self) -> i32 {
        match self {
            ContainerState::ContainerCreated => 0,
            ContainerState::ContainerRunning => 1,
            ContainerState::ContainerExited => 2,
            ContainerState::ContainerUnknown => 3,
        }
    }

    /// The number of a state.
    pub fn code(self) -> (n: i32)
        ensures
            n == self.number(),
    {
        match self {
            ContainerState::ContainerCreated => 0,
            ContainerState::ContainerRunning => 1,
            ContainerState::ContainerExited => 2,
            ContainerState::ContainerUnknown => 3,
        }
    }
}

/// The ways a mount spreads, as numbers.
#[derive(Debug, Clone, Copy, PartialEq, Eq, Structural)]
pub enum MountPropagation {
    PropagationPrivate,
    PropagationHostToContainer,
    PropagationBidirectional,
}

impl MountPropagation {
    /// The number of a way.
    pub open spec fn number(self) -> i32 {
        match self {
            MountPropagation::PropagationPrivate => 0,
            MountPropagation::PropagationHostToContainer => 1,
            MountPropagation::PropagationBidirectional => 2,
        }
    }

    /// The number of a way.
    pub fn code(self) -> (n: i32)
        ensures
            n == self.number(),
    {
        match self {
            MountPropagation::PropagationPrivate => 0,
            MountPropagation::PropagationHostToContainer => 1,
            MountPropagation::PropagationBidirectional => 2,
        }
    }
}

} // verus!
