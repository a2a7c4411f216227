//! The life of sandboxes and containers: what is asked of the manager, what it
//! answers, and the steps in between.

use vstd::prelude::*;

use crate::model::Duplicate;
use crate::strmap::StrMap;
use crate::text;
use crate::types::{
    ContainerFilter, ContainerMetadata, ContainerMetadataView, ContainerRecord, DnsConfig,
    DnsConfigView, KeyValue, KeyValueView, LinuxResources, Mount, MountView, SandboxFilter,
    SandboxMetadata, SandboxMetadataView, SandboxRecord,
};

pub mod clock;
pub mod containers;
pub mod errors;
pub mod facade;
pub mod history;
pub mod id;
pub mod laws;
pub mod sandboxes;
pub mod types_table;

verus! {

/// Why a request was refused or failed.
#[derive(Debug, PartialEq)]
pub enum OasError {
    NotFound(String),
    ImageNotInList(String),
    TypeMismatch(String),
    InvalidArgument(String),
    Conflict(String),
    Unavailable(String),
    Internal(String),
}

/// The abstract value of [`OasError`].
#[verifier::ext_equal]
pub enum OasErrorView {
    NotFound(Seq<char>),
    ImageNotInList(Seq<char>),
    TypeMismatch(Seq<char>),
    InvalidArgument(Seq<char>),
    Conflict(Seq<char>),
    Unavailable(Seq<char>),
    Internal(Seq<char>),
}

impl DeepView for OasError {
    type V = OasErrorView;

    open spec fn deep_view(&self) -> OasErrorView {
        match *self {
            OasError::NotFound(a) => OasErrorView::NotFound(a@),
            OasError::ImageNotInList(a) => OasErrorView::ImageNotInList(a@),
            OasError::TypeMismatch(a) => OasErrorView::TypeMismatch(a@),
            OasError::InvalidArgument(a) => OasErrorView::InvalidArgument(a@),
            OasError::Conflict(a) => OasErrorView::Conflict(a@),
            OasError::Unavailable(a) => OasErrorView::Unavailable(a@),
            OasError::Internal(a) => OasErrorView::Internal(a@),
        }
    }
}

impl View for OasError {
    type V = OasErrorView;

    open spec fn view(&self) -> OasErrorView {
        self.deep_view()
    }
}

impl Duplicate for OasError {
    fn duplicate(&self) -> (r: Self) {
        match self {
            OasError::NotFound(a) => OasError::NotFound(a.clone()),
            OasError::ImageNotInList(a) => OasError::ImageNotInList(a.clone()),
            OasError::TypeMismatch(a) => OasError::TypeMismatch(a.clone()),
            OasError::InvalidArgument(a) => OasError::InvalidArgument(a.clone()),
            OasError::Conflict(a) => OasError::Conflict(a.clone()),
            OasError::Unavailable(a) => OasError::Unavailable(a.clone()),
            OasError::Internal(a) => OasError::Internal(a.clone()),
        }
    }
}

impl Clone for OasError {
    fn clone(&self) -> (r: Self)
        ensures
            r@ == self@,
    {
        self.duplicate()
    }
}

impl OasErrorView {
    /// The error as text.
    pub open spec fn text(self) -> Seq<char> {
        match self {
            OasErrorView::NotFound(a) => "not found: "@ + a,
            OasErrorView::ImageNotInList(a) => "image not in whitelist: "@ + a,
            OasErrorView::TypeMismatch(a) => "type mismatch: "@ + a,
            OasErrorView::InvalidArgument(a) => "invalid argument: "@ + a,
            OasErrorView::Conflict(a) => "conflict: "@ + a,
            OasErrorView::Unavailable(a) => "unavailable: "@ + a,
            OasErrorView::Internal(a) => "internal: "@ + a,
        }
    }
}

impl OasError {
    /// The error as text.
    pub fn message(&self) -> (s: String)
        ensures
            s@ == self@.text(),
    {
        match self {
            OasError::NotFound(a) => text::cat2("not found: ", a.as_str()),
            OasError::ImageNotInList(a) => text::cat2("image not in whitelist: ", a.as_str()),
            OasError::TypeMismatch(a) => text::cat2("type mismatch: ", a.as_str()),
            OasError::InvalidArgument(a) => text::cat2("invalid argument: ", a.as_str()),
            OasError::Conflict(a) => text::cat2("conflict: ", a.as_str()),
            OasError::Unavailable(a) => text::cat2("unavailable: ", a.as_str()),
            OasError::Internal(a) => text::cat2("internal: ", a.as_str()),
        }
    }
}

/// A request for a sandbox.
#[derive(Debug, PartialEq)]
pub struct CreateSandboxRequest {
    pub metadata: SandboxMetadata,
    pub labels: StrMap<String>,
    pub annotations: StrMap<String>,
    pub hostname: String,
    pub log_directory: String,
    pub dns_config: Option<DnsConfig>,
    pub cgroup_parent: String,
    /// The type of sandbox, from an annotation.
    pub type_id: u8,
    /// The cloud disk, from an annotation.
    pub cloud_disk_ref: Option<String>,
    /// The size of the writable layer, from an annotation.
    pub rw_size: Option<u64>,
    pub runtime_handler: String,
}

/// The abstract value of [`CreateSandboxRequest`].
#[verifier::ext_equal]
pub struct CreateSandboxRequestView {
    pub metadata: SandboxMetadataView,
    pub labels: Map<Seq<char>, Seq<char>>,
    pub annotations: Map<Seq<char>, Seq<char>>,
    pub hostname: Seq<char>,
    pub log_directory: Seq<char>,
    pub dns_config: Option<DnsConfigView>,
    pub cgroup_parent: Seq<char>,
    pub type_id: u8,
    pub cloud_disk_ref: Option<Seq<char>>,
    pub rw_size: Option<u64>,
    pub runtime_handler: Seq<char>,
}

impl DeepView for CreateSandboxRequest {
    type V = CreateSandboxRequestView;

    open spec fn deep_view(&self) -> CreateSandboxRequestView {
        CreateSandboxRequestView {
            metadata: self.metadata.deep_view(),
            labels: self.labels.deep_view(),
            annotations: self.annotations.deep_view(),
            hostname: self.hostname@,
            log_directory: self.log_directory@,
            dns_config: self.dns_config.deep_view(),
            cgroup_parent: self.cgroup_parent@,
            type_id: self.type_id,
            cloud_disk_ref: self.cloud_disk_ref.deep_view(),
            rw_size: self.rw_size.deep_view(),
            runtime_handler: self.runtime_handler@,
        }
    }
}

impl View for CreateSandboxRequest {
    type V = CreateSandboxRequestView;

    open spec fn view(&self) -> CreateSandboxRequestView {
        self.deep_view()
    }
}

impl Duplicate for CreateSandboxRequest {
    fn duplicate(&self) -> (r: Self) {
        CreateSandboxRequest {
            metadata: self.metadata.duplicate(),
            labels: self.labels.duplicate(),
            annotations: self.annotations.duplicate(),
            hostname: self.hostname.duplicate(),
            log_directory: self.log_directory.duplicate(),
            dns_config: self.dns_config.duplicate(),
            cgroup_parent: self.cgroup_parent.duplicate(),
            type_id: self.type_id,
            cloud_disk_ref: self.cloud_disk_ref.duplicate(),
            rw_size: self.rw_size.duplicate(),
            runtime_handler: self.runtime_handler.duplicate(),
        }
    }
}

impl Clone for CreateSandboxRequest {
    fn clone(&self) -> (r: Self)
        ensures
            r@ == self@,
    {
        self.duplicate()
    }
}

/// A request for a container.
#[derive(Debug, PartialEq)]
pub struct CreateContainerRequest {
    pub pod_sandbox_id: String,
    pub metadata: ContainerMetadata,
    pub image: String,
    pub command: Vec<String>,
    pub args: Vec<String>,
    pub working_dir: String,
    pub envs: Vec<KeyValue>,
    pub mounts: Vec<Mount>,
    pub labels: StrMap<String>,
    pub annotations: StrMap<String>,
    pub log_path: String,
    pub resources: LinuxResources,
    pub tty: bool,
    pub stdin: bool,
    pub stdin_once: bool,
}

/// The abstract value of [`CreateContainerRequest`].
#[verifier::ext_equal]
pub struct CreateContainerRequestView {
    pub pod_sandbox_id: Seq<char>,
    pub metadata: ContainerMetadataView,
    pub image: Seq<char>,
    pub command: Seq<Seq<char>>,
    pub args: Seq<Seq<char>>,
    pub working_dir: Seq<char>,
    pub envs: Seq<KeyValueView>,
    pub mounts: Seq<MountView>,
    pub labels: Map<Seq<char>, Seq<char>>,
    pub annotations: Map<Seq<char>, Seq<char>>,
    pub log_path: Seq<char>,
    pub resources: LinuxResources,
    pub tty: bool,
    pub stdin: bool,
    pub stdin_once: bool,
}

impl DeepView for CreateContainerRequest {
    type V = CreateContainerRequestView;

    open spec fn deep_view(&self) -> CreateContainerRequestView {
        CreateContainerRequestView {
            pod_sandbox_id: self.pod_sandbox_id@,
            metadata: self.metadata.deep_view(),
            image: self.image@,
            command: self.command.deep_view(),
            args: self.args.deep_view(),
            working_dir: self.working_dir@,
            envs: self.envs.deep_view(),
            mounts: self.mounts.deep_view(),
            labels: self.labels.deep_view(),
            annotations: self.annotations.deep_view(),
            log_path: self.log_path@,
            resources: self.resources,
            tty: self.tty,
            stdin: self.stdin,
            stdin_once: self.stdin_once,
        }
    }
}

impl View for CreateContainerRequest {
    type V = CreateContainerRequestView;

    open spec fn view(&self) -> CreateContainerRequestView {
        self.deep_view()
    }
}

impl Duplicate for CreateContainerRequest {
    fn duplicate(&self) -> (r: Self) {
        CreateContainerRequest {
            pod_sandbox_id: self.pod_sandbox_id.duplicate(),
            metadata: self.metadata.duplicate(),
            image: self.image.duplicate(),
            command: self.command.duplicate(),
            args: self.args.duplicate(),
            working_dir: self.working_dir.duplicate(),
            envs: self.envs.duplicate(),
            mounts: self.mounts.duplicate(),
            labels: self.labels.duplicate(),
            annotations: self.annotations.duplicate(),
            log_path: self.log_path.duplicate(),
            resources: self.resources,
            tty: self.tty,
            stdin: self.stdin,
            stdin_once: self.stdin_once,
        }
    }
}

impl Clone for CreateContainerRequest {
    fn clone(&self) -> (r: Self)
        ensures
            r@ == self@,
    {
        self.duplicate()
    }
}

/// What is known of an image.
#[derive(Debug, PartialEq)]
pub struct ImageInfo {
    pub id: String,
    pub repo_tags: Vec<String>,
    pub repo_digests: Vec<String>,
    pub size: u64,
    pub username: String,
    pub image_ref: String,
    pub pinned: bool,
}

/// The abstract value of [`ImageInfo`].
#[verifier::ext_equal]
pub struct ImageInfoView {
    pub id: Seq<char>,
    pub repo_tags: Seq<Seq<char>>,
    pub repo_digests: Seq<Seq<char>>,
    pub size: u64,
    pub username: Seq<char>,
    pub image_ref: Seq<char>,
    pub pinned: bool,
}

impl DeepView for ImageInfo {
    type V = ImageInfoView;

    open spec fn deep_view(&self) -> ImageInfoView {
        ImageInfoView {
            id: self.id@,
            repo_tags: self.repo_tags.deep_view(),
            repo_digests: self.repo_digests.deep_view(),
            size: self.size,
            username: self.username@,
            image_ref: self.image_ref@,
            pinned: self.pinned,
        }
    }
}

impl View for ImageInfo {
    type V = ImageInfoView;

    open spec fn view(&self) -> ImageInfoView {
        self.deep_view()
    }
}

impl Duplicate for ImageInfo {
    fn duplicate(&self) -> (r: Self) {
        ImageInfo {
            id: self.id.duplicate(),
            repo_tags: self.repo_tags.duplicate(),
            repo_digests: self.repo_digests.duplicate(),
            size: self.size,
            username: self.username.duplicate(),
            image_ref: self.image_ref.duplicate(),
            pinned: self.pinned,
        }
    }
}

impl Clone for ImageInfo {
    fn clone(&self) -> (r: Self)
        ensures
            r@ == self@,
    {
        self.duplicate()
    }
}

/// What the runtime calls itself.
#[derive(Debug, PartialEq)]
pub struct VersionInfo {
    pub runtime_name: String,
    pub runtime_version: String,
    pub runtime_api_version: String,
}

/// The abstract value of [`VersionInfo`].
#[verifier::ext_equal]
pub struct VersionInfoView {
    pub runtime_name: Seq<char>,
    pub runtime_version: Seq<char>,
    pub runtime_api_version: Seq<char>,
}

impl DeepView for VersionInfo {
    type V = VersionInfoView;

    open spec fn deep_view(&self) -> VersionInfoView {
        VersionInfoView {
            runtime_name: self.runtime_name@,
            runtime_version: self.runtime_version@,
            runtime_api_version: self.runtime_api_version@,
        }
    }
}

impl View for VersionInfo {
    type V = VersionInfoView;

    open spec fn view(&self) -> VersionInfoView {
        self.deep_view()
    }
}

impl Duplicate for VersionInfo {
    fn duplicate(&self) -> (r: Self) {
        VersionInfo {
            runtime_name: self.runtime_name.duplicate(),
            runtime_version: self.runtime_version.duplicate(),
            runtime_api_version: self.runtime_api_version.duplicate(),
        }
    }
}

impl Clone for VersionInfo {
    fn clone(&self) -> (r: Self)
        ensures
            r@ == self@,
    {
        self.duplicate()
    }
}

/// One condition of the runtime.
#[derive(Debug, PartialEq)]
pub struct RuntimeCondition {
    pub condition_type: String,
    pub status: bool,
    pub reason: String,
    pub message: String,
}

/// The abstract value of [`RuntimeCondition`].
#[verifier::ext_equal]
pub struct RuntimeConditionView {
    pub condition_type: Seq<char>,
    pub status: bool,
    pub reason: Seq<char>,
    pub message: Seq<char>,
}

impl DeepView for RuntimeCondition {
    type V = RuntimeConditionView;

    open spec fn deep_view(&self) -> RuntimeConditionView {
        RuntimeConditionView {
            condition_type: self.condition_type@,
            status: self.status,
            reason: self.reason@,
            message: self.message@,
        }
    }
}

impl View for RuntimeCondition {
    type V = RuntimeConditionView;

    open spec fn view(&self) -> RuntimeConditionView {
        self.deep_view()
    }
}

impl Duplicate for RuntimeCondition {
    fn duplicate(&self) -> (r: Self) {
        RuntimeCondition {
            condition_type: self.condition_type.duplicate(),
            status: self.status,
            reason: self.reason.duplicate(),
            message: self.message.duplicate(),
        }
    }
}

impl Clone for RuntimeCondition {
    fn clone(&self) -> (r: Self)
        ensures
            r@ == self@,
    {
        self.duplicate()
    }
}

/// The conditions of the runtime.
#[derive(Debug, PartialEq)]
pub struct RuntimeStatusInfo {
    pub conditions: Vec<RuntimeCondition>,
}

/// The abstract value of [`RuntimeStatusInfo`].
#[verifier::ext_equal]
pub struct RuntimeStatusInfoView {
    pub conditions: Seq<RuntimeConditionView>,
}

impl DeepView for RuntimeStatusInfo {
    type V = RuntimeStatusInfoView;

    open spec fn deep_view(&self) -> RuntimeStatusInfoView {
        RuntimeStatusInfoView {
            conditions: self.conditions.deep_view(),
        }
    }
}

impl View for RuntimeStatusInfo {
    type V = RuntimeStatusInfoView;

    open spec fn view(&self) -> RuntimeStatusInfoView {
        self.deep_view()
    }
}

impl Duplicate for RuntimeStatusInfo {
    fn duplicate(&self) -> (r: Self) {
        RuntimeStatusInfo {
            conditions: self.conditions.duplicate(),
        }
    }
}

impl Clone for RuntimeStatusInfo {
    fn clone(&self) -> (r: Self)
        ensures
            r@ == self@,
    {
        self.duplicate()
    }
}

/// What the runtime calls itself.
pub open spec fn own_version() -> VersionInfoView {
    VersionInfoView {
        runtime_name: "only-agent-sandbox"@,
        runtime_version: "0.1.0"@,
        runtime_api_version: "v1"@,
    }
}

/// What the runtime calls itself.
pub fn version() -> (r: VersionInfo)
    ensures
        r@ == own_version(),
{
    VersionInfo {
        runtime_name: "only-agent-sandbox".to_owned(),
        runtime_version: "0.1.0".to_owned(),
        runtime_api_version: "v1".to_owned(),
    }
}

/// A condition that holds.
pub open spec fn holds(name: Seq<char>) -> RuntimeConditionView {
    RuntimeConditionView { condition_type: name, status: true, reason: ""@, message: ""@ }
}

fn condition(name: &str) -> (r: RuntimeCondition)
    ensures
        r@ == holds(name@),
{
    RuntimeCondition {
        condition_type: name.to_owned(),
        status: true,
        reason: "".to_owned(),
        message: "".to_owned(),
    }
}

/// The conditions of the runtime: runtime and network are ready.
pub fn status() -> (r: RuntimeStatusInfo)
    ensures
        r@.conditions == seq![holds("RuntimeReady"@), holds("NetworkReady"@)],
{
    let r = RuntimeStatusInfo {
        conditions: vec![condition("RuntimeReady"), condition("NetworkReady")],
    };
    assert(r@.conditions =~= seq![holds("RuntimeReady"@), holds("NetworkReady"@)]);
    r
}

/// A manager without anything below it: it answers what needs no sandbox, has
/// none, and can make none.
#[derive(Debug, Clone, Copy)]
pub struct StubManager;

fn not_implemented() -> (e: OasError)
    ensures
        e@ == OasErrorView::Unavailable("manager not implemented (§3.2)"@),
{
    OasError::Unavailable("manager not implemented (§3.2)".to_owned())
}

impl Default for StubManager {
    fn default() -> (m: Self)
        ensures
            m == StubManager,
    {
        StubManager
    }
}

impl StubManager {
    pub fn new() -> (m: Self)
        ensures
            m == StubManager,
    {
        StubManager
    }

    pub fn version(&self) -> (r: Result<VersionInfo, OasError>)
        ensures
            r matches Ok(v) && v@ == own_version(),
    {
        Ok(version())
    }

    pub fn status(&self) -> (r: Result<RuntimeStatusInfo, OasError>)
        ensures
            r matches Ok(s) && s@.conditions == seq![
                holds("RuntimeReady"@),
                holds("NetworkReady"@),
            ],
    {
        Ok(status())
    }

    pub fn update_runtime_config(&self, pod_cidr: Option<&str>) -> (r: Result<(), OasError>)
        ensures
            r is Ok,
    {
        Ok(())
    }

    pub fn run_sandbox(&self, req: &CreateSandboxRequest) -> (r: Result<String, OasError>)
        ensures
            r matches Err(e) && e@ == OasErrorView::Unavailable(
                "manager not implemented (§3.2)"@,
            ),
    {
        Err(not_implemented())
    }

    pub fn stop_sandbox(&self, sandbox_id: &str) -> (r: Result<(), OasError>)
        ensures
            r is Ok,
    {
        Ok(())
    }

    pub fn remove_sandbox(&self, sandbox_id: &str) -> (r: Result<(), OasError>)
        ensures
            r is Ok,
    {
        Ok(())
    }

    pub fn sandbox_status(&self, sandbox_id: &str) -> (r: Result<SandboxRecord, OasError>)
        ensures
            r matches Err(e) && e@ == OasErrorView::NotFound(sandbox_id@),
    {
        Err(OasError::NotFound(sandbox_id.to_owned()))
    }

    pub fn list_sandboxes(&self, filter: &SandboxFilter) -> (r: Result<Vec<SandboxRecord>, OasError>)
        ensures
            r matches Ok(l) && l@.len() == 0,
    {
        Ok(Vec::new())
    }

    pub fn create_container(&self, req: &CreateContainerRequest) -> (r: Result<String, OasError>)
        ensures
            r matches Err(e) && e@ == OasErrorView::Unavailable(
                "manager not implemented (§3.2)"@,
            ),
    {
        Err(not_implemented())
    }

    pub fn start_container(&self, container_id: &str) -> (r: Result<(), OasError>)
        ensures
            r matches Err(e) && e@ == OasErrorView::NotFound(container_id@),
    {
        Err(OasError::NotFound(container_id.to_owned()))
    }

    pub fn stop_container(&self, container_id: &str, timeout: i64) -> (r: Result<(), OasError>)
        ensures
            r is Ok,
    {
        Ok(())
    }

    pub fn remove_container(&self, container_id: &str) -> (r: Result<(), OasError>)
        ensures
            r is Ok,
    {
        Ok(())
    }

    pub fn container_status(&self, container_id: &str) -> (r: Result<ContainerRecord, OasError>)
        ensures
            r matches Err(e) && e@ == OasErrorView::NotFound(container_id@),
    {
        Err(OasError::NotFound(container_id.to_owned()))
    }

    pub fn list_containers(&self, filter: &ContainerFilter) -> (r: Result<
        Vec<ContainerRecord>,
        OasError,
    >)
        ensures
            r matches Ok(l) && l@.len() == 0,
    {
        Ok(Vec::new())
    }

    pub fn image_status(&self, image: &str) -> (r: Result<Option<ImageInfo>, OasError>)
        ensures
            r matches Ok(i) && i is None,
    {
        Ok(None)
    }

    pub fn pull_image(&self, image: &str) -> (r: Result<String, OasError>)
        ensures
            r matches Err(e) && e@ == OasErrorView::Unavailable(
                "manager not implemented (§3.2)"@,
            ),
    {
        Err(not_implemented())
    }

    pub fn list_images(&self) -> (r: Result<Vec<ImageInfo>, OasError>)
        ensures
            r matches Ok(l) && l@.len() == 0,
    {
        Ok(Vec::new())
    }

    pub fn remove_image(&self, image: &str) -> (r: Result<(), OasError>)
        ensures
            r is Ok,
    {
        Ok(())
    }
}

} // verus!
