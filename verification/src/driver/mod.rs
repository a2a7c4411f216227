//! The layer below the sandboxes: microVMs, their jails and their shims.

use vstd::prelude::*;

use crate::model::Duplicate;
use crate::text;
use crate::types::SandboxId;

pub mod agent;
pub mod calls;
pub mod diag;
pub mod firecracker;
pub mod identity;
pub mod laws;
pub mod real_driver;
pub mod shim;
pub mod vm_core;

verus! {

/// The number of a microVM.
#[derive(Debug, Clone, Copy, PartialEq, Eq, Structural)]
pub struct VmId(pub u64);

impl DeepView for VmId {
    type V = VmId;

    open spec fn deep_view(&self) -> VmId {
        *self
    }
}

impl Duplicate for VmId {
    fn duplicate(&self) -> (r: Self) {
        *self
    }
}

/// The network that a microVM is started in.
#[derive(Debug, PartialEq)]
pub struct VmNet {
    pub netns_path: String,
    pub tap_name: String,
}

/// The abstract value of [`VmNet`].
#[verifier::ext_equal]
pub struct VmNetView {
    pub netns_path: Seq<char>,
    pub tap_name: Seq<char>,
}

impl DeepView for VmNet {
    type V = VmNetView;

    open spec fn deep_view(&self) -> VmNetView {
        VmNetView {
            netns_path: self.netns_path@,
            tap_name: self.tap_name@,
        }
    }
}

impl View for VmNet {
    type V = VmNetView;

    open spec fn view(&self) -> VmNetView {
        self.deep_view()
    }
}

impl Duplicate for VmNet {
    fn duplicate(&self) -> (r: Self) {
        VmNet {
            netns_path: self.netns_path.duplicate(),
            tap_name: self.tap_name.duplicate(),
        }
    }
}

impl Clone for VmNet {
    fn clone(&self) -> (r: Self)
        ensures
            r@ == self@,
    {
        self.duplicate()
    }
}

impl Default for VmNet {
    fn default() -> (r: Self)
        ensures
            r@ == (VmNetView { netns_path: seq![], tap_name: seq![] }),
    {
        VmNet { netns_path: String::new(), tap_name: String::new() }
    }
}

/// The stage of life of a microVM.
#[derive(Debug, Clone, Copy, PartialEq, Eq, Structural)]
pub enum VmLifecycle {
    Creating,
    Restoring,
    Running,
    Degraded,
    Stopping,
    Stopped,
}

impl DeepView for VmLifecycle {
    type V = VmLifecycle;

    open spec fn deep_view(&self) -> VmLifecycle {
        *self
    }
}

impl Duplicate for VmLifecycle {
    fn duplicate(&self) -> (r: Self) {
        *self
    }
}

/// What a microVM is found to be.
#[derive(Debug, PartialEq)]
pub struct VmStatus {
    pub id: SandboxId,
    pub started: bool,
    pub healthy: bool,
    pub lifecycle: VmLifecycle,
}

/// The abstract value of [`VmStatus`].
#[verifier::ext_equal]
pub struct VmStatusView {
    pub id: Seq<char>,
    pub started: bool,
    pub healthy: bool,
    pub lifecycle: VmLifecycle,
}

impl DeepView for VmStatus {
    type V = VmStatusView;

    open spec fn deep_view(&self) -> VmStatusView {
        VmStatusView {
            id: self.id@,
            started: self.started,
            healthy: self.healthy,
            lifecycle: self.lifecycle,
        }
    }
}

impl View for VmStatus {
    type V = VmStatusView;

    open spec fn view(&self) -> VmStatusView {
        self.deep_view()
    }
}

impl Duplicate for VmStatus {
    fn duplicate(&self) -> (r: Self) {
        VmStatus {
            id: self.id.duplicate(),
            started: self.started,
            healthy: self.healthy,
            lifecycle: self.lifecycle,
        }
    }
}

impl Clone for VmStatus {
    fn clone(&self) -> (r: Self)
        ensures
            r@ == self@,
    {
        self.duplicate()
    }
}

/// The disks of a microVM.
#[derive(Debug, PartialEq)]
pub struct VmSpec {
    /// The writable layer.
    pub rw_layer_path: Option<String>,
    /// The cloud disk.
    pub cloud_disk_dev: Option<String>,
}

/// The abstract value of [`VmSpec`].
#[verifier::ext_equal]
pub struct VmSpecView {
    pub rw_layer_path: Option<Seq<char>>,
    pub cloud_disk_dev: Option<Seq<char>>,
}

impl DeepView for VmSpec {
    type V = VmSpecView;

    open spec fn deep_view(&self) -> VmSpecView {
        VmSpecView {
            rw_layer_path: self.rw_layer_path.deep_view(),
            cloud_disk_dev: self.cloud_disk_dev.deep_view(),
        }
    }
}

impl View for VmSpec {
    type V = VmSpecView;

    open spec fn view(&self) -> VmSpecView {
        self.deep_view()
    }
}

impl Duplicate for VmSpec {
    fn duplicate(&self) -> (r: Self) {
        VmSpec {
            rw_layer_path: self.rw_layer_path.duplicate(),
            cloud_disk_dev: self.cloud_disk_dev.duplicate(),
        }
    }
}

impl Clone for VmSpec {
    fn clone(&self) -> (r: Self)
        ensures
            r@ == self@,
    {
        self.duplicate()
    }
}

impl Default for VmSpec {
    fn default() -> (r: Self)
        ensures
            r@ == (VmSpecView { rw_layer_path: None, cloud_disk_dev: None }),
    {
        VmSpec { rw_layer_path: None, cloud_disk_dev: None }
    }
}

/// Why the driver failed.
#[derive(Debug, PartialEq)]
pub enum DriverError {
    NotFound(String),
    Exists(String),
    Snapshot(String),
    FirecrackerApi(String),
    Shim(String),
    Unsupported(String),
    Io(String),
    Other(String),
}

/// The abstract value of [`DriverError`].
#[verifier::ext_equal]
pub enum DriverErrorView {
    NotFound(Seq<char>),
    Exists(Seq<char>),
    Snapshot(Seq<char>),
    FirecrackerApi(Seq<char>),
    Shim(Seq<char>),
    Unsupported(Seq<char>),
    Io(Seq<char>),
    Other(Seq<char>),
}

impl DeepView for DriverError {
    type V = DriverErrorView;

    open spec fn deep_view(&self) -> DriverErrorView {
        match *self {
            DriverError::NotFound(a) => DriverErrorView::NotFound(a@),
            DriverError::Exists(a) => DriverErrorView::Exists(a@),
            DriverError::Snapshot(a) => DriverErrorView::Snapshot(a@),
            DriverError::FirecrackerApi(a) => DriverErrorView::FirecrackerApi(a@),
            DriverError::Shim(a) => DriverErrorView::Shim(a@),
            DriverError::Unsupported(a) => DriverErrorView::Unsupported(a@),
            DriverError::Io(a) => DriverErrorView::Io(a@),
            DriverError::Other(a) => DriverErrorView::Other(a@),
        }
    }
}

impl View for DriverError {
    type V = DriverErrorView;

    open spec fn view(&self) -> DriverErrorView {
        self.deep_view()
    }
}

impl Duplicate for DriverError {
    fn duplicate(&self) -> (r: Self) {
        match self {
            DriverError::NotFound(a) => DriverError::NotFound(a.clone()),
            DriverError::Exists(a) => DriverError::Exists(a.clone()),
            DriverError::Snapshot(a) => DriverError::Snapshot(a.clone()),
            DriverError::FirecrackerApi(a) => DriverError::FirecrackerApi(a.clone()),
            DriverError::Shim(a) => DriverError::Shim(a.clone()),
            DriverError::Unsupported(a) => DriverError::Unsupported(a.clone()),
            DriverError::Io(a) => DriverError::Io(a.clone()),
            DriverError::Other(a) => DriverError::Other(a.clone()),
        }
    }
}

impl Clone for DriverError {
    fn clone(&self) -> (r: Self)
        ensures
            r@ == self@,
    {
        self.duplicate()
    }
}

impl DriverErrorView {
    /// The error as text.
    pub open spec fn text(self) -> Seq<char> {
        match self {
            DriverErrorView::NotFound(a) => "vm not found: "@ + a,
            DriverErrorView::Exists(a) => "vm already exists: "@ + a,
            DriverErrorView::Snapshot(a) => "snapshot error: "@ + a,
            DriverErrorView::FirecrackerApi(a) => "firecracker api error: "@ + a,
            DriverErrorView::Shim(a) => "shim error: "@ + a,
            DriverErrorView::Unsupported(a) => "not supported: "@ + a,
            DriverErrorView::Io(a) => "io error: "@ + a,
            DriverErrorView::Other(a) => a,
        }
    }
}

impl DriverError {
    /// The error as text.
    pub fn message(&self) -> (s: String)
        ensures
            s@ == self@.text(),
    {
        match self {
            DriverError::NotFound(a) => text::cat2("vm not found: ", a.as_str()),
            DriverError::Exists(a) => text::cat2("vm already exists: ", a.as_str()),
            DriverError::Snapshot(a) => text::cat2("snapshot error: ", a.as_str()),
            DriverError::FirecrackerApi(a) => text::cat2("firecracker api error: ", a.as_str()),
            DriverError::Shim(a) => text::cat2("shim error: ", a.as_str()),
            DriverError::Unsupported(a) => text::cat2("not supported: ", a.as_str()),
            DriverError::Io(a) => text::cat2("io error: ", a.as_str()),
            DriverError::Other(a) => a.clone(),
        }
    }
}

/// A process to run in a microVM.
#[derive(Debug, PartialEq)]
pub struct ContainerSpec {
    pub command: Vec<String>,
    pub args: Vec<String>,
    pub env: Vec<String>,
    pub cwd: String,
}

/// The abstract value of [`ContainerSpec`].
#[verifier::ext_equal]
pub struct ContainerSpecView {
    pub command: Seq<Seq<char>>,
    pub args: Seq<Seq<char>>,
    pub env: Seq<Seq<char>>,
    pub cwd: Seq<char>,
}

impl DeepView for ContainerSpec {
    type V = ContainerSpecView;

    open spec fn deep_view(&self) -> ContainerSpecView {
        ContainerSpecView {
            command: self.command.deep_view(),
            args: self.args.deep_view(),
            env: self.env.deep_view(),
            cwd: self.cwd@,
        }
    }
}

impl View for ContainerSpec {
    type V = ContainerSpecView;

    open spec fn view(&self) -> ContainerSpecView {
        self.deep_view()
    }
}

impl Duplicate for ContainerSpec {
    fn duplicate(&self) -> (r: Self) {
        ContainerSpec {
            command: self.command.duplicate(),
            args: self.args.duplicate(),
            env: self.env.duplicate(),
            cwd: self.cwd.duplicate(),
        }
    }
}

impl Clone for ContainerSpec {
    fn clone(&self) -> (r: Self)
        ensures
            r@ == self@,
    {
        self.duplicate()
    }
}

impl Default for ContainerSpec {
    fn default() -> (r: Self)
        ensures
            r@ == (ContainerSpecView {
                command: seq![],
                args: seq![],
                env: seq![],
                cwd: seq![],
            }),
    {
        let r = ContainerSpec {
            command: Vec::new(),
            args: Vec::new(),
            env: Vec::new(),
            cwd: String::new(),
        };
        assert(r@.command =~= seq![]);
        assert(r@.args =~= seq![]);
        assert(r@.env =~= seq![]);
        r
    }
}

/// The stage of life of a process in a microVM.
#[derive(Debug, Clone, Copy, PartialEq, Eq, Structural)]
pub enum ContainerRuntimeState {
    Created,
    Running,
    Exited,
}

impl DeepView for ContainerRuntimeState {
    type V = ContainerRuntimeState;

    open spec fn deep_view(&self) -> ContainerRuntimeState {
        *self
    }
}

impl Duplicate for ContainerRuntimeState {
    fn duplicate(&self) -> (r: Self) {
        *self
    }
}

/// What a process in a microVM is found to be.
#[derive(Debug, Clone, Copy, PartialEq)]
pub struct ContainerRuntimeStatus {
    pub state: Option<ContainerRuntimeState>,
    pub pid: Option<u32>,
    pub started_at: Option<i64>,
    pub exit_code: Option<i32>,
}

impl Default for ContainerRuntimeStatus {
    fn default() -> (r: Self)
        ensures
            r == (ContainerRuntimeStatus {
                state: None,
                pid: None,
                started_at: None,
                exit_code: None,
            }),
    {
        ContainerRuntimeStatus { state: None, pid: None, started_at: None, exit_code: None }
    }
}

} // verus!
