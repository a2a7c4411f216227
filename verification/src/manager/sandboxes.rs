//! The life of a sandbox: each operation as a sequence of steps. What a step
//! asks for is done elsewhere, and what came of it is handed back.

use vstd::prelude::*;

use crate::config::{Config, ConfigView, SandboxType};
use crate::driver::{
    ContainerSpec, ContainerSpecView, DriverError, DriverErrorView, VmId, VmLifecycle, VmSpec,
    VmSpecView,
};
use crate::manager::errors::{map_driver_err, map_net_err, map_storage_err, map_store_err};
use crate::manager::{
    CreateSandboxRequest, CreateSandboxRequestView, ImageInfo, ImageInfoView, OasError,
    OasErrorView,
};
use crate::model::Duplicate;
use crate::net::{NetConfig, NetConfigView, NetError, NetErrorView};
use crate::storage::{DiskConfig, DiskConfigView, StorageError, StorageErrorView};
use crate::store::{StoreError, StoreErrorView};
use crate::text;
use crate::types::{
    ContainerRecord, ContainerRecordView, IpLease, IpLeaseView, SandboxRecord, SandboxRecordView,
    SandboxState,
};

verus! {

/// What a step of an operation asks for.
#[derive(Debug, PartialEq)]
pub enum ManagerAction {
    /// Wait until no other operation works under this key.
    Lock(String),
    /// Read the sandbox of a pod.
    FindByUid(String),
    ReadSandbox(String),
    ReadContainer(String),
    PutSandbox(SandboxRecord),
    PutContainer(ContainerRecord),
    DeleteSandbox(String),
    DeleteContainer(String),
    NewSandboxId,
    NewContainerId,
    SetupNet(String),
    TeardownNet(NetConfig),
    Provision {
        sandbox_id: String,
        type_id: u8,
        cloud_disk_ref: Option<String>,
    },
    CleanupDisk(DiskConfig),
    CreateVm {
        sandbox_id: String,
        netns_path: String,
        tap_name: String,
        type_id: u8,
        spec: VmSpec,
    },
    WaitReady(VmId),
    DeleteVm {
        sandbox_id: String,
        vm_id: VmId,
    },
    GetVm {
        sandbox_id: String,
        vm_id: VmId,
    },
    /// Wait a moment.
    Pause,
    CreateContainer {
        sandbox_id: String,
        vm_id: VmId,
        container_id: String,
        process: ContainerSpec,
    },
    StartContainer {
        sandbox_id: String,
        vm_id: VmId,
        container_id: String,
    },
    StopContainer {
        sandbox_id: String,
        vm_id: VmId,
        container_id: String,
        timeout: i64,
    },
    RemoveContainer {
        sandbox_id: String,
        vm_id: VmId,
        container_id: String,
    },
    ContainerStatus {
        sandbox_id: String,
        vm_id: VmId,
        container_id: String,
    },
    /// The operation is over.
    Finish,
}

/// The abstract value of [`ManagerAction`].
#[verifier::ext_equal]
pub enum ManagerActionView {
    Lock(Seq<char>),
    FindByUid(Seq<char>),
    ReadSandbox(Seq<char>),
    ReadContainer(Seq<char>),
    PutSandbox(SandboxRecordView),
    PutContainer(ContainerRecordView),
    DeleteSandbox(Seq<char>),
    DeleteContainer(Seq<char>),
    NewSandboxId,
    NewContainerId,
    SetupNet(Seq<char>),
    TeardownNet(NetConfigView),
    Provision {
        sandbox_id: Seq<char>,
        type_id: u8,
        cloud_disk_ref: Option<Seq<char>>,
    },
    CleanupDisk(DiskConfigView),
    CreateVm {
        sandbox_id: Seq<char>,
        netns_path: Seq<char>,
        tap_name: Seq<char>,
        type_id: u8,
        spec: VmSpecView,
    },
    WaitReady(VmId),
    DeleteVm {
        sandbox_id: Seq<char>,
        vm_id: VmId,
    },
    GetVm {
        sandbox_id: Seq<char>,
        vm_id: VmId,
    },
    Pause,
    CreateContainer {
        sandbox_id: Seq<char>,
        vm_id: VmId,
        container_id: Seq<char>,
        process: ContainerSpecView,
    },
    StartContainer {
        sandbox_id: Seq<char>,
        vm_id: VmId,
        container_id: Seq<char>,
    },
    StopContainer {
        sandbox_id: Seq<char>,
        vm_id: VmId,
        container_id: Seq<char>,
        timeout: i64,
    },
    RemoveContainer {
        sandbox_id: Seq<char>,
        vm_id: VmId,
        container_id: Seq<char>,
    },
    ContainerStatus {
        sandbox_id: Seq<char>,
        vm_id: VmId,
        container_id: Seq<char>,
    },
    Finish,
}

impl DeepView for ManagerAction {
    type V = ManagerActionView;

    open spec fn deep_view(&self) -> ManagerActionView {
        match *self {
            ManagerAction::Lock(a) => ManagerActionView::Lock(a@),
            ManagerAction::FindByUid(a) => ManagerActionView::FindByUid(a@),
            ManagerAction::ReadSandbox(a) => ManagerActionView::ReadSandbox(a@),
            ManagerAction::ReadContainer(a) => ManagerActionView::ReadContainer(a@),
            ManagerAction::PutSandbox(a) => ManagerActionView::PutSandbox(a.deep_view()),
            ManagerAction::PutContainer(a) => ManagerActionView::PutContainer(a.deep_view()),
            ManagerAction::DeleteSandbox(a) => ManagerActionView::DeleteSandbox(a@),
            ManagerAction::DeleteContainer(a) => ManagerActionView::DeleteContainer(a@),
            ManagerAction::NewSandboxId => ManagerActionView::NewSandboxId,
            ManagerAction::NewContainerId => ManagerActionView::NewContainerId,
            ManagerAction::SetupNet(a) => ManagerActionView::SetupNet(a@),
            ManagerAction::TeardownNet(a) => ManagerActionView::TeardownNet(a.deep_view()),
            ManagerAction::Provision { sandbox_id, type_id, cloud_disk_ref } => ManagerActionView::Provision { sandbox_id: sandbox_id@, type_id, cloud_disk_ref: cloud_disk_ref.deep_view() },
            ManagerAction::CleanupDisk(a) => ManagerActionView::CleanupDisk(a.deep_view()),
            ManagerAction::CreateVm { sandbox_id, netns_path, tap_name, type_id, spec } => ManagerActionView::CreateVm { sandbox_id: sandbox_id@, netns_path: netns_path@, tap_name: tap_name@, type_id, spec: spec.deep_view() },
            ManagerAction::WaitReady(a) => ManagerActionView::WaitReady(a),
            ManagerAction::DeleteVm { sandbox_id, vm_id } => ManagerActionView::DeleteVm { sandbox_id: sandbox_id@, vm_id },
            ManagerAction::GetVm { sandbox_id, vm_id } => ManagerActionView::GetVm { sandbox_id: sandbox_id@, vm_id },
            ManagerAction::Pause => ManagerActionView::Pause,
            ManagerAction::CreateContainer { sandbox_id, vm_id, container_id, process } => ManagerActionView::CreateContainer { sandbox_id: sandbox_id@, vm_id, container_id: container_id@, process: process.deep_view() },
            ManagerAction::StartContainer { sandbox_id, vm_id, container_id } => ManagerActionView::StartContainer { sandbox_id: sandbox_id@, vm_id, container_id: container_id@ },
            ManagerAction::StopContainer { sandbox_id, vm_id, container_id, timeout } => ManagerActionView::StopContainer { sandbox_id: sandbox_id@, vm_id, container_id: container_id@, timeout },
            ManagerAction::RemoveContainer { sandbox_id, vm_id, container_id } => ManagerActionView::RemoveContainer { sandbox_id: sandbox_id@, vm_id, container_id: container_id@ },
            ManagerAction::ContainerStatus { sandbox_id, vm_id, container_id } => ManagerActionView::ContainerStatus { sandbox_id: sandbox_id@, vm_id, container_id: container_id@ },
            ManagerAction::Finish => ManagerActionView::Finish,
        }
    }
}

impl View for ManagerAction {
    type V = ManagerActionView;

    open spec fn view(&self) -> ManagerActionView {
        self.deep_view()
    }
}

impl Duplicate for ManagerAction {
    fn duplicate(&self) -> (r: Self) {
        match self {
            ManagerAction::Lock(a) => ManagerAction::Lock(a.duplicate()),
            ManagerAction::FindByUid(a) => ManagerAction::FindByUid(a.duplicate()),
            ManagerAction::ReadSandbox(a) => ManagerAction::ReadSandbox(a.duplicate()),
            ManagerAction::ReadContainer(a) => ManagerAction::ReadContainer(a.duplicate()),
            ManagerAction::PutSandbox(a) => ManagerAction::PutSandbox(a.duplicate()),
            ManagerAction::PutContainer(a) => ManagerAction::PutContainer(a.duplicate()),
            ManagerAction::DeleteSandbox(a) => ManagerAction::DeleteSandbox(a.duplicate()),
            ManagerAction::DeleteContainer(a) => ManagerAction::DeleteContainer(a.duplicate()),
            ManagerAction::NewSandboxId => ManagerAction::NewSandboxId,
            ManagerAction::NewContainerId => ManagerAction::NewContainerId,
            ManagerAction::SetupNet(a) => ManagerAction::SetupNet(a.duplicate()),
            ManagerAction::TeardownNet(a) => ManagerAction::TeardownNet(a.duplicate()),
            ManagerAction::Provision { sandbox_id, type_id, cloud_disk_ref } => ManagerAction::Provision { sandbox_id: sandbox_id.duplicate(), type_id: *type_id, cloud_disk_ref: cloud_disk_ref.duplicate() },
            ManagerAction::CleanupDisk(a) => ManagerAction::CleanupDisk(a.duplicate()),
            ManagerAction::CreateVm { sandbox_id, netns_path, tap_name, type_id, spec } => ManagerAction::CreateVm { sandbox_id: sandbox_id.duplicate(), netns_path: netns_path.duplicate(), tap_name: tap_name.duplicate(), type_id: *type_id, spec: spec.duplicate() },
            ManagerAction::WaitReady(a) => ManagerAction::WaitReady(*a),
            ManagerAction::DeleteVm { sandbox_id, vm_id } => ManagerAction::DeleteVm { sandbox_id: sandbox_id.duplicate(), vm_id: *vm_id },
            ManagerAction::GetVm { sandbox_id, vm_id } => ManagerAction::GetVm { sandbox_id: sandbox_id.duplicate(), vm_id: *vm_id },
            ManagerAction::Pause => ManagerAction::Pause,
            ManagerAction::CreateContainer { sandbox_id, vm_id, container_id, process } => ManagerAction::CreateContainer { sandbox_id: sandbox_id.duplicate(), vm_id: *vm_id, container_id: container_id.duplicate(), process: process.duplicate() },
            ManagerAction::StartContainer { sandbox_id, vm_id, container_id } => ManagerAction::StartContainer { sandbox_id: sandbox_id.duplicate(), vm_id: *vm_id, container_id: container_id.duplicate() },
            ManagerAction::StopContainer { sandbox_id, vm_id, container_id, timeout } => ManagerAction::StopContainer { sandbox_id: sandbox_id.duplicate(), vm_id: *vm_id, container_id: container_id.duplicate(), timeout: *timeout },
            ManagerAction::RemoveContainer { sandbox_id, vm_id, container_id } => ManagerAction::RemoveContainer { sandbox_id: sandbox_id.duplicate(), vm_id: *vm_id, container_id: container_id.duplicate() },
            ManagerAction::ContainerStatus { sandbox_id, vm_id, container_id } => ManagerAction::ContainerStatus { sandbox_id: sandbox_id.duplicate(), vm_id: *vm_id, container_id: container_id.duplicate() },
            ManagerAction::Finish => ManagerAction::Finish,
        }
    }
}

impl Clone for ManagerAction {
    fn clone(&self) -> (r: Self)
        ensures
            r@ == self@,
    {
        self.duplicate()
    }
}

/// What came of a step.
#[derive(Debug, PartialEq)]
pub enum ManagerReply {
    Done,
    Found(Result<Option<SandboxRecord>, StoreError>),
    Sandbox(Result<SandboxRecord, StoreError>),
    Container(Result<ContainerRecord, StoreError>),
    Stored(Result<(), StoreError>),
    Id(String),
    Net(Result<NetConfig, NetError>),
    Disk(Result<DiskConfig, StorageError>),
    Vm(Result<VmId, DriverError>),
    Ready(Result<(), OasError>),
    Lifecycle(Result<VmLifecycle, DriverError>),
    Driver(Result<(), DriverError>),
}

/// The abstract value of [`ManagerReply`].
#[verifier::ext_equal]
pub enum ManagerReplyView {
    Done,
    Found(Result<Option<SandboxRecordView>, StoreErrorView>),
    Sandbox(Result<SandboxRecordView, StoreErrorView>),
    Container(Result<ContainerRecordView, StoreErrorView>),
    Stored(Result<(), StoreErrorView>),
    Id(Seq<char>),
    Net(Result<NetConfigView, NetErrorView>),
    Disk(Result<DiskConfigView, StorageErrorView>),
    Vm(Result<VmId, DriverErrorView>),
    Ready(Result<(), OasErrorView>),
    Lifecycle(Result<VmLifecycle, DriverErrorView>),
    Driver(Result<(), DriverErrorView>),
}

impl DeepView for ManagerReply {
    type V = ManagerReplyView;

    open spec fn deep_view(&self) -> ManagerReplyView {
        match *self {
            ManagerReply::Done => ManagerReplyView::Done,
            ManagerReply::Found(a) => ManagerReplyView::Found(crate::model::result_view(a)),
            ManagerReply::Sandbox(a) => ManagerReplyView::Sandbox(crate::model::result_view(a)),
            ManagerReply::Container(a) => ManagerReplyView::Container(crate::model::result_view(a)),
            ManagerReply::Stored(a) => ManagerReplyView::Stored(crate::model::result_view(a)),
            ManagerReply::Id(a) => ManagerReplyView::Id(a@),
            ManagerReply::Net(a) => ManagerReplyView::Net(crate::model::result_view(a)),
            ManagerReply::Disk(a) => ManagerReplyView::Disk(crate::model::result_view(a)),
            ManagerReply::Vm(a) => ManagerReplyView::Vm(crate::model::result_view(a)),
            ManagerReply::Ready(a) => ManagerReplyView::Ready(crate::model::result_view(a)),
            ManagerReply::Lifecycle(a) => ManagerReplyView::Lifecycle(crate::model::result_view(a)),
            ManagerReply::Driver(a) => ManagerReplyView::Driver(crate::model::result_view(a)),
        }
    }
}

impl View for ManagerReply {
    type V = ManagerReplyView;

    open spec fn view(&self) -> ManagerReplyView {
        self.deep_view()
    }
}

impl Duplicate for ManagerReply {
    fn duplicate(&self) -> (r: Self) {
        match self {
            ManagerReply::Done => ManagerReply::Done,
            ManagerReply::Found(a) => ManagerReply::Found(crate::model::duplicate_result(a)),
            ManagerReply::Sandbox(a) => ManagerReply::Sandbox(crate::model::duplicate_result(a)),
            ManagerReply::Container(a) => ManagerReply::Container(crate::model::duplicate_result(a)),
            ManagerReply::Stored(a) => ManagerReply::Stored(crate::model::duplicate_result(a)),
            ManagerReply::Id(a) => ManagerReply::Id(a.duplicate()),
            ManagerReply::Net(a) => ManagerReply::Net(crate::model::duplicate_result(a)),
            ManagerReply::Disk(a) => ManagerReply::Disk(crate::model::duplicate_result(a)),
            ManagerReply::Vm(a) => ManagerReply::Vm(crate::model::duplicate_result(a)),
            ManagerReply::Ready(a) => ManagerReply::Ready(crate::model::duplicate_result(a)),
            ManagerReply::Lifecycle(a) => ManagerReply::Lifecycle(crate::model::duplicate_result(a)),
            ManagerReply::Driver(a) => ManagerReply::Driver(crate::model::duplicate_result(a)),
        }
    }
}

impl Clone for ManagerReply {
    fn clone(&self) -> (r: Self)
        ensures
            r@ == self@,
    {
        self.duplicate()
    }
}

/// How far a request for a sandbox has come.
#[derive(Debug, PartialEq)]
pub enum RunPhase {
    Lock,
    Find,
    NewId,
    Setup(String),
    Provision(String, NetConfig),
    CreateVm(String, NetConfig, DiskConfig),
    Ready(String, NetConfig, DiskConfig, VmId),
    Put(SandboxRecord, NetConfig, DiskConfig, VmId),
    /// The way back, from the microVM on.
    DeleteVm(String, NetConfig, DiskConfig, VmId, OasError),
    /// The way back, from the disks on.
    Cleanup(NetConfig, DiskConfig, OasError),
    /// The way back, from the network on.
    Teardown(NetConfig, OasError),
    Done(Result<String, OasError>),
}

/// The abstract value of [`RunPhase`].
#[verifier::ext_equal]
pub enum RunPhaseView {
    Lock,
    Find,
    NewId,
    Setup(Seq<char>),
    Provision(Seq<char>, NetConfigView),
    CreateVm(Seq<char>, NetConfigView, DiskConfigView),
    Ready(Seq<char>, NetConfigView, DiskConfigView, VmId),
    Put(SandboxRecordView, NetConfigView, DiskConfigView, VmId),
    DeleteVm(Seq<char>, NetConfigView, DiskConfigView, VmId, OasErrorView),
    Cleanup(NetConfigView, DiskConfigView, OasErrorView),
    Teardown(NetConfigView, OasErrorView),
    Done(Result<Seq<char>, OasErrorView>),
}

impl DeepView for RunPhase {
    type V = RunPhaseView;

    open spec fn deep_view(&self) -> RunPhaseView {
        match *self {
            RunPhase::Lock => RunPhaseView::Lock,
            RunPhase::Find => RunPhaseView::Find,
            RunPhase::NewId => RunPhaseView::NewId,
            RunPhase::Setup(a) => RunPhaseView::Setup(a@),
            RunPhase::Provision(a, b) => RunPhaseView::Provision(a@, b.deep_view()),
            RunPhase::CreateVm(a, b, c) => RunPhaseView::CreateVm(a@, b.deep_view(), c.deep_view()),
            RunPhase::Ready(a, b, c, d) => RunPhaseView::Ready(a@, b.deep_view(), c.deep_view(), d),
            RunPhase::Put(a, b, c, d) => RunPhaseView::Put(a.deep_view(), b.deep_view(), c.deep_view(), d),
            RunPhase::DeleteVm(a, b, c, d, e) => RunPhaseView::DeleteVm(a@, b.deep_view(), c.deep_view(), d, e.deep_view()),
            RunPhase::Cleanup(a, b, c) => RunPhaseView::Cleanup(a.deep_view(), b.deep_view(), c.deep_view()),
            RunPhase::Teardown(a, b) => RunPhaseView::Teardown(a.deep_view(), b.deep_view()),
            RunPhase::Done(a) => RunPhaseView::Done(crate::model::result_view(a)),
        }
    }
}

impl View for RunPhase {
    type V = RunPhaseView;

    open spec fn view(&self) -> RunPhaseView {
        self.deep_view()
    }
}

impl Duplicate for RunPhase {
    fn duplicate(&self) -> (r: Self) {
        match self {
            RunPhase::Lock => RunPhase::Lock,
            RunPhase::Find => RunPhase::Find,
            RunPhase::NewId => RunPhase::NewId,
            RunPhase::Setup(a) => RunPhase::Setup(a.duplicate()),
            RunPhase::Provision(a, b) => RunPhase::Provision(a.duplicate(), b.duplicate()),
            RunPhase::CreateVm(a, b, c) => RunPhase::CreateVm(a.duplicate(), b.duplicate(), c.duplicate()),
            RunPhase::Ready(a, b, c, d) => RunPhase::Ready(a.duplicate(), b.duplicate(), c.duplicate(), *d),
            RunPhase::Put(a, b, c, d) => RunPhase::Put(a.duplicate(), b.duplicate(), c.duplicate(), *d),
            RunPhase::DeleteVm(a, b, c, d, e) => RunPhase::DeleteVm(a.duplicate(), b.duplicate(), c.duplicate(), *d, e.duplicate()),
            RunPhase::Cleanup(a, b, c) => RunPhase::Cleanup(a.duplicate(), b.duplicate(), c.duplicate()),
            RunPhase::Teardown(a, b) => RunPhase::Teardown(a.duplicate(), b.duplicate()),
            RunPhase::Done(a) => RunPhase::Done(crate::model::duplicate_result(a)),
        }
    }
}

impl Clone for RunPhase {
    fn clone(&self) -> (r: Self)
        ensures
            r@ == self@,
    {
        self.duplicate()
    }
}

/// A request for a sandbox on its way.
#[derive(Debug, PartialEq)]
pub struct RunSandbox {
    pub req: CreateSandboxRequest,
    pub cfg: Config,
    pub phase: RunPhase,
}

/// The abstract value of [`RunSandbox`].
#[verifier::ext_equal]
pub struct RunSandboxView {
    pub req: CreateSandboxRequestView,
    pub cfg: ConfigView,
    pub phase: RunPhaseView,
}

impl DeepView for RunSandbox {
    type V = RunSandboxView;

    open spec fn deep_view(&self) -> RunSandboxView {
        RunSandboxView {
            req: self.req.deep_view(),
            cfg: self.cfg.deep_view(),
            phase: self.phase.deep_view(),
        }
    }
}

impl View for RunSandbox {
    type V = RunSandboxView;

    open spec fn view(&self) -> RunSandboxView {
        self.deep_view()
    }
}

impl Duplicate for RunSandbox {
    fn duplicate(&self) -> (r: Self) {
        RunSandbox {
            req: self.req.duplicate(),
            cfg: self.cfg.duplicate(),
            phase: self.phase.duplicate(),
        }
    }
}

impl Clone for RunSandbox {
    fn clone(&self) -> (r: Self)
        ensures
            r@ == self@,
    {
        self.duplicate()
    }
}

/// How far the stopping of a sandbox has come.
#[derive(Debug, PartialEq)]
pub enum StopPhase {
    Lock,
    Read,
    DeleteVm(SandboxRecord),
    /// The microVM was looked at this often.
    Poll(SandboxRecord, u8),
    Pause(SandboxRecord, u8),
    Teardown(SandboxRecord),
    Put(SandboxRecord),
    Done(Result<(), OasError>),
}

/// The abstract value of [`StopPhase`].
#[verifier::ext_equal]
pub enum StopPhaseView {
    Lock,
    Read,
    DeleteVm(SandboxRecordView),
    Poll(SandboxRecordView, u8),
    Pause(SandboxRecordView, u8),
    Teardown(SandboxRecordView),
    Put(SandboxRecordView),
    Done(Result<(), OasErrorView>),
}

impl DeepView for StopPhase {
    type V = StopPhaseView;

    open spec fn deep_view(&self) -> StopPhaseView {
        match *self {
            StopPhase::Lock => StopPhaseView::Lock,
            StopPhase::Read => StopPhaseView::Read,
            StopPhase::DeleteVm(a) => StopPhaseView::DeleteVm(a.deep_view()),
            StopPhase::Poll(a, b) => StopPhaseView::Poll(a.deep_view(), b),
            StopPhase::Pause(a, b) => StopPhaseView::Pause(a.deep_view(), b),
            StopPhase::Teardown(a) => StopPhaseView::Teardown(a.deep_view()),
            StopPhase::Put(a) => StopPhaseView::Put(a.deep_view()),
            StopPhase::Done(a) => StopPhaseView::Done(crate::model::result_view(a)),
        }
    }
}

impl View for StopPhase {
    type V = StopPhaseView;

    open spec fn view(&self) -> StopPhaseView {
        self.deep_view()
    }
}

impl Duplicate for StopPhase {
    fn duplicate(&self) -> (r: Self) {
        match self {
            StopPhase::Lock => StopPhase::Lock,
            StopPhase::Read => StopPhase::Read,
            StopPhase::DeleteVm(a) => StopPhase::DeleteVm(a.duplicate()),
            StopPhase::Poll(a, b) => StopPhase::Poll(a.duplicate(), *b),
            StopPhase::Pause(a, b) => StopPhase::Pause(a.duplicate(), *b),
            StopPhase::Teardown(a) => StopPhase::Teardown(a.duplicate()),
            StopPhase::Put(a) => StopPhase::Put(a.duplicate()),
            StopPhase::Done(a) => StopPhase::Done(crate::model::duplicate_result(a)),
        }
    }
}

impl Clone for StopPhase {
    fn clone(&self) -> (r: Self)
        ensures
            r@ == self@,
    {
        self.duplicate()
    }
}

/// The stopping of a sandbox on its way.
#[derive(Debug, PartialEq)]
pub struct StopSandbox {
    pub sandbox_id: String,
    pub phase: StopPhase,
}

/// The abstract value of [`StopSandbox`].
#[verifier::ext_equal]
pub struct StopSandboxView {
    pub sandbox_id: Seq<char>,
    pub phase: StopPhaseView,
}

impl DeepView for StopSandbox {
    type V = StopSandboxView;

    open spec fn deep_view(&self) -> StopSandboxView {
        StopSandboxView {
            sandbox_id: self.sandbox_id@,
            phase: self.phase.deep_view(),
        }
    }
}

impl View for StopSandbox {
    type V = StopSandboxView;

    open spec fn view(&self) -> StopSandboxView {
        self.deep_view()
    }
}

impl Duplicate for StopSandbox {
    fn duplicate(&self) -> (r: Self) {
        StopSandbox {
            sandbox_id: self.sandbox_id.duplicate(),
            phase: self.phase.duplicate(),
        }
    }
}

impl Clone for StopSandbox {
    fn clone(&self) -> (r: Self)
        ensures
            r@ == self@,
    {
        self.duplicate()
    }
}

/// How far the removal of a sandbox has come.
#[derive(Debug, PartialEq)]
pub enum RemovePhase {
    Lock,
    Read,
    Cleanup(DiskConfig),
    Delete,
    Done(Result<(), OasError>),
}

/// The abstract value of [`RemovePhase`].
#[verifier::ext_equal]
pub enum RemovePhaseView {
    Lock,
    Read,
    Cleanup(DiskConfigView),
    Delete,
    Done(Result<(), OasErrorView>),
}

impl DeepView for RemovePhase {
    type V = RemovePhaseView;

    open spec fn deep_view(&self) -> RemovePhaseView {
        match *self {
            RemovePhase::Lock => RemovePhaseView::Lock,
            RemovePhase::Read => RemovePhaseView::Read,
            RemovePhase::Cleanup(a) => RemovePhaseView::Cleanup(a.deep_view()),
            RemovePhase::Delete => RemovePhaseView::Delete,
            RemovePhase::Done(a) => RemovePhaseView::Done(crate::model::result_view(a)),
        }
    }
}

impl View for RemovePhase {
    type V = RemovePhaseView;

    open spec fn view(&self) -> RemovePhaseView {
        self.deep_view()
    }
}

impl Duplicate for RemovePhase {
    fn duplicate(&self) -> (r: Self) {
        match self {
            RemovePhase::Lock => RemovePhase::Lock,
            RemovePhase::Read => RemovePhase::Read,
            RemovePhase::Cleanup(a) => RemovePhase::Cleanup(a.duplicate()),
            RemovePhase::Delete => RemovePhase::Delete,
            RemovePhase::Done(a) => RemovePhase::Done(crate::model::duplicate_result(a)),
        }
    }
}

impl Clone for RemovePhase {
    fn clone(&self) -> (r: Self)
        ensures
            r@ == self@,
    {
        self.duplicate()
    }
}

/// The removal of a sandbox on its way.
#[derive(Debug, PartialEq)]
pub struct RemoveSandbox {
    pub sandbox_id: String,
    pub phase: RemovePhase,
}

/// The abstract value of [`RemoveSandbox`].
#[verifier::ext_equal]
pub struct RemoveSandboxView {
    pub sandbox_id: Seq<char>,
    pub phase: RemovePhaseView,
}

impl DeepView for RemoveSandbox {
    type V = RemoveSandboxView;

    open spec fn deep_view(&self) -> RemoveSandboxView {
        RemoveSandboxView {
            sandbox_id: self.sandbox_id@,
            phase: self.phase.deep_view(),
        }
    }
}

impl View for RemoveSandbox {
    type V = RemoveSandboxView;

    open spec fn view(&self) -> RemoveSandboxView {
        self.deep_view()
    }
}

impl Duplicate for RemoveSandbox {
    fn duplicate(&self) -> (r: Self) {
        RemoveSandbox {
            sandbox_id: self.sandbox_id.duplicate(),
            phase: self.phase.duplicate(),
        }
    }
}

impl Clone for RemoveSandbox {
    fn clone(&self) -> (r: Self)
        ensures
            r@ == self@,
    {
        self.duplicate()
    }
}

/// Why a request for a sandbox is refused before anything is made, if it is:
/// its type must be known, and it must name a cloud disk just where the type
/// has one.
pub open spec fn refusal(cfg: ConfigView, req: CreateSandboxRequestView) -> Option<OasErrorView> {
    let n = text::dec(req.type_id as nat);
    match cfg.get_type(req.type_id) {
        None => Some(OasErrorView::InvalidArgument("unknown type_id: "@ + n)),
        Some(ty) => if ty.has_cloud_disk && req.cloud_disk_ref is None {
            Some(OasErrorView::InvalidArgument("type "@ + n + " requires cloud-disk annotation"@))
        } else if !ty.has_cloud_disk && req.cloud_disk_ref is Some {
            Some(OasErrorView::InvalidArgument("type "@ + n + " does not accept cloud-disk"@))
        } else {
            None
        },
    }
}

/// The type with a number. One that is not in the table is refused.
pub fn known_type(cfg: &Config, type_id: u8) -> (r: Result<&SandboxType, OasError>)
    ensures
        match r {
            Ok(t) => cfg@.get_type(type_id) == Some(t@),
            Err(e) => cfg@.get_type(type_id) is None && e@ == OasErrorView::InvalidArgument(
                "unknown type_id: "@ + text::dec(type_id as nat),
            ),
        },
{
    match cfg.get_type(type_id) {
        Some(t) => Ok(t),
        None => Err(
            OasError::InvalidArgument(
                text::cat2("unknown type_id: ", text::dec_string(type_id as u64).as_str()),
            ),
        ),
    }
}

fn check(cfg: &Config, req: &CreateSandboxRequest) -> (r: Option<OasError>)
    ensures
        r.deep_view() == refusal(cfg@, req@),
{
    let n = text::dec_string(req.type_id as u64);
    match known_type(cfg, req.type_id) {
        Err(e) => Some(e),
        Ok(ty) => {
            if ty.has_cloud_disk && req.cloud_disk_ref.is_none() {
                Some(
                    OasError::InvalidArgument(
                        text::cat3("type ", n.as_str(), " requires cloud-disk annotation"),
                    ),
                )
            } else if !ty.has_cloud_disk && req.cloud_disk_ref.is_some() {
                Some(
                    OasError::InvalidArgument(
                        text::cat3("type ", n.as_str(), " does not accept cloud-disk"),
                    ),
                )
            } else {
                None
            }
        },
    }
}

/// The record of a sandbox that was made for a request.
pub open spec fn record_of(
    req: CreateSandboxRequestView,
    id: Seq<char>,
    net: NetConfigView,
    disk: DiskConfigView,
    vm: VmId,
    now: i64,
) -> SandboxRecordView {
    SandboxRecordView {
        sandbox_id: id,
        pod_uid: req.metadata.uid,
        metadata: req.metadata,
        labels: req.labels,
        annotations: req.annotations,
        type_id: req.type_id,
        runtime_handler: req.runtime_handler,
        vm_id: vm.0,
        netns_path: net.netns_path,
        tap_name: net.tap_name,
        mac: net.mac,
        pod_ip: net.pod_ip,
        gateway: net.gateway,
        rw_layer_path: disk.rw_layer_path,
        cloud_disk_dev: disk.cloud_disk_dev,
        state: SandboxState::Ready,
        created_at: now,
        host_veth: net.host_veth,
    }
}

fn record(
    req: &CreateSandboxRequest,
    id: &String,
    net: &NetConfig,
    disk: &DiskConfig,
    vm: VmId,
    now: i64,
) -> (r: SandboxRecord)
    ensures
        r@ == record_of(req@, id@, net@, disk@, vm, now),
{
    SandboxRecord {
        sandbox_id: id.clone(),
        pod_uid: req.metadata.uid.clone(),
        metadata: req.metadata.duplicate(),
        labels: req.labels.duplicate(),
        annotations: req.annotations.duplicate(),
        type_id: req.type_id,
        runtime_handler: req.runtime_handler.clone(),
        vm_id: vm.0,
        netns_path: net.netns_path.clone(),
        tap_name: net.tap_name.clone(),
        mac: net.mac.clone(),
        pod_ip: net.pod_ip.clone(),
        gateway: net.gateway.clone(),
        rw_layer_path: disk.rw_layer_path.duplicate(),
        cloud_disk_dev: disk.cloud_disk_dev.duplicate(),
        state: SandboxState::Ready,
        created_at: now,
        host_veth: net.host_veth.clone(),
    }
}

impl RunSandboxView {
    /// What is to be done.
    pub open spec fn wants(self) -> ManagerActionView {
        match self.phase {
            RunPhaseView::Lock => ManagerActionView::Lock(self.req.metadata.uid),
            RunPhaseView::Find => ManagerActionView::FindByUid(self.req.metadata.uid),
            RunPhaseView::NewId => ManagerActionView::NewSandboxId,
            RunPhaseView::Setup(id) => ManagerActionView::SetupNet(id),
            RunPhaseView::Provision(id, _) => ManagerActionView::Provision {
                sandbox_id: id,
                type_id: self.req.type_id,
                cloud_disk_ref: self.req.cloud_disk_ref,
            },
            RunPhaseView::CreateVm(id, net, disk) => ManagerActionView::CreateVm {
                sandbox_id: id,
                netns_path: net.netns_path,
                tap_name: net.tap_name,
                type_id: self.req.type_id,
                spec: VmSpecView {
                    rw_layer_path: disk.rw_layer_path,
                    cloud_disk_dev: disk.cloud_disk_dev,
                },
            },
            RunPhaseView::Ready(_, _, _, vm) => ManagerActionView::WaitReady(vm),
            RunPhaseView::Put(rec, _, _, _) => ManagerActionView::PutSandbox(rec),
            RunPhaseView::DeleteVm(id, _, _, vm, _) => ManagerActionView::DeleteVm {
                sandbox_id: id,
                vm_id: vm,
            },
            RunPhaseView::Cleanup(_, disk, _) => ManagerActionView::CleanupDisk(disk),
            RunPhaseView::Teardown(net, _) => ManagerActionView::TeardownNet(net),
            RunPhaseView::Done(_) => ManagerActionView::Finish,
        }
    }

    /// What follows when the sandbox of the pod was looked for: one that is
    /// ready is the answer, one that is not stands in the way, and where there
    /// is none the request is checked.
    pub open spec fn looked(self, found: Option<SandboxRecordView>) -> RunPhaseView {
        match found {
            Some(s) => if s.state == SandboxState::Ready {
                RunPhaseView::Done(Ok(s.sandbox_id))
            } else {
                RunPhaseView::Done(
                    Err(
                        OasErrorView::Conflict(
                            "sandbox "@ + s.sandbox_id + " exists but not ready; remove first"@,
                        ),
                    ),
                )
            },
            None => match refusal(self.cfg, self.req) {
                Some(e) => RunPhaseView::Done(Err(e)),
                None => RunPhaseView::NewId,
            },
        }
    }

    /// What follows a reply that came at the time `now`. An error leads back
    /// over all that was made, in reverse order, and is returned in the end. A
    /// reply that does not belong to what was to be done changes nothing.
    pub open spec fn after(self, reply: ManagerReplyView, now: i64) -> RunPhaseView {
        match (self.phase, reply) {
            (RunPhaseView::Lock, ManagerReplyView::Done) => RunPhaseView::Find,
            (RunPhaseView::Find, ManagerReplyView::Found(r)) => match r {
                Ok(found) => self.looked(found),
                Err(e) => RunPhaseView::Done(Err(crate::manager::errors::of_store(e))),
            },
            (RunPhaseView::NewId, ManagerReplyView::Id(id)) => RunPhaseView::Setup(id),
            (RunPhaseView::Setup(id), ManagerReplyView::Net(r)) => match r {
                Ok(net) => RunPhaseView::Provision(id, net),
                Err(e) => RunPhaseView::Done(Err(crate::manager::errors::of_net(e))),
            },
            (RunPhaseView::Provision(id, net), ManagerReplyView::Disk(r)) => match r {
                Ok(disk) => RunPhaseView::CreateVm(id, net, disk),
                Err(e) => RunPhaseView::Teardown(net, crate::manager::errors::of_storage(e)),
            },
            (RunPhaseView::CreateVm(id, net, disk), ManagerReplyView::Vm(r)) => match r {
                Ok(vm) => RunPhaseView::Ready(id, net, disk, vm),
                Err(e) => RunPhaseView::Cleanup(net, disk, crate::manager::errors::of_driver(e)),
            },
            (RunPhaseView::Ready(id, net, disk, vm), ManagerReplyView::Ready(r)) => match r {
                Ok(_) => RunPhaseView::Put(
                    record_of(self.req, id, net, disk, vm, now),
                    net,
                    disk,
                    vm,
                ),
                Err(e) => RunPhaseView::DeleteVm(id, net, disk, vm, e),
            },
            (RunPhaseView::Put(rec, net, disk, vm), ManagerReplyView::Stored(r)) => match r {
                Ok(_) => RunPhaseView::Done(Ok(rec.sandbox_id)),
                Err(e) => RunPhaseView::DeleteVm(
                    rec.sandbox_id,
                    net,
                    disk,
                    vm,
                    crate::manager::errors::of_store(e),
                ),
            },
            (
                RunPhaseView::DeleteVm(_, net, disk, _, e),
                ManagerReplyView::Done,
            ) => RunPhaseView::Cleanup(net, disk, e),
            (RunPhaseView::Cleanup(net, _, e), ManagerReplyView::Done) => RunPhaseView::Teardown(
                net,
                e,
            ),
            (RunPhaseView::Teardown(_, e), ManagerReplyView::Done) => RunPhaseView::Done(Err(e)),
            (p, _) => p,
        }
    }
}

impl RunSandbox {
    /// What is to be done.
    pub fn action(&self) -> (a: ManagerAction)
        ensures
            a@ == self@.wants(),
    {
        match &self.phase {
            RunPhase::Lock => ManagerAction::Lock(self.req.metadata.uid.clone()),
            RunPhase::Find => ManagerAction::FindByUid(self.req.metadata.uid.clone()),
            RunPhase::NewId => ManagerAction::NewSandboxId,
            RunPhase::Setup(id) => ManagerAction::SetupNet(id.clone()),
            RunPhase::Provision(id, _) => ManagerAction::Provision {
                sandbox_id: id.clone(),
                type_id: self.req.type_id,
                cloud_disk_ref: self.req.cloud_disk_ref.duplicate(),
            },
            RunPhase::CreateVm(id, net, disk) => ManagerAction::CreateVm {
                sandbox_id: id.clone(),
                netns_path: net.netns_path.clone(),
                tap_name: net.tap_name.clone(),
                type_id: self.req.type_id,
                spec: VmSpec {
                    rw_layer_path: disk.rw_layer_path.duplicate(),
                    cloud_disk_dev: disk.cloud_disk_dev.duplicate(),
                },
            },
            RunPhase::Ready(_, _, _, vm) => ManagerAction::WaitReady(*vm),
            RunPhase::Put(rec, _, _, _) => ManagerAction::PutSandbox(rec.duplicate()),
            RunPhase::DeleteVm(id, _, _, vm, _) => ManagerAction::DeleteVm {
                sandbox_id: id.clone(),
                vm_id: *vm,
            },
            RunPhase::Cleanup(_, disk, _) => ManagerAction::CleanupDisk(disk.duplicate()),
            RunPhase::Teardown(net, _) => ManagerAction::TeardownNet(net.duplicate()),
            RunPhase::Done(_) => ManagerAction::Finish,
        }
    }

    fn looked(&self, found: Option<SandboxRecord>) -> (p: RunPhase)
        ensures
            p@ == self@.looked(found.deep_view()),
    {
        match found {
            Some(s) => {
                if s.state == SandboxState::Ready {
                    RunPhase::Done(Ok(s.sandbox_id))
                } else {
                    RunPhase::Done(
                        Err(
                            OasError::Conflict(
                                text::cat3(
                                    "sandbox ",
                                    s.sandbox_id.as_str(),
                                    " exists but not ready; remove first",
                                ),
                            ),
                        ),
                    )
                }
            },
            None => match check(&self.cfg, &self.req) {
                Some(e) => RunPhase::Done(Err(e)),
                None => RunPhase::NewId,
            },
        }
    }

    /// Takes the reply to what was to be done, which came at the time `now`.
    pub fn advance(&mut self, reply: ManagerReply, now: i64)
        ensures
            final(self)@ == (RunSandboxView {
                phase: old(self)@.after(reply@, now),
                ..old(self)@
            }),
    {
        let p = match (&self.phase, reply) {
            (RunPhase::Lock, ManagerReply::Done) => RunPhase::Find,
            (RunPhase::Find, ManagerReply::Found(r)) => match r {
                Ok(found) => self.looked(found),
                Err(e) => RunPhase::Done(Err(map_store_err(&e))),
            },
            (RunPhase::NewId, ManagerReply::Id(id)) => RunPhase::Setup(id),
            (RunPhase::Setup(id), ManagerReply::Net(r)) => match r {
                Ok(net) => RunPhase::Provision(id.clone(), net),
                Err(e) => RunPhase::Done(Err(map_net_err(&e))),
            },
            (RunPhase::Provision(id, net), ManagerReply::Disk(r)) => match r {
                Ok(disk) => RunPhase::CreateVm(id.clone(), net.duplicate(), disk),
                Err(e) => RunPhase::Teardown(net.duplicate(), map_storage_err(&e)),
            },
            (RunPhase::CreateVm(id, net, disk), ManagerReply::Vm(r)) => match r {
                Ok(vm) => RunPhase::Ready(id.clone(), net.duplicate(), disk.duplicate(), vm),
                Err(e) => RunPhase::Cleanup(net.duplicate(), disk.duplicate(), map_driver_err(&e)),
            },
            (RunPhase::Ready(id, net, disk, vm), ManagerReply::Ready(r)) => match r {
                Ok(_) => RunPhase::Put(
                    record(&self.req, id, net, disk, *vm, now),
                    net.duplicate(),
                    disk.duplicate(),
                    *vm,
                ),
                Err(e) => RunPhase::DeleteVm(
                    id.clone(),
                    net.duplicate(),
                    disk.duplicate(),
                    *vm,
                    e,
                ),
            },
            (RunPhase::Put(rec, net, disk, vm), ManagerReply::Stored(r)) => match r {
                Ok(_) => RunPhase::Done(Ok(rec.sandbox_id.clone())),
                Err(e) => RunPhase::DeleteVm(
                    rec.sandbox_id.clone(),
                    net.duplicate(),
                    disk.duplicate(),
                    *vm,
                    map_store_err(&e),
                ),
            },
            (RunPhase::DeleteVm(_, net, disk, _, e), ManagerReply::Done) => RunPhase::Cleanup(
                net.duplicate(),
                disk.duplicate(),
                e.duplicate(),
            ),
            (RunPhase::Cleanup(net, _, e), ManagerReply::Done) => RunPhase::Teardown(
                net.duplicate(),
                e.duplicate(),
            ),
            (RunPhase::Teardown(_, e), ManagerReply::Done) => RunPhase::Done(Err(e.duplicate())),
            _ => {
                return;
            },
        };
        self.phase = p;
    }

    /// The answer to the request, where it is there.
    pub fn result(&self) -> (r: Option<Result<String, OasError>>)
        ensures
            match self@.phase {
                RunPhaseView::Done(x) => r matches Some(y) && crate::model::result_view(y) == x,
                _ => r is None,
            },
    {
        match &self.phase {
            RunPhase::Done(x) => Some(crate::model::duplicate_result(x)),
            _ => None,
        }
    }
}

/// The network of a sandbox, from its record. The block of its address is not
/// on record; an address is given back by itself.
pub open spec fn net_of(s: SandboxRecordView) -> NetConfigView {
    NetConfigView {
        netns_path: s.netns_path,
        tap_name: s.tap_name,
        mac: s.mac,
        pod_ip: s.pod_ip,
        gateway: s.gateway,
        lease: IpLeaseView { ip: s.pod_ip, cidr: ""@, sandbox_id: s.sandbox_id },
        host_veth: s.host_veth,
    }
}

/// The network of a sandbox, from its record.
pub fn net_cfg_from(s: &SandboxRecord) -> (r: NetConfig)
    ensures
        r@ == net_of(s@),
{
    NetConfig {
        netns_path: s.netns_path.clone(),
        tap_name: s.tap_name.clone(),
        mac: s.mac.clone(),
        pod_ip: s.pod_ip.clone(),
        gateway: s.gateway.clone(),
        lease: IpLease {
            ip: s.pod_ip.clone(),
            cidr: "".to_owned(),
            sandbox_id: s.sandbox_id.clone(),
        },
        host_veth: s.host_veth.clone(),
    }
}

/// How often a microVM that is to stop is looked at.
pub const MAX_STOP_POLLS: u8 = 50;

impl StopSandboxView {
    /// What is to be done.
    pub open spec fn wants(self) -> ManagerActionView {
        match self.phase {
            StopPhaseView::Lock => ManagerActionView::Lock(self.sandbox_id),
            StopPhaseView::Read => ManagerActionView::ReadSandbox(self.sandbox_id),
            StopPhaseView::DeleteVm(s) => ManagerActionView::DeleteVm {
                sandbox_id: s.sandbox_id,
                vm_id: VmId(s.vm_id),
            },
            StopPhaseView::Poll(s, _) => ManagerActionView::GetVm {
                sandbox_id: s.sandbox_id,
                vm_id: VmId(s.vm_id),
            },
            StopPhaseView::Pause(_, _) => ManagerActionView::Pause,
            StopPhaseView::Teardown(s) => ManagerActionView::TeardownNet(net_of(s)),
            StopPhaseView::Put(s) => ManagerActionView::PutSandbox(
                SandboxRecordView { state: SandboxState::NotReady, ..s },
            ),
            StopPhaseView::Done(_) => ManagerActionView::Finish,
        }
    }

    /// What follows a reply. The microVM is deleted and looked at until it has
    /// stopped, cannot be found, or was looked at often enough; then the
    /// network is taken down and the sandbox is noted as not ready. A reply
    /// that does not belong to what was to be done changes nothing.
    pub open spec fn after(self, reply: ManagerReplyView) -> StopPhaseView {
        match (self.phase, reply) {
            (StopPhaseView::Lock, ManagerReplyView::Done) => StopPhaseView::Read,
            (StopPhaseView::Read, ManagerReplyView::Sandbox(r)) => match r {
                Ok(s) => StopPhaseView::DeleteVm(s),
                Err(e) => StopPhaseView::Done(Err(crate::manager::errors::of_store(e))),
            },
            (StopPhaseView::DeleteVm(s), ManagerReplyView::Done) => StopPhaseView::Poll(s, 0),
            (StopPhaseView::Poll(s, n), ManagerReplyView::Lifecycle(r)) => match r {
                Ok(l) => if l == VmLifecycle::Stopped {
                    StopPhaseView::Teardown(s)
                } else {
                    StopPhaseView::Pause(s, n)
                },
                Err(_) => StopPhaseView::Teardown(s),
            },
            (StopPhaseView::Pause(s, n), ManagerReplyView::Done) => if n + 1 < MAX_STOP_POLLS {
                StopPhaseView::Poll(s, (n + 1) as u8)
            } else {
                StopPhaseView::Teardown(s)
            },
            (StopPhaseView::Teardown(s), ManagerReplyView::Done) => StopPhaseView::Put(s),
            (StopPhaseView::Put(_), ManagerReplyView::Stored(r)) => StopPhaseView::Done(
                match r {
                    Ok(_) => Ok(()),
                    Err(e) => Err(crate::manager::errors::of_store(e)),
                },
            ),
            (p, _) => p,
        }
    }
}

impl StopSandbox {
    /// What is to be done.
    pub fn action(&self) -> (a: ManagerAction)
        ensures
            a@ == self@.wants(),
    {
        match &self.phase {
            StopPhase::Lock => ManagerAction::Lock(self.sandbox_id.clone()),
            StopPhase::Read => ManagerAction::ReadSandbox(self.sandbox_id.clone()),
            StopPhase::DeleteVm(s) => ManagerAction::DeleteVm {
                sandbox_id: s.sandbox_id.clone(),
                vm_id: VmId(s.vm_id),
            },
            StopPhase::Poll(s, _) => ManagerAction::GetVm {
                sandbox_id: s.sandbox_id.clone(),
                vm_id: VmId(s.vm_id),
            },
            StopPhase::Pause(_, _) => ManagerAction::Pause,
            StopPhase::Teardown(s) => ManagerAction::TeardownNet(net_cfg_from(s)),
            StopPhase::Put(s) => {
                let mut t = s.duplicate();
                t.state = SandboxState::NotReady;
                ManagerAction::PutSandbox(t)
            },
            StopPhase::Done(_) => ManagerAction::Finish,
        }
    }

    /// Takes the reply to what was to be done.
    pub fn advance(&mut self, reply: ManagerReply)
        ensures
            final(self)@ == (StopSandboxView { phase: old(self)@.after(reply@), ..old(self)@ }),
    {
        let p = match (&self.phase, reply) {
            (StopPhase::Lock, ManagerReply::Done) => StopPhase::Read,
            (StopPhase::Read, ManagerReply::Sandbox(r)) => match r {
                Ok(s) => StopPhase::DeleteVm(s),
                Err(e) => StopPhase::Done(Err(map_store_err(&e))),
            },
            (StopPhase::DeleteVm(s), ManagerReply::Done) => StopPhase::Poll(s.duplicate(), 0),
            (StopPhase::Poll(s, n), ManagerReply::Lifecycle(r)) => match r {
                Ok(l) => {
                    if l == VmLifecycle::Stopped {
                        StopPhase::Teardown(s.duplicate())
                    } else {
                        StopPhase::Pause(s.duplicate(), *n)
                    }
                },
                Err(_) => StopPhase::Teardown(s.duplicate()),
            },
            (StopPhase::Pause(s, n), ManagerReply::Done) => {
                if *n < MAX_STOP_POLLS - 1 {
                    StopPhase::Poll(s.duplicate(), *n + 1)
                } else {
                    StopPhase::Teardown(s.duplicate())
                }
            },
            (StopPhase::Teardown(s), ManagerReply::Done) => StopPhase::Put(s.duplicate()),
            (StopPhase::Put(_), ManagerReply::Stored(r)) => match r {
                Ok(_) => StopPhase::Done(Ok(())),
                Err(e) => StopPhase::Done(Err(map_store_err(&e))),
            },
            _ => {
                return;
            },
        };
        self.phase = p;
    }

    /// The answer to the request, where it is there.
    pub fn result(&self) -> (r: Option<Result<(), OasError>>)
        ensures
            match self@.phase {
                StopPhaseView::Done(x) => r matches Some(y) && crate::model::result_view(y) == x,
                _ => r is None,
            },
    {
        match &self.phase {
            StopPhase::Done(x) => Some(crate::model::duplicate_result(x)),
            _ => None,
        }
    }
}

impl RemoveSandboxView {
    /// What is to be done.
    pub open spec fn wants(self) -> ManagerActionView {
        match self.phase {
            RemovePhaseView::Lock => ManagerActionView::Lock(self.sandbox_id),
            RemovePhaseView::Read => ManagerActionView::ReadSandbox(self.sandbox_id),
            RemovePhaseView::Cleanup(d) => ManagerActionView::CleanupDisk(d),
            RemovePhaseView::Delete => ManagerActionView::DeleteSandbox(self.sandbox_id),
            RemovePhaseView::Done(_) => ManagerActionView::Finish,
        }
    }

    /// What follows a reply. A sandbox that is not there is removed already. A
    /// reply that does not belong to what was to be done changes nothing.
    pub open spec fn after(self, reply: ManagerReplyView) -> RemovePhaseView {
        match (self.phase, reply) {
            (RemovePhaseView::Lock, ManagerReplyView::Done) => RemovePhaseView::Read,
            (RemovePhaseView::Read, ManagerReplyView::Sandbox(r)) => match r {
                Ok(s) => RemovePhaseView::Cleanup(
                    DiskConfigView {
                        rw_layer_path: s.rw_layer_path,
                        cloud_disk_dev: s.cloud_disk_dev,
                    },
                ),
                Err(e) => if e is NotFound {
                    RemovePhaseView::Done(Ok(()))
                } else {
                    RemovePhaseView::Done(Err(crate::manager::errors::of_store(e)))
                },
            },
            (RemovePhaseView::Cleanup(_), ManagerReplyView::Done) => RemovePhaseView::Delete,
            (RemovePhaseView::Delete, ManagerReplyView::Stored(r)) => RemovePhaseView::Done(
                match r {
                    Ok(_) => Ok(()),
                    Err(e) => Err(crate::manager::errors::of_store(e)),
                },
            ),
            (p, _) => p,
        }
    }
}

impl RemoveSandbox {
    /// What is to be done.
    pub fn action(&self) -> (a: ManagerAction)
        ensures
            a@ == self@.wants(),
    {
        match &self.phase {
            RemovePhase::Lock => ManagerAction::Lock(self.sandbox_id.clone()),
            RemovePhase::Read => ManagerAction::ReadSandbox(self.sandbox_id.clone()),
            RemovePhase::Cleanup(d) => ManagerAction::CleanupDisk(d.duplicate()),
            RemovePhase::Delete => ManagerAction::DeleteSandbox(self.sandbox_id.clone()),
            RemovePhase::Done(_) => ManagerAction::Finish,
        }
    }

    /// Takes the reply to what was to be done.
    pub fn advance(&mut self, reply: ManagerReply)
        ensures
            final(self)@ == (RemoveSandboxView {
                phase: old(self)@.after(reply@),
                ..old(self)@
            }),
    {
        let p = match (&self.phase, reply) {
            (RemovePhase::Lock, ManagerReply::Done) => RemovePhase::Read,
            (RemovePhase::Read, ManagerReply::Sandbox(r)) => match r {
                Ok(s) => RemovePhase::Cleanup(
                    DiskConfig {
                        rw_layer_path: s.rw_layer_path,
                        cloud_disk_dev: s.cloud_disk_dev,
                    },
                ),
                Err(e) => {
                    if matches!(e, StoreError::NotFound(_)) {
                        RemovePhase::Done(Ok(()))
                    } else {
                        RemovePhase::Done(Err(map_store_err(&e)))
                    }
                },
            },
            (RemovePhase::Cleanup(_), ManagerReply::Done) => RemovePhase::Delete,
            (RemovePhase::Delete, ManagerReply::Stored(r)) => match r {
                Ok(_) => RemovePhase::Done(Ok(())),
                Err(e) => RemovePhase::Done(Err(map_store_err(&e))),
            },
            _ => {
                return;
            },
        };
        self.phase = p;
    }

    /// The answer to the request, where it is there.
    pub fn result(&self) -> (r: Option<Result<(), OasError>>)
        ensures
            match self@.phase {
                RemovePhaseView::Done(x) => r matches Some(y) && crate::model::result_view(y) == x,
                _ => r is None,
            },
    {
        match &self.phase {
            RemovePhase::Done(x) => Some(crate::model::duplicate_result(x)),
            _ => None,
        }
    }
}

} // verus!
