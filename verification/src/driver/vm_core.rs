//! Bringing a microVM up from its snapshot, watching it and cleaning up after
//! it, one step at a time.

use vstd::prelude::*;

use crate::config::{path_join, Config, ConfigView};
use crate::driver::identity::ShimMeta;
use crate::model::Duplicate;
use crate::text;

verus! {

/// What a microVM is restored from and with.
#[derive(Debug, PartialEq)]
pub struct RestoreInputs {
    /// Where the snapshot is.
    pub bundle_dir: String,
    pub netns_path: String,
    pub rw_layer_path: Option<String>,
    pub jailer_uid: u32,
    pub jailer_gid: u32,
    pub chroot_base_dir: String,
    pub firecracker_bin: String,
    pub jailer_bin: String,
    pub cloud_disk_dev: Option<String>,
}

/// The abstract value of [`RestoreInputs`].
#[verifier::ext_equal]
pub struct RestoreInputsView {
    pub bundle_dir: Seq<char>,
    pub netns_path: Seq<char>,
    pub rw_layer_path: Option<Seq<char>>,
    pub jailer_uid: u32,
    pub jailer_gid: u32,
    pub chroot_base_dir: Seq<char>,
    pub firecracker_bin: Seq<char>,
    pub jailer_bin: Seq<char>,
    pub cloud_disk_dev: Option<Seq<char>>,
}

impl DeepView for RestoreInputs {
    type V = RestoreInputsView;

    open spec fn deep_view(&self) -> RestoreInputsView {
        RestoreInputsView {
            bundle_dir: self.bundle_dir@,
            netns_path: self.netns_path@,
            rw_layer_path: self.rw_layer_path.deep_view(),
            jailer_uid: self.jailer_uid,
            jailer_gid: self.jailer_gid,
            chroot_base_dir: self.chroot_base_dir@,
            firecracker_bin: self.firecracker_bin@,
            jailer_bin: self.jailer_bin@,
            cloud_disk_dev: self.cloud_disk_dev.deep_view(),
        }
    }
}

impl View for RestoreInputs {
    type V = RestoreInputsView;

    open spec fn view(&self) -> RestoreInputsView {
        self.deep_view()
    }
}

impl Duplicate for RestoreInputs {
    fn duplicate(&self) -> (r: Self) {
        RestoreInputs {
            bundle_dir: self.bundle_dir.duplicate(),
            netns_path: self.netns_path.duplicate(),
            rw_layer_path: self.rw_layer_path.duplicate(),
            jailer_uid: self.jailer_uid,
            jailer_gid: self.jailer_gid,
            chroot_base_dir: self.chroot_base_dir.duplicate(),
            firecracker_bin: self.firecracker_bin.duplicate(),
            jailer_bin: self.jailer_bin.duplicate(),
            cloud_disk_dev: self.cloud_disk_dev.duplicate(),
        }
    }
}

impl Clone for RestoreInputs {
    fn clone(&self) -> (r: Self)
        ensures
            r@ == self@,
    {
        self.duplicate()
    }
}

/// A way to reach an agent inside a guest.
#[derive(Debug, PartialEq)]
pub enum GuestEndpoint {
    Vsock {
        cid: u32,
        port: u16,
    },
    UnixSock {
        path: String,
    },
}

/// The abstract value of [`GuestEndpoint`].
#[verifier::ext_equal]
pub enum GuestEndpointView {
    Vsock {
        cid: u32,
        port: u16,
    },
    UnixSock {
        path: Seq<char>,
    },
}

impl DeepView for GuestEndpoint {
    type V = GuestEndpointView;

    open spec fn deep_view(&self) -> GuestEndpointView {
        match *self {
            GuestEndpoint::Vsock { cid, port } => GuestEndpointView::Vsock { cid, port },
            GuestEndpoint::UnixSock { path } => GuestEndpointView::UnixSock { path: path@ },
        }
    }
}

impl View for GuestEndpoint {
    type V = GuestEndpointView;

    open spec fn view(&self) -> GuestEndpointView {
        self.deep_view()
    }
}

impl Duplicate for GuestEndpoint {
    fn duplicate(&self) -> (r: Self) {
        match self {
            GuestEndpoint::Vsock { cid, port } => GuestEndpoint::Vsock { cid: *cid, port: *port },
            GuestEndpoint::UnixSock { path } => GuestEndpoint::UnixSock { path: path.duplicate() },
        }
    }
}

impl Clone for GuestEndpoint {
    fn clone(&self) -> (r: Self)
        ensures
            r@ == self@,
    {
        self.duplicate()
    }
}

/// A microVM that is up.
#[derive(Debug, PartialEq)]
pub struct VmHandle {
    pub fc_pid: u32,
    pub mntns_inode: u64,
    pub guest: Option<GuestEndpoint>,
}

/// The abstract value of [`VmHandle`].
#[verifier::ext_equal]
pub struct VmHandleView {
    pub fc_pid: u32,
    pub mntns_inode: u64,
    pub guest: Option<GuestEndpointView>,
}

impl DeepView for VmHandle {
    type V = VmHandleView;

    open spec fn deep_view(&self) -> VmHandleView {
        VmHandleView {
            fc_pid: self.fc_pid,
            mntns_inode: self.mntns_inode,
            guest: self.guest.deep_view(),
        }
    }
}

impl View for VmHandle {
    type V = VmHandleView;

    open spec fn view(&self) -> VmHandleView {
        self.deep_view()
    }
}

impl Duplicate for VmHandle {
    fn duplicate(&self) -> (r: Self) {
        VmHandle {
            fc_pid: self.fc_pid,
            mntns_inode: self.mntns_inode,
            guest: self.guest.duplicate(),
        }
    }
}

impl Clone for VmHandle {
    fn clone(&self) -> (r: Self)
        ensures
            r@ == self@,
    {
        self.duplicate()
    }
}

/// The stage of life of a microVM.
#[derive(Debug, Clone, Copy, PartialEq, Eq, Structural)]
pub enum VmCoreState {
    /// Not created yet.
    NotExist,
    Running,
    Stopped,
    Failed,
}

impl DeepView for VmCoreState {
    type V = VmCoreState;

    open spec fn deep_view(&self) -> VmCoreState {
        *self
    }
}

impl Duplicate for VmCoreState {
    fn duplicate(&self) -> (r: Self) {
        *self
    }
}

/// One step of making the jail ready.
#[derive(Debug, PartialEq)]
pub enum PrepStep {
    /// Make a directory.
    Mkdir(String),
    /// Copy a file.
    Copy {
        src: String,
        dst: String,
    },
    /// Set the permissions of a file.
    Mode(String, u32),
    /// Set the owner of a file.
    Owner(String, u32, u32),
}

/// The abstract value of [`PrepStep`].
#[verifier::ext_equal]
pub enum PrepStepView {
    Mkdir(Seq<char>),
    Copy {
        src: Seq<char>,
        dst: Seq<char>,
    },
    Mode(Seq<char>, u32),
    Owner(Seq<char>, u32, u32),
}

impl DeepView for PrepStep {
    type V = PrepStepView;

    open spec fn deep_view(&self) -> PrepStepView {
        match *self {
            PrepStep::Mkdir(a) => PrepStepView::Mkdir(a@),
            PrepStep::Copy { src, dst } => PrepStepView::Copy { src: src@, dst: dst@ },
            PrepStep::Mode(a, b) => PrepStepView::Mode(a@, b),
            PrepStep::Owner(a, b, c) => PrepStepView::Owner(a@, b, c),
        }
    }
}

impl View for PrepStep {
    type V = PrepStepView;

    open spec fn view(&self) -> PrepStepView {
        self.deep_view()
    }
}

impl Duplicate for PrepStep {
    fn duplicate(&self) -> (r: Self) {
        match self {
            PrepStep::Mkdir(a) => PrepStep::Mkdir(a.duplicate()),
            PrepStep::Copy { src, dst } => PrepStep::Copy { src: src.duplicate(), dst: dst.duplicate() },
            PrepStep::Mode(a, b) => PrepStep::Mode(a.duplicate(), *b),
            PrepStep::Owner(a, b, c) => PrepStep::Owner(a.duplicate(), *b, *c),
        }
    }
}

impl Clone for PrepStep {
    fn clone(&self) -> (r: Self)
        ensures
            r@ == self@,
    {
        self.duplicate()
    }
}

/// How far the restoring of a microVM has come.
#[derive(Debug, PartialEq)]
pub enum RestorePhase {
    /// Making the jail ready; this step of it.
    Prepare(usize),
    Cgroup,
    /// Starting the jailer; whether the host has the second version of cgroups.
    Jailer(bool),
    Settle,
    /// Waiting for the control socket; how often it was missed.
    Socket(u32),
    SocketWait(u32),
    Find,
    DebugFlag(u32),
    Diag(u32),
    Logger(u32),
    Load(u32),
    Agent(u32),
    Inode(u32),
    Meta(u32, u64),
    /// Ending the process after an error.
    Kill(u32, String),
    SaveLog(String),
    Done(Result<VmHandle, String>),
}

/// The abstract value of [`RestorePhase`].
#[verifier::ext_equal]
pub enum RestorePhaseView {
    Prepare(usize),
    Cgroup,
    Jailer(bool),
    Settle,
    Socket(u32),
    SocketWait(u32),
    Find,
    DebugFlag(u32),
    Diag(u32),
    Logger(u32),
    Load(u32),
    Agent(u32),
    Inode(u32),
    Meta(u32, u64),
    Kill(u32, Seq<char>),
    SaveLog(Seq<char>),
    Done(Result<VmHandleView, Seq<char>>),
}

impl DeepView for RestorePhase {
    type V = RestorePhaseView;

    open spec fn deep_view(&self) -> RestorePhaseView {
        match *self {
            RestorePhase::Prepare(a) => RestorePhaseView::Prepare(a),
            RestorePhase::Cgroup => RestorePhaseView::Cgroup,
            RestorePhase::Jailer(a) => RestorePhaseView::Jailer(a),
            RestorePhase::Settle => RestorePhaseView::Settle,
            RestorePhase::Socket(a) => RestorePhaseView::Socket(a),
            RestorePhase::SocketWait(a) => RestorePhaseView::SocketWait(a),
            RestorePhase::Find => RestorePhaseView::Find,
            RestorePhase::DebugFlag(a) => RestorePhaseView::DebugFlag(a),
            RestorePhase::Diag(a) => RestorePhaseView::Diag(a),
            RestorePhase::Logger(a) => RestorePhaseView::Logger(a),
            RestorePhase::Load(a) => RestorePhaseView::Load(a),
            RestorePhase::Agent(a) => RestorePhaseView::Agent(a),
            RestorePhase::Inode(a) => RestorePhaseView::Inode(a),
            RestorePhase::Meta(a, b) => RestorePhaseView::Meta(a, b),
            RestorePhase::Kill(a, b) => RestorePhaseView::Kill(a, b@),
            RestorePhase::SaveLog(a) => RestorePhaseView::SaveLog(a@),
            RestorePhase::Done(a) => RestorePhaseView::Done(crate::model::result_view(a)),
        }
    }
}

impl View for RestorePhase {
    type V = RestorePhaseView;

    open spec fn view(&self) -> RestorePhaseView {
        self.deep_view()
    }
}

impl Duplicate for RestorePhase {
    fn duplicate(&self) -> (r: Self) {
        match self {
            RestorePhase::Prepare(a) => RestorePhase::Prepare(*a),
            RestorePhase::Cgroup => RestorePhase::Cgroup,
            RestorePhase::Jailer(a) => RestorePhase::Jailer(*a),
            RestorePhase::Settle => RestorePhase::Settle,
            RestorePhase::Socket(a) => RestorePhase::Socket(*a),
            RestorePhase::SocketWait(a) => RestorePhase::SocketWait(*a),
            RestorePhase::Find => RestorePhase::Find,
            RestorePhase::DebugFlag(a) => RestorePhase::DebugFlag(*a),
            RestorePhase::Diag(a) => RestorePhase::Diag(*a),
            RestorePhase::Logger(a) => RestorePhase::Logger(*a),
            RestorePhase::Load(a) => RestorePhase::Load(*a),
            RestorePhase::Agent(a) => RestorePhase::Agent(*a),
            RestorePhase::Inode(a) => RestorePhase::Inode(*a),
            RestorePhase::Meta(a, b) => RestorePhase::Meta(*a, *b),
            RestorePhase::Kill(a, b) => RestorePhase::Kill(*a, b.duplicate()),
            RestorePhase::SaveLog(a) => RestorePhase::SaveLog(a.duplicate()),
            RestorePhase::Done(a) => RestorePhase::Done(crate::model::duplicate_result(a)),
        }
    }
}

impl Clone for RestorePhase {
    fn clone(&self) -> (r: Self)
        ensures
            r@ == self@,
    {
        self.duplicate()
    }
}

/// What is to be done next.
#[derive(Debug, PartialEq)]
pub enum RestoreAction {
    Prepare(PrepStep),
    /// See whether the host has the second version of cgroups.
    ProbeCgroup2,
    SpawnJailer {
        program: String,
        args: Vec<String>,
    },
    /// Wait a moment.
    Pause,
    /// See whether a path is there.
    ProbePath(String),
    /// Find the process whose root directory is this one.
    FindPid(String),
    ReadDebugFlag,
    DumpDiag(u32),
    PutLogger {
        sock: String,
        log_path: String,
    },
    LoadSnapshot {
        sock: String,
        vmstate: String,
        mem: String,
    },
    WaitAgent {
        netns_path: String,
        ip: String,
        port: u16,
        secs: u64,
    },
    /// See whether a process is alive.
    ProbeAlive(u32),
    /// Read the inode of the mount namespace of a process.
    StatMntns(u32),
    WriteMeta(ShimMeta),
    Terminate(u32),
    /// Copy the log out of the jail, where there is one.
    SaveLog {
        src: String,
        dir: String,
        dst: String,
    },
    Finish(Result<VmHandle, String>),
}

/// The abstract value of [`RestoreAction`].
#[verifier::ext_equal]
pub enum RestoreActionView {
    Prepare(PrepStepView),
    ProbeCgroup2,
    SpawnJailer {
        program: Seq<char>,
        args: Seq<Seq<char>>,
    },
    Pause,
    ProbePath(Seq<char>),
    FindPid(Seq<char>),
    ReadDebugFlag,
    DumpDiag(u32),
    PutLogger {
        sock: Seq<char>,
        log_path: Seq<char>,
    },
    LoadSnapshot {
        sock: Seq<char>,
        vmstate: Seq<char>,
        mem: Seq<char>,
    },
    WaitAgent {
        netns_path: Seq<char>,
        ip: Seq<char>,
        port: u16,
        secs: u64,
    },
    ProbeAlive(u32),
    StatMntns(u32),
    WriteMeta(ShimMeta),
    Terminate(u32),
    SaveLog {
        src: Seq<char>,
        dir: Seq<char>,
        dst: Seq<char>,
    },
    Finish(Result<VmHandleView, Seq<char>>),
}

impl DeepView for RestoreAction {
    type V = RestoreActionView;

    open spec fn deep_view(&self) -> RestoreActionView {
        match *self {
            RestoreAction::Prepare(a) => RestoreActionView::Prepare(a.deep_view()),
            RestoreAction::ProbeCgroup2 => RestoreActionView::ProbeCgroup2,
            RestoreAction::SpawnJailer { program, args } => RestoreActionView::SpawnJailer { program: program@, args: args.deep_view() },
            RestoreAction::Pause => RestoreActionView::Pause,
            RestoreAction::ProbePath(a) => RestoreActionView::ProbePath(a@),
            RestoreAction::FindPid(a) => RestoreActionView::FindPid(a@),
            RestoreAction::ReadDebugFlag => RestoreActionView::ReadDebugFlag,
            RestoreAction::DumpDiag(a) => RestoreActionView::DumpDiag(a),
            RestoreAction::PutLogger { sock, log_path } => RestoreActionView::PutLogger { sock: sock@, log_path: log_path@ },
            RestoreAction::LoadSnapshot { sock, vmstate, mem } => RestoreActionView::LoadSnapshot { sock: sock@, vmstate: vmstate@, mem: mem@ },
            RestoreAction::WaitAgent { netns_path, ip, port, secs } => RestoreActionView::WaitAgent { netns_path: netns_path@, ip: ip@, port, secs },
            RestoreAction::ProbeAlive(a) => RestoreActionView::ProbeAlive(a),
            RestoreAction::StatMntns(a) => RestoreActionView::StatMntns(a),
            RestoreAction::WriteMeta(a) => RestoreActionView::WriteMeta(a),
            RestoreAction::Terminate(a) => RestoreActionView::Terminate(a),
            RestoreAction::SaveLog { src, dir, dst } => RestoreActionView::SaveLog { src: src@, dir: dir@, dst: dst@ },
            RestoreAction::Finish(a) => RestoreActionView::Finish(crate::model::result_view(a)),
        }
    }
}

impl View for RestoreAction {
    type V = RestoreActionView;

    open spec fn view(&self) -> RestoreActionView {
        self.deep_view()
    }
}

impl Duplicate for RestoreAction {
    fn duplicate(&self) -> (r: Self) {
        match self {
            RestoreAction::Prepare(a) => RestoreAction::Prepare(a.duplicate()),
            RestoreAction::ProbeCgroup2 => RestoreAction::ProbeCgroup2,
            RestoreAction::SpawnJailer { program, args } => RestoreAction::SpawnJailer { program: program.duplicate(), args: args.duplicate() },
            RestoreAction::Pause => RestoreAction::Pause,
            RestoreAction::ProbePath(a) => RestoreAction::ProbePath(a.duplicate()),
            RestoreAction::FindPid(a) => RestoreAction::FindPid(a.duplicate()),
            RestoreAction::ReadDebugFlag => RestoreAction::ReadDebugFlag,
            RestoreAction::DumpDiag(a) => RestoreAction::DumpDiag(*a),
            RestoreAction::PutLogger { sock, log_path } => RestoreAction::PutLogger { sock: sock.duplicate(), log_path: log_path.duplicate() },
            RestoreAction::LoadSnapshot { sock, vmstate, mem } => RestoreAction::LoadSnapshot { sock: sock.duplicate(), vmstate: vmstate.duplicate(), mem: mem.duplicate() },
            RestoreAction::WaitAgent { netns_path, ip, port, secs } => RestoreAction::WaitAgent { netns_path: netns_path.duplicate(), ip: ip.duplicate(), port: *port, secs: *secs },
            RestoreAction::ProbeAlive(a) => RestoreAction::ProbeAlive(*a),
            RestoreAction::StatMntns(a) => RestoreAction::StatMntns(*a),
            RestoreAction::WriteMeta(a) => RestoreAction::WriteMeta(*a),
            RestoreAction::Terminate(a) => RestoreAction::Terminate(*a),
            RestoreAction::SaveLog { src, dir, dst } => RestoreAction::SaveLog { src: src.duplicate(), dir: dir.duplicate(), dst: dst.duplicate() },
            RestoreAction::Finish(a) => RestoreAction::Finish(crate::model::duplicate_result(a)),
        }
    }
}

impl Clone for RestoreAction {
    fn clone(&self) -> (r: Self)
        ensures
            r@ == self@,
    {
        self.duplicate()
    }
}

/// What came of it.
#[derive(Debug, PartialEq)]
pub enum RestoreReply {
    Done,
    Failed(String),
    /// The program ended with an error.
    Exited {
        status: String,
        stderr: String,
    },
    Flag(bool),
    Pid(Option<u32>),
    Inode(u64),
}

/// The abstract value of [`RestoreReply`].
#[verifier::ext_equal]
pub enum RestoreReplyView {
    Done,
    Failed(Seq<char>),
    Exited {
        status: Seq<char>,
        stderr: Seq<char>,
    },
    Flag(bool),
    Pid(Option<u32>),
    Inode(u64),
}

impl DeepView for RestoreReply {
    type V = RestoreReplyView;

    open spec fn deep_view(&self) -> RestoreReplyView {
        match *self {
            RestoreReply::Done => RestoreReplyView::Done,
            RestoreReply::Failed(a) => RestoreReplyView::Failed(a@),
            RestoreReply::Exited { status, stderr } => RestoreReplyView::Exited { status: status@, stderr: stderr@ },
            RestoreReply::Flag(a) => RestoreReplyView::Flag(a),
            RestoreReply::Pid(a) => RestoreReplyView::Pid(a.deep_view()),
            RestoreReply::Inode(a) => RestoreReplyView::Inode(a),
        }
    }
}

impl View for RestoreReply {
    type V = RestoreReplyView;

    open spec fn view(&self) -> RestoreReplyView {
        self.deep_view()
    }
}

impl Duplicate for RestoreReply {
    fn duplicate(&self) -> (r: Self) {
        match self {
            RestoreReply::Done => RestoreReply::Done,
            RestoreReply::Failed(a) => RestoreReply::Failed(a.duplicate()),
            RestoreReply::Exited { status, stderr } => RestoreReply::Exited { status: status.duplicate(), stderr: stderr.duplicate() },
            RestoreReply::Flag(a) => RestoreReply::Flag(*a),
            RestoreReply::Pid(a) => RestoreReply::Pid(a.duplicate()),
            RestoreReply::Inode(a) => RestoreReply::Inode(*a),
        }
    }
}

impl Clone for RestoreReply {
    fn clone(&self) -> (r: Self)
        ensures
            r@ == self@,
    {
        self.duplicate()
    }
}

/// A microVM on its way up.
#[derive(Debug, PartialEq)]
pub struct Restore {
    pub inputs: RestoreInputs,
    pub cfg: Config,
    pub sandbox_id: String,
    pub shim_pid: u32,
    pub prep: Vec<PrepStep>,
    pub phase: RestorePhase,
}

/// The abstract value of [`Restore`].
#[verifier::ext_equal]
pub struct RestoreView {
    pub inputs: RestoreInputsView,
    pub cfg: ConfigView,
    pub sandbox_id: Seq<char>,
    pub shim_pid: u32,
    pub prep: Seq<PrepStepView>,
    pub phase: RestorePhaseView,
}

impl DeepView for Restore {
    type V = RestoreView;

    open spec fn deep_view(&self) -> RestoreView {
        RestoreView {
            inputs: self.inputs.deep_view(),
            cfg: self.cfg.deep_view(),
            sandbox_id: self.sandbox_id@,
            shim_pid: self.shim_pid,
            prep: self.prep.deep_view(),
            phase: self.phase.deep_view(),
        }
    }
}

impl View for Restore {
    type V = RestoreView;

    open spec fn view(&self) -> RestoreView {
        self.deep_view()
    }
}

impl Duplicate for Restore {
    fn duplicate(&self) -> (r: Self) {
        Restore {
            inputs: self.inputs.duplicate(),
            cfg: self.cfg.duplicate(),
            sandbox_id: self.sandbox_id.duplicate(),
            shim_pid: self.shim_pid,
            prep: self.prep.duplicate(),
            phase: self.phase.duplicate(),
        }
    }
}

impl Clone for Restore {
    fn clone(&self) -> (r: Self)
        ensures
            r@ == self@,
    {
        self.duplicate()
    }
}

/// How far the creation of a microVM has come.
#[derive(Debug, PartialEq)]
pub enum CreatePhase {
    Alive(u32),
    QuickInode(u32),
    Find,
    Reattach,
    AttachInode(u32),
    AttachMeta(u32, u64),
    Fresh,
    /// The microVM was up already; nothing of its state changes.
    Quick(Result<VmHandle, String>),
    Done(Result<VmHandle, String>),
}

/// The abstract value of [`CreatePhase`].
#[verifier::ext_equal]
pub enum CreatePhaseView {
    Alive(u32),
    QuickInode(u32),
    Find,
    Reattach,
    AttachInode(u32),
    AttachMeta(u32, u64),
    Fresh,
    Quick(Result<VmHandleView, Seq<char>>),
    Done(Result<VmHandleView, Seq<char>>),
}

impl DeepView for CreatePhase {
    type V = CreatePhaseView;

    open spec fn deep_view(&self) -> CreatePhaseView {
        match *self {
            CreatePhase::Alive(a) => CreatePhaseView::Alive(a),
            CreatePhase::QuickInode(a) => CreatePhaseView::QuickInode(a),
            CreatePhase::Find => CreatePhaseView::Find,
            CreatePhase::Reattach => CreatePhaseView::Reattach,
            CreatePhase::AttachInode(a) => CreatePhaseView::AttachInode(a),
            CreatePhase::AttachMeta(a, b) => CreatePhaseView::AttachMeta(a, b),
            CreatePhase::Fresh => CreatePhaseView::Fresh,
            CreatePhase::Quick(a) => CreatePhaseView::Quick(crate::model::result_view(a)),
            CreatePhase::Done(a) => CreatePhaseView::Done(crate::model::result_view(a)),
        }
    }
}

impl View for CreatePhase {
    type V = CreatePhaseView;

    open spec fn view(&self) -> CreatePhaseView {
        self.deep_view()
    }
}

impl Duplicate for CreatePhase {
    fn duplicate(&self) -> (r: Self) {
        match self {
            CreatePhase::Alive(a) => CreatePhase::Alive(*a),
            CreatePhase::QuickInode(a) => CreatePhase::QuickInode(*a),
            CreatePhase::Find => CreatePhase::Find,
            CreatePhase::Reattach => CreatePhase::Reattach,
            CreatePhase::AttachInode(a) => CreatePhase::AttachInode(*a),
            CreatePhase::AttachMeta(a, b) => CreatePhase::AttachMeta(*a, *b),
            CreatePhase::Fresh => CreatePhase::Fresh,
            CreatePhase::Quick(a) => CreatePhase::Quick(crate::model::duplicate_result(a)),
            CreatePhase::Done(a) => CreatePhase::Done(crate::model::duplicate_result(a)),
        }
    }
}

impl Clone for CreatePhase {
    fn clone(&self) -> (r: Self)
        ensures
            r@ == self@,
    {
        self.duplicate()
    }
}

/// The creation of a microVM: one that is up is taken over, and otherwise a
/// new one is restored.
#[derive(Debug, PartialEq)]
pub struct Create {
    pub restore: Restore,
    pub phase: CreatePhase,
}

/// The abstract value of [`Create`].
#[verifier::ext_equal]
pub struct CreateView {
    pub restore: RestoreView,
    pub phase: CreatePhaseView,
}

impl DeepView for Create {
    type V = CreateView;

    open spec fn deep_view(&self) -> CreateView {
        CreateView {
            restore: self.restore.deep_view(),
            phase: self.phase.deep_view(),
        }
    }
}

impl View for Create {
    type V = CreateView;

    open spec fn view(&self) -> CreateView {
        self.deep_view()
    }
}

impl Duplicate for Create {
    fn duplicate(&self) -> (r: Self) {
        Create {
            restore: self.restore.duplicate(),
            phase: self.phase.duplicate(),
        }
    }
}

impl Clone for Create {
    fn clone(&self) -> (r: Self)
        ensures
            r@ == self@,
    {
        self.duplicate()
    }
}

/// One microVM and what is known of it.
#[derive(Debug, PartialEq)]
pub struct VmCore {
    pub cfg: Config,
    pub sandbox_id: String,
    pub sandbox_dir: String,
    pub jail_root: String,
    pub meta_path: String,
    pub fc_pid: Option<u32>,
    pub state: VmCoreState,
    pub created: bool,
}

/// The abstract value of [`VmCore`].
#[verifier::ext_equal]
pub struct VmCoreView {
    pub cfg: ConfigView,
    pub sandbox_id: Seq<char>,
    pub sandbox_dir: Seq<char>,
    pub jail_root: Seq<char>,
    pub meta_path: Seq<char>,
    pub fc_pid: Option<u32>,
    pub state: VmCoreState,
    pub created: bool,
}

impl DeepView for VmCore {
    type V = VmCoreView;

    open spec fn deep_view(&self) -> VmCoreView {
        VmCoreView {
            cfg: self.cfg.deep_view(),
            sandbox_id: self.sandbox_id@,
            sandbox_dir: self.sandbox_dir@,
            jail_root: self.jail_root@,
            meta_path: self.meta_path@,
            fc_pid: self.fc_pid.deep_view(),
            state: self.state,
            created: self.created,
        }
    }
}

impl View for VmCore {
    type V = VmCoreView;

    open spec fn view(&self) -> VmCoreView {
        self.deep_view()
    }
}

impl Duplicate for VmCore {
    fn duplicate(&self) -> (r: Self) {
        VmCore {
            cfg: self.cfg.duplicate(),
            sandbox_id: self.sandbox_id.duplicate(),
            sandbox_dir: self.sandbox_dir.duplicate(),
            jail_root: self.jail_root.duplicate(),
            meta_path: self.meta_path.duplicate(),
            fc_pid: self.fc_pid.duplicate(),
            state: self.state,
            created: self.created,
        }
    }
}

impl Clone for VmCore {
    fn clone(&self) -> (r: Self)
        ensures
            r@ == self@,
    {
        self.duplicate()
    }
}

/// The microVM of a process.
pub open spec fn handle(fc_pid: u32, mntns_inode: u64) -> VmHandleView {
    VmHandleView { fc_pid, mntns_inode, guest: None }
}

/// The note of a microVM.
pub open spec fn meta(fc_pid: u32, mntns_inode: u64, shim_pid: u32) -> ShimMeta {
    ShimMeta { fc_pid, mntns_inode, started_at: 0, shim_pid }
}

/// The name of a microVM's log inside its jail.
pub open spec fn log_name(sandbox_id: Seq<char>) -> Seq<char> {
    "fc-"@ + sandbox_id + ".log"@
}

fn log_name_of(sandbox_id: &str) -> (r: String)
    ensures
        r@ == log_name(sandbox_id@),
{
    text::cat3("fc-", sandbox_id, ".log")
}

/// The files of a snapshot and their places in the jail, which are read-only.
pub open spec fn snapshot_files() -> Seq<(Seq<char>, Seq<char>)> {
    seq![
        ("vmlinux"@, "vmlinux"@),
        ("rootfs.ext4"@, "rootfs.ext4"@),
        ("vmstate"@, "vmstate.src"@),
        ("mem"@, "mem.src"@),
    ]
}

/// The copies that fill the jail.
pub open spec fn copies(bundle: Seq<char>, jail: Seq<char>) -> Seq<PrepStepView> {
    Seq::new(
        4,
        |i: int|
            PrepStepView::Copy {
                src: crate::config::join_path(bundle, snapshot_files()[i].0),
                dst: crate::config::join_path(jail, snapshot_files()[i].1),
            },
    )
}

/// Permissions and owner of a file in the jail.
pub open spec fn guarded(path: Seq<char>, mode: u32, uid: u32, gid: u32) -> Seq<PrepStepView> {
    seq![PrepStepView::Mode(path, mode), PrepStepView::Owner(path, uid, gid)]
}

/// The steps that make a jail ready: its directory, the copies of the
/// snapshot, the writable layer where there is one, then the permissions:
/// the directory for its owner alone, the snapshot read-only, the writable
/// layer for all.
pub open spec fn prep_steps(inputs: RestoreInputsView, jail: Seq<char>) -> Seq<PrepStepView> {
    let data = crate::config::join_path(jail, "data.ext4"@);
    let uid = inputs.jailer_uid;
    let gid = inputs.jailer_gid;
    seq![PrepStepView::Mkdir(jail)] + copies(inputs.bundle_dir, jail) + (
    match inputs.rw_layer_path {
        Some(rw) => seq![PrepStepView::Copy { src: rw, dst: data }],
        None => seq![],
    }) + guarded(jail, 0o700, uid, gid) + guarded(
        crate::config::join_path(jail, "vmlinux"@),
        0o444,
        uid,
        gid,
    ) + guarded(crate::config::join_path(jail, "rootfs.ext4"@), 0o444, uid, gid) + guarded(
        crate::config::join_path(jail, "vmstate.src"@),
        0o444,
        uid,
        gid,
    ) + guarded(crate::config::join_path(jail, "mem.src"@), 0o444, uid, gid) + (
    match inputs.rw_layer_path {
        Some(_) => guarded(data, 0o666, uid, gid),
        None => seq![],
    })
}

/// Adds permissions and owner of a file in the jail.
fn push_guarded(v: &mut Vec<PrepStep>, path: &str, mode: u32, uid: u32, gid: u32)
    ensures
        final(v).deep_view() == old(v).deep_view() + guarded(path@, mode, uid, gid),
{
    let ghost before = v.deep_view();
    v.push(PrepStep::Mode(path.to_owned(), mode));
    v.push(PrepStep::Owner(path.to_owned(), uid, gid));
    assert(v.deep_view() =~= before + guarded(path@, mode, uid, gid));
}

/// Adds a copy into the jail.
fn push_copy(v: &mut Vec<PrepStep>, src: String, dst: String)
    ensures
        final(v).deep_view() == old(v).deep_view().push(
            PrepStepView::Copy { src: src@, dst: dst@ },
        ),
{
    let ghost before = v.deep_view();
    let ghost s = src@;
    let ghost d = dst@;
    v.push(PrepStep::Copy { src, dst });
    assert(v.deep_view() =~= before.push(PrepStepView::Copy { src: s, dst: d }));
}

/// The steps that make a jail ready.
fn prepare(inputs: &RestoreInputs, jail: &str) -> (v: Vec<PrepStep>)
    ensures
        v.deep_view() == prep_steps(inputs@, jail@),
{
    let uid: u32 = inputs.jailer_uid;
    let gid: u32 = inputs.jailer_gid;
    let bundle = inputs.bundle_dir.as_str();
    let mut v: Vec<PrepStep> = Vec::new();
    v.push(PrepStep::Mkdir(jail.to_owned()));
    assert(v.deep_view() =~= seq![PrepStepView::Mkdir(jail@)]);
    push_copy(&mut v, path_join(bundle, "vmlinux"), path_join(jail, "vmlinux"));
    push_copy(&mut v, path_join(bundle, "rootfs.ext4"), path_join(jail, "rootfs.ext4"));
    push_copy(&mut v, path_join(bundle, "vmstate"), path_join(jail, "vmstate.src"));
    push_copy(&mut v, path_join(bundle, "mem"), path_join(jail, "mem.src"));
    assert(v.deep_view() =~= seq![PrepStepView::Mkdir(jail@)] + copies(inputs.bundle_dir@, jail@));
    let data = path_join(jail, "data.ext4");
    if let Some(rw) = &inputs.rw_layer_path {
        push_copy(&mut v, rw.clone(), data.clone());
    }
    push_guarded(&mut v, jail, 0o700, uid, gid);
    push_guarded(&mut v, path_join(jail, "vmlinux").as_str(), 0o444, uid, gid);
    push_guarded(&mut v, path_join(jail, "rootfs.ext4").as_str(), 0o444, uid, gid);
    push_guarded(&mut v, path_join(jail, "vmstate.src").as_str(), 0o444, uid, gid);
    push_guarded(&mut v, path_join(jail, "mem.src").as_str(), 0o444, uid, gid);
    if inputs.rw_layer_path.is_some() {
        push_guarded(&mut v, data.as_str(), 0o666, uid, gid);
    }
    assert(v.deep_view() =~= prep_steps(inputs@, jail@));
    v
}

/// The words behind the jailer: the sandbox, the program, the user, the jail,
/// the namespaces, and behind two dashes the words for the program itself.
pub open spec fn jailer_words(
    inputs: RestoreInputsView,
    sandbox_id: Seq<char>,
    cgroup2: bool,
) -> Seq<Seq<char>> {
    seq![
        "--id"@,
        sandbox_id,
        "--exec-file"@,
        inputs.firecracker_bin,
        "--uid"@,
        text::dec(inputs.jailer_uid as nat),
        "--gid"@,
        text::dec(inputs.jailer_gid as nat),
        "--chroot-base-dir"@,
        inputs.chroot_base_dir,
    ] + (if cgroup2 {
        seq!["--cgroup-version"@, "2"@]
    } else {
        seq![]
    }) + seq![
        "--new-pid-ns"@,
        "--netns"@,
        inputs.netns_path,
        "--daemonize"@,
        "--"@,
        "--api-sock"@,
        "run/firecracker.socket"@,
        "--log-path"@,
        log_name(sandbox_id),
        "--level"@,
        "Debug"@,
    ]
}

/// The words behind the jailer.
fn jailer_args(inputs: &RestoreInputs, sandbox_id: &str, cgroup2: bool) -> (r: Vec<String>)
    ensures
        r.deep_view() == jailer_words(inputs@, sandbox_id@, cgroup2),
{
    let mut r: Vec<String> = vec![
        "--id".to_owned(),
        sandbox_id.to_owned(),
        "--exec-file".to_owned(),
        inputs.firecracker_bin.clone(),
        "--uid".to_owned(),
        text::dec_string(inputs.jailer_uid as u64),
        "--gid".to_owned(),
        text::dec_string(inputs.jailer_gid as u64),
        "--chroot-base-dir".to_owned(),
        inputs.chroot_base_dir.clone(),
    ];
    if cgroup2 {
        r.push("--cgroup-version".to_owned());
        r.push("2".to_owned());
    }
    r.push("--new-pid-ns".to_owned());
    r.push("--netns".to_owned());
    r.push(inputs.netns_path.clone());
    r.push("--daemonize".to_owned());
    r.push("--".to_owned());
    r.push("--api-sock".to_owned());
    r.push("run/firecracker.socket".to_owned());
    r.push("--log-path".to_owned());
    r.push(log_name_of(sandbox_id));
    r.push("--level".to_owned());
    r.push("Debug".to_owned());
    assert(r.deep_view() =~= jailer_words(inputs@, sandbox_id@, cgroup2));
    r
}

/// How often the control socket may be missed.
pub const SOCKET_POLLS: u32 = 2000;

impl RestoreView {
    pub open spec fn jail(self) -> Seq<char> {
        self.cfg.jail_root(self.sandbox_id)
    }

    pub open spec fn sock(self) -> Seq<char> {
        crate::config::join_path(
            crate::config::join_path(self.jail(), "run"@),
            "firecracker.socket"@,
        )
    }

    /// What is to be done.
    pub open spec fn wants(self) -> RestoreActionView {
        match self.phase {
            RestorePhaseView::Prepare(i) => if i < self.prep.len() {
                RestoreActionView::Prepare(self.prep[i as int])
            } else {
                RestoreActionView::Pause
            },
            RestorePhaseView::Cgroup => RestoreActionView::ProbeCgroup2,
            RestorePhaseView::Jailer(cgroup2) => RestoreActionView::SpawnJailer {
                program: self.inputs.jailer_bin,
                args: jailer_words(self.inputs, self.sandbox_id, cgroup2),
            },
            RestorePhaseView::Settle => RestoreActionView::Pause,
            RestorePhaseView::Socket(_) => RestoreActionView::ProbePath(self.sock()),
            RestorePhaseView::SocketWait(_) => RestoreActionView::Pause,
            RestorePhaseView::Find => RestoreActionView::FindPid(self.jail()),
            RestorePhaseView::DebugFlag(_) => RestoreActionView::ReadDebugFlag,
            RestorePhaseView::Diag(pid) => RestoreActionView::DumpDiag(pid),
            RestorePhaseView::Logger(_) => RestoreActionView::PutLogger {
                sock: self.sock(),
                log_path: log_name(self.sandbox_id),
            },
            RestorePhaseView::Load(_) => RestoreActionView::LoadSnapshot {
                sock: self.sock(),
                vmstate: "/vmstate.src"@,
                mem: "/mem.src"@,
            },
            RestorePhaseView::Agent(_) => RestoreActionView::WaitAgent {
                netns_path: self.inputs.netns_path,
                ip: self.cfg.net.guest_ip,
                port: self.cfg.net.guest_agent_port,
                secs: self.cfg.net.guest_agent_wait_secs,
            },
            RestorePhaseView::Inode(pid) => RestoreActionView::StatMntns(pid),
            RestorePhaseView::Meta(pid, ino) => RestoreActionView::WriteMeta(
                meta(pid, ino, self.shim_pid),
            ),
            RestorePhaseView::Kill(pid, _) => RestoreActionView::Terminate(pid),
            RestorePhaseView::SaveLog(_) => RestoreActionView::SaveLog {
                src: crate::config::join_path(self.jail(), log_name(self.sandbox_id)),
                dir: self.cfg.log_dir,
                dst: crate::config::join_path(self.cfg.log_dir, log_name(self.sandbox_id)),
            },
            RestorePhaseView::Done(r) => RestoreActionView::Finish(r),
        }
    }

    /// The phase behind a step of making the jail ready.
    pub open spec fn prepared(self, i: usize) -> RestorePhaseView {
        if i + 1 < self.prep.len() {
            RestorePhaseView::Prepare((i + 1) as usize)
        } else {
            RestorePhaseView::Cgroup
        }
    }

    /// What follows a reply. A reply that does not belong to what was to be
    /// done changes nothing. Once the process is there, an error leads over its
    /// end.
    pub open spec fn after(self, reply: RestoreReplyView) -> RestorePhaseView {
        match (self.phase, reply) {
            (RestorePhaseView::Prepare(i), RestoreReplyView::Done) => self.prepared(i),
            (RestorePhaseView::Prepare(i), RestoreReplyView::Failed(e)) => if i < self.prep.len() {
                match self.prep[i as int] {
                    PrepStepView::Mkdir(_) => RestorePhaseView::Done(
                        Err("mkdir jail root: "@ + e),
                    ),
                    PrepStepView::Copy { src, dst } => RestorePhaseView::Done(
                        Err("copy "@ + src + " -> "@ + dst + ": "@ + e),
                    ),
                    _ => self.prepared(i),
                }
            } else {
                self.prepared(i)
            },
            (RestorePhaseView::Cgroup, RestoreReplyView::Flag(b)) => RestorePhaseView::Jailer(b),
            (RestorePhaseView::Jailer(_), RestoreReplyView::Done) => RestorePhaseView::Settle,
            (RestorePhaseView::Jailer(_), RestoreReplyView::Failed(e)) => RestorePhaseView::Done(
                Err("spawn jailer: "@ + e),
            ),
            (
                RestorePhaseView::Jailer(_),
                RestoreReplyView::Exited { status, stderr },
            ) => RestorePhaseView::Done(Err("jailer exited "@ + status + ": "@ + stderr)),
            (RestorePhaseView::Settle, RestoreReplyView::Done) => RestorePhaseView::Socket(0),
            (RestorePhaseView::Socket(n), RestoreReplyView::Flag(b)) => if b {
                RestorePhaseView::Find
            } else {
                RestorePhaseView::SocketWait(n)
            },
            (RestorePhaseView::SocketWait(n), RestoreReplyView::Done) => if n >= SOCKET_POLLS {
                RestorePhaseView::Done(Err("timeout waiting for firecracker socket"@))
            } else {
                RestorePhaseView::Socket((n + 1) as u32)
            },
            (RestorePhaseView::Find, RestoreReplyView::Pid(p)) => match p {
                Some(pid) => RestorePhaseView::DebugFlag(pid),
                None => RestorePhaseView::Done(
                    Err("firecracker pid not found after jailer spawn"@),
                ),
            },
            (RestorePhaseView::DebugFlag(pid), RestoreReplyView::Flag(b)) => if b {
                RestorePhaseView::Diag(pid)
            } else {
                RestorePhaseView::Logger(pid)
            },
            (RestorePhaseView::Diag(pid), RestoreReplyView::Done) => RestorePhaseView::Logger(pid),
            (RestorePhaseView::Logger(pid), RestoreReplyView::Done) => RestorePhaseView::Load(pid),
            (RestorePhaseView::Logger(pid), RestoreReplyView::Failed(_)) => RestorePhaseView::Load(
                pid,
            ),
            (RestorePhaseView::Load(pid), RestoreReplyView::Done) => if self.cfg.net.wait_guest_agent {
                RestorePhaseView::Agent(pid)
            } else {
                RestorePhaseView::Inode(pid)
            },
            (RestorePhaseView::Load(pid), RestoreReplyView::Failed(e)) => RestorePhaseView::Kill(
                pid,
                e,
            ),
            (RestorePhaseView::Agent(pid), RestoreReplyView::Done) => RestorePhaseView::Inode(pid),
            (RestorePhaseView::Agent(pid), RestoreReplyView::Failed(e)) => RestorePhaseView::Kill(
                pid,
                e,
            ),
            (RestorePhaseView::Inode(pid), RestoreReplyView::Inode(n)) => RestorePhaseView::Meta(
                pid,
                n,
            ),
            (RestorePhaseView::Inode(pid), RestoreReplyView::Failed(e)) => RestorePhaseView::Kill(
                pid,
                "stat mntns: "@ + e,
            ),
            (RestorePhaseView::Meta(pid, ino), RestoreReplyView::Done) => RestorePhaseView::Done(
                Ok(handle(pid, ino)),
            ),
            (
                RestorePhaseView::Meta(pid, ino),
                RestoreReplyView::Failed(_),
            ) => RestorePhaseView::Done(Ok(handle(pid, ino))),
            (RestorePhaseView::Kill(_, e), RestoreReplyView::Done) => RestorePhaseView::SaveLog(e),
            (RestorePhaseView::SaveLog(e), RestoreReplyView::Done) => RestorePhaseView::Done(
                Err(e),
            ),
            (p, _) => p,
        }
    }

    /// The start: a cloud disk is refused, and otherwise the jail comes first.
    pub open spec fn begin(
        cfg: ConfigView,
        sandbox_id: Seq<char>,
        shim_pid: u32,
        inputs: RestoreInputsView,
    ) -> RestoreView {
        RestoreView {
            inputs,
            cfg,
            sandbox_id,
            shim_pid,
            prep: prep_steps(inputs, cfg.jail_root(sandbox_id)),
            phase: if inputs.cloud_disk_dev matches Some(d) && d.len() > 0 {
                RestorePhaseView::Done(Err("cloud disk restore not supported in MVP"@))
            } else {
                RestorePhaseView::Prepare(0)
            },
        }
    }
}

impl Restore {
    fn jail(&self) -> (r: String)
        ensures
            r@ == self@.jail(),
    {
        self.cfg.jail_root(self.sandbox_id.as_str())
    }

    fn sock(&self) -> (r: String)
        ensures
            r@ == self@.sock(),
    {
        path_join(path_join(self.jail().as_str(), "run").as_str(), "firecracker.socket")
    }

    /// What is to be done.
    pub fn action(&self) -> (a: RestoreAction)
        ensures
            a@ == self@.wants(),
    {
        match &self.phase {
            RestorePhase::Prepare(i) => {
                if *i < self.prep.len() {
                    assert(self@.prep[*i as int] == self.prep@[*i as int]@);
                    RestoreAction::Prepare(self.prep[*i].duplicate())
                } else {
                    RestoreAction::Pause
                }
            },
            RestorePhase::Cgroup => RestoreAction::ProbeCgroup2,
            RestorePhase::Jailer(cgroup2) => RestoreAction::SpawnJailer {
                program: self.inputs.jailer_bin.clone(),
                args: jailer_args(&self.inputs, self.sandbox_id.as_str(), *cgroup2),
            },
            RestorePhase::Settle => RestoreAction::Pause,
            RestorePhase::Socket(_) => RestoreAction::ProbePath(self.sock()),
            RestorePhase::SocketWait(_) => RestoreAction::Pause,
            RestorePhase::Find => RestoreAction::FindPid(self.jail()),
            RestorePhase::DebugFlag(_) => RestoreAction::ReadDebugFlag,
            RestorePhase::Diag(pid) => RestoreAction::DumpDiag(*pid),
            RestorePhase::Logger(_) => RestoreAction::PutLogger {
                sock: self.sock(),
                log_path: log_name_of(self.sandbox_id.as_str()),
            },
            RestorePhase::Load(_) => RestoreAction::LoadSnapshot {
                sock: self.sock(),
                vmstate: "/vmstate.src".to_owned(),
                mem: "/mem.src".to_owned(),
            },
            RestorePhase::Agent(_) => RestoreAction::WaitAgent {
                netns_path: self.inputs.netns_path.clone(),
                ip: self.cfg.net.guest_ip.clone(),
                port: self.cfg.net.guest_agent_port,
                secs: self.cfg.net.guest_agent_wait_secs,
            },
            RestorePhase::Inode(pid) => RestoreAction::StatMntns(*pid),
            RestorePhase::Meta(pid, ino) => RestoreAction::WriteMeta(
                ShimMeta {
                    fc_pid: *pid,
                    mntns_inode: *ino,
                    started_at: 0,
                    shim_pid: self.shim_pid,
                },
            ),
            RestorePhase::Kill(pid, _) => RestoreAction::Terminate(*pid),
            RestorePhase::SaveLog(_) => {
                let name = log_name_of(self.sandbox_id.as_str());
                RestoreAction::SaveLog {
                    src: path_join(self.jail().as_str(), name.as_str()),
                    dir: self.cfg.log_dir.clone(),
                    dst: path_join(self.cfg.log_dir.as_str(), name.as_str()),
                }
            },
            RestorePhase::Done(r) => RestoreAction::Finish(crate::model::duplicate_result(r)),
        }
    }

    fn prepared(&self, i: usize) -> (p: RestorePhase)
        ensures
            p@ == self@.prepared(i),
    {
        if i < self.prep.len() && i + 1 < self.prep.len() {
            RestorePhase::Prepare(i + 1)
        } else {
            RestorePhase::Cgroup
        }
    }

    fn after(&self, reply: RestoreReply) -> (p: RestorePhase)
        ensures
            p@ == self@.after(reply@),
    {
        match (&self.phase, reply) {
            (RestorePhase::Prepare(i), RestoreReply::Done) => self.prepared(*i),
            (RestorePhase::Prepare(i), RestoreReply::Failed(e)) => {
                if *i < self.prep.len() {
                    assert(self@.prep[*i as int] == self.prep@[*i as int]@);
                    match &self.prep[*i] {
                        PrepStep::Mkdir(_) => RestorePhase::Done(
                            Err(text::cat2("mkdir jail root: ", e.as_str())),
                        ),
                        PrepStep::Copy { src, dst } => RestorePhase::Done(
                            Err(
                                text::cat6(
                                    "copy ",
                                    src.as_str(),
                                    " -> ",
                                    dst.as_str(),
                                    ": ",
                                    e.as_str(),
                                ),
                            ),
                        ),
                        _ => self.prepared(*i),
                    }
                } else {
                    self.prepared(*i)
                }
            },
            (RestorePhase::Cgroup, RestoreReply::Flag(b)) => RestorePhase::Jailer(b),
            (RestorePhase::Jailer(_), RestoreReply::Done) => RestorePhase::Settle,
            (RestorePhase::Jailer(_), RestoreReply::Failed(e)) => RestorePhase::Done(
                Err(text::cat2("spawn jailer: ", e.as_str())),
            ),
            (RestorePhase::Jailer(_), RestoreReply::Exited { status, stderr }) => RestorePhase::Done(
                Err(text::cat4("jailer exited ", status.as_str(), ": ", stderr.as_str())),
            ),
            (RestorePhase::Settle, RestoreReply::Done) => RestorePhase::Socket(0),
            (RestorePhase::Socket(n), RestoreReply::Flag(b)) => {
                if b {
                    RestorePhase::Find
                } else {
                    RestorePhase::SocketWait(*n)
                }
            },
            (RestorePhase::SocketWait(n), RestoreReply::Done) => {
                if *n >= SOCKET_POLLS {
                    RestorePhase::Done(Err("timeout waiting for firecracker socket".to_owned()))
                } else {
                    RestorePhase::Socket(*n + 1)
                }
            },
            (RestorePhase::Find, RestoreReply::Pid(p)) => match p {
                Some(pid) => RestorePhase::DebugFlag(pid),
                None => RestorePhase::Done(
                    Err("firecracker pid not found after jailer spawn".to_owned()),
                ),
            },
            (RestorePhase::DebugFlag(pid), RestoreReply::Flag(b)) => {
                if b {
                    RestorePhase::Diag(*pid)
                } else {
                    RestorePhase::Logger(*pid)
                }
            },
            (RestorePhase::Diag(pid), RestoreReply::Done) => RestorePhase::Logger(*pid),
            (RestorePhase::Logger(pid), RestoreReply::Done) => RestorePhase::Load(*pid),
            (RestorePhase::Logger(pid), RestoreReply::Failed(_)) => RestorePhase::Load(*pid),
            (RestorePhase::Load(pid), RestoreReply::Done) => {
                if self.cfg.net.wait_guest_agent {
                    RestorePhase::Agent(*pid)
                } else {
                    RestorePhase::Inode(*pid)
                }
            },
            (RestorePhase::Load(pid), RestoreReply::Failed(e)) => RestorePhase::Kill(*pid, e),
            (RestorePhase::Agent(pid), RestoreReply::Done) => RestorePhase::Inode(*pid),
            (RestorePhase::Agent(pid), RestoreReply::Failed(e)) => RestorePhase::Kill(*pid, e),
            (RestorePhase::Inode(pid), RestoreReply::Inode(n)) => RestorePhase::Meta(*pid, n),
            (RestorePhase::Inode(pid), RestoreReply::Failed(e)) => RestorePhase::Kill(
                *pid,
                text::cat2("stat mntns: ", e.as_str()),
            ),
            (RestorePhase::Meta(pid, ino), RestoreReply::Done) => RestorePhase::Done(
                Ok(VmHandle { fc_pid: *pid, mntns_inode: *ino, guest: None }),
            ),
            (RestorePhase::Meta(pid, ino), RestoreReply::Failed(_)) => RestorePhase::Done(
                Ok(VmHandle { fc_pid: *pid, mntns_inode: *ino, guest: None }),
            ),
            (RestorePhase::Kill(_, e), RestoreReply::Done) => RestorePhase::SaveLog(e.clone()),
            (RestorePhase::SaveLog(e), RestoreReply::Done) => RestorePhase::Done(Err(e.clone())),
            (p, _) => p.duplicate(),
        }
    }

    /// Takes the reply to what was to be done.
    pub fn advance(&mut self, reply: RestoreReply)
        ensures
            final(self)@ == (RestoreView { phase: old(self)@.after(reply@), ..old(self)@ }),
    {
        self.phase = self.after(reply);
    }
}

impl RestorePhaseView {
    /// The process that is up and not yet accounted for.
    pub open spec fn live_pid(self) -> Option<u32> {
        match self {
            RestorePhaseView::DebugFlag(pid) => Some(pid),
            RestorePhaseView::Diag(pid) => Some(pid),
            RestorePhaseView::Logger(pid) => Some(pid),
            RestorePhaseView::Load(pid) => Some(pid),
            RestorePhaseView::Agent(pid) => Some(pid),
            RestorePhaseView::Inode(pid) => Some(pid),
            RestorePhaseView::Meta(pid, _) => Some(pid),
            RestorePhaseView::Kill(pid, _) => Some(pid),
            _ => None,
        }
    }
}

/// A process that was found never gets lost: what follows keeps it, ends it, or
/// hands it out as the microVM.
pub proof fn no_process_is_lost(s: RestoreView, reply: RestoreReplyView, pid: u32)
    requires
        s.phase.live_pid() == Some(pid),
    ensures
        ({
            let p = s.after(reply);
            ||| p.live_pid() == Some(pid)
            ||| p matches RestorePhaseView::Done(Ok(h)) && h.fc_pid == pid
            ||| p is SaveLog && s.wants() == RestoreActionView::Terminate(pid)
        }),
{
}

/// An error that comes once the process is there is returned only after the
/// process was ended and its log was kept.
pub proof fn errors_end_the_process(s: RestoreView, reply: RestoreReplyView)
    requires
        s.phase.live_pid() is Some || s.phase is SaveLog,
        s.after(reply) matches RestorePhaseView::Done(Err(_)),
    ensures
        s.phase is SaveLog,
{
}

/// The control socket is looked for a bounded number of times.
pub proof fn socket_wait_is_bounded(s: RestoreView, reply: RestoreReplyView)
    requires
        match s.phase {
            RestorePhaseView::Socket(n) => n <= SOCKET_POLLS,
            RestorePhaseView::SocketWait(n) => n <= SOCKET_POLLS,
            _ => true,
        },
    ensures
        match s.after(reply) {
            RestorePhaseView::Socket(n) => n <= SOCKET_POLLS,
            RestorePhaseView::SocketWait(n) => n <= SOCKET_POLLS,
            _ => true,
        },
        s.phase matches RestorePhaseView::SocketWait(n) ==> {
            ||| reply !is Done
            ||| s.after(reply) matches RestorePhaseView::Socket(m) && m == n + 1
            ||| s.after(reply) is Done
        },
{
}

impl CreateView {
    /// What is to be done.
    pub open spec fn wants(self) -> RestoreActionView {
        match self.phase {
            CreatePhaseView::Alive(pid) => RestoreActionView::ProbeAlive(pid),
            CreatePhaseView::QuickInode(pid) => RestoreActionView::StatMntns(pid),
            CreatePhaseView::Find => RestoreActionView::FindPid(self.restore.jail()),
            CreatePhaseView::Reattach => RestoreActionView::FindPid(self.restore.jail()),
            CreatePhaseView::AttachInode(pid) => RestoreActionView::StatMntns(pid),
            CreatePhaseView::AttachMeta(pid, ino) => RestoreActionView::WriteMeta(
                meta(pid, ino, self.restore.shim_pid),
            ),
            CreatePhaseView::Fresh => self.restore.wants(),
            CreatePhaseView::Quick(r) => RestoreActionView::Finish(r),
            CreatePhaseView::Done(r) => RestoreActionView::Finish(r),
        }
    }

    /// What follows a reply. A reply that does not belong to what was to be
    /// done changes nothing.
    pub open spec fn after(self, reply: RestoreReplyView) -> CreateView {
        let moved = |p: CreatePhaseView| CreateView { phase: p, ..self };
        match (self.phase, reply) {
            (CreatePhaseView::Alive(pid), RestoreReplyView::Flag(b)) => moved(
                if b {
                    CreatePhaseView::QuickInode(pid)
                } else {
                    CreatePhaseView::Find
                },
            ),
            (CreatePhaseView::QuickInode(pid), RestoreReplyView::Inode(n)) => moved(
                CreatePhaseView::Quick(Ok(handle(pid, n))),
            ),
            (CreatePhaseView::QuickInode(pid), RestoreReplyView::Failed(e)) => moved(
                CreatePhaseView::Quick(Err("stat mntns: "@ + e)),
            ),
            (CreatePhaseView::Find, RestoreReplyView::Pid(p)) => moved(
                if p is Some {
                    CreatePhaseView::Reattach
                } else {
                    self.restored()
                },
            ),
            (CreatePhaseView::Reattach, RestoreReplyView::Pid(p)) => moved(
                match p {
                    Some(pid) => CreatePhaseView::AttachInode(pid),
                    None => CreatePhaseView::Done(Err("no live firecracker to re-attach"@)),
                },
            ),
            (CreatePhaseView::AttachInode(pid), RestoreReplyView::Inode(n)) => moved(
                CreatePhaseView::AttachMeta(pid, n),
            ),
            (CreatePhaseView::AttachInode(pid), RestoreReplyView::Failed(e)) => moved(
                CreatePhaseView::Done(Err("stat mntns: "@ + e)),
            ),
            (CreatePhaseView::AttachMeta(pid, ino), RestoreReplyView::Done) => moved(
                CreatePhaseView::Done(Ok(handle(pid, ino))),
            ),
            (CreatePhaseView::AttachMeta(pid, ino), RestoreReplyView::Failed(_)) => moved(
                CreatePhaseView::Done(Ok(handle(pid, ino))),
            ),
            (CreatePhaseView::Fresh, r) => {
                let next = CreateView {
                    restore: RestoreView { phase: self.restore.after(r), ..self.restore },
                    ..self
                };
                CreateView { phase: next.restored(), ..next }
            },
            _ => self,
        }
    }

    /// How far a creation is that goes by the restore: it is over as soon as
    /// the restore is.
    pub open spec fn restored(self) -> CreatePhaseView {
        match self.restore.phase {
            RestorePhaseView::Done(r) => CreatePhaseView::Done(r),
            _ => CreatePhaseView::Fresh,
        }
    }

    /// What follows replies that come one after the other.
    pub open spec fn after_all(self, replies: Seq<RestoreReplyView>) -> CreateView
        decreases replies.len(),
    {
        if replies.len() == 0 {
            self
        } else {
            self.after_all(replies.drop_last()).after(replies.last())
        }
    }

    /// A creation that goes by the restore ends with it.
    spec fn steady(self) -> bool {
        self.phase is Fresh ==> self.restore.phase !is Done
    }

    /// A creation that is quick speaks of the process that was known.
    spec fn known(self, c: VmCoreView) -> bool {
        match self.phase {
            CreatePhaseView::Alive(pid) => c.created && c.fc_pid == Some(pid),
            CreatePhaseView::QuickInode(pid) => c.created && c.fc_pid == Some(pid),
            CreatePhaseView::Quick(Ok(h)) => c.created && c.fc_pid == Some(h.fc_pid),
            CreatePhaseView::Quick(Err(_)) => c.created && c.fc_pid is Some,
            _ => true,
        }
    }
}

impl Create {
    /// What is to be done.
    pub fn action(&self) -> (a: RestoreAction)
        ensures
            a@ == self@.wants(),
    {
        match &self.phase {
            CreatePhase::Alive(pid) => RestoreAction::ProbeAlive(*pid),
            CreatePhase::QuickInode(pid) => RestoreAction::StatMntns(*pid),
            CreatePhase::Find => RestoreAction::FindPid(self.restore.jail()),
            CreatePhase::Reattach => RestoreAction::FindPid(self.restore.jail()),
            CreatePhase::AttachInode(pid) => RestoreAction::StatMntns(*pid),
            CreatePhase::AttachMeta(pid, ino) => RestoreAction::WriteMeta(
                ShimMeta {
                    fc_pid: *pid,
                    mntns_inode: *ino,
                    started_at: 0,
                    shim_pid: self.restore.shim_pid,
                },
            ),
            CreatePhase::Fresh => self.restore.action(),
            CreatePhase::Quick(r) => RestoreAction::Finish(crate::model::duplicate_result(r)),
            CreatePhase::Done(r) => RestoreAction::Finish(crate::model::duplicate_result(r)),
        }
    }

    fn restored(&self) -> (p: CreatePhase)
        ensures
            p@ == self@.restored(),
    {
        match &self.restore.phase {
            RestorePhase::Done(r) => CreatePhase::Done(crate::model::duplicate_result(r)),
            _ => CreatePhase::Fresh,
        }
    }

    /// Takes the reply to what was to be done.
    pub fn advance(&mut self, reply: RestoreReply)
        ensures
            final(self)@ == old(self)@.after(reply@),
    {
        if matches!(self.phase, CreatePhase::Fresh) {
            self.restore.advance(reply);
            self.phase = self.restored();
            return;
        }
        let p = match (&self.phase, reply) {
            (CreatePhase::Alive(pid), RestoreReply::Flag(b)) => {
                if b {
                    CreatePhase::QuickInode(*pid)
                } else {
                    CreatePhase::Find
                }
            },
            (CreatePhase::QuickInode(pid), RestoreReply::Inode(n)) => CreatePhase::Quick(
                Ok(VmHandle { fc_pid: *pid, mntns_inode: n, guest: None }),
            ),
            (CreatePhase::QuickInode(_), RestoreReply::Failed(e)) => CreatePhase::Quick(
                Err(text::cat2("stat mntns: ", e.as_str())),
            ),
            (CreatePhase::Find, RestoreReply::Pid(p)) => {
                if p.is_some() {
                    CreatePhase::Reattach
                } else {
                    self.restored()
                }
            },
            (CreatePhase::Reattach, RestoreReply::Pid(p)) => match p {
                Some(pid) => CreatePhase::AttachInode(pid),
                None => CreatePhase::Done(Err("no live firecracker to re-attach".to_owned())),
            },
            (CreatePhase::AttachInode(pid), RestoreReply::Inode(n)) => CreatePhase::AttachMeta(
                *pid,
                n,
            ),
            (CreatePhase::AttachInode(_), RestoreReply::Failed(e)) => CreatePhase::Done(
                Err(text::cat2("stat mntns: ", e.as_str())),
            ),
            (CreatePhase::AttachMeta(pid, ino), RestoreReply::Done) => CreatePhase::Done(
                Ok(VmHandle { fc_pid: *pid, mntns_inode: *ino, guest: None }),
            ),
            (CreatePhase::AttachMeta(pid, ino), RestoreReply::Failed(_)) => CreatePhase::Done(
                Ok(VmHandle { fc_pid: *pid, mntns_inode: *ino, guest: None }),
            ),
            _ => {
                return;
            },
        };
        self.phase = p;
    }
}

/// A microVM that is found to be up is never restored a second time.
pub proof fn found_is_not_restored(c: CreateView, pid: u32, reply: RestoreReplyView)
    requires
        c.phase == CreatePhaseView::Find,
    ensures
        c.after(RestoreReplyView::Pid(Some(pid))).phase == CreatePhaseView::Reattach,
        c.after(RestoreReplyView::Pid(Some(pid))).after(reply).phase !is Fresh,
{
}

impl VmCoreView {
    /// A microVM that does not exist yet.
    pub open spec fn fresh(cfg: ConfigView, sandbox_id: Seq<char>) -> VmCoreView {
        VmCoreView {
            cfg,
            sandbox_id,
            sandbox_dir: cfg.sandbox_dir(sandbox_id),
            jail_root: cfg.jail_root(sandbox_id),
            meta_path: crate::config::join_path(cfg.sandbox_dir(sandbox_id), "shim.meta"@),
            fc_pid: None,
            state: VmCoreState::NotExist,
            created: false,
        }
    }

    /// The creation: one that is known is looked at first.
    pub open spec fn create(self, inputs: RestoreInputsView, shim_pid: u32) -> CreateView {
        CreateView {
            restore: RestoreView::begin(self.cfg, self.sandbox_id, shim_pid, inputs),
            phase: match (self.created, self.fc_pid) {
                (true, Some(pid)) => CreatePhaseView::Alive(pid),
                _ => CreatePhaseView::Find,
            },
        }
    }

    /// The take-over of a microVM that is up.
    pub open spec fn re_attach(self, inputs: RestoreInputsView, shim_pid: u32) -> CreateView {
        CreateView { phase: CreatePhaseView::Reattach, ..self.create(inputs, shim_pid) }
    }

    /// The state and the process, by what a look at the process has shown.
    pub open spec fn liveness(self, alive: bool) -> (VmCoreState, u32) {
        let pid = match self.fc_pid {
            Some(pid) => pid,
            None => 0,
        };
        (
            if self.state == VmCoreState::Running && pid != 0 && !alive {
                VmCoreState::Stopped
            } else {
                self.state
            },
            pid,
        )
    }

    /// What is known after a creation.
    pub open spec fn created_by(self, phase: CreatePhaseView) -> VmCoreView {
        match phase {
            CreatePhaseView::Done(Ok(h)) => VmCoreView {
                fc_pid: Some(h.fc_pid),
                state: VmCoreState::Running,
                created: true,
                ..self
            },
            CreatePhaseView::Done(Err(_)) => VmCoreView { state: VmCoreState::Failed, ..self },
            _ => self,
        }
    }
}

impl VmCore {
    pub fn new(cfg: Config, sandbox_id: String) -> (c: Self)
        ensures
            c@ == VmCoreView::fresh(cfg@, sandbox_id@),
    {
        let sandbox_dir = cfg.sandbox_dir(sandbox_id.as_str());
        let jail_root = cfg.jail_root(sandbox_id.as_str());
        let meta_path = path_join(sandbox_dir.as_str(), "shim.meta");
        VmCore {
            cfg,
            sandbox_id,
            sandbox_dir,
            jail_root,
            meta_path,
            fc_pid: None,
            state: VmCoreState::NotExist,
            created: false,
        }
    }

    pub fn sandbox_id(&self) -> (r: &str)
        ensures
            r@ == self@.sandbox_id,
    {
        self.sandbox_id.as_str()
    }

    pub fn sandbox_dir(&self) -> (r: &str)
        ensures
            r@ == self@.sandbox_dir,
    {
        self.sandbox_dir.as_str()
    }

    pub fn jail_root(&self) -> (r: &str)
        ensures
            r@ == self@.jail_root,
    {
        self.jail_root.as_str()
    }

    pub fn meta_path(&self) -> (r: &str)
        ensures
            r@ == self@.meta_path,
    {
        self.meta_path.as_str()
    }

    /// A restore from the start.
    pub fn fresh_restore(&self, inputs: &RestoreInputs, shim_pid: u32) -> (r: Restore)
        ensures
            r@ == RestoreView::begin(self@.cfg, self@.sandbox_id, shim_pid, inputs@),
    {
        let jail = self.cfg.jail_root(self.sandbox_id.as_str());
        let refused = match &inputs.cloud_disk_dev {
            Some(d) => !text::is_empty(d.as_str()),
            None => false,
        };
        let phase = if refused {
            RestorePhase::Done(Err("cloud disk restore not supported in MVP".to_owned()))
        } else {
            RestorePhase::Prepare(0)
        };
        Restore {
            inputs: inputs.duplicate(),
            cfg: self.cfg.duplicate(),
            sandbox_id: self.sandbox_id.clone(),
            shim_pid,
            prep: prepare(inputs, jail.as_str()),
            phase,
        }
    }

    /// A creation from the start.
    pub fn create(&self, inputs: &RestoreInputs, shim_pid: u32) -> (r: Create)
        ensures
            r@ == self@.create(inputs@, shim_pid),
    {
        let restore = self.fresh_restore(inputs, shim_pid);
        let phase = match (self.created, self.fc_pid) {
            (true, Some(pid)) => CreatePhase::Alive(pid),
            _ => CreatePhase::Find,
        };
        Create { restore, phase }
    }

    /// A take-over of a microVM that is up, from the start.
    pub fn re_attach(&self, inputs: &RestoreInputs, shim_pid: u32) -> (r: Create)
        ensures
            r@ == self@.re_attach(inputs@, shim_pid),
    {
        Create { restore: self.fresh_restore(inputs, shim_pid), phase: CreatePhase::Reattach }
    }

    /// Notes what came of a creation.
    pub fn finish_create(&mut self, c: &Create)
        ensures
            final(self)@ == old(self)@.created_by(c@.phase),
    {
        match &c.phase {
            CreatePhase::Done(Ok(h)) => {
                self.fc_pid = Some(h.fc_pid);
                self.state = VmCoreState::Running;
                self.created = true;
            },
            CreatePhase::Done(Err(_)) => {
                self.state = VmCoreState::Failed;
            },
            _ => {},
        }
    }

    /// The process to look at before the state is told, where there is one.
    pub fn watched_pid(&self) -> (r: Option<u32>)
        ensures
            r == (match self@.fc_pid {
                Some(pid) => if self@.state == VmCoreState::Running && pid != 0 {
                    Some(pid)
                } else {
                    None
                },
                None => None,
            }),
    {
        match self.fc_pid {
            Some(pid) => {
                if self.state == VmCoreState::Running && pid != 0 {
                    Some(pid)
                } else {
                    None
                }
            },
            None => None,
        }
    }

    /// The state and the process, where `alive` tells what a look at the
    /// process has shown: a running microVM whose process is gone is stopped.
    pub fn liveness(&self, alive: bool) -> (r: (VmCoreState, u32))
        ensures
            r == self@.liveness(alive),
    {
        let pid: u32 = match self.fc_pid {
            Some(pid) => pid,
            None => 0,
        };
        let mut state = self.state;
        if state == VmCoreState::Running && pid != 0 && !alive {
            state = VmCoreState::Stopped;
        }
        (state, pid)
    }

    /// Marks the microVM as stopped. Returns the process to end, where there is
    /// one; then the jail and the note are to be removed.
    pub fn cleanup(&mut self) -> (r: Option<u32>)
        ensures
            r == old(self)@.fc_pid,
            final(self)@ == (VmCoreView { state: VmCoreState::Stopped, ..old(self)@ }),
    {
        self.state = VmCoreState::Stopped;
        self.fc_pid
    }
}

proof fn steps_are_steady(c: VmCoreView, start: CreateView, replies: Seq<RestoreReplyView>)
    requires
        start.steady(),
        start.known(c),
    ensures
        start.after_all(replies).steady(),
        start.after_all(replies).known(c),
    decreases replies.len(),
{
    if replies.len() > 0 {
        steps_are_steady(c, start, replies.drop_last());
    }
}

/// A creation and a take-over, whatever the replies were, are to be finished
/// just where their phase says that they are over.
pub proof fn finish_is_the_end(
    c: VmCoreView,
    inputs: RestoreInputsView,
    shim_pid: u32,
    replies: Seq<RestoreReplyView>,
)
    ensures
        ({
            let q = c.create(inputs, shim_pid).after_all(replies);
            q.wants() is Finish <==> q.phase is Done || q.phase is Quick
        }),
        ({
            let q = c.re_attach(inputs, shim_pid).after_all(replies);
            q.wants() is Finish <==> q.phase is Done || q.phase is Quick
        }),
{
    steps_are_steady(c, c.create(inputs, shim_pid), replies);
    steps_are_steady(c, c.re_attach(inputs, shim_pid), replies);
}

/// What a creation returned is what is known of the microVM from then on,
/// whatever the replies were. After an error it has failed; after a success it
/// runs for as long as its process does. Only where the process of a microVM
/// that was created before is still alive does the creation change nothing, and
/// what it returns is about that process.
pub proof fn creation_is_noted(
    c: VmCoreView,
    inputs: RestoreInputsView,
    shim_pid: u32,
    replies: Seq<RestoreReplyView>,
    r: Result<VmHandleView, Seq<char>>,
    alive: bool,
)
    requires
        c.create(inputs, shim_pid).after_all(replies).wants() == RestoreActionView::Finish(r),
    ensures
        ({
            let q = c.create(inputs, shim_pid).after_all(replies);
            let after = c.created_by(q.phase);
            if q.phase is Quick {
                &&& c.created && c.fc_pid is Some
                &&& after == c
                &&& r matches Ok(h) ==> {
                    &&& c.fc_pid == Some(h.fc_pid)
                    &&& c.state == VmCoreState::Running ==> after.liveness(true) == (
                        VmCoreState::Running,
                        h.fc_pid,
                    )
                }
            } else {
                &&& q.phase == CreatePhaseView::Done(r)
                &&& match r {
                    Ok(h) => {
                        &&& after.liveness(true) == (VmCoreState::Running, h.fc_pid)
                        &&& h.fc_pid != 0 ==> after.liveness(false) == (
                            VmCoreState::Stopped,
                            h.fc_pid,
                        )
                    },
                    Err(_) => {
                        &&& after.liveness(alive).0 == VmCoreState::Failed
                        &&& after.fc_pid == c.fc_pid
                    },
                }
            }
        }),
{
    finish_is_the_end(c, inputs, shim_pid, replies);
    steps_are_steady(c, c.create(inputs, shim_pid), replies);
}

/// A microVM that was not created before and whose creation returned an error
/// has failed.
pub proof fn a_failed_creation_reads_as_failed(
    cfg: ConfigView,
    sandbox_id: Seq<char>,
    inputs: RestoreInputsView,
    shim_pid: u32,
    replies: Seq<RestoreReplyView>,
    e: Seq<char>,
    alive: bool,
)
    requires
        VmCoreView::fresh(cfg, sandbox_id).create(inputs, shim_pid).after_all(replies).wants()
            == RestoreActionView::Finish(Err(e)),
    ensures
        ({
            let c = VmCoreView::fresh(cfg, sandbox_id);
            let q = c.create(inputs, shim_pid).after_all(replies);
            c.created_by(q.phase).liveness(alive) == (VmCoreState::Failed, 0u32)
        }),
{
    let c = VmCoreView::fresh(cfg, sandbox_id);
    creation_is_noted(c, inputs, shim_pid, replies, Err(e), alive);
}

/// A cloud disk is refused as soon as no microVM is found to be up, and what
/// was to be created has failed.
pub proof fn a_cloud_disk_ends_the_creation(
    c: VmCoreView,
    inputs: RestoreInputsView,
    shim_pid: u32,
)
    requires
        !c.created || c.fc_pid is None,
        inputs.cloud_disk_dev matches Some(d) && d.len() > 0,
    ensures
        ({
            let q = c.create(inputs, shim_pid).after(RestoreReplyView::Pid(None));
            &&& q.wants() == RestoreActionView::Finish(
                Err("cloud disk restore not supported in MVP"@),
            )
            &&& c.created_by(q.phase).state == VmCoreState::Failed
        }),
{
}

/// Nothing is told to run whose process is gone; what was never created does
/// not exist; what was cleaned up has stopped.
pub proof fn liveness_is_honest(c: VmCoreView, cfg: ConfigView, sandbox_id: Seq<char>, alive: bool)
    ensures
        c.liveness(false).0 == VmCoreState::Running ==> c.liveness(false).1 == 0,
        VmCoreView::fresh(cfg, sandbox_id).liveness(alive) == (VmCoreState::NotExist, 0u32),
        (VmCoreView { state: VmCoreState::Stopped, ..c }).liveness(alive).0
            == VmCoreState::Stopped,
{
}

/// To create a microVM that is up and whose process is alive changes nothing
/// of what is known of it.
pub proof fn create_is_idempotent(
    c: VmCoreView,
    inputs: RestoreInputsView,
    shim_pid: u32,
    pid: u32,
    ino: u64,
)
    requires
        c.created,
        c.fc_pid == Some(pid),
    ensures
        ({
            let q = c.create(inputs, shim_pid).after(RestoreReplyView::Flag(true)).after(
                RestoreReplyView::Inode(ino),
            );
            &&& q.wants() == RestoreActionView::Finish(Ok(handle(pid, ino)))
            &&& c.created_by(q.phase) == c
        }),
{
}

} // verus!
