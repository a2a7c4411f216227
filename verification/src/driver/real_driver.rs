//! The runtime's side of the microVMs: shims are started, asked, and cleaned
//! up after.

use vstd::prelude::*;

use crate::config::{path_join, Config};
#[allow(unused_imports)]
use crate::config::ConfigView;
use crate::driver::identity::{verify_fc_pid, ShimMeta};
use crate::driver::shim::{CreateRequest, CreateRequestView, CreateResponse, CreateResponseView};
use crate::driver::{
    DriverError, DriverErrorView, VmLifecycle, VmNet, VmNetView, VmSpec, VmSpecView, VmStatus,
    VmStatusView,
};
use crate::model::Duplicate;
use crate::strmap::StrMap;
use crate::text;
use crate::types::SandboxId;

verus! {

/// How far the wait for a shim's socket has come.
#[derive(Debug, PartialEq)]
pub enum WaitPhase {
    /// The socket was missed this often.
    Probe(u32),
    Pause(u32),
    Up,
    TimedOut,
}

/// The abstract value of [`WaitPhase`].
#[verifier::ext_equal]
pub enum WaitPhaseView {
    Probe(u32),
    Pause(u32),
    Up,
    TimedOut,
}

impl DeepView for WaitPhase {
    type V = WaitPhaseView;

    open spec fn deep_view(&self) -> WaitPhaseView {
        match *self {
            WaitPhase::Probe(a) => WaitPhaseView::Probe(a),
            WaitPhase::Pause(a) => WaitPhaseView::Pause(a),
            WaitPhase::Up => WaitPhaseView::Up,
            WaitPhase::TimedOut => WaitPhaseView::TimedOut,
        }
    }
}

impl View for WaitPhase {
    type V = WaitPhaseView;

    open spec fn view(&self) -> WaitPhaseView {
        self.deep_view()
    }
}

impl Duplicate for WaitPhase {
    fn duplicate(&self) -> (r: Self) {
        match self {
            WaitPhase::Probe(a) => WaitPhase::Probe(*a),
            WaitPhase::Pause(a) => WaitPhase::Pause(*a),
            WaitPhase::Up => WaitPhase::Up,
            WaitPhase::TimedOut => WaitPhase::TimedOut,
        }
    }
}

impl Clone for WaitPhase {
    fn clone(&self) -> (r: Self)
        ensures
            r@ == self@,
    {
        self.duplicate()
    }
}

/// How far the creation of a microVM has come.
#[derive(Debug, PartialEq)]
pub enum CreateVmPhase {
    /// Is the shim there?
    Probe,
    Spawn,
    Call,
    Done(Result<(), DriverError>),
}

/// The abstract value of [`CreateVmPhase`].
#[verifier::ext_equal]
pub enum CreateVmPhaseView {
    Probe,
    Spawn,
    Call,
    Done(Result<(), DriverErrorView>),
}

impl DeepView for CreateVmPhase {
    type V = CreateVmPhaseView;

    open spec fn deep_view(&self) -> CreateVmPhaseView {
        match *self {
            CreateVmPhase::Probe => CreateVmPhaseView::Probe,
            CreateVmPhase::Spawn => CreateVmPhaseView::Spawn,
            CreateVmPhase::Call => CreateVmPhaseView::Call,
            CreateVmPhase::Done(a) => CreateVmPhaseView::Done(crate::model::result_view(a)),
        }
    }
}

impl View for CreateVmPhase {
    type V = CreateVmPhaseView;

    open spec fn view(&self) -> CreateVmPhaseView {
        self.deep_view()
    }
}

impl Duplicate for CreateVmPhase {
    fn duplicate(&self) -> (r: Self) {
        match self {
            CreateVmPhase::Probe => CreateVmPhase::Probe,
            CreateVmPhase::Spawn => CreateVmPhase::Spawn,
            CreateVmPhase::Call => CreateVmPhase::Call,
            CreateVmPhase::Done(a) => CreateVmPhase::Done(crate::model::duplicate_result(a)),
        }
    }
}

impl Clone for CreateVmPhase {
    fn clone(&self) -> (r: Self)
        ensures
            r@ == self@,
    {
        self.duplicate()
    }
}

/// What came of it.
#[derive(Debug, PartialEq)]
pub enum CreateVmReply {
    Exists(bool),
    Spawned(Result<(), DriverError>),
    Answered(Result<CreateResponse, DriverError>),
}

/// The abstract value of [`CreateVmReply`].
#[verifier::ext_equal]
pub enum CreateVmReplyView {
    Exists(bool),
    Spawned(Result<(), DriverErrorView>),
    Answered(Result<CreateResponseView, DriverErrorView>),
}

impl DeepView for CreateVmReply {
    type V = CreateVmReplyView;

    open spec fn deep_view(&self) -> CreateVmReplyView {
        match *self {
            CreateVmReply::Exists(a) => CreateVmReplyView::Exists(a),
            CreateVmReply::Spawned(a) => CreateVmReplyView::Spawned(crate::model::result_view(a)),
            CreateVmReply::Answered(a) => CreateVmReplyView::Answered(crate::model::result_view(a)),
        }
    }
}

impl View for CreateVmReply {
    type V = CreateVmReplyView;

    open spec fn view(&self) -> CreateVmReplyView {
        self.deep_view()
    }
}

impl Duplicate for CreateVmReply {
    fn duplicate(&self) -> (r: Self) {
        match self {
            CreateVmReply::Exists(a) => CreateVmReply::Exists(*a),
            CreateVmReply::Spawned(a) => CreateVmReply::Spawned(crate::model::duplicate_result(a)),
            CreateVmReply::Answered(a) => CreateVmReply::Answered(crate::model::duplicate_result(a)),
        }
    }
}

impl Clone for CreateVmReply {
    fn clone(&self) -> (r: Self)
        ensures
            r@ == self@,
    {
        self.duplicate()
    }
}

/// The creation of a microVM by its shim.
#[derive(Debug, PartialEq)]
pub struct CreateVm {
    pub request: CreateRequest,
    pub socket: String,
    pub phase: CreateVmPhase,
}

/// The abstract value of [`CreateVm`].
#[verifier::ext_equal]
pub struct CreateVmView {
    pub request: CreateRequestView,
    pub socket: Seq<char>,
    pub phase: CreateVmPhaseView,
}

impl DeepView for CreateVm {
    type V = CreateVmView;

    open spec fn deep_view(&self) -> CreateVmView {
        CreateVmView {
            request: self.request.deep_view(),
            socket: self.socket@,
            phase: self.phase.deep_view(),
        }
    }
}

impl View for CreateVm {
    type V = CreateVmView;

    open spec fn view(&self) -> CreateVmView {
        self.deep_view()
    }
}

impl Duplicate for CreateVm {
    fn duplicate(&self) -> (r: Self) {
        CreateVm {
            request: self.request.duplicate(),
            socket: self.socket.duplicate(),
            phase: self.phase.duplicate(),
        }
    }
}

impl Clone for CreateVm {
    fn clone(&self) -> (r: Self)
        ensures
            r@ == self@,
    {
        self.duplicate()
    }
}

/// How far the question for a microVM's state has come.
#[derive(Debug, PartialEq)]
pub enum GetVmPhase {
    /// This many attempts have failed.
    Ask(u8),
    Respawn(u8, DriverError),
    Pause(u8, DriverError),
    Done(Result<VmStatus, DriverError>),
}

/// The abstract value of [`GetVmPhase`].
#[verifier::ext_equal]
pub enum GetVmPhaseView {
    Ask(u8),
    Respawn(u8, DriverErrorView),
    Pause(u8, DriverErrorView),
    Done(Result<VmStatusView, DriverErrorView>),
}

impl DeepView for GetVmPhase {
    type V = GetVmPhaseView;

    open spec fn deep_view(&self) -> GetVmPhaseView {
        match *self {
            GetVmPhase::Ask(a) => GetVmPhaseView::Ask(a),
            GetVmPhase::Respawn(a, b) => GetVmPhaseView::Respawn(a, b.deep_view()),
            GetVmPhase::Pause(a, b) => GetVmPhaseView::Pause(a, b.deep_view()),
            GetVmPhase::Done(a) => GetVmPhaseView::Done(crate::model::result_view(a)),
        }
    }
}

impl View for GetVmPhase {
    type V = GetVmPhaseView;

    open spec fn view(&self) -> GetVmPhaseView {
        self.deep_view()
    }
}

impl Duplicate for GetVmPhase {
    fn duplicate(&self) -> (r: Self) {
        match self {
            GetVmPhase::Ask(a) => GetVmPhase::Ask(*a),
            GetVmPhase::Respawn(a, b) => GetVmPhase::Respawn(*a, b.duplicate()),
            GetVmPhase::Pause(a, b) => GetVmPhase::Pause(*a, b.duplicate()),
            GetVmPhase::Done(a) => GetVmPhase::Done(crate::model::duplicate_result(a)),
        }
    }
}

impl Clone for GetVmPhase {
    fn clone(&self) -> (r: Self)
        ensures
            r@ == self@,
    {
        self.duplicate()
    }
}

/// How far the deletion of a microVM has come.
#[derive(Debug, PartialEq)]
pub enum DeletePhase {
    /// Can the shim be reached?
    Connect,
    /// Ask the shim to stop.
    Stop,
    /// Clean up without the shim.
    Kill,
    Pause,
    /// Clean up what the shim may have left.
    KillAgain,
    Done,
}

/// The abstract value of [`DeletePhase`].
#[verifier::ext_equal]
pub enum DeletePhaseView {
    Connect,
    Stop,
    Kill,
    Pause,
    KillAgain,
    Done,
}

impl DeepView for DeletePhase {
    type V = DeletePhaseView;

    open spec fn deep_view(&self) -> DeletePhaseView {
        match *self {
            DeletePhase::Connect => DeletePhaseView::Connect,
            DeletePhase::Stop => DeletePhaseView::Stop,
            DeletePhase::Kill => DeletePhaseView::Kill,
            DeletePhase::Pause => DeletePhaseView::Pause,
            DeletePhase::KillAgain => DeletePhaseView::KillAgain,
            DeletePhase::Done => DeletePhaseView::Done,
        }
    }
}

impl View for DeletePhase {
    type V = DeletePhaseView;

    open spec fn view(&self) -> DeletePhaseView {
        self.deep_view()
    }
}

impl Duplicate for DeletePhase {
    fn duplicate(&self) -> (r: Self) {
        match self {
            DeletePhase::Connect => DeletePhase::Connect,
            DeletePhase::Stop => DeletePhase::Stop,
            DeletePhase::Kill => DeletePhase::Kill,
            DeletePhase::Pause => DeletePhase::Pause,
            DeletePhase::KillAgain => DeletePhase::KillAgain,
            DeletePhase::Done => DeletePhase::Done,
        }
    }
}

impl Clone for DeletePhase {
    fn clone(&self) -> (r: Self)
        ensures
            r@ == self@,
    {
        self.duplicate()
    }
}

/// How far the clean-up without a shim has come.
#[derive(Debug, PartialEq)]
pub enum KillPhase {
    /// Read the note of the shim.
    ReadMeta,
    /// See whether the noted process is the noted microVM.
    Check(ShimMeta),
    /// Find a microVM in the jail.
    Find,
    /// End a process.
    Kill(u32),
    /// See whether the jail is to be kept.
    KeepFlag,
    RemoveJail,
    RemoveMeta,
    RemoveSocket,
    Done,
}

/// The abstract value of [`KillPhase`].
#[verifier::ext_equal]
pub enum KillPhaseView {
    ReadMeta,
    Check(ShimMeta),
    Find,
    Kill(u32),
    KeepFlag,
    RemoveJail,
    RemoveMeta,
    RemoveSocket,
    Done,
}

impl DeepView for KillPhase {
    type V = KillPhaseView;

    open spec fn deep_view(&self) -> KillPhaseView {
        match *self {
            KillPhase::ReadMeta => KillPhaseView::ReadMeta,
            KillPhase::Check(a) => KillPhaseView::Check(a),
            KillPhase::Find => KillPhaseView::Find,
            KillPhase::Kill(a) => KillPhaseView::Kill(a),
            KillPhase::KeepFlag => KillPhaseView::KeepFlag,
            KillPhase::RemoveJail => KillPhaseView::RemoveJail,
            KillPhase::RemoveMeta => KillPhaseView::RemoveMeta,
            KillPhase::RemoveSocket => KillPhaseView::RemoveSocket,
            KillPhase::Done => KillPhaseView::Done,
        }
    }
}

impl View for KillPhase {
    type V = KillPhaseView;

    open spec fn view(&self) -> KillPhaseView {
        self.deep_view()
    }
}

impl Duplicate for KillPhase {
    fn duplicate(&self) -> (r: Self) {
        match self {
            KillPhase::ReadMeta => KillPhase::ReadMeta,
            KillPhase::Check(a) => KillPhase::Check(*a),
            KillPhase::Find => KillPhase::Find,
            KillPhase::Kill(a) => KillPhase::Kill(*a),
            KillPhase::KeepFlag => KillPhase::KeepFlag,
            KillPhase::RemoveJail => KillPhase::RemoveJail,
            KillPhase::RemoveMeta => KillPhase::RemoveMeta,
            KillPhase::RemoveSocket => KillPhase::RemoveSocket,
            KillPhase::Done => KillPhase::Done,
        }
    }
}

impl Clone for KillPhase {
    fn clone(&self) -> (r: Self)
        ensures
            r@ == self@,
    {
        self.duplicate()
    }
}

/// What came of it.
#[derive(Debug, PartialEq)]
pub enum KillReply {
    Meta(Option<ShimMeta>),
    Process {
        alive: bool,
        inode: Option<u64>,
    },
    Pid(Option<u32>),
    Keep(bool),
    Done,
}

/// The abstract value of [`KillReply`].
#[verifier::ext_equal]
pub enum KillReplyView {
    Meta(Option<ShimMeta>),
    Process {
        alive: bool,
        inode: Option<u64>,
    },
    Pid(Option<u32>),
    Keep(bool),
    Done,
}

impl DeepView for KillReply {
    type V = KillReplyView;

    open spec fn deep_view(&self) -> KillReplyView {
        match *self {
            KillReply::Meta(a) => KillReplyView::Meta(a.deep_view()),
            KillReply::Process { alive, inode } => KillReplyView::Process { alive, inode: inode.deep_view() },
            KillReply::Pid(a) => KillReplyView::Pid(a.deep_view()),
            KillReply::Keep(a) => KillReplyView::Keep(a),
            KillReply::Done => KillReplyView::Done,
        }
    }
}

impl View for KillReply {
    type V = KillReplyView;

    open spec fn view(&self) -> KillReplyView {
        self.deep_view()
    }
}

impl Duplicate for KillReply {
    fn duplicate(&self) -> (r: Self) {
        match self {
            KillReply::Meta(a) => KillReply::Meta(a.duplicate()),
            KillReply::Process { alive, inode } => KillReply::Process { alive: *alive, inode: inode.duplicate() },
            KillReply::Pid(a) => KillReply::Pid(a.duplicate()),
            KillReply::Keep(a) => KillReply::Keep(*a),
            KillReply::Done => KillReply::Done,
        }
    }
}

impl Clone for KillReply {
    fn clone(&self) -> (r: Self)
        ensures
            r@ == self@,
    {
        self.duplicate()
    }
}

/// The sandbox that a socket belongs to, by the name of the socket.
pub open spec fn owner_of(name: Seq<char>) -> Option<Seq<char>> {
    let head = "oas-shim-"@;
    let tail = ".sock"@;
    if text::has_prefix(name, head) {
        let rest = name.skip(head.len() as int);
        if text::has_suffix(rest, tail) {
            Some(rest.take(rest.len() - tail.len()))
        } else {
            None
        }
    } else {
        None
    }
}

/// The sandbox that a socket belongs to, by the name of the socket.
pub fn socket_owner(name: &str) -> (r: Option<String>)
    ensures
        r.deep_view() == owner_of(name@),
{
    match text::strip_prefix(name, "oas-shim-") {
        Some(rest) => text::strip_suffix(rest.as_str(), ".sock"),
        None => None,
    }
}

/// The stage of life that a shim tells.
pub open spec fn lifecycle_of(state: Seq<char>) -> VmLifecycle {
    if state == "Running"@ {
        VmLifecycle::Running
    } else if state == "Stopped"@ {
        VmLifecycle::Stopped
    } else if state == "Failed"@ {
        VmLifecycle::Degraded
    } else {
        VmLifecycle::Creating
    }
}

/// What a microVM is, by what its shim tells.
pub open spec fn status_of(id: Seq<char>, state: Seq<char>) -> VmStatusView {
    VmStatusView {
        id,
        started: lifecycle_of(state) == VmLifecycle::Running,
        healthy: lifecycle_of(state) == VmLifecycle::Running,
        lifecycle: lifecycle_of(state),
    }
}

/// What a microVM is, by what its shim tells.
pub fn state_to_status(id: &SandboxId, state: &str) -> (r: VmStatus)
    ensures
        r@ == status_of(id@, state@),
{
    let lifecycle = if text::same(state, "Running") {
        VmLifecycle::Running
    } else if text::same(state, "Stopped") {
        VmLifecycle::Stopped
    } else if text::same(state, "Failed") {
        VmLifecycle::Degraded
    } else {
        VmLifecycle::Creating
    };
    VmStatus {
        id: id.duplicate(),
        started: lifecycle == VmLifecycle::Running,
        healthy: lifecycle == VmLifecycle::Running,
        lifecycle,
    }
}

/// What a microVM in a listing is: one whose shim does not answer is degraded.
pub open spec fn listed_as(
    id: Seq<char>,
    state: Result<Seq<char>, DriverErrorView>,
) -> VmStatusView {
    match state {
        Ok(s) => status_of(id, s),
        Err(_) => VmStatusView {
            id,
            started: false,
            healthy: false,
            lifecycle: VmLifecycle::Degraded,
        },
    }
}

/// All microVMs, by what their shims tell.
pub fn list_vm(told: &Vec<(SandboxId, Result<String, DriverError>)>) -> (r: Vec<VmStatus>)
    ensures
        r@.len() == told@.len(),
        forall|i: int|
            0 <= i < r@.len() ==> (#[trigger] r@[i])@ == listed_as(
                told@[i].0@,
                crate::model::result_view(told@[i].1),
            ),
{
    let mut r: Vec<VmStatus> = Vec::new();
    let mut i: usize = 0;
    while i < told.len()
        invariant
            i <= told@.len(),
            r@.len() == i,
            forall|j: int|
                0 <= j < i ==> (#[trigger] r@[j])@ == listed_as(
                    told@[j].0@,
                    crate::model::result_view(told@[j].1),
                ),
        decreases told@.len() - i,
    {
        let (id, state) = &told[i];
        match state {
            Ok(s) => {
                r.push(state_to_status(id, s.as_str()));
            },
            Err(_) => {
                r.push(
                    VmStatus {
                        id: id.duplicate(),
                        started: false,
                        healthy: false,
                        lifecycle: VmLifecycle::Degraded,
                    },
                );
            },
        }
        i = i + 1;
    }
    r
}

/// How often the socket of a shim may be missed.
pub const SHIM_POLLS: u32 = 200;

impl WaitPhaseView {
    /// What follows, where `there` tells what a look at the socket has shown.
    pub open spec fn after(self, there: bool) -> WaitPhaseView {
        match self {
            WaitPhaseView::Probe(n) => if there {
                WaitPhaseView::Up
            } else {
                WaitPhaseView::Pause(n)
            },
            WaitPhaseView::Pause(n) => if n >= SHIM_POLLS {
                WaitPhaseView::TimedOut
            } else {
                WaitPhaseView::Probe((n + 1) as u32)
            },
            p => p,
        }
    }
}

impl WaitPhase {
    /// The start of a wait.
    pub fn begin() -> (p: Self)
        ensures
            p@ == WaitPhaseView::Probe(0),
    {
        WaitPhase::Probe(0)
    }

    /// What follows, where `there` tells what a look at the socket has shown.
    pub fn advance(&mut self, there: bool)
        ensures
            final(self)@ == old(self)@.after(there),
    {
        let p = match self {
            WaitPhase::Probe(n) => {
                if there {
                    WaitPhase::Up
                } else {
                    WaitPhase::Pause(*n)
                }
            },
            WaitPhase::Pause(n) => {
                if *n >= SHIM_POLLS {
                    WaitPhase::TimedOut
                } else {
                    WaitPhase::Probe(*n + 1)
                }
            },
            _ => {
                return;
            },
        };
        *self = p;
    }

    /// What the wait has come to, where it is over.
    pub fn result(&self) -> (r: Option<Result<(), DriverError>>)
        ensures
            match self@ {
                WaitPhaseView::Up => r matches Some(Ok(_)),
                WaitPhaseView::TimedOut => r matches Some(Err(e)) && e@ == DriverErrorView::Shim(
                    "timeout waiting shim socket"@,
                ),
                _ => r is None,
            },
    {
        match self {
            WaitPhase::Up => Some(Ok(())),
            WaitPhase::TimedOut => Some(
                Err(DriverError::Shim("timeout waiting shim socket".to_owned())),
            ),
            _ => None,
        }
    }
}

/// A wait ends: the socket is looked for a bounded number of times.
pub proof fn shim_wait_is_bounded(p: WaitPhaseView, there: bool)
    requires
        match p {
            WaitPhaseView::Probe(n) => n <= SHIM_POLLS,
            WaitPhaseView::Pause(n) => n <= SHIM_POLLS,
            _ => true,
        },
    ensures
        match p.after(there) {
            WaitPhaseView::Probe(n) => n <= SHIM_POLLS,
            WaitPhaseView::Pause(n) => n <= SHIM_POLLS,
            _ => true,
        },
        p matches WaitPhaseView::Pause(n) ==> (p.after(there) is TimedOut || p.after(there)
            == WaitPhaseView::Probe((n + 1) as u32)),
{
}

impl CreateVmView {
    /// What follows a reply. A shim that cannot be started, or that answers
    /// other than with a running microVM, is an error.
    pub open spec fn after(self, reply: CreateVmReplyView) -> CreateVmPhaseView {
        match (self.phase, reply) {
            (CreateVmPhaseView::Probe, CreateVmReplyView::Exists(b)) => if b {
                CreateVmPhaseView::Call
            } else {
                CreateVmPhaseView::Spawn
            },
            (CreateVmPhaseView::Spawn, CreateVmReplyView::Spawned(r)) => match r {
                Ok(_) => CreateVmPhaseView::Call,
                Err(e) => CreateVmPhaseView::Done(Err(e)),
            },
            (CreateVmPhaseView::Call, CreateVmReplyView::Answered(r)) => match r {
                Ok(resp) => if resp.state == "Running"@ {
                    CreateVmPhaseView::Done(Ok(()))
                } else {
                    CreateVmPhaseView::Done(
                        Err(DriverErrorView::Shim("create Failed: "@ + resp.error)),
                    )
                },
                Err(e) => CreateVmPhaseView::Done(Err(e)),
            },
            (p, _) => p,
        }
    }
}

impl CreateVm {
    /// Takes a reply. One that does not belong to the phase changes nothing.
    pub fn advance(&mut self, reply: CreateVmReply)
        ensures
            final(self)@ == (CreateVmView { phase: old(self)@.after(reply@), ..old(self)@ }),
    {
        let p = match (&self.phase, reply) {
            (CreateVmPhase::Probe, CreateVmReply::Exists(b)) => {
                if b {
                    CreateVmPhase::Call
                } else {
                    CreateVmPhase::Spawn
                }
            },
            (CreateVmPhase::Spawn, CreateVmReply::Spawned(r)) => match r {
                Ok(_) => CreateVmPhase::Call,
                Err(e) => CreateVmPhase::Done(Err(e)),
            },
            (CreateVmPhase::Call, CreateVmReply::Answered(r)) => match r {
                Ok(resp) => {
                    if text::same(resp.state.as_str(), "Running") {
                        CreateVmPhase::Done(Ok(()))
                    } else {
                        CreateVmPhase::Done(
                            Err(
                                DriverError::Shim(
                                    text::cat2("create Failed: ", resp.error.as_str()),
                                ),
                            ),
                        )
                    }
                },
                Err(e) => CreateVmPhase::Done(Err(e)),
            },
            _ => {
                return;
            },
        };
        self.phase = p;
    }
}

/// How often the state of a microVM is asked for.
pub const STATE_TRIES: u8 = 3;

impl GetVmPhaseView {
    /// What follows an answer of the shim: where it gives none, the shim is
    /// started again and asked anew, and the last error is returned in the end.
    pub open spec fn answered(
        self,
        id: Seq<char>,
        r: Result<Seq<char>, DriverErrorView>,
    ) -> GetVmPhaseView {
        match self {
            GetVmPhaseView::Ask(k) => match r {
                Ok(s) => GetVmPhaseView::Done(Ok(status_of(id, s))),
                Err(e) => GetVmPhaseView::Respawn(k, e),
            },
            p => p,
        }
    }

    /// What follows a step without an answer.
    pub open spec fn done(self) -> GetVmPhaseView {
        match self {
            GetVmPhaseView::Respawn(k, e) => GetVmPhaseView::Pause(k, e),
            GetVmPhaseView::Pause(k, e) => if k + 1 < STATE_TRIES {
                GetVmPhaseView::Ask((k + 1) as u8)
            } else {
                GetVmPhaseView::Done(Err(e))
            },
            p => p,
        }
    }
}

impl GetVmPhase {
    pub fn begin() -> (p: Self)
        ensures
            p@ == GetVmPhaseView::Ask(0),
    {
        GetVmPhase::Ask(0)
    }

    /// Takes an answer of the shim.
    pub fn answered(&mut self, id: &SandboxId, r: Result<String, DriverError>)
        ensures
            final(self)@ == old(self)@.answered(id@, crate::model::result_view(r)),
    {
        let p = match self {
            GetVmPhase::Ask(k) => match r {
                Ok(s) => GetVmPhase::Done(Ok(state_to_status(id, s.as_str()))),
                Err(e) => GetVmPhase::Respawn(*k, e),
            },
            _ => {
                return;
            },
        };
        *self = p;
    }

    /// Takes the end of a step without an answer.
    pub fn done(&mut self)
        ensures
            final(self)@ == old(self)@.done(),
    {
        let p = match self {
            GetVmPhase::Respawn(k, e) => GetVmPhase::Pause(*k, e.duplicate()),
            GetVmPhase::Pause(k, e) => {
                if *k < STATE_TRIES - 1 {
                    GetVmPhase::Ask(*k + 1)
                } else {
                    GetVmPhase::Done(Err(e.duplicate()))
                }
            },
            _ => {
                return;
            },
        };
        *self = p;
    }
}

/// A shim that answers none of three questions is given up with the error of
/// the last one.
pub proof fn get_vm_gives_up(
    id: Seq<char>,
    a: DriverErrorView,
    b: DriverErrorView,
    c: DriverErrorView,
)
    ensures
        GetVmPhaseView::Ask(0).answered(id, Err(a)).done().done().answered(
            id,
            Err(b),
        ).done().done().answered(id, Err(c)).done().done() == GetVmPhaseView::Done(Err(c)),
{
}

impl DeletePhaseView {
    /// What follows, where `reached` tells whether the shim could be reached.
    pub open spec fn after(self, reached: bool) -> DeletePhaseView {
        match self {
            DeletePhaseView::Connect => if reached {
                DeletePhaseView::Stop
            } else {
                DeletePhaseView::Kill
            },
            DeletePhaseView::Stop => DeletePhaseView::Pause,
            DeletePhaseView::Kill => DeletePhaseView::Pause,
            DeletePhaseView::Pause => DeletePhaseView::KillAgain,
            DeletePhaseView::KillAgain => DeletePhaseView::Done,
            DeletePhaseView::Done => DeletePhaseView::Done,
        }
    }
}

impl DeletePhase {
    pub fn begin() -> (p: Self)
        ensures
            p@ == DeletePhaseView::Connect,
    {
        DeletePhase::Connect
    }

    /// What follows, where `reached` tells whether the shim could be reached.
    pub fn advance(&mut self, reached: bool)
        ensures
            final(self)@ == old(self)@.after(reached),
    {
        let p = match self {
            DeletePhase::Connect => {
                if reached {
                    DeletePhase::Stop
                } else {
                    DeletePhase::Kill
                }
            },
            DeletePhase::Stop => DeletePhase::Pause,
            DeletePhase::Kill => DeletePhase::Pause,
            DeletePhase::Pause => DeletePhase::KillAgain,
            DeletePhase::KillAgain => DeletePhase::Done,
            DeletePhase::Done => DeletePhase::Done,
        };
        *self = p;
    }
}

impl KillPhaseView {
    /// What follows a reply. Where the shim left a note, only the process that
    /// the note tells and that is still the noted one is ended; where it left
    /// none, a microVM that is found in the jail.
    pub open spec fn after(self, reply: KillReplyView) -> KillPhaseView {
        match (self, reply) {
            (KillPhaseView::ReadMeta, KillReplyView::Meta(m)) => match m {
                Some(meta) => KillPhaseView::Check(meta),
                None => KillPhaseView::Find,
            },
            (KillPhaseView::Check(meta), KillReplyView::Process { alive, inode }) => if alive
                && inode == Some(meta.mntns_inode) {
                KillPhaseView::Kill(meta.fc_pid)
            } else {
                KillPhaseView::KeepFlag
            },
            (KillPhaseView::Find, KillReplyView::Pid(p)) => match p {
                Some(pid) => KillPhaseView::Kill(pid),
                None => KillPhaseView::KeepFlag,
            },
            (KillPhaseView::Kill(_), KillReplyView::Done) => KillPhaseView::KeepFlag,
            (KillPhaseView::KeepFlag, KillReplyView::Keep(keep)) => if keep {
                KillPhaseView::RemoveMeta
            } else {
                KillPhaseView::RemoveJail
            },
            (KillPhaseView::RemoveJail, KillReplyView::Done) => KillPhaseView::RemoveMeta,
            (KillPhaseView::RemoveMeta, KillReplyView::Done) => KillPhaseView::RemoveSocket,
            (KillPhaseView::RemoveSocket, KillReplyView::Done) => KillPhaseView::Done,
            (p, _) => p,
        }
    }
}

impl KillPhase {
    /// The start of a clean-up without a shim.
    pub fn emergency_kill() -> (p: Self)
        ensures
            p@ == KillPhaseView::ReadMeta,
    {
        KillPhase::ReadMeta
    }

    /// Takes a reply. One that does not belong to the phase changes nothing.
    pub fn advance(&mut self, reply: KillReply)
        ensures
            final(self)@ == old(self)@.after(reply@),
    {
        let p = match (&*self, reply) {
            (KillPhase::ReadMeta, KillReply::Meta(m)) => match m {
                Some(meta) => KillPhase::Check(meta),
                None => KillPhase::Find,
            },
            (KillPhase::Check(meta), KillReply::Process { alive, inode }) => {
                if verify_fc_pid(alive, inode, meta) {
                    KillPhase::Kill(meta.fc_pid)
                } else {
                    KillPhase::KeepFlag
                }
            },
            (KillPhase::Find, KillReply::Pid(p)) => match p {
                Some(pid) => KillPhase::Kill(pid),
                None => KillPhase::KeepFlag,
            },
            (KillPhase::Kill(_), KillReply::Done) => KillPhase::KeepFlag,
            (KillPhase::KeepFlag, KillReply::Keep(keep)) => {
                if keep {
                    KillPhase::RemoveMeta
                } else {
                    KillPhase::RemoveJail
                }
            },
            (KillPhase::RemoveJail, KillReply::Done) => KillPhase::RemoveMeta,
            (KillPhase::RemoveMeta, KillReply::Done) => KillPhase::RemoveSocket,
            (KillPhase::RemoveSocket, KillReply::Done) => KillPhase::Done,
            _ => {
                return;
            },
        };
        *self = p;
    }
}

/// A process number that was given to another process since it was noted is
/// not killed.
pub proof fn reused_pid_is_spared(meta: ShimMeta, alive: bool, inode: Option<u64>)
    requires
        inode != Some(meta.mntns_inode),
    ensures
        KillPhaseView::Check(meta).after(KillReplyView::Process { alive, inode })
            == KillPhaseView::KeepFlag,
{
}

/// The runtime's side of the microVMs.
pub struct RealDriver {
    pub cfg: Config,
    pub cfg_path: String,
    /// The sockets of the shims that are known, by sandbox.
    pub index: StrMap<String>,
}

/// The request to bring up a microVM of a type: one that is unknown, or that
/// has a cloud disk, is refused.
pub open spec fn create_request(
    cfg: ConfigView,
    id: Seq<char>,
    net: VmNetView,
    type_id: u8,
    spec: VmSpecView,
) -> Result<CreateRequestView, DriverErrorView> {
    match cfg.get_type(type_id) {
        None => Err(DriverErrorView::Other("unknown type_id "@ + text::dec(type_id as nat))),
        Some(ty) => if ty.has_cloud_disk {
            Err(
                DriverErrorView::Unsupported(
                    "type "@ + text::dec(type_id as nat)
                        + " cloud-disk restore not supported in MVP"@,
                ),
            )
        } else {
            Ok(
                CreateRequestView {
                    sandbox_id: id,
                    bundle_dir: cfg.bundle_dir(ty.bundle),
                    netns_path: net.netns_path,
                    tap_name: net.tap_name,
                    rw_layer_path: spec.rw_layer_path.unwrap_or(""@),
                    cloud_disk_dev: spec.cloud_disk_dev.unwrap_or(""@),
                    jailer_uid: cfg.jailer_uid,
                    jailer_gid: cfg.jailer_gid,
                    chroot_base_dir: cfg.chroot_base_dir,
                    firecracker_bin: cfg.firecracker_bin,
                    jailer_bin: cfg.jailer_bin,
                },
            )
        },
    }
}

/// The words behind the program that start a shim.
pub open spec fn shim_words(cfg: ConfigView, cfg_path: Seq<char>, id: Seq<char>) -> Seq<Seq<char>> {
    seq![
        "shim"@,
        "--config"@,
        cfg_path,
        "--sandbox-id"@,
        id,
        "--socket"@,
        cfg.shim_socket(id),
        "--log-file"@,
        cfg.shim_log(id),
    ]
}

fn text_or_empty(s: &Option<String>) -> (r: String)
    ensures
        r@ == s.deep_view().unwrap_or(""@),
{
    match s {
        Some(t) => t.clone(),
        None => "".to_owned(),
    }
}

impl RealDriver {
    pub fn new(cfg: Config, cfg_path: String) -> (d: Self)
        ensures
            d.cfg@ == cfg@,
            d.cfg_path@ == cfg_path@,
            d.index@ == Map::<Seq<char>, Seq<char>>::empty(),
    {
        RealDriver { cfg, cfg_path, index: StrMap::new() }
    }

    /// Takes in a socket that was found. One whose shim answers is known from
    /// now on; of another, and of a file that is no such socket, nothing is.
    /// Returns whether the file is to be removed.
    pub fn rediscover(&mut self, name: &str, path: &str, answers: bool) -> (stale: bool)
        ensures
            final(self).cfg == old(self).cfg,
            final(self).cfg_path == old(self).cfg_path,
            match owner_of(name@) {
                Some(sid) => {
                    &&& stale == !answers
                    &&& final(self).index@ == (if answers {
                        old(self).index@.insert(sid, path@)
                    } else {
                        old(self).index@
                    })
                },
                None => !stale && final(self).index@ == old(self).index@,
            },
    {
        match socket_owner(name) {
            Some(sid) => {
                if answers {
                    self.index.insert(sid, path.to_owned());
                    false
                } else {
                    true
                }
            },
            None => false,
        }
    }

    /// The words behind the program that start a shim.
    pub fn shim_args(&self, sid: &str) -> (r: Vec<String>)
        ensures
            r.deep_view() == shim_words(self.cfg@, self.cfg_path@, sid@),
    {
        let r: Vec<String> = vec![
            "shim".to_owned(),
            "--config".to_owned(),
            self.cfg_path.clone(),
            "--sandbox-id".to_owned(),
            sid.to_owned(),
            "--socket".to_owned(),
            self.cfg.shim_socket(sid),
            "--log-file".to_owned(),
            self.cfg.shim_log(sid),
        ];
        assert(r.deep_view() =~= shim_words(self.cfg@, self.cfg_path@, sid@));
        r
    }

    /// The start of the creation of a microVM.
    pub fn create_vm(&self, id: &SandboxId, net: &VmNet, type_id: u8, spec: &VmSpec) -> (r: Result<
        CreateVm,
        DriverError,
    >)
        ensures
            match create_request(self.cfg@, id@, net@, type_id, spec@) {
                Ok(req) => r matches Ok(c) && c@ == (CreateVmView {
                    request: req,
                    socket: self.cfg@.shim_socket(id@),
                    phase: CreateVmPhaseView::Probe,
                }),
                Err(e) => r matches Err(f) && f@ == e,
            },
    {
        let ty = match self.cfg.get_type(type_id) {
            Some(t) => t,
            None => {
                return Err(
                    DriverError::Other(
                        text::cat2("unknown type_id ", text::dec_string(type_id as u64).as_str()),
                    ),
                );
            },
        };
        if ty.has_cloud_disk {
            return Err(
                DriverError::Unsupported(
                    text::cat3(
                        "type ",
                        text::dec_string(type_id as u64).as_str(),
                        " cloud-disk restore not supported in MVP",
                    ),
                ),
            );
        }
        let request = CreateRequest {
            sandbox_id: id.0.clone(),
            bundle_dir: self.cfg.bundle_dir(ty.bundle.as_str()),
            netns_path: net.netns_path.clone(),
            tap_name: net.tap_name.clone(),
            rw_layer_path: text_or_empty(&spec.rw_layer_path),
            cloud_disk_dev: text_or_empty(&spec.cloud_disk_dev),
            jailer_uid: self.cfg.jailer_uid,
            jailer_gid: self.cfg.jailer_gid,
            chroot_base_dir: self.cfg.chroot_base_dir.clone(),
            firecracker_bin: self.cfg.firecracker_bin.clone(),
            jailer_bin: self.cfg.jailer_bin.clone(),
        };
        Ok(
            CreateVm {
                request,
                socket: self.cfg.shim_socket(id.as_str()),
                phase: CreateVmPhase::Probe,
            },
        )
    }

    /// Notes what came of a creation: a shim that brought its microVM up is
    /// known from now on.
    pub fn created(&mut self, c: &CreateVm)
        ensures
            final(self).cfg == old(self).cfg,
            final(self).cfg_path == old(self).cfg_path,
            final(self).index@ == (if c@.phase == CreateVmPhaseView::Done(Ok(())) {
                old(self).index@.insert(c@.request.sandbox_id, c@.socket)
            } else {
                old(self).index@
            }),
    {
        match &c.phase {
            CreateVmPhase::Done(Ok(_)) => {
                self.index.insert(c.request.sandbox_id.clone(), c.socket.clone());
            },
            _ => {},
        }
    }

    /// Notes that a microVM was deleted.
    pub fn deleted(&mut self, id: &SandboxId)
        ensures
            final(self).cfg == old(self).cfg,
            final(self).cfg_path == old(self).cfg_path,
            final(self).index@ == old(self).index@.remove(id@),
    {
        self.index.remove(id.as_str());
    }

    /// The address of a shim's socket.
    pub fn address(socket: &str) -> (r: String)
        ensures
            r@ == "unix://"@ + socket@,
    {
        text::cat2("unix://", socket)
    }

    /// The error where a shim cannot be reached.
    pub fn connect_error(socket: &str, error: &str) -> (e: DriverError)
        ensures
            e@ == DriverErrorView::Shim("connect "@ + socket@ + ": "@ + error@),
    {
        DriverError::Shim(text::cat4("connect ", socket, ": ", error))
    }

    /// The note that a shim leaves of its microVM.
    pub fn meta_path(sandbox_dir: &str) -> (r: String)
        ensures
            r@ == crate::config::join_path(sandbox_dir@, "shim.meta"@),
    {
        path_join(sandbox_dir, "shim.meta")
    }
}

} // verus!
