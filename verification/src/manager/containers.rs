//! The life of a container: each operation as a sequence of steps.

use vstd::prelude::*;

use crate::config::{Config, ConfigView, SandboxTypeView};
#[allow(unused_imports)]
use crate::config::SandboxType;
use crate::driver::{ContainerSpec, ContainerSpecView, VmId};
use crate::manager::errors::{map_driver_err, map_store_err};
use crate::manager::sandboxes::{
    known_type, ManagerAction, ManagerActionView, ManagerReply, ManagerReplyView,
};
use crate::manager::{CreateContainerRequest, CreateContainerRequestView, OasError, OasErrorView};
use crate::model::Duplicate;
use crate::store::StoreError;
use crate::text;
use crate::types::{
    ContainerExitReason, ContainerRecord, ContainerRecordView, ContainerState, KeyValue,
    KeyValueView, SandboxRecord, SandboxRecordView,
};

verus! {

/// How far a request for a container has come.
#[derive(Debug, PartialEq)]
pub enum CreateCtPhase {
    Lock,
    Sandbox,
    NewId(VmId),
    Put(VmId, ContainerRecord),
    Driver(VmId, ContainerRecord),
    /// The record is taken back after an error.
    Undo(String, OasError),
    Done(Result<String, OasError>),
}

/// The abstract value of [`CreateCtPhase`].
#[verifier::ext_equal]
pub enum CreateCtPhaseView {
    Lock,
    Sandbox,
    NewId(VmId),
    Put(VmId, ContainerRecordView),
    Driver(VmId, ContainerRecordView),
    Undo(Seq<char>, OasErrorView),
    Done(Result<Seq<char>, OasErrorView>),
}

impl DeepView for CreateCtPhase {
    type V = CreateCtPhaseView;

    open spec fn deep_view(&self) -> CreateCtPhaseView {
        match *self {
            CreateCtPhase::Lock => CreateCtPhaseView::Lock,
            CreateCtPhase::Sandbox => CreateCtPhaseView::Sandbox,
            CreateCtPhase::NewId(a) => CreateCtPhaseView::NewId(a),
            CreateCtPhase::Put(a, b) => CreateCtPhaseView::Put(a, b.deep_view()),
            CreateCtPhase::Driver(a, b) => CreateCtPhaseView::Driver(a, b.deep_view()),
            CreateCtPhase::Undo(a, b) => CreateCtPhaseView::Undo(a@, b.deep_view()),
            CreateCtPhase::Done(a) => CreateCtPhaseView::Done(crate::model::result_view(a)),
        }
    }
}

impl View for CreateCtPhase {
    type V = CreateCtPhaseView;

    open spec fn view(&self) -> CreateCtPhaseView {
        self.deep_view()
    }
}

impl Duplicate for CreateCtPhase {
    fn duplicate(&self) -> (r: Self) {
        match self {
            CreateCtPhase::Lock => CreateCtPhase::Lock,
            CreateCtPhase::Sandbox => CreateCtPhase::Sandbox,
            CreateCtPhase::NewId(a) => CreateCtPhase::NewId(*a),
            CreateCtPhase::Put(a, b) => CreateCtPhase::Put(*a, b.duplicate()),
            CreateCtPhase::Driver(a, b) => CreateCtPhase::Driver(*a, b.duplicate()),
            CreateCtPhase::Undo(a, b) => CreateCtPhase::Undo(a.duplicate(), b.duplicate()),
            CreateCtPhase::Done(a) => CreateCtPhase::Done(crate::model::duplicate_result(a)),
        }
    }
}

impl Clone for CreateCtPhase {
    fn clone(&self) -> (r: Self)
        ensures
            r@ == self@,
    {
        self.duplicate()
    }
}

/// A request for a container on its way.
#[derive(Debug, PartialEq)]
pub struct CreateContainer {
    pub req: CreateContainerRequest,
    pub cfg: Config,
    pub phase: CreateCtPhase,
}

/// The abstract value of [`CreateContainer`].
#[verifier::ext_equal]
pub struct CreateContainerView {
    pub req: CreateContainerRequestView,
    pub cfg: ConfigView,
    pub phase: CreateCtPhaseView,
}

impl DeepView for CreateContainer {
    type V = CreateContainerView;

    open spec fn deep_view(&self) -> CreateContainerView {
        CreateContainerView {
            req: self.req.deep_view(),
            cfg: self.cfg.deep_view(),
            phase: self.phase.deep_view(),
        }
    }
}

impl View for CreateContainer {
    type V = CreateContainerView;

    open spec fn view(&self) -> CreateContainerView {
        self.deep_view()
    }
}

impl Duplicate for CreateContainer {
    fn duplicate(&self) -> (r: Self) {
        CreateContainer {
            req: self.req.duplicate(),
            cfg: self.cfg.duplicate(),
            phase: self.phase.duplicate(),
        }
    }
}

impl Clone for CreateContainer {
    fn clone(&self) -> (r: Self)
        ensures
            r@ == self@,
    {
        self.duplicate()
    }
}

/// How far the start of a container has come.
#[derive(Debug, PartialEq)]
pub enum StartPhase {
    First,
    Lock(String),
    Read,
    Sandbox(ContainerRecord),
    Driver(ContainerRecord, VmId),
    Put(ContainerRecord),
    Done(Result<(), OasError>),
}

/// The abstract value of [`StartPhase`].
#[verifier::ext_equal]
pub enum StartPhaseView {
    First,
    Lock(Seq<char>),
    Read,
    Sandbox(ContainerRecordView),
    Driver(ContainerRecordView, VmId),
    Put(ContainerRecordView),
    Done(Result<(), OasErrorView>),
}

impl DeepView for StartPhase {
    type V = StartPhaseView;

    open spec fn deep_view(&self) -> StartPhaseView {
        match *self {
            StartPhase::First => StartPhaseView::First,
            StartPhase::Lock(a) => StartPhaseView::Lock(a@),
            StartPhase::Read => StartPhaseView::Read,
            StartPhase::Sandbox(a) => StartPhaseView::Sandbox(a.deep_view()),
            StartPhase::Driver(a, b) => StartPhaseView::Driver(a.deep_view(), b),
            StartPhase::Put(a) => StartPhaseView::Put(a.deep_view()),
            StartPhase::Done(a) => StartPhaseView::Done(crate::model::result_view(a)),
        }
    }
}

impl View for StartPhase {
    type V = StartPhaseView;

    open spec fn view(&self) -> StartPhaseView {
        self.deep_view()
    }
}

impl Duplicate for StartPhase {
    fn duplicate(&self) -> (r: Self) {
        match self {
            StartPhase::First => StartPhase::First,
            StartPhase::Lock(a) => StartPhase::Lock(a.duplicate()),
            StartPhase::Read => StartPhase::Read,
            StartPhase::Sandbox(a) => StartPhase::Sandbox(a.duplicate()),
            StartPhase::Driver(a, b) => StartPhase::Driver(a.duplicate(), *b),
            StartPhase::Put(a) => StartPhase::Put(a.duplicate()),
            StartPhase::Done(a) => StartPhase::Done(crate::model::duplicate_result(a)),
        }
    }
}

impl Clone for StartPhase {
    fn clone(&self) -> (r: Self)
        ensures
            r@ == self@,
    {
        self.duplicate()
    }
}

/// The start of a container on its way.
#[derive(Debug, PartialEq)]
pub struct StartContainer {
    pub container_id: String,
    pub phase: StartPhase,
}

/// The abstract value of [`StartContainer`].
#[verifier::ext_equal]
pub struct StartContainerView {
    pub container_id: Seq<char>,
    pub phase: StartPhaseView,
}

impl DeepView for StartContainer {
    type V = StartContainerView;

    open spec fn deep_view(&self) -> StartContainerView {
        StartContainerView {
            container_id: self.container_id@,
            phase: self.phase.deep_view(),
        }
    }
}

impl View for StartContainer {
    type V = StartContainerView;

    open spec fn view(&self) -> StartContainerView {
        self.deep_view()
    }
}

impl Duplicate for StartContainer {
    fn duplicate(&self) -> (r: Self) {
        StartContainer {
            container_id: self.container_id.duplicate(),
            phase: self.phase.duplicate(),
        }
    }
}

impl Clone for StartContainer {
    fn clone(&self) -> (r: Self)
        ensures
            r@ == self@,
    {
        self.duplicate()
    }
}

/// The stop of a container on its way.
#[derive(Debug, PartialEq)]
pub struct StopContainer {
    pub container_id: String,
    pub timeout: i64,
    pub phase: StartPhase,
}

/// The abstract value of [`StopContainer`].
#[verifier::ext_equal]
pub struct StopContainerView {
    pub container_id: Seq<char>,
    pub timeout: i64,
    pub phase: StartPhaseView,
}

impl DeepView for StopContainer {
    type V = StopContainerView;

    open spec fn deep_view(&self) -> StopContainerView {
        StopContainerView {
            container_id: self.container_id@,
            timeout: self.timeout,
            phase: self.phase.deep_view(),
        }
    }
}

impl View for StopContainer {
    type V = StopContainerView;

    open spec fn view(&self) -> StopContainerView {
        self.deep_view()
    }
}

impl Duplicate for StopContainer {
    fn duplicate(&self) -> (r: Self) {
        StopContainer {
            container_id: self.container_id.duplicate(),
            timeout: self.timeout,
            phase: self.phase.duplicate(),
        }
    }
}

impl Clone for StopContainer {
    fn clone(&self) -> (r: Self)
        ensures
            r@ == self@,
    {
        self.duplicate()
    }
}

/// How far the removal of a container has come.
#[derive(Debug, PartialEq)]
pub enum RemoveCtPhase {
    First,
    Lock(String),
    Sandbox(String),
    Driver(String, VmId),
    Delete,
    Done(Result<(), OasError>),
}

/// The abstract value of [`RemoveCtPhase`].
#[verifier::ext_equal]
pub enum RemoveCtPhaseView {
    First,
    Lock(Seq<char>),
    Sandbox(Seq<char>),
    Driver(Seq<char>, VmId),
    Delete,
    Done(Result<(), OasErrorView>),
}

impl DeepView for RemoveCtPhase {
    type V = RemoveCtPhaseView;

    open spec fn deep_view(&self) -> RemoveCtPhaseView {
        match *self {
            RemoveCtPhase::First => RemoveCtPhaseView::First,
            RemoveCtPhase::Lock(a) => RemoveCtPhaseView::Lock(a@),
            RemoveCtPhase::Sandbox(a) => RemoveCtPhaseView::Sandbox(a@),
            RemoveCtPhase::Driver(a, b) => RemoveCtPhaseView::Driver(a@, b),
            RemoveCtPhase::Delete => RemoveCtPhaseView::Delete,
            RemoveCtPhase::Done(a) => RemoveCtPhaseView::Done(crate::model::result_view(a)),
        }
    }
}

impl View for RemoveCtPhase {
    type V = RemoveCtPhaseView;

    open spec fn view(&self) -> RemoveCtPhaseView {
        self.deep_view()
    }
}

impl Duplicate for RemoveCtPhase {
    fn duplicate(&self) -> (r: Self) {
        match self {
            RemoveCtPhase::First => RemoveCtPhase::First,
            RemoveCtPhase::Lock(a) => RemoveCtPhase::Lock(a.duplicate()),
            RemoveCtPhase::Sandbox(a) => RemoveCtPhase::Sandbox(a.duplicate()),
            RemoveCtPhase::Driver(a, b) => RemoveCtPhase::Driver(a.duplicate(), *b),
            RemoveCtPhase::Delete => RemoveCtPhase::Delete,
            RemoveCtPhase::Done(a) => RemoveCtPhase::Done(crate::model::duplicate_result(a)),
        }
    }
}

impl Clone for RemoveCtPhase {
    fn clone(&self) -> (r: Self)
        ensures
            r@ == self@,
    {
        self.duplicate()
    }
}

/// The removal of a container on its way.
#[derive(Debug, PartialEq)]
pub struct RemoveContainer {
    pub container_id: String,
    pub phase: RemoveCtPhase,
}

/// The abstract value of [`RemoveContainer`].
#[verifier::ext_equal]
pub struct RemoveContainerView {
    pub container_id: Seq<char>,
    pub phase: RemoveCtPhaseView,
}

impl DeepView for RemoveContainer {
    type V = RemoveContainerView;

    open spec fn deep_view(&self) -> RemoveContainerView {
        RemoveContainerView {
            container_id: self.container_id@,
            phase: self.phase.deep_view(),
        }
    }
}

impl View for RemoveContainer {
    type V = RemoveContainerView;

    open spec fn view(&self) -> RemoveContainerView {
        self.deep_view()
    }
}

impl Duplicate for RemoveContainer {
    fn duplicate(&self) -> (r: Self) {
        RemoveContainer {
            container_id: self.container_id.duplicate(),
            phase: self.phase.duplicate(),
        }
    }
}

impl Clone for RemoveContainer {
    fn clone(&self) -> (r: Self)
        ensures
            r@ == self@,
    {
        self.duplicate()
    }
}

/// How far the question for a container has come.
#[derive(Debug, PartialEq)]
pub enum StatusPhase {
    Read,
    Sandbox(ContainerRecord),
    Driver(ContainerRecord, VmId),
    Done(Result<ContainerRecord, OasError>),
}

/// The abstract value of [`StatusPhase`].
#[verifier::ext_equal]
pub enum StatusPhaseView {
    Read,
    Sandbox(ContainerRecordView),
    Driver(ContainerRecordView, VmId),
    Done(Result<ContainerRecordView, OasErrorView>),
}

impl DeepView for StatusPhase {
    type V = StatusPhaseView;

    open spec fn deep_view(&self) -> StatusPhaseView {
        match *self {
            StatusPhase::Read => StatusPhaseView::Read,
            StatusPhase::Sandbox(a) => StatusPhaseView::Sandbox(a.deep_view()),
            StatusPhase::Driver(a, b) => StatusPhaseView::Driver(a.deep_view(), b),
            StatusPhase::Done(a) => StatusPhaseView::Done(crate::model::result_view(a)),
        }
    }
}

impl View for StatusPhase {
    type V = StatusPhaseView;

    open spec fn view(&self) -> StatusPhaseView {
        self.deep_view()
    }
}

impl Duplicate for StatusPhase {
    fn duplicate(&self) -> (r: Self) {
        match self {
            StatusPhase::Read => StatusPhase::Read,
            StatusPhase::Sandbox(a) => StatusPhase::Sandbox(a.duplicate()),
            StatusPhase::Driver(a, b) => StatusPhase::Driver(a.duplicate(), *b),
            StatusPhase::Done(a) => StatusPhase::Done(crate::model::duplicate_result(a)),
        }
    }
}

impl Clone for StatusPhase {
    fn clone(&self) -> (r: Self)
        ensures
            r@ == self@,
    {
        self.duplicate()
    }
}

/// The question for a container on its way.
#[derive(Debug, PartialEq)]
pub struct ContainerStatus {
    pub container_id: String,
    pub phase: StatusPhase,
}

/// The abstract value of [`ContainerStatus`].
#[verifier::ext_equal]
pub struct ContainerStatusView {
    pub container_id: Seq<char>,
    pub phase: StatusPhaseView,
}

impl DeepView for ContainerStatus {
    type V = ContainerStatusView;

    open spec fn deep_view(&self) -> ContainerStatusView {
        ContainerStatusView {
            container_id: self.container_id@,
            phase: self.phase.deep_view(),
        }
    }
}

impl View for ContainerStatus {
    type V = ContainerStatusView;

    open spec fn view(&self) -> ContainerStatusView {
        self.deep_view()
    }
}

impl Duplicate for ContainerStatus {
    fn duplicate(&self) -> (r: Self) {
        ContainerStatus {
            container_id: self.container_id.duplicate(),
            phase: self.phase.duplicate(),
        }
    }
}

impl Clone for ContainerStatus {
    fn clone(&self) -> (r: Self)
        ensures
            r@ == self@,
    {
        self.duplicate()
    }
}

/// The most memory that a container of a type may have, in bytes.
pub open spec fn memory_budget(ty: SandboxTypeView) -> int {
    ty.mem_mib * 1_048_576
}

/// The most processor shares that a container of a type may have.
pub open spec fn cpu_budget(ty: SandboxTypeView) -> int {
    ty.vcpu * 1024
}

/// Why a request for a container in a sandbox is refused, if it is: the image
/// must be one that the type allows, and the resources must be within the
/// type's.
pub open spec fn refusal(
    cfg: ConfigView,
    sandbox: SandboxRecordView,
    req: CreateContainerRequestView,
) -> Option<OasErrorView> {
    match cfg.get_type(sandbox.type_id) {
        None => Some(
            OasErrorView::InvalidArgument(
                "unknown type_id: "@ + text::dec(sandbox.type_id as nat),
            ),
        ),
        Some(ty) => if !ty.allows(req.image) {
            Some(OasErrorView::ImageNotInList(req.image))
        } else if req.resources.memory_limit_bytes matches Some(m) && m > memory_budget(ty) {
            Some(
                OasErrorView::TypeMismatch(
                    "memory "@ + text::sdec(req.resources.memory_limit_bytes.unwrap() as int)
                        + "B exceeds type "@ + text::dec(ty.type_id as nat) + " budget "@
                        + text::sdec(memory_budget(ty)) + "B"@,
                ),
            )
        } else if req.resources.cpu_shares matches Some(c) && c > cpu_budget(ty) {
            Some(
                OasErrorView::TypeMismatch(
                    "cpu_shares "@ + text::dec(req.resources.cpu_shares.unwrap() as nat)
                        + " exceeds type "@ + text::dec(ty.type_id as nat) + " budget "@
                        + text::dec(cpu_budget(ty) as nat),
                ),
            )
        } else {
            None
        },
    }
}

fn check(cfg: &Config, sandbox: &SandboxRecord, req: &CreateContainerRequest) -> (r: Option<OasError>)
    ensures
        r.deep_view() == refusal(cfg@, sandbox@, req@),
{
    let ty = match known_type(cfg, sandbox.type_id) {
        Ok(t) => t,
        Err(e) => {
            return Some(e);
        },
    };
    if !ty.image_allowed(req.image.as_str()) {
        return Some(OasError::ImageNotInList(req.image.clone()));
    }
    let id = text::dec_string(ty.type_id as u64);
    if let Some(mem) = req.resources.memory_limit_bytes {
        let budget: i64 = (ty.mem_mib as i64) * 1_048_576;
        if mem > budget {
            return Some(
                OasError::TypeMismatch(
                    text::cat7(
                        "memory ",
                        text::sdec_string(mem).as_str(),
                        "B exceeds type ",
                        id.as_str(),
                        " budget ",
                        text::sdec_string(budget).as_str(),
                        "B",
                    ),
                ),
            );
        }
    }
    if let Some(cpu) = req.resources.cpu_shares {
        let budget: u64 = (ty.vcpu as u64) * 1024;
        if cpu > budget {
            return Some(
                OasError::TypeMismatch(
                    text::cat6(
                        "cpu_shares ",
                        text::dec_string(cpu).as_str(),
                        " exceeds type ",
                        id.as_str(),
                        " budget ",
                        text::dec_string(budget).as_str(),
                    ),
                ),
            );
        }
    }
    None
}

/// The environment of a container: each variable as name, equals sign, value.
pub open spec fn env_of(envs: Seq<KeyValueView>) -> Seq<Seq<char>> {
    Seq::new(envs.len(), |i: int| envs[i].key + "="@ + envs[i].value)
}

fn env_strings(envs: &Vec<KeyValue>) -> (r: Vec<String>)
    ensures
        r.deep_view() == env_of(envs.deep_view()),
{
    let mut r: Vec<String> = Vec::new();
    let mut i: usize = 0;
    while i < envs.len()
        invariant
            i <= envs@.len(),
            r@.len() == i,
            forall|j: int|
                0 <= j < i ==> (#[trigger] r@[j])@ == envs@[j].key@ + "="@ + envs@[j].value@,
        decreases envs@.len() - i,
    {
        r.push(text::cat3(envs[i].key.as_str(), "=", envs[i].value.as_str()));
        i = i + 1;
    }
    assert(r.deep_view() =~= env_of(envs.deep_view()));
    r
}

/// The record of a container that was asked for.
pub open spec fn record_of(
    req: CreateContainerRequestView,
    id: Seq<char>,
    now: i64,
) -> ContainerRecordView {
    ContainerRecordView {
        container_id: id,
        sandbox_id: req.pod_sandbox_id,
        metadata: req.metadata,
        image: req.image,
        command: req.command,
        args: req.args,
        env: env_of(req.envs),
        mounts: req.mounts,
        resources: req.resources,
        state: ContainerState::Created,
        created_at: now,
        started_at: None,
        finished_at: None,
        exit_code: 0,
        reason: None,
        message: ""@,
        labels: req.labels,
        annotations: req.annotations,
    }
}

fn record(req: &CreateContainerRequest, id: &String, now: i64) -> (r: ContainerRecord)
    ensures
        r@ == record_of(req@, id@, now),
{
    ContainerRecord {
        container_id: id.clone(),
        sandbox_id: req.pod_sandbox_id.clone(),
        metadata: req.metadata.duplicate(),
        image: req.image.clone(),
        command: req.command.duplicate(),
        args: req.args.duplicate(),
        env: env_strings(&req.envs),
        mounts: req.mounts.duplicate(),
        resources: req.resources,
        state: ContainerState::Created,
        created_at: now,
        started_at: None,
        finished_at: None,
        exit_code: 0,
        reason: None,
        message: "".to_owned(),
        labels: req.labels.duplicate(),
        annotations: req.annotations.duplicate(),
    }
}

impl CreateContainerView {
    /// What is to be done.
    pub open spec fn wants(self) -> ManagerActionView {
        match self.phase {
            CreateCtPhaseView::Lock => ManagerActionView::Lock(self.req.pod_sandbox_id),
            CreateCtPhaseView::Sandbox => ManagerActionView::ReadSandbox(self.req.pod_sandbox_id),
            CreateCtPhaseView::NewId(_) => ManagerActionView::NewContainerId,
            CreateCtPhaseView::Put(_, c) => ManagerActionView::PutContainer(c),
            CreateCtPhaseView::Driver(vm, c) => ManagerActionView::CreateContainer {
                sandbox_id: self.req.pod_sandbox_id,
                vm_id: vm,
                container_id: c.container_id,
                process: ContainerSpecView {
                    command: self.req.command,
                    args: self.req.args,
                    env: c.env,
                    cwd: self.req.working_dir,
                },
            },
            CreateCtPhaseView::Undo(id, _) => ManagerActionView::DeleteContainer(id),
            CreateCtPhaseView::Done(_) => ManagerActionView::Finish,
        }
    }

    /// What follows a reply that came at the time `now`. Where the microVM
    /// does not take the container, its record is taken back. A reply that does
    /// not belong to what was to be done changes nothing.
    pub open spec fn after(self, reply: ManagerReplyView, now: i64) -> CreateCtPhaseView {
        match (self.phase, reply) {
            (CreateCtPhaseView::Lock, ManagerReplyView::Done) => CreateCtPhaseView::Sandbox,
            (CreateCtPhaseView::Sandbox, ManagerReplyView::Sandbox(r)) => match r {
                Ok(s) => match refusal(self.cfg, s, self.req) {
                    Some(e) => CreateCtPhaseView::Done(Err(e)),
                    None => CreateCtPhaseView::NewId(VmId(s.vm_id)),
                },
                Err(e) => CreateCtPhaseView::Done(Err(crate::manager::errors::of_store(e))),
            },
            (CreateCtPhaseView::NewId(vm), ManagerReplyView::Id(id)) => CreateCtPhaseView::Put(
                vm,
                record_of(self.req, id, now),
            ),
            (CreateCtPhaseView::Put(vm, c), ManagerReplyView::Stored(r)) => match r {
                Ok(_) => CreateCtPhaseView::Driver(vm, c),
                Err(e) => CreateCtPhaseView::Done(Err(crate::manager::errors::of_store(e))),
            },
            (CreateCtPhaseView::Driver(_, c), ManagerReplyView::Driver(r)) => match r {
                Ok(_) => CreateCtPhaseView::Done(Ok(c.container_id)),
                Err(e) => CreateCtPhaseView::Undo(
                    c.container_id,
                    crate::manager::errors::of_driver(e),
                ),
            },
            (CreateCtPhaseView::Undo(_, e), ManagerReplyView::Stored(_)) => CreateCtPhaseView::Done(
                Err(e),
            ),
            (p, _) => p,
        }
    }
}

impl CreateContainer {
    /// What is to be done.
    pub fn action(&self) -> (a: ManagerAction)
        ensures
            a@ == self@.wants(),
    {
        match &self.phase {
            CreateCtPhase::Lock => ManagerAction::Lock(self.req.pod_sandbox_id.clone()),
            CreateCtPhase::Sandbox => ManagerAction::ReadSandbox(self.req.pod_sandbox_id.clone()),
            CreateCtPhase::NewId(_) => ManagerAction::NewContainerId,
            CreateCtPhase::Put(_, c) => ManagerAction::PutContainer(c.duplicate()),
            CreateCtPhase::Driver(vm, c) => ManagerAction::CreateContainer {
                sandbox_id: self.req.pod_sandbox_id.clone(),
                vm_id: *vm,
                container_id: c.container_id.clone(),
                process: ContainerSpec {
                    command: self.req.command.duplicate(),
                    args: self.req.args.duplicate(),
                    env: c.env.duplicate(),
                    cwd: self.req.working_dir.clone(),
                },
            },
            CreateCtPhase::Undo(id, _) => ManagerAction::DeleteContainer(id.clone()),
            CreateCtPhase::Done(_) => ManagerAction::Finish,
        }
    }

    /// Takes the reply to what was to be done, which came at the time `now`.
    pub fn advance(&mut self, reply: ManagerReply, now: i64)
        ensures
            final(self)@ == (CreateContainerView {
                phase: old(self)@.after(reply@, now),
                ..old(self)@
            }),
    {
        let p = match (&self.phase, reply) {
            (CreateCtPhase::Lock, ManagerReply::Done) => CreateCtPhase::Sandbox,
            (CreateCtPhase::Sandbox, ManagerReply::Sandbox(r)) => match r {
                Ok(s) => match check(&self.cfg, &s, &self.req) {
                    Some(e) => CreateCtPhase::Done(Err(e)),
                    None => CreateCtPhase::NewId(VmId(s.vm_id)),
                },
                Err(e) => CreateCtPhase::Done(Err(map_store_err(&e))),
            },
            (CreateCtPhase::NewId(vm), ManagerReply::Id(id)) => CreateCtPhase::Put(
                *vm,
                record(&self.req, &id, now),
            ),
            (CreateCtPhase::Put(vm, c), ManagerReply::Stored(r)) => match r {
                Ok(_) => CreateCtPhase::Driver(*vm, c.duplicate()),
                Err(e) => CreateCtPhase::Done(Err(map_store_err(&e))),
            },
            (CreateCtPhase::Driver(_, c), ManagerReply::Driver(r)) => match r {
                Ok(_) => CreateCtPhase::Done(Ok(c.container_id.clone())),
                Err(e) => CreateCtPhase::Undo(c.container_id.clone(), map_driver_err(&e)),
            },
            (CreateCtPhase::Undo(_, e), ManagerReply::Stored(_)) => CreateCtPhase::Done(
                Err(e.duplicate()),
            ),
            _ => {
                return;
            },
        };
        self.phase = p;
    }

    /// The answer to the request, where it is there.
    pub fn result(&self) -> (r: Option<Result<String, OasError>>)
        ensures
            match self@.phase {
                CreateCtPhaseView::Done(x) => r matches Some(y) && crate::model::result_view(y) == x,
                _ => r is None,
            },
    {
        match &self.phase {
            CreateCtPhase::Done(x) => Some(crate::model::duplicate_result(x)),
            _ => None,
        }
    }
}

/// The actions that start, stop and the like have in common: the container is
/// read, its sandbox is locked, and the container is read once more.
pub open spec fn common_wants(container_id: Seq<char>, phase: StartPhaseView) -> ManagerActionView {
    match phase {
        StartPhaseView::First => ManagerActionView::ReadContainer(container_id),
        StartPhaseView::Lock(sid) => ManagerActionView::Lock(sid),
        StartPhaseView::Read => ManagerActionView::ReadContainer(container_id),
        StartPhaseView::Sandbox(c) => ManagerActionView::ReadSandbox(c.sandbox_id),
        StartPhaseView::Put(c) => ManagerActionView::PutContainer(c),
        _ => ManagerActionView::Finish,
    }
}

fn common_action(container_id: &String, phase: &StartPhase) -> (a: ManagerAction)
    ensures
        a@ == common_wants(container_id@, phase@),
{
    match phase {
        StartPhase::First => ManagerAction::ReadContainer(container_id.clone()),
        StartPhase::Lock(sid) => ManagerAction::Lock(sid.clone()),
        StartPhase::Read => ManagerAction::ReadContainer(container_id.clone()),
        StartPhase::Sandbox(c) => ManagerAction::ReadSandbox(c.sandbox_id.clone()),
        StartPhase::Put(c) => ManagerAction::PutContainer(c.duplicate()),
        _ => ManagerAction::Finish,
    }
}

/// The record of a container that was started.
pub open spec fn started(c: ContainerRecordView, now: i64) -> ContainerRecordView {
    ContainerRecordView { state: ContainerState::Running, started_at: Some(now), ..c }
}

/// The record of a container that was stopped on request. Its exit code is
/// that of an orderly end, whatever the microVM says.
pub open spec fn stopped(c: ContainerRecordView, now: i64) -> ContainerRecordView {
    ContainerRecordView {
        state: ContainerState::Exited,
        finished_at: Some(now),
        exit_code: 0,
        reason: Some(ContainerExitReason::Completed),
        message: "explicit stop"@,
        ..c
    }
}

impl StartContainerView {
    /// What is to be done.
    pub open spec fn wants(self) -> ManagerActionView {
        match self.phase {
            StartPhaseView::Driver(c, vm) => ManagerActionView::StartContainer {
                sandbox_id: c.sandbox_id,
                vm_id: vm,
                container_id: self.container_id,
            },
            p => common_wants(self.container_id, p),
        }
    }

    /// What follows a reply that came at the time `now`. A container that runs
    /// is started already; one that is neither new nor running cannot be. A
    /// reply that does not belong to what was to be done changes nothing.
    pub open spec fn after(self, reply: ManagerReplyView, now: i64) -> StartPhaseView {
        match (self.phase, reply) {
            (StartPhaseView::First, ManagerReplyView::Container(r)) => match r {
                Ok(c) => StartPhaseView::Lock(c.sandbox_id),
                Err(e) => StartPhaseView::Done(Err(crate::manager::errors::of_store(e))),
            },
            (StartPhaseView::Lock(_), ManagerReplyView::Done) => StartPhaseView::Read,
            (StartPhaseView::Read, ManagerReplyView::Container(r)) => match r {
                Ok(c) => match c.state {
                    ContainerState::Running => StartPhaseView::Done(Ok(())),
                    ContainerState::Created => StartPhaseView::Sandbox(c),
                    _ => StartPhaseView::Done(
                        Err(
                            OasErrorView::Conflict(
                                "container "@ + self.container_id
                                    + " not in Created/Running state"@,
                            ),
                        ),
                    ),
                },
                Err(e) => StartPhaseView::Done(Err(crate::manager::errors::of_store(e))),
            },
            (StartPhaseView::Sandbox(c), ManagerReplyView::Sandbox(r)) => match r {
                Ok(s) => StartPhaseView::Driver(c, VmId(s.vm_id)),
                Err(e) => StartPhaseView::Done(Err(crate::manager::errors::of_store(e))),
            },
            (StartPhaseView::Driver(c, _), ManagerReplyView::Driver(r)) => match r {
                Ok(_) => StartPhaseView::Put(started(c, now)),
                Err(e) => StartPhaseView::Done(Err(crate::manager::errors::of_driver(e))),
            },
            (StartPhaseView::Put(_), ManagerReplyView::Stored(r)) => StartPhaseView::Done(
                match r {
                    Ok(_) => Ok(()),
                    Err(e) => Err(crate::manager::errors::of_store(e)),
                },
            ),
            (p, _) => p,
        }
    }
}

impl StartContainer {
    /// What is to be done.
    pub fn action(&self) -> (a: ManagerAction)
        ensures
            a@ == self@.wants(),
    {
        match &self.phase {
            StartPhase::Driver(c, vm) => ManagerAction::StartContainer {
                sandbox_id: c.sandbox_id.clone(),
                vm_id: *vm,
                container_id: self.container_id.clone(),
            },
            p => common_action(&self.container_id, p),
        }
    }

    /// Takes the reply to what was to be done, which came at the time `now`.
    pub fn advance(&mut self, reply: ManagerReply, now: i64)
        ensures
            final(self)@ == (StartContainerView {
                phase: old(self)@.after(reply@, now),
                ..old(self)@
            }),
    {
        let p = match (&self.phase, reply) {
            (StartPhase::First, ManagerReply::Container(r)) => match r {
                Ok(c) => StartPhase::Lock(c.sandbox_id),
                Err(e) => StartPhase::Done(Err(map_store_err(&e))),
            },
            (StartPhase::Lock(_), ManagerReply::Done) => StartPhase::Read,
            (StartPhase::Read, ManagerReply::Container(r)) => match r {
                Ok(c) => match c.state {
                    ContainerState::Running => StartPhase::Done(Ok(())),
                    ContainerState::Created => StartPhase::Sandbox(c),
                    _ => StartPhase::Done(
                        Err(
                            OasError::Conflict(
                                text::cat3(
                                    "container ",
                                    self.container_id.as_str(),
                                    " not in Created/Running state",
                                ),
                            ),
                        ),
                    ),
                },
                Err(e) => StartPhase::Done(Err(map_store_err(&e))),
            },
            (StartPhase::Sandbox(c), ManagerReply::Sandbox(r)) => match r {
                Ok(s) => StartPhase::Driver(c.duplicate(), VmId(s.vm_id)),
                Err(e) => StartPhase::Done(Err(map_store_err(&e))),
            },
            (StartPhase::Driver(c, _), ManagerReply::Driver(r)) => match r {
                Ok(_) => {
                    let mut d = c.duplicate();
                    d.state = ContainerState::Running;
                    d.started_at = Some(now);
                    StartPhase::Put(d)
                },
                Err(e) => StartPhase::Done(Err(map_driver_err(&e))),
            },
            (StartPhase::Put(_), ManagerReply::Stored(r)) => match r {
                Ok(_) => StartPhase::Done(Ok(())),
                Err(e) => StartPhase::Done(Err(map_store_err(&e))),
            },
            _ => {
                return;
            },
        };
        self.phase = p;
    }

    /// The answer to the request, where it is there.
    pub fn result(&self) -> (r: Option<Result<(), OasError>>)
        ensures
            match self@.phase {
                StartPhaseView::Done(x) => r matches Some(y) && crate::model::result_view(y) == x,
                _ => r is None,
            },
    {
        match &self.phase {
            StartPhase::Done(x) => Some(crate::model::duplicate_result(x)),
            _ => None,
        }
    }
}

impl StopContainerView {
    /// What is to be done.
    pub open spec fn wants(self) -> ManagerActionView {
        match self.phase {
            StartPhaseView::Driver(c, vm) => ManagerActionView::StopContainer {
                sandbox_id: c.sandbox_id,
                vm_id: vm,
                container_id: self.container_id,
                timeout: self.timeout,
            },
            p => common_wants(self.container_id, p),
        }
    }

    /// What follows a reply that came at the time `now`. A container that is
    /// not there, or that has ended, is stopped already. What the microVM says
    /// to the stop does not matter. A reply that does not belong to what was to
    /// be done changes nothing.
    pub open spec fn after(self, reply: ManagerReplyView, now: i64) -> StartPhaseView {
        match (self.phase, reply) {
            (StartPhaseView::First, ManagerReplyView::Container(r)) => match r {
                Ok(c) => StartPhaseView::Lock(c.sandbox_id),
                Err(e) => if e is NotFound {
                    StartPhaseView::Done(Ok(()))
                } else {
                    StartPhaseView::Done(Err(crate::manager::errors::of_store(e)))
                },
            },
            (StartPhaseView::Lock(_), ManagerReplyView::Done) => StartPhaseView::Read,
            (StartPhaseView::Read, ManagerReplyView::Container(r)) => match r {
                Ok(c) => if c.state == ContainerState::Exited {
                    StartPhaseView::Done(Ok(()))
                } else {
                    StartPhaseView::Sandbox(c)
                },
                Err(e) => StartPhaseView::Done(Err(crate::manager::errors::of_store(e))),
            },
            (StartPhaseView::Sandbox(c), ManagerReplyView::Sandbox(r)) => match r {
                Ok(s) => StartPhaseView::Driver(c, VmId(s.vm_id)),
                Err(e) => StartPhaseView::Done(Err(crate::manager::errors::of_store(e))),
            },
            (StartPhaseView::Driver(c, _), ManagerReplyView::Driver(_)) => StartPhaseView::Put(
                stopped(c, now),
            ),
            (StartPhaseView::Put(_), ManagerReplyView::Stored(r)) => StartPhaseView::Done(
                match r {
                    Ok(_) => Ok(()),
                    Err(e) => Err(crate::manager::errors::of_store(e)),
                },
            ),
            (p, _) => p,
        }
    }
}

impl StopContainer {
    /// What is to be done.
    pub fn action(&self) -> (a: ManagerAction)
        ensures
            a@ == self@.wants(),
    {
        match &self.phase {
            StartPhase::Driver(c, vm) => ManagerAction::StopContainer {
                sandbox_id: c.sandbox_id.clone(),
                vm_id: *vm,
                container_id: self.container_id.clone(),
                timeout: self.timeout,
            },
            p => common_action(&self.container_id, p),
        }
    }

    /// Takes the reply to what was to be done, which came at the time `now`.
    pub fn advance(&mut self, reply: ManagerReply, now: i64)
        ensures
            final(self)@ == (StopContainerView {
                phase: old(self)@.after(reply@, now),
                ..old(self)@
            }),
    {
        let p = match (&self.phase, reply) {
            (StartPhase::First, ManagerReply::Container(r)) => match r {
                Ok(c) => StartPhase::Lock(c.sandbox_id),
                Err(e) => {
                    if matches!(e, StoreError::NotFound(_)) {
                        StartPhase::Done(Ok(()))
                    } else {
                        StartPhase::Done(Err(map_store_err(&e)))
                    }
                },
            },
            (StartPhase::Lock(_), ManagerReply::Done) => StartPhase::Read,
            (StartPhase::Read, ManagerReply::Container(r)) => match r {
                Ok(c) => {
                    if c.state == ContainerState::Exited {
                        StartPhase::Done(Ok(()))
                    } else {
                        StartPhase::Sandbox(c)
                    }
                },
                Err(e) => StartPhase::Done(Err(map_store_err(&e))),
            },
            (StartPhase::Sandbox(c), ManagerReply::Sandbox(r)) => match r {
                Ok(s) => StartPhase::Driver(c.duplicate(), VmId(s.vm_id)),
                Err(e) => StartPhase::Done(Err(map_store_err(&e))),
            },
            (StartPhase::Driver(c, _), ManagerReply::Driver(_)) => {
                let mut d = c.duplicate();
                d.state = ContainerState::Exited;
                d.finished_at = Some(now);
                d.exit_code = 0;
                d.reason = Some(ContainerExitReason::Completed);
                d.message = "explicit stop".to_owned();
                StartPhase::Put(d)
            },
            (StartPhase::Put(_), ManagerReply::Stored(r)) => match r {
                Ok(_) => StartPhase::Done(Ok(())),
                Err(e) => StartPhase::Done(Err(map_store_err(&e))),
            },
            _ => {
                return;
            },
        };
        self.phase = p;
    }

    /// The answer to the request, where it is there.
    pub fn result(&self) -> (r: Option<Result<(), OasError>>)
        ensures
            match self@.phase {
                StartPhaseView::Done(x) => r matches Some(y) && crate::model::result_view(y) == x,
                _ => r is None,
            },
    {
        match &self.phase {
            StartPhase::Done(x) => Some(crate::model::duplicate_result(x)),
            _ => None,
        }
    }
}

impl RemoveContainerView {
    /// What is to be done.
    pub open spec fn wants(self) -> ManagerActionView {
        match self.phase {
            RemoveCtPhaseView::First => ManagerActionView::ReadContainer(self.container_id),
            RemoveCtPhaseView::Lock(sid) => ManagerActionView::Lock(sid),
            RemoveCtPhaseView::Sandbox(sid) => ManagerActionView::ReadSandbox(sid),
            RemoveCtPhaseView::Driver(sid, vm) => ManagerActionView::RemoveContainer {
                sandbox_id: sid,
                vm_id: vm,
                container_id: self.container_id,
            },
            RemoveCtPhaseView::Delete => ManagerActionView::DeleteContainer(self.container_id),
            RemoveCtPhaseView::Done(_) => ManagerActionView::Finish,
        }
    }

    /// What follows a reply. A container that is not there is removed already.
    /// What the microVM says to the removal does not matter. A reply that does
    /// not belong to what was to be done changes nothing.
    pub open spec fn after(self, reply: ManagerReplyView) -> RemoveCtPhaseView {
        match (self.phase, reply) {
            (RemoveCtPhaseView::First, ManagerReplyView::Container(r)) => match r {
                Ok(c) => RemoveCtPhaseView::Lock(c.sandbox_id),
                Err(e) => if e is NotFound {
                    RemoveCtPhaseView::Done(Ok(()))
                } else {
                    RemoveCtPhaseView::Done(Err(crate::manager::errors::of_store(e)))
                },
            },
            (RemoveCtPhaseView::Lock(sid), ManagerReplyView::Done) => RemoveCtPhaseView::Sandbox(
                sid,
            ),
            (RemoveCtPhaseView::Sandbox(sid), ManagerReplyView::Sandbox(r)) => match r {
                Ok(s) => RemoveCtPhaseView::Driver(sid, VmId(s.vm_id)),
                Err(e) => RemoveCtPhaseView::Done(Err(crate::manager::errors::of_store(e))),
            },
            (
                RemoveCtPhaseView::Driver(_, _),
                ManagerReplyView::Driver(_),
            ) => RemoveCtPhaseView::Delete,
            (RemoveCtPhaseView::Delete, ManagerReplyView::Stored(r)) => RemoveCtPhaseView::Done(
                match r {
                    Ok(_) => Ok(()),
                    Err(e) => Err(crate::manager::errors::of_store(e)),
                },
            ),
            (p, _) => p,
        }
    }
}

impl RemoveContainer {
    /// What is to be done.
    pub fn action(&self) -> (a: ManagerAction)
        ensures
            a@ == self@.wants(),
    {
        match &self.phase {
            RemoveCtPhase::First => ManagerAction::ReadContainer(self.container_id.clone()),
            RemoveCtPhase::Lock(sid) => ManagerAction::Lock(sid.clone()),
            RemoveCtPhase::Sandbox(sid) => ManagerAction::ReadSandbox(sid.clone()),
            RemoveCtPhase::Driver(sid, vm) => ManagerAction::RemoveContainer {
                sandbox_id: sid.clone(),
                vm_id: *vm,
                container_id: self.container_id.clone(),
            },
            RemoveCtPhase::Delete => ManagerAction::DeleteContainer(self.container_id.clone()),
            RemoveCtPhase::Done(_) => ManagerAction::Finish,
        }
    }

    /// Takes the reply to what was to be done.
    pub fn advance(&mut self, reply: ManagerReply)
        ensures
            final(self)@ == (RemoveContainerView {
                phase: old(self)@.after(reply@),
                ..old(self)@
            }),
    {
        let p = match (&self.phase, reply) {
            (RemoveCtPhase::First, ManagerReply::Container(r)) => match r {
                Ok(c) => RemoveCtPhase::Lock(c.sandbox_id),
                Err(e) => {
                    if matches!(e, StoreError::NotFound(_)) {
                        RemoveCtPhase::Done(Ok(()))
                    } else {
                        RemoveCtPhase::Done(Err(map_store_err(&e)))
                    }
                },
            },
            (RemoveCtPhase::Lock(sid), ManagerReply::Done) => RemoveCtPhase::Sandbox(sid.clone()),
            (RemoveCtPhase::Sandbox(sid), ManagerReply::Sandbox(r)) => match r {
                Ok(s) => RemoveCtPhase::Driver(sid.clone(), VmId(s.vm_id)),
                Err(e) => RemoveCtPhase::Done(Err(map_store_err(&e))),
            },
            (RemoveCtPhase::Driver(_, _), ManagerReply::Driver(_)) => RemoveCtPhase::Delete,
            (RemoveCtPhase::Delete, ManagerReply::Stored(r)) => match r {
                Ok(_) => RemoveCtPhase::Done(Ok(())),
                Err(e) => RemoveCtPhase::Done(Err(map_store_err(&e))),
            },
            _ => {
                return;
            },
        };
        self.phase = p;
    }

    /// The answer to the request, where it is there.
    pub fn result(&self) -> (r: Option<Result<(), OasError>>)
        ensures
            match self@.phase {
                RemoveCtPhaseView::Done(x) => r matches Some(y) && crate::model::result_view(y) == x,
                _ => r is None,
            },
    {
        match &self.phase {
            RemoveCtPhase::Done(x) => Some(crate::model::duplicate_result(x)),
            _ => None,
        }
    }
}

impl ContainerStatusView {
    /// What is to be done.
    pub open spec fn wants(self) -> ManagerActionView {
        match self.phase {
            StatusPhaseView::Read => ManagerActionView::ReadContainer(self.container_id),
            StatusPhaseView::Sandbox(c) => ManagerActionView::ReadSandbox(c.sandbox_id),
            StatusPhaseView::Driver(c, vm) => ManagerActionView::ContainerStatus {
                sandbox_id: c.sandbox_id,
                vm_id: vm,
                container_id: self.container_id,
            },
            StatusPhaseView::Done(_) => ManagerActionView::Finish,
        }
    }

    /// What follows a reply. The microVM is asked too, but the answer is what
    /// the store holds. A reply that does not belong to what was to be done
    /// changes nothing.
    pub open spec fn after(self, reply: ManagerReplyView) -> StatusPhaseView {
        match (self.phase, reply) {
            (StatusPhaseView::Read, ManagerReplyView::Container(r)) => match r {
                Ok(c) => StatusPhaseView::Sandbox(c),
                Err(e) => StatusPhaseView::Done(Err(crate::manager::errors::of_store(e))),
            },
            (StatusPhaseView::Sandbox(c), ManagerReplyView::Sandbox(r)) => match r {
                Ok(s) => StatusPhaseView::Driver(c, VmId(s.vm_id)),
                Err(_) => StatusPhaseView::Done(Ok(c)),
            },
            (StatusPhaseView::Driver(c, _), ManagerReplyView::Driver(_)) => StatusPhaseView::Done(
                Ok(c),
            ),
            (p, _) => p,
        }
    }
}

impl ContainerStatus {
    /// What is to be done.
    pub fn action(&self) -> (a: ManagerAction)
        ensures
            a@ == self@.wants(),
    {
        match &self.phase {
            StatusPhase::Read => ManagerAction::ReadContainer(self.container_id.clone()),
            StatusPhase::Sandbox(c) => ManagerAction::ReadSandbox(c.sandbox_id.clone()),
            StatusPhase::Driver(c, vm) => ManagerAction::ContainerStatus {
                sandbox_id: c.sandbox_id.clone(),
                vm_id: *vm,
                container_id: self.container_id.clone(),
            },
            StatusPhase::Done(_) => ManagerAction::Finish,
        }
    }

    /// Takes the reply to what was to be done.
    pub fn advance(&mut self, reply: ManagerReply)
        ensures
            final(self)@ == (ContainerStatusView {
                phase: old(self)@.after(reply@),
                ..old(self)@
            }),
    {
        let p = match (&self.phase, reply) {
            (StatusPhase::Read, ManagerReply::Container(r)) => match r {
                Ok(c) => StatusPhase::Sandbox(c),
                Err(e) => StatusPhase::Done(Err(map_store_err(&e))),
            },
            (StatusPhase::Sandbox(c), ManagerReply::Sandbox(r)) => match r {
                Ok(s) => StatusPhase::Driver(c.duplicate(), VmId(s.vm_id)),
                Err(_) => StatusPhase::Done(Ok(c.duplicate())),
            },
            (StatusPhase::Driver(c, _), ManagerReply::Driver(_)) => StatusPhase::Done(
                Ok(c.duplicate()),
            ),
            _ => {
                return;
            },
        };
        self.phase = p;
    }

    /// The answer to the request, where it is there.
    pub fn result(&self) -> (r: Option<Result<ContainerRecord, OasError>>)
        ensures
            match self@.phase {
                StatusPhaseView::Done(x) => r matches Some(y) && crate::model::result_view(y) == x,
                _ => r is None,
            },
    {
        match &self.phase {
            StatusPhase::Done(x) => Some(crate::model::duplicate_result(x)),
            _ => None,
        }
    }
}

} // verus!
