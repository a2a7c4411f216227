//! The disks of a sandbox: its writable layer and its cloud disk.

use vstd::prelude::*;

use crate::config::{path_join, Config, ConfigView};
use crate::model::Duplicate;
use crate::net::setup::{RunFailure, RunFailureView};
use crate::text;

verus! {

/// The disks of one sandbox.
#[derive(Debug, PartialEq)]
pub struct DiskConfig {
    /// The writable layer.
    pub rw_layer_path: Option<String>,
    /// The cloud disk.
    pub cloud_disk_dev: Option<String>,
}

/// The abstract value of [`DiskConfig`].
#[verifier::ext_equal]
pub struct DiskConfigView {
    pub rw_layer_path: Option<Seq<char>>,
    pub cloud_disk_dev: Option<Seq<char>>,
}

impl DeepView for DiskConfig {
    type V = DiskConfigView;

    open spec fn deep_view(&self) -> DiskConfigView {
        DiskConfigView {
            rw_layer_path: self.rw_layer_path.deep_view(),
            cloud_disk_dev: self.cloud_disk_dev.deep_view(),
        }
    }
}

impl View for DiskConfig {
    type V = DiskConfigView;

    open spec fn view(&self) -> DiskConfigView {
        self.deep_view()
    }
}

impl Duplicate for DiskConfig {
    fn duplicate(&self) -> (r: Self) {
        DiskConfig {
            rw_layer_path: self.rw_layer_path.duplicate(),
            cloud_disk_dev: self.cloud_disk_dev.duplicate(),
        }
    }
}

impl Clone for DiskConfig {
    fn clone(&self) -> (r: Self)
        ensures
            r@ == self@,
    {
        self.duplicate()
    }
}

impl Default for DiskConfig {
    fn default() -> (r: Self)
        ensures
            r@ == (DiskConfigView { rw_layer_path: None, cloud_disk_dev: None }),
    {
        DiskConfig { rw_layer_path: None, cloud_disk_dev: None }
    }
}

/// Why the disks could not be made.
#[derive(Debug, PartialEq)]
pub enum StorageError {
    Io(String),
    CloudDiskNotFound(String),
    Other(String),
}

/// The abstract value of [`StorageError`].
#[verifier::ext_equal]
pub enum StorageErrorView {
    Io(Seq<char>),
    CloudDiskNotFound(Seq<char>),
    Other(Seq<char>),
}

impl DeepView for StorageError {
    type V = StorageErrorView;

    open spec fn deep_view(&self) -> StorageErrorView {
        match *self {
            StorageError::Io(a) => StorageErrorView::Io(a@),
            StorageError::CloudDiskNotFound(a) => StorageErrorView::CloudDiskNotFound(a@),
            StorageError::Other(a) => StorageErrorView::Other(a@),
        }
    }
}

impl View for StorageError {
    type V = StorageErrorView;

    open spec fn view(&self) -> StorageErrorView {
        self.deep_view()
    }
}

impl Duplicate for StorageError {
    fn duplicate(&self) -> (r: Self) {
        match self {
            StorageError::Io(a) => StorageError::Io(a.clone()),
            StorageError::CloudDiskNotFound(a) => StorageError::CloudDiskNotFound(a.clone()),
            StorageError::Other(a) => StorageError::Other(a.clone()),
        }
    }
}

impl Clone for StorageError {
    fn clone(&self) -> (r: Self)
        ensures
            r@ == self@,
    {
        self.duplicate()
    }
}

impl StorageErrorView {
    /// The error as text.
    pub open spec fn text(self) -> Seq<char> {
        match self {
            StorageErrorView::Io(a) => "io: "@ + a,
            StorageErrorView::CloudDiskNotFound(a) => "cloud disk not found: "@ + a,
            StorageErrorView::Other(a) => a,
        }
    }
}

impl StorageError {
    /// The error as text.
    pub fn message(&self) -> (s: String)
        ensures
            s@ == self@.text(),
    {
        match self {
            StorageError::Io(a) => text::cat2("io: ", a.as_str()),
            StorageError::CloudDiskNotFound(a) => text::cat2("cloud disk not found: ", a.as_str()),
            StorageError::Other(a) => a.clone(),
        }
    }
}

/// How far the making of the disks has come.
#[derive(Debug, PartialEq)]
pub enum ProvisionPhase {
    Mkdir,
    ProbeTemplate,
    CopyTemplate,
    NewUuid,
    Allocate,
    Format,
    Done(Result<DiskConfig, StorageError>),
}

/// The abstract value of [`ProvisionPhase`].
#[verifier::ext_equal]
pub enum ProvisionPhaseView {
    Mkdir,
    ProbeTemplate,
    CopyTemplate,
    NewUuid,
    Allocate,
    Format,
    Done(Result<DiskConfigView, StorageErrorView>),
}

impl DeepView for ProvisionPhase {
    type V = ProvisionPhaseView;

    open spec fn deep_view(&self) -> ProvisionPhaseView {
        match *self {
            ProvisionPhase::Mkdir => ProvisionPhaseView::Mkdir,
            ProvisionPhase::ProbeTemplate => ProvisionPhaseView::ProbeTemplate,
            ProvisionPhase::CopyTemplate => ProvisionPhaseView::CopyTemplate,
            ProvisionPhase::NewUuid => ProvisionPhaseView::NewUuid,
            ProvisionPhase::Allocate => ProvisionPhaseView::Allocate,
            ProvisionPhase::Format => ProvisionPhaseView::Format,
            ProvisionPhase::Done(a) => ProvisionPhaseView::Done(crate::model::result_view(a)),
        }
    }
}

impl View for ProvisionPhase {
    type V = ProvisionPhaseView;

    open spec fn view(&self) -> ProvisionPhaseView {
        self.deep_view()
    }
}

impl Duplicate for ProvisionPhase {
    fn duplicate(&self) -> (r: Self) {
        match self {
            ProvisionPhase::Mkdir => ProvisionPhase::Mkdir,
            ProvisionPhase::ProbeTemplate => ProvisionPhase::ProbeTemplate,
            ProvisionPhase::CopyTemplate => ProvisionPhase::CopyTemplate,
            ProvisionPhase::NewUuid => ProvisionPhase::NewUuid,
            ProvisionPhase::Allocate => ProvisionPhase::Allocate,
            ProvisionPhase::Format => ProvisionPhase::Format,
            ProvisionPhase::Done(a) => ProvisionPhase::Done(crate::model::duplicate_result(a)),
        }
    }
}

impl Clone for ProvisionPhase {
    fn clone(&self) -> (r: Self)
        ensures
            r@ == self@,
    {
        self.duplicate()
    }
}

/// What is to be done next.
#[derive(Debug, PartialEq)]
pub enum ProvisionAction {
    /// Make a directory.
    Mkdir(String),
    /// See whether a file is there.
    ProbeFile(String),
    /// Copy a file, sharing blocks as far as this is enabled and required.
    Copy {
        src: String,
        dst: String,
        reflink_enabled: bool,
        reflink_required: bool,
    },
    /// Run a program.
    Run {
        program: String,
        args: Vec<String>,
    },
    Finish(Result<DiskConfig, StorageError>),
}

/// The abstract value of [`ProvisionAction`].
#[verifier::ext_equal]
pub enum ProvisionActionView {
    Mkdir(Seq<char>),
    ProbeFile(Seq<char>),
    Copy {
        src: Seq<char>,
        dst: Seq<char>,
        reflink_enabled: bool,
        reflink_required: bool,
    },
    Run {
        program: Seq<char>,
        args: Seq<Seq<char>>,
    },
    Finish(Result<DiskConfigView, StorageErrorView>),
}

impl DeepView for ProvisionAction {
    type V = ProvisionActionView;

    open spec fn deep_view(&self) -> ProvisionActionView {
        match *self {
            ProvisionAction::Mkdir(a) => ProvisionActionView::Mkdir(a@),
            ProvisionAction::ProbeFile(a) => ProvisionActionView::ProbeFile(a@),
            ProvisionAction::Copy { src, dst, reflink_enabled, reflink_required } => ProvisionActionView::Copy { src: src@, dst: dst@, reflink_enabled, reflink_required },
            ProvisionAction::Run { program, args } => ProvisionActionView::Run { program: program@, args: args.deep_view() },
            ProvisionAction::Finish(a) => ProvisionActionView::Finish(crate::model::result_view(a)),
        }
    }
}

impl View for ProvisionAction {
    type V = ProvisionActionView;

    open spec fn view(&self) -> ProvisionActionView {
        self.deep_view()
    }
}

impl Duplicate for ProvisionAction {
    fn duplicate(&self) -> (r: Self) {
        match self {
            ProvisionAction::Mkdir(a) => ProvisionAction::Mkdir(a.duplicate()),
            ProvisionAction::ProbeFile(a) => ProvisionAction::ProbeFile(a.duplicate()),
            ProvisionAction::Copy { src, dst, reflink_enabled, reflink_required } => ProvisionAction::Copy { src: src.duplicate(), dst: dst.duplicate(), reflink_enabled: *reflink_enabled, reflink_required: *reflink_required },
            ProvisionAction::Run { program, args } => ProvisionAction::Run { program: program.duplicate(), args: args.duplicate() },
            ProvisionAction::Finish(a) => ProvisionAction::Finish(crate::model::duplicate_result(a)),
        }
    }
}

impl Clone for ProvisionAction {
    fn clone(&self) -> (r: Self)
        ensures
            r@ == self@,
    {
        self.duplicate()
    }
}

/// What came of it.
#[derive(Debug, PartialEq)]
pub enum ProvisionReply {
    Done,
    Failed(String),
    Exists(bool),
    RunFailed(RunFailure),
}

/// The abstract value of [`ProvisionReply`].
#[verifier::ext_equal]
pub enum ProvisionReplyView {
    Done,
    Failed(Seq<char>),
    Exists(bool),
    RunFailed(RunFailureView),
}

impl DeepView for ProvisionReply {
    type V = ProvisionReplyView;

    open spec fn deep_view(&self) -> ProvisionReplyView {
        match *self {
            ProvisionReply::Done => ProvisionReplyView::Done,
            ProvisionReply::Failed(a) => ProvisionReplyView::Failed(a@),
            ProvisionReply::Exists(a) => ProvisionReplyView::Exists(a),
            ProvisionReply::RunFailed(a) => ProvisionReplyView::RunFailed(a.deep_view()),
        }
    }
}

impl View for ProvisionReply {
    type V = ProvisionReplyView;

    open spec fn view(&self) -> ProvisionReplyView {
        self.deep_view()
    }
}

impl Duplicate for ProvisionReply {
    fn duplicate(&self) -> (r: Self) {
        match self {
            ProvisionReply::Done => ProvisionReply::Done,
            ProvisionReply::Failed(a) => ProvisionReply::Failed(a.duplicate()),
            ProvisionReply::Exists(a) => ProvisionReply::Exists(*a),
            ProvisionReply::RunFailed(a) => ProvisionReply::RunFailed(a.duplicate()),
        }
    }
}

impl Clone for ProvisionReply {
    fn clone(&self) -> (r: Self)
        ensures
            r@ == self@,
    {
        self.duplicate()
    }
}

/// Disks in the making.
#[derive(Debug, PartialEq)]
pub struct Provision {
    pub cfg: Config,
    /// The writable layer.
    pub path: String,
    pub cloud_disk_ref: Option<String>,
    pub phase: ProvisionPhase,
}

/// The abstract value of [`Provision`].
#[verifier::ext_equal]
pub struct ProvisionView {
    pub cfg: ConfigView,
    pub path: Seq<char>,
    pub cloud_disk_ref: Option<Seq<char>>,
    pub phase: ProvisionPhaseView,
}

impl DeepView for Provision {
    type V = ProvisionView;

    open spec fn deep_view(&self) -> ProvisionView {
        ProvisionView {
            cfg: self.cfg.deep_view(),
            path: self.path@,
            cloud_disk_ref: self.cloud_disk_ref.deep_view(),
            phase: self.phase.deep_view(),
        }
    }
}

impl View for Provision {
    type V = ProvisionView;

    open spec fn view(&self) -> ProvisionView {
        self.deep_view()
    }
}

impl Duplicate for Provision {
    fn duplicate(&self) -> (r: Self) {
        Provision {
            cfg: self.cfg.duplicate(),
            path: self.path.duplicate(),
            cloud_disk_ref: self.cloud_disk_ref.duplicate(),
            phase: self.phase.duplicate(),
        }
    }
}

impl Clone for Provision {
    fn clone(&self) -> (r: Self)
        ensures
            r@ == self@,
    {
        self.duplicate()
    }
}

/// The program and the words of a step that runs one.
pub open spec fn command_of(p: ProvisionView) -> (Seq<char>, Seq<Seq<char>>) {
    match p.phase {
        ProvisionPhaseView::NewUuid => ("tune2fs"@, seq!["-U"@, "random"@, p.path]),
        ProvisionPhaseView::Allocate => (
            "truncate"@,
            seq!["-s"@, text::dec(p.cfg.rw_size_mib as nat) + "M"@, p.path],
        ),
        _ => ("mkfs.ext4"@, seq!["-F"@, p.path]),
    }
}

/// The error that a failed program stands for.
pub open spec fn run_error(
    command: (Seq<char>, Seq<Seq<char>>),
    f: RunFailureView,
) -> StorageErrorView {
    let line = command.0 + " "@ + text::join(command.1, " "@);
    StorageErrorView::Other(
        match f {
            RunFailureView::NotRun(e) => line + ": "@ + e,
            RunFailureView::Exit(e) => line + " failed: "@ + e,
        },
    )
}

impl ProvisionView {
    /// The disks once the writable layer is there.
    pub open spec fn made(self) -> ProvisionPhaseView {
        ProvisionPhaseView::Done(
            Ok(
                DiskConfigView {
                    rw_layer_path: Some(self.path),
                    cloud_disk_dev: self.cloud_disk_ref,
                },
            ),
        )
    }

    pub open spec fn template(self) -> Seq<char> {
        self.cfg.rw_template_path.unwrap_or(""@)
    }

    /// What is to be done.
    pub open spec fn wants(self) -> ProvisionActionView {
        match self.phase {
            ProvisionPhaseView::Mkdir => ProvisionActionView::Mkdir(self.cfg.rw_base_dir),
            ProvisionPhaseView::ProbeTemplate => ProvisionActionView::ProbeFile(self.template()),
            ProvisionPhaseView::CopyTemplate => ProvisionActionView::Copy {
                src: self.template(),
                dst: self.path,
                reflink_enabled: self.cfg.reflink_enabled,
                reflink_required: self.cfg.reflink_required,
            },
            ProvisionPhaseView::Done(r) => ProvisionActionView::Finish(r),
            _ => ProvisionActionView::Run {
                program: command_of(self).0,
                args: command_of(self).1,
            },
        }
    }

    /// What follows a reply. A copy of the template gets an identity of its
    /// own; without a template a layer is formatted, unless block sharing is
    /// required. A reply that does not belong to what was to be done changes
    /// nothing.
    pub open spec fn after(self, reply: ProvisionReplyView) -> ProvisionPhaseView {
        match (self.phase, reply) {
            (ProvisionPhaseView::Mkdir, ProvisionReplyView::Done) => if self.cfg.rw_template_path is Some {
                ProvisionPhaseView::ProbeTemplate
            } else if self.cfg.reflink_required {
                ProvisionPhaseView::Done(
                    Err(
                        StorageErrorView::Other(
                            "rw_template_path is required when reflink_required=true"@,
                        ),
                    ),
                )
            } else {
                ProvisionPhaseView::Allocate
            },
            (ProvisionPhaseView::Mkdir, ProvisionReplyView::Failed(e)) => ProvisionPhaseView::Done(
                Err(StorageErrorView::Io(e)),
            ),
            (ProvisionPhaseView::ProbeTemplate, ProvisionReplyView::Exists(b)) => if b {
                ProvisionPhaseView::CopyTemplate
            } else {
                ProvisionPhaseView::Done(
                    Err(
                        StorageErrorView::Other(
                            "rw CoW template does not exist: "@ + self.template()
                                + " (run tools/prepare_rw_template.sh first)"@,
                        ),
                    ),
                )
            },
            (ProvisionPhaseView::CopyTemplate, ProvisionReplyView::Done) => ProvisionPhaseView::NewUuid,
            (
                ProvisionPhaseView::CopyTemplate,
                ProvisionReplyView::Failed(e),
            ) => ProvisionPhaseView::Done(
                Err(
                    StorageErrorView::Other(
                        "rw CoW template reflink "@ + self.template() + " -> "@ + self.path
                            + ": "@ + e,
                    ),
                ),
            ),
            (ProvisionPhaseView::NewUuid, ProvisionReplyView::Done) => self.made(),
            (ProvisionPhaseView::Allocate, ProvisionReplyView::Done) => ProvisionPhaseView::Format,
            (ProvisionPhaseView::Format, ProvisionReplyView::Done) => self.made(),
            (ProvisionPhaseView::NewUuid, ProvisionReplyView::RunFailed(f)) => ProvisionPhaseView::Done(
                Err(run_error(command_of(self), f)),
            ),
            (ProvisionPhaseView::Allocate, ProvisionReplyView::RunFailed(f)) => ProvisionPhaseView::Done(
                Err(run_error(command_of(self), f)),
            ),
            (ProvisionPhaseView::Format, ProvisionReplyView::RunFailed(f)) => ProvisionPhaseView::Done(
                Err(run_error(command_of(self), f)),
            ),
            (p, _) => p,
        }
    }

    /// The start: a type without a writable layer, and an unknown one, need
    /// nothing.
    pub open spec fn begin(
        cfg: ConfigView,
        sandbox_id: Seq<char>,
        type_id: u8,
        cloud_disk_ref: Option<Seq<char>>,
    ) -> ProvisionView {
        ProvisionView {
            cfg,
            path: crate::config::join_path(cfg.rw_base_dir, sandbox_id + ".ext4"@),
            cloud_disk_ref,
            phase: if cfg.get_type(type_id) matches Some(ty) && ty.has_rw_layer {
                ProvisionPhaseView::Mkdir
            } else {
                ProvisionPhaseView::Done(
                    Ok(DiskConfigView { rw_layer_path: None, cloud_disk_dev: cloud_disk_ref }),
                )
            },
        }
    }
}

impl Provision {
    fn made(&self) -> (p: ProvisionPhase)
        ensures
            p@ == self@.made(),
    {
        ProvisionPhase::Done(
            Ok(
                DiskConfig {
                    rw_layer_path: Some(self.path.clone()),
                    cloud_disk_dev: self.cloud_disk_ref.duplicate(),
                },
            ),
        )
    }

    fn template(&self) -> (r: String)
        ensures
            r@ == self@.template(),
    {
        match &self.cfg.rw_template_path {
            Some(t) => t.clone(),
            None => "".to_owned(),
        }
    }

    fn command(&self) -> (r: (String, Vec<String>))
        ensures
            (r.0@, r.1.deep_view()) == command_of(self@),
    {
        match &self.phase {
            ProvisionPhase::NewUuid => {
                let v = vec!["-U".to_owned(), "random".to_owned(), self.path.clone()];
                assert(v.deep_view() =~= command_of(self@).1);
                ("tune2fs".to_owned(), v)
            },
            ProvisionPhase::Allocate => {
                let size = text::cat2(text::dec_string(self.cfg.rw_size_mib).as_str(), "M");
                let v = vec!["-s".to_owned(), size, self.path.clone()];
                assert(v.deep_view() =~= command_of(self@).1);
                ("truncate".to_owned(), v)
            },
            _ => {
                let v = vec!["-F".to_owned(), self.path.clone()];
                assert(v.deep_view() =~= command_of(self@).1);
                ("mkfs.ext4".to_owned(), v)
            },
        }
    }

    fn run_failed(&self, f: &RunFailure) -> (p: ProvisionPhase)
        ensures
            p@ == ProvisionPhaseView::Done(Err(run_error(command_of(self@), f@))),
    {
        let (program, args) = self.command();
        let line = text::cat3(program.as_str(), " ", text::joined(&args, " ").as_str());
        let s = match f {
            RunFailure::NotRun(e) => text::cat3(line.as_str(), ": ", e.as_str()),
            RunFailure::Exit(e) => text::cat3(line.as_str(), " failed: ", e.as_str()),
        };
        ProvisionPhase::Done(Err(StorageError::Other(s)))
    }

    /// What is to be done.
    pub fn action(&self) -> (a: ProvisionAction)
        ensures
            a@ == self@.wants(),
    {
        match &self.phase {
            ProvisionPhase::Mkdir => ProvisionAction::Mkdir(self.cfg.rw_base_dir.clone()),
            ProvisionPhase::ProbeTemplate => ProvisionAction::ProbeFile(self.template()),
            ProvisionPhase::CopyTemplate => ProvisionAction::Copy {
                src: self.template(),
                dst: self.path.clone(),
                reflink_enabled: self.cfg.reflink_enabled,
                reflink_required: self.cfg.reflink_required,
            },
            ProvisionPhase::Done(r) => ProvisionAction::Finish(crate::model::duplicate_result(r)),
            _ => {
                let (program, args) = self.command();
                ProvisionAction::Run { program, args }
            },
        }
    }

    /// Takes the reply to what was to be done.
    pub fn advance(&mut self, reply: ProvisionReply)
        ensures
            final(self)@ == (ProvisionView { phase: old(self)@.after(reply@), ..old(self)@ }),
    {
        let p = match (&self.phase, reply) {
            (ProvisionPhase::Mkdir, ProvisionReply::Done) => {
                if self.cfg.rw_template_path.is_some() {
                    ProvisionPhase::ProbeTemplate
                } else if self.cfg.reflink_required {
                    ProvisionPhase::Done(
                        Err(
                            StorageError::Other(
                                "rw_template_path is required when reflink_required=true".to_owned(),
                            ),
                        ),
                    )
                } else {
                    ProvisionPhase::Allocate
                }
            },
            (ProvisionPhase::Mkdir, ProvisionReply::Failed(e)) => ProvisionPhase::Done(
                Err(StorageError::Io(e)),
            ),
            (ProvisionPhase::ProbeTemplate, ProvisionReply::Exists(b)) => {
                if b {
                    ProvisionPhase::CopyTemplate
                } else {
                    ProvisionPhase::Done(
                        Err(
                            StorageError::Other(
                                text::cat3(
                                    "rw CoW template does not exist: ",
                                    self.template().as_str(),
                                    " (run tools/prepare_rw_template.sh first)",
                                ),
                            ),
                        ),
                    )
                }
            },
            (ProvisionPhase::CopyTemplate, ProvisionReply::Done) => ProvisionPhase::NewUuid,
            (ProvisionPhase::CopyTemplate, ProvisionReply::Failed(e)) => ProvisionPhase::Done(
                Err(
                    StorageError::Other(
                        text::cat6(
                            "rw CoW template reflink ",
                            self.template().as_str(),
                            " -> ",
                            self.path.as_str(),
                            ": ",
                            e.as_str(),
                        ),
                    ),
                ),
            ),
            (ProvisionPhase::NewUuid, ProvisionReply::Done) => self.made(),
            (ProvisionPhase::Allocate, ProvisionReply::Done) => ProvisionPhase::Format,
            (ProvisionPhase::Format, ProvisionReply::Done) => self.made(),
            (ProvisionPhase::NewUuid, ProvisionReply::RunFailed(f)) => self.run_failed(&f),
            (ProvisionPhase::Allocate, ProvisionReply::RunFailed(f)) => self.run_failed(&f),
            (ProvisionPhase::Format, ProvisionReply::RunFailed(f)) => self.run_failed(&f),
            _ => {
                return;
            },
        };
        self.phase = p;
    }
}

/// The disks of a node.
pub struct RealStorageManager {
    pub cfg: Config,
}

impl RealStorageManager {
    pub fn new(cfg: Config) -> (s: Self)
        ensures
            s.cfg@ == cfg@,
    {
        RealStorageManager { cfg }
    }

    /// The start of making the disks of a sandbox.
    pub fn provision(&self, sandbox_id: &str, type_id: u8, cloud_disk_ref: Option<String>) -> (p: Provision)
        ensures
            p@ == ProvisionView::begin(
                self.cfg@,
                sandbox_id@,
                type_id,
                cloud_disk_ref.deep_view(),
            ),
    {
        let has_rw = match self.cfg.get_type(type_id) {
            Some(ty) => ty.has_rw_layer,
            None => false,
        };
        let phase = if has_rw {
            ProvisionPhase::Mkdir
        } else {
            ProvisionPhase::Done(
                Ok(
                    DiskConfig {
                        rw_layer_path: None,
                        cloud_disk_dev: cloud_disk_ref.duplicate(),
                    },
                ),
            )
        };
        Provision {
            cfg: self.cfg.duplicate(),
            path: path_join(
                self.cfg.rw_base_dir.as_str(),
                text::cat2(sandbox_id, ".ext4").as_str(),
            ),
            cloud_disk_ref,
            phase,
        }
    }

    /// The file to remove when a sandbox goes, where it has one.
    pub fn cleanup(disk: &DiskConfig) -> (r: Option<String>)
        ensures
            r.deep_view() == disk@.rw_layer_path,
    {
        disk.rw_layer_path.duplicate()
    }
}

/// Where block sharing is required, no layer is ever formatted from nothing.
pub proof fn required_sharing_never_formats(p: ProvisionView, reply: ProvisionReplyView)
    requires
        p.cfg.reflink_required,
        p.phase !is Allocate,
        p.phase !is Format,
    ensures
        p.after(reply) !is Allocate,
        p.after(reply) !is Format,
{
}

/// A layer that is handed out was copied from the template and given an
/// identity of its own, or was formatted.
pub proof fn layers_are_distinct(p: ProvisionView, reply: ProvisionReplyView)
    requires
        p.phase !is Done,
        p.after(reply) matches ProvisionPhaseView::Done(Ok(_)),
    ensures
        p.phase is NewUuid || p.phase is Format,
        p.after(reply) == p.made(),
{
}

} // verus!
