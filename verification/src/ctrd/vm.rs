//! The microVM of a shim.

use vstd::prelude::*;

use crate::config::{path_join, Config};
use crate::driver::vm_core::{RestoreInputs, VmCore, VmCoreState};
#[allow(unused_imports)]
use crate::driver::vm_core::{RestoreInputsView, VmCoreView};
use crate::model::Duplicate;
use crate::text;

verus! {

/// How a microVM is.
#[derive(Debug, Clone, Copy, PartialEq, Eq, Structural)]
pub enum VmState {
    /// It was not made yet.
    NotExist,
    Running,
    Stopped,
}

impl DeepView for VmState {
    type V = VmState;

    open spec fn deep_view(&self) -> VmState {
        *self
    }
}

impl Duplicate for VmState {
    fn duplicate(&self) -> (r: Self) {
        *self
    }
}

impl VmState {
    /// The word for a state.
    pub open spec fn word(self) -> Seq<char> {
        match self {
            VmState::NotExist => "notexist"@,
            VmState::Running => "running"@,
            VmState::Stopped => "stopped"@,
        }
    }

    /// The word for a state.
    pub fn as_ctrld_str(self) -> (r: &'static str)
        ensures
            r@ == self.word(),
    {
        match self {
            VmState::NotExist => "notexist",
            VmState::Running => "running",
            VmState::Stopped => "stopped",
        }
    }

    /// The state as messages name it.
    pub open spec fn name(self) -> Seq<char> {
        match self {
            VmState::NotExist => "NotExist"@,
            VmState::Running => "Running"@,
            VmState::Stopped => "Stopped"@,
        }
    }
}

fn state_name(s: VmState) -> (r: &'static str)
    ensures
        r@ == s.name(),
{
    match s {
        VmState::NotExist => "NotExist",
        VmState::Running => "Running",
        VmState::Stopped => "Stopped",
    }
}

/// What a microVM is made of.
#[derive(Debug, PartialEq)]
pub struct VmCreateArgs {
    pub sandbox_id: String,
    /// The network namespace; empty where none is given.
    pub netns_path: String,
    pub type_id: u8,
}

/// The abstract value of [`VmCreateArgs`].
#[verifier::ext_equal]
pub struct VmCreateArgsView {
    pub sandbox_id: Seq<char>,
    pub netns_path: Seq<char>,
    pub type_id: u8,
}

impl DeepView for VmCreateArgs {
    type V = VmCreateArgsView;

    open spec fn deep_view(&self) -> VmCreateArgsView {
        VmCreateArgsView {
            sandbox_id: self.sandbox_id@,
            netns_path: self.netns_path@,
            type_id: self.type_id,
        }
    }
}

impl View for VmCreateArgs {
    type V = VmCreateArgsView;

    open spec fn view(&self) -> VmCreateArgsView {
        self.deep_view()
    }
}

impl Duplicate for VmCreateArgs {
    fn duplicate(&self) -> (r: Self) {
        VmCreateArgs {
            sandbox_id: self.sandbox_id.duplicate(),
            netns_path: self.netns_path.duplicate(),
            type_id: self.type_id,
        }
    }
}

impl Clone for VmCreateArgs {
    fn clone(&self) -> (r: Self)
        ensures
            r@ == self@,
    {
        self.duplicate()
    }
}

impl Default for VmCreateArgs {
    fn default() -> (r: Self)
        ensures
            r@ == (VmCreateArgsView { sandbox_id: seq![], netns_path: seq![], type_id: 0 }),
    {
        VmCreateArgs { sandbox_id: String::new(), netns_path: String::new(), type_id: 0 }
    }
}

/// What is told of a microVM that was started.
#[derive(Debug, Clone, Copy, PartialEq)]
pub struct VmRunInfo {
    pub pid: u32,
}

impl Default for VmRunInfo {
    fn default() -> (r: Self)
        ensures
            r == (VmRunInfo { pid: 0 }),
    {
        VmRunInfo { pid: 0 }
    }
}

/// The failure to start a microVM that does not run.
pub open spec fn not_running(name: Seq<char>) -> Seq<char> {
    "start: vm not running (state="@ + name + ")"@
}

/// The process that a microVM without a process pretends to have.
pub const MOCK_PID: u32 = 424242;

/// A microVM that is none: it only keeps what was asked of it.
#[derive(Debug, PartialEq)]
pub struct MockVm {
    state: VmState,
    pid: u32,
    args: Option<VmCreateArgs>,
    calls: Vec<&'static str>,
    exit: Option<u32>,
}

/// The abstract value of [`MockVm`].
#[verifier::ext_equal]
pub struct MockVmView {
    pub state: VmState,
    pub pid: u32,
    pub args: Option<VmCreateArgsView>,
    pub calls: Seq<Seq<char>>,
    /// How it ended, where it has.
    pub exit: Option<u32>,
}

impl View for MockVm {
    type V = MockVmView;

    closed spec fn view(&self) -> MockVmView {
        MockVmView {
            state: self.state,
            pid: self.pid,
            args: self.args.deep_view(),
            calls: self.calls.deep_view(),
            exit: self.exit,
        }
    }
}

impl MockVmView {
    /// One more request.
    pub open spec fn called(self, name: Seq<char>) -> MockVmView {
        MockVmView { calls: self.calls.push(name), ..self }
    }
}

impl Default for MockVm {
    fn default() -> (m: Self)
        ensures
            m@ == (MockVmView {
                state: VmState::NotExist,
                pid: 0,
                args: None,
                calls: seq![],
                exit: None,
            }),
    {
        MockVm::new()
    }
}

impl MockVm {
    pub fn new() -> (m: Self)
        ensures
            m@ == (MockVmView {
                state: VmState::NotExist,
                pid: 0,
                args: None,
                calls: seq![],
                exit: None,
            }),
    {
        let m = MockVm {
            state: VmState::NotExist,
            pid: 0,
            args: None,
            calls: Vec::new(),
            exit: None,
        };
        assert(m@.calls =~= seq![]);
        m
    }

    fn note(&mut self, name: &'static str)
        ensures
            final(self)@ == old(self)@.called(name@),
    {
        let ghost before = self.calls.deep_view();
        self.calls.push(name);
        assert(self.calls.deep_view() =~= before.push(name@));
    }

    /// What was asked so far.
    pub fn calls(&self) -> (r: Vec<&'static str>)
        ensures
            r.deep_view() == self@.calls,
    {
        let mut r: Vec<&'static str> = Vec::new();
        let mut i: usize = 0;
        while i < self.calls.len()
            invariant
                i <= self.calls@.len(),
                r@ == self.calls@.take(i as int),
            decreases self.calls@.len() - i,
        {
            r.push(self.calls[i]);
            i = i + 1;
        }
        assert(r@ =~= self.calls@);
        r
    }

    /// Makes it. One that runs stays as it is.
    pub fn create(&mut self, args: VmCreateArgs) -> (r: Result<(), String>)
        ensures
            r is Ok,
            final(self)@ == (if old(self)@.state == VmState::Running {
                old(self)@.called("create"@)
            } else {
                MockVmView {
                    state: VmState::Running,
                    pid: MOCK_PID,
                    args: Some(args@),
                    ..old(self)@.called("create"@)
                }
            }),
    {
        self.note("create");
        if self.state == VmState::Running {
            return Ok(());
        }
        self.args = Some(args);
        self.state = VmState::Running;
        self.pid = MOCK_PID;
        Ok(())
    }

    /// Its process, where it runs.
    pub fn start(&mut self) -> (r: Result<VmRunInfo, String>)
        ensures
            final(self)@ == old(self)@.called("start"@),
            match r {
                Ok(i) => old(self)@.state == VmState::Running && i.pid == old(self)@.pid,
                Err(e) => old(self)@.state != VmState::Running && e@ == not_running(
                    old(self)@.state.name(),
                ),
            },
    {
        self.note("start");
        if self.state != VmState::Running {
            return Err(text::cat3("start: vm not running (state=", state_name(self.state), ")"));
        }
        Ok(VmRunInfo { pid: self.pid })
    }

    /// How it is, and its process.
    pub fn status(&self) -> (r: (VmState, u32))
        ensures
            r == (self@.state, self@.pid),
    {
        (self.state, self.pid)
    }

    /// Ends it, where it runs.
    pub fn stop(&mut self, timeout_secs: u32) -> (r: Result<(), String>)
        ensures
            r is Ok,
            final(self)@ == (if old(self)@.state == VmState::Running {
                MockVmView {
                    state: VmState::Stopped,
                    exit: Some(0),
                    ..old(self)@.called("stop"@)
                }
            } else {
                old(self)@.called("stop"@)
            }),
    {
        self.note("stop");
        if self.state == VmState::Running {
            self.state = VmState::Stopped;
            self.exit = Some(0);
        }
        Ok(())
    }

    /// How it ended; nothing while it has not.
    pub fn wait(&self) -> (r: Option<u32>)
        ensures
            r == self@.exit,
    {
        self.exit
    }

    /// Ends it for good, whether it runs or not.
    pub fn shutdown(&mut self) -> (r: Result<(), String>)
        ensures
            r is Ok,
            final(self)@ == (MockVmView {
                state: if old(self)@.state == VmState::Running {
                    VmState::Stopped
                } else {
                    old(self)@.state
                },
                exit: Some(0),
                ..old(self)@.called("shutdown"@)
            }),
    {
        self.note("shutdown");
        if self.state == VmState::Running {
            self.state = VmState::Stopped;
        }
        self.exit = Some(0);
        Ok(())
    }
}

/// What a microVM is restored from, or why it cannot be: its type must be
/// known and need no cloud disk. The network namespace given counts; where none
/// is given it is the sandbox's own.
pub open spec fn inputs_for(cfg: crate::config::ConfigView, args: VmCreateArgsView) -> Result<
    RestoreInputsView,
    Seq<char>,
> {
    match cfg.get_type(args.type_id) {
        None => Err("unknown type_id "@ + text::dec(args.type_id as nat)),
        Some(ty) => if ty.has_cloud_disk {
            Err(
                "type "@ + text::dec(args.type_id as nat)
                    + " cloud-disk restore not supported in MVP"@,
            )
        } else {
            Ok(
                RestoreInputsView {
                    bundle_dir: cfg.bundle_dir(ty.bundle),
                    netns_path: if args.netns_path.len() == 0 {
                        cfg.netns_path(args.sandbox_id)
                    } else {
                        args.netns_path
                    },
                    rw_layer_path: if ty.has_rw_layer {
                        Some(
                            crate::config::join_path(
                                cfg.rw_base_dir,
                                args.sandbox_id + ".ext4"@,
                            ),
                        )
                    } else {
                        None
                    },
                    jailer_uid: cfg.jailer_uid,
                    jailer_gid: cfg.jailer_gid,
                    chroot_base_dir: cfg.chroot_base_dir,
                    firecracker_bin: cfg.firecracker_bin,
                    jailer_bin: cfg.jailer_bin,
                    cloud_disk_dev: None,
                },
            )
        },
    }
}

/// What a microVM is restored from, or why it cannot be.
pub fn build_restore_inputs(cfg: &Config, args: &VmCreateArgs) -> (r: Result<RestoreInputs, String>)
    ensures
        crate::model::result_view(r) == inputs_for(cfg@, args@),
{
    let ty = match cfg.get_type(args.type_id) {
        Some(t) => t,
        None => {
            return Err(
                text::cat2("unknown type_id ", text::dec_string(args.type_id as u64).as_str()),
            );
        },
    };
    if ty.has_cloud_disk {
        return Err(
            text::cat3(
                "type ",
                text::dec_string(args.type_id as u64).as_str(),
                " cloud-disk restore not supported in MVP",
            ),
        );
    }
    let netns_path = if text::is_empty(args.netns_path.as_str()) {
        cfg.netns_path(args.sandbox_id.as_str())
    } else {
        args.netns_path.clone()
    };
    let rw_layer_path = if ty.has_rw_layer {
        Some(
            path_join(
                cfg.rw_base_dir.as_str(),
                text::cat2(args.sandbox_id.as_str(), ".ext4").as_str(),
            ),
        )
    } else {
        None
    };
    Ok(
        RestoreInputs {
            bundle_dir: cfg.bundle_dir(ty.bundle.as_str()),
            netns_path,
            rw_layer_path,
            jailer_uid: cfg.jailer_uid,
            jailer_gid: cfg.jailer_gid,
            chroot_base_dir: cfg.chroot_base_dir.clone(),
            firecracker_bin: cfg.firecracker_bin.clone(),
            jailer_bin: cfg.jailer_bin.clone(),
            cloud_disk_dev: None,
        },
    )
}

/// How a microVM is, as the core knows it: one that failed is stopped.
pub open spec fn state_of(s: VmCoreState) -> VmState {
    match s {
        VmCoreState::Running => VmState::Running,
        VmCoreState::NotExist => VmState::NotExist,
        VmCoreState::Stopped => VmState::Stopped,
        VmCoreState::Failed => VmState::Stopped,
    }
}

/// How a microVM is, as the core knows it.
pub fn map_state(s: VmCoreState) -> (r: VmState)
    ensures
        r == state_of(s),
{
    match s {
        VmCoreState::Running => VmState::Running,
        VmCoreState::NotExist => VmState::NotExist,
        VmCoreState::Stopped => VmState::Stopped,
        VmCoreState::Failed => VmState::Stopped,
    }
}

/// The core's state as messages name it.
pub open spec fn core_name(s: VmCoreState) -> Seq<char> {
    match s {
        VmCoreState::NotExist => "NotExist"@,
        VmCoreState::Running => "Running"@,
        VmCoreState::Stopped => "Stopped"@,
        VmCoreState::Failed => "Failed"@,
    }
}

fn core_state_name(s: VmCoreState) -> (r: &'static str)
    ensures
        r@ == core_name(s),
{
    match s {
        VmCoreState::NotExist => "NotExist",
        VmCoreState::Running => "Running",
        VmCoreState::Stopped => "Stopped",
        VmCoreState::Failed => "Failed",
    }
}

/// A microVM that runs in a process of its own. A shim has one, and it is made
/// for the first sandbox that is asked for.
pub struct RealVm {
    pub cfg: Config,
    pub core: Option<VmCore>,
    /// How it ended, where it has.
    pub exit: Option<u32>,
}

impl RealVm {
    pub fn new(cfg: Config) -> (r: Self)
        ensures
            r.cfg@ == cfg@,
            r.core is None,
            r.exit is None,
    {
        RealVm { cfg, core: None, exit: None }
    }

    /// What to restore the microVM from. Where that is known, the microVM is
    /// there afterwards.
    pub fn create(&mut self, args: &VmCreateArgs) -> (r: Result<RestoreInputs, String>)
        ensures
            crate::model::result_view(r) == inputs_for(old(self).cfg@, args@),
            final(self).cfg@ == old(self).cfg@,
            final(self).exit == old(self).exit,
            final(self).core.deep_view() == (if r is Ok && old(self).core is None {
                Some(VmCoreView::fresh(old(self).cfg@, args.sandbox_id@))
            } else {
                old(self).core.deep_view()
            }),
    {
        let inputs = match build_restore_inputs(&self.cfg, args) {
            Ok(i) => i,
            Err(e) => {
                return Err(e);
            },
        };
        if self.core.is_none() {
            self.core = Some(VmCore::new(self.cfg.duplicate(), args.sandbox_id.clone()));
        }
        Ok(inputs)
    }

    /// The process of the microVM, where a look at it has shown that it runs.
    pub fn start(&self, alive: bool) -> (r: Result<VmRunInfo, String>)
        ensures
            match self.core.deep_view() {
                None => r matches Err(e) && e@ == "start: vm not created"@,
                Some(c) => {
                    let (state, pid) = c.liveness(alive);
                    if state == VmCoreState::Running {
                        r matches Ok(i) && i.pid == pid
                    } else {
                        r matches Err(e) && e@ == not_running(core_name(state))
                    }
                },
            },
    {
        match &self.core {
            None => Err("start: vm not created".to_owned()),
            Some(c) => {
                let (state, pid) = c.liveness(alive);
                if state != VmCoreState::Running {
                    return Err(
                        text::cat3("start: vm not running (state=", core_state_name(state), ")"),
                    );
                }
                Ok(VmRunInfo { pid })
            },
        }
    }

    /// How the microVM is and its process, where `alive` tells what a look at
    /// the process has shown.
    pub fn status(&self, alive: bool) -> (r: (VmState, u32))
        ensures
            r == (match self.core.deep_view() {
                Some(c) => (state_of(c.liveness(alive).0), c.liveness(alive).1),
                None => (VmState::NotExist, 0u32),
            }),
    {
        match &self.core {
            Some(c) => {
                let (state, pid) = c.liveness(alive);
                (map_state(state), pid)
            },
            None => (VmState::NotExist, 0),
        }
    }

    /// Ends the microVM. Returns the process to end, where there is one.
    pub fn stop(&mut self) -> (r: Option<u32>)
        ensures
            final(self).cfg@ == old(self).cfg@,
            final(self).exit == Some(0u32),
            match old(self).core.deep_view() {
                Some(c) => r == c.fc_pid && final(self).core.deep_view() == Some(
                    VmCoreView { state: VmCoreState::Stopped, ..c },
                ),
                None => r is None && final(self).core is None,
            },
    {
        self.exit = Some(0);
        match self.core.take() {
            Some(mut c) => {
                let pid: Option<u32> = c.cleanup();
                self.core = Some(c);
                pid
            },
            None => None,
        }
    }

    /// How it ended; nothing while it has not.
    pub fn wait(&self) -> (r: Option<u32>)
        ensures
            r == self.exit,
    {
        self.exit
    }
}

} // verus!
