//! Building and taking down the network of a sandbox, one command at a time.

use vstd::prelude::*;

use crate::config::{Config, ConfigView};
use crate::model::Duplicate;
use crate::net::cni::{host_veth_plan, host_veth_setup_cmds, host_veth_teardown_cmds};
use crate::net::forward::{
    guest_egress_cmds, guest_port_forward_cmds, host_egress_cmds, GuestEgress, GuestPortForward,
    HostEgress,
};
#[allow(unused_imports)]
use crate::net::forward::{GuestEgressView, GuestPortForwardView, HostEgressView};
use crate::net::{NetConfig, NetConfigView, NetError, NetErrorView};
use crate::store::StoreError;
#[allow(unused_imports)]
use crate::store::StoreErrorView;
use crate::text;
use crate::types::{IpLease, IpLeaseView};

verus! {

/// What a command is about.
#[derive(Debug, Clone, Copy, PartialEq, Eq, Structural)]
pub enum StepKind {
    /// `ip` on the host.
    Ip,
    /// `iptables` inside the namespace.
    NetnsIptables,
    /// Forwarding of packets inside the namespace.
    NetnsForward,
    /// `iptables` on the host.
    HostIptables,
    /// Forwarding of packets on the host.
    HostForward,
}

impl DeepView for StepKind {
    type V = StepKind;

    open spec fn deep_view(&self) -> StepKind {
        *self
    }
}

impl Duplicate for StepKind {
    fn duplicate(&self) -> (r: Self) {
        *self
    }
}

/// What a failure of a command means.
#[derive(Debug, Clone, Copy, PartialEq, Eq, Structural)]
pub enum OnFailure {
    /// Nothing.
    Ignore,
    /// The network cannot be built.
    Stop,
    /// The network cannot be built, and what was built is taken down.
    Undo,
}

impl DeepView for OnFailure {
    type V = OnFailure;

    open spec fn deep_view(&self) -> OnFailure {
        *self
    }
}

impl Duplicate for OnFailure {
    fn duplicate(&self) -> (r: Self) {
        *self
    }
}

/// One command on the way to a network.
#[derive(Debug, PartialEq)]
pub struct NetStep {
    pub kind: StepKind,
    pub namespace: String,
    pub args: Vec<String>,
    pub on_failure: OnFailure,
}

/// The abstract value of [`NetStep`].
#[verifier::ext_equal]
pub struct NetStepView {
    pub kind: StepKind,
    pub namespace: Seq<char>,
    pub args: Seq<Seq<char>>,
    pub on_failure: OnFailure,
}

impl DeepView for NetStep {
    type V = NetStepView;

    open spec fn deep_view(&self) -> NetStepView {
        NetStepView {
            kind: self.kind,
            namespace: self.namespace@,
            args: self.args.deep_view(),
            on_failure: self.on_failure,
        }
    }
}

impl View for NetStep {
    type V = NetStepView;

    open spec fn view(&self) -> NetStepView {
        self.deep_view()
    }
}

impl Duplicate for NetStep {
    fn duplicate(&self) -> (r: Self) {
        NetStep {
            kind: self.kind,
            namespace: self.namespace.duplicate(),
            args: self.args.duplicate(),
            on_failure: self.on_failure,
        }
    }
}

impl Clone for NetStep {
    fn clone(&self) -> (r: Self)
        ensures
            r@ == self@,
    {
        self.duplicate()
    }
}

/// Why a command did not do its work.
#[derive(Debug, PartialEq)]
pub enum RunFailure {
    /// It could not be started.
    NotRun(String),
    /// It ended with an error, and said this.
    Exit(String),
}

/// The abstract value of [`RunFailure`].
#[verifier::ext_equal]
pub enum RunFailureView {
    NotRun(Seq<char>),
    Exit(Seq<char>),
}

impl DeepView for RunFailure {
    type V = RunFailureView;

    open spec fn deep_view(&self) -> RunFailureView {
        match *self {
            RunFailure::NotRun(a) => RunFailureView::NotRun(a@),
            RunFailure::Exit(a) => RunFailureView::Exit(a@),
        }
    }
}

impl View for RunFailure {
    type V = RunFailureView;

    open spec fn view(&self) -> RunFailureView {
        self.deep_view()
    }
}

impl Duplicate for RunFailure {
    fn duplicate(&self) -> (r: Self) {
        match self {
            RunFailure::NotRun(a) => RunFailure::NotRun(a.duplicate()),
            RunFailure::Exit(a) => RunFailure::Exit(a.duplicate()),
        }
    }
}

impl Clone for RunFailure {
    fn clone(&self) -> (r: Self)
        ensures
            r@ == self@,
    {
        self.duplicate()
    }
}

/// All the commands for a network.
#[derive(Debug, PartialEq)]
pub struct SetupPlan {
    pub steps: Vec<NetStep>,
    /// The commands that take down what the steps have built.
    pub undo: Vec<NetStep>,
    /// The address to give back.
    pub lease: IpLease,
    /// What is returned once the steps are done.
    pub result: Result<NetConfig, NetError>,
}

/// The abstract value of [`SetupPlan`].
#[verifier::ext_equal]
pub struct SetupPlanView {
    pub steps: Seq<NetStepView>,
    pub undo: Seq<NetStepView>,
    pub lease: IpLeaseView,
    pub result: Result<NetConfigView, NetErrorView>,
}

impl DeepView for SetupPlan {
    type V = SetupPlanView;

    open spec fn deep_view(&self) -> SetupPlanView {
        SetupPlanView {
            steps: self.steps.deep_view(),
            undo: self.undo.deep_view(),
            lease: self.lease.deep_view(),
            result: crate::model::result_view(self.result),
        }
    }
}

impl View for SetupPlan {
    type V = SetupPlanView;

    open spec fn view(&self) -> SetupPlanView {
        self.deep_view()
    }
}

impl Duplicate for SetupPlan {
    fn duplicate(&self) -> (r: Self) {
        SetupPlan {
            steps: self.steps.duplicate(),
            undo: self.undo.duplicate(),
            lease: self.lease.duplicate(),
            result: crate::model::duplicate_result(&self.result),
        }
    }
}

impl Clone for SetupPlan {
    fn clone(&self) -> (r: Self)
        ensures
            r@ == self@,
    {
        self.duplicate()
    }
}

/// The next thing to do on the way to a network.
#[derive(Debug, PartialEq)]
pub enum SetupAction {
    /// Run a command.
    Run(NetStep),
    /// Give an address back.
    Release(IpLease),
    /// Return.
    Finish(Result<NetConfig, NetError>),
}

/// The abstract value of [`SetupAction`].
#[verifier::ext_equal]
pub enum SetupActionView {
    Run(NetStepView),
    Release(IpLeaseView),
    Finish(Result<NetConfigView, NetErrorView>),
}

impl DeepView for SetupAction {
    type V = SetupActionView;

    open spec fn deep_view(&self) -> SetupActionView {
        match *self {
            SetupAction::Run(a) => SetupActionView::Run(a.deep_view()),
            SetupAction::Release(a) => SetupActionView::Release(a.deep_view()),
            SetupAction::Finish(a) => SetupActionView::Finish(crate::model::result_view(a)),
        }
    }
}

impl View for SetupAction {
    type V = SetupActionView;

    open spec fn view(&self) -> SetupActionView {
        self.deep_view()
    }
}

impl Duplicate for SetupAction {
    fn duplicate(&self) -> (r: Self) {
        match self {
            SetupAction::Run(a) => SetupAction::Run(a.duplicate()),
            SetupAction::Release(a) => SetupAction::Release(a.duplicate()),
            SetupAction::Finish(a) => SetupAction::Finish(crate::model::duplicate_result(a)),
        }
    }
}

impl Clone for SetupAction {
    fn clone(&self) -> (r: Self)
        ensures
            r@ == self@,
    {
        self.duplicate()
    }
}

/// How far the building of a network has come.
#[derive(Debug, PartialEq)]
pub enum SetupPhase {
    /// This many steps were started.
    Forward(usize),
    /// A step failed with this error; this many commands of the way back were started.
    Undoing(usize, NetError),
    /// The address was given back after this error.
    Released(NetError),
}

/// The abstract value of [`SetupPhase`].
#[verifier::ext_equal]
pub enum SetupPhaseView {
    Forward(usize),
    Undoing(usize, NetErrorView),
    Released(NetErrorView),
}

impl DeepView for SetupPhase {
    type V = SetupPhaseView;

    open spec fn deep_view(&self) -> SetupPhaseView {
        match *self {
            SetupPhase::Forward(a) => SetupPhaseView::Forward(a),
            SetupPhase::Undoing(a, b) => SetupPhaseView::Undoing(a, b.deep_view()),
            SetupPhase::Released(a) => SetupPhaseView::Released(a.deep_view()),
        }
    }
}

impl View for SetupPhase {
    type V = SetupPhaseView;

    open spec fn view(&self) -> SetupPhaseView {
        self.deep_view()
    }
}

impl Duplicate for SetupPhase {
    fn duplicate(&self) -> (r: Self) {
        match self {
            SetupPhase::Forward(a) => SetupPhase::Forward(*a),
            SetupPhase::Undoing(a, b) => SetupPhase::Undoing(*a, b.duplicate()),
            SetupPhase::Released(a) => SetupPhase::Released(a.duplicate()),
        }
    }
}

impl Clone for SetupPhase {
    fn clone(&self) -> (r: Self)
        ensures
            r@ == self@,
    {
        self.duplicate()
    }
}

/// A network in the making.
#[derive(Debug, PartialEq)]
pub struct NetSetup {
    pub plan: SetupPlan,
    pub phase: SetupPhase,
}

/// The abstract value of [`NetSetup`].
#[verifier::ext_equal]
pub struct NetSetupView {
    pub plan: SetupPlanView,
    pub phase: SetupPhaseView,
}

impl DeepView for NetSetup {
    type V = NetSetupView;

    open spec fn deep_view(&self) -> NetSetupView {
        NetSetupView {
            plan: self.plan.deep_view(),
            phase: self.phase.deep_view(),
        }
    }
}

impl View for NetSetup {
    type V = NetSetupView;

    open spec fn view(&self) -> NetSetupView {
        self.deep_view()
    }
}

impl Duplicate for NetSetup {
    fn duplicate(&self) -> (r: Self) {
        NetSetup {
            plan: self.plan.duplicate(),
            phase: self.phase.duplicate(),
        }
    }
}

impl Clone for NetSetup {
    fn clone(&self) -> (r: Self)
        ensures
            r@ == self@,
    {
        self.duplicate()
    }
}

/// The standard library's `Debug` rendering of a list of strings, by name.
pub uninterp spec fn debug_text(args: Seq<Seq<char>>) -> Seq<char>;

/// `format!` with `{:?}` on a list of strings. The result depends on the
/// strings alone.
#[verifier::external_body]
fn debug_string(args: &Vec<String>) -> (s: String)
    ensures
        s@ == debug_text(args.deep_view()),
{
    format!("{args:?}")
}

/// Adds the strings of `tail` behind those of `head`.
fn extended(head: Vec<String>, tail: &Vec<String>) -> (r: Vec<String>)
    ensures
        r.deep_view() == head.deep_view() + tail.deep_view(),
{
    let mut r = head;
    let ghost h = r.deep_view();
    let mut i: usize = 0;
    assert(h + tail.deep_view().take(0) =~= h);
    while i < tail.len()
        invariant
            i <= tail@.len(),
            r.deep_view() == h + tail.deep_view().take(i as int),
        decreases tail@.len() - i,
    {
        let ghost before = r.deep_view();
        r.push(tail[i].clone());
        proof {
            assert(r.deep_view() =~= before.push(tail@[i as int]@));
            assert(h + tail.deep_view().take(i + 1) =~= before.push(tail.deep_view()[i as int]));
        }
        i = i + 1;
    }
    assert(tail.deep_view().take(i as int) =~= tail.deep_view());
    r
}

impl NetStepView {
    /// The program that the command starts.
    pub open spec fn program(self) -> Seq<char> {
        match self.kind {
            StepKind::HostIptables => "iptables"@,
            StepKind::HostForward => "sysctl"@,
            _ => "ip"@,
        }
    }

    /// The words behind the program.
    pub open spec fn words(self) -> Seq<Seq<char>> {
        match self.kind {
            StepKind::Ip => self.args,
            StepKind::NetnsIptables => seq![
                "netns"@,
                "exec"@,
                self.namespace,
                "iptables"@,
                "-w"@,
                "5"@,
            ] + self.args,
            StepKind::NetnsForward => seq![
                "netns"@,
                "exec"@,
                self.namespace,
                "sysctl"@,
                "-w"@,
                "net.ipv4.ip_forward=1"@,
            ],
            StepKind::HostIptables => seq!["-w"@, "5"@] + self.args,
            StepKind::HostForward => seq!["-w"@, "net.ipv4.ip_forward=1"@],
        }
    }

    /// The error that a failure of the command stands for.
    pub open spec fn error(self, f: RunFailureView) -> NetErrorView {
        NetErrorView::Other(
            match (self.kind, f) {
                (StepKind::Ip, RunFailureView::NotRun(e)) => "ip "@ + text::join(self.args, " "@)
                    + ": "@ + e,
                (StepKind::Ip, RunFailureView::Exit(e)) => "ip "@ + text::join(self.args, " "@)
                    + " failed: "@ + e,
                (StepKind::NetnsIptables, RunFailureView::NotRun(e)) => "netns iptables: "@ + e,
                (StepKind::NetnsIptables, RunFailureView::Exit(e)) => "netns iptables "@
                    + debug_text(self.args) + " failed: "@ + e,
                (StepKind::NetnsForward, RunFailureView::NotRun(e)) => "netns sysctl: "@ + e,
                (StepKind::NetnsForward, RunFailureView::Exit(e)) => "netns ip_forward failed: "@
                    + e,
                (StepKind::HostIptables, RunFailureView::NotRun(e)) => "iptables: "@ + e,
                (StepKind::HostIptables, RunFailureView::Exit(e)) => "iptables "@ + debug_text(
                    self.args,
                ) + " failed: "@ + e,
                (StepKind::HostForward, RunFailureView::NotRun(e)) => e,
                (StepKind::HostForward, RunFailureView::Exit(e)) => e,
            },
        )
    }
}

impl NetStep {
    /// The program that the command starts.
    pub fn program(&self) -> (r: &str)
        ensures
            r@ == self@.program(),
    {
        match self.kind {
            StepKind::HostIptables => "iptables",
            StepKind::HostForward => "sysctl",
            _ => "ip",
        }
    }

    /// The words behind the program.
    pub fn words(&self) -> (r: Vec<String>)
        ensures
            r.deep_view() == self@.words(),
    {
        match self.kind {
            StepKind::Ip => self.args.duplicate(),
            StepKind::NetnsIptables => {
                let head = vec![
                    "netns".to_owned(),
                    "exec".to_owned(),
                    self.namespace.clone(),
                    "iptables".to_owned(),
                    "-w".to_owned(),
                    "5".to_owned(),
                ];
                let r = extended(head, &self.args);
                assert(r.deep_view() =~= self@.words());
                r
            },
            StepKind::NetnsForward => {
                let r = vec![
                    "netns".to_owned(),
                    "exec".to_owned(),
                    self.namespace.clone(),
                    "sysctl".to_owned(),
                    "-w".to_owned(),
                    "net.ipv4.ip_forward=1".to_owned(),
                ];
                assert(r.deep_view() =~= self@.words());
                r
            },
            StepKind::HostIptables => {
                let head = vec!["-w".to_owned(), "5".to_owned()];
                let r = extended(head, &self.args);
                assert(r.deep_view() =~= self@.words());
                r
            },
            StepKind::HostForward => {
                let r = vec!["-w".to_owned(), "net.ipv4.ip_forward=1".to_owned()];
                assert(r.deep_view() =~= self@.words());
                r
            },
        }
    }

    /// The error that a failure of the command stands for.
    pub fn error(&self, f: &RunFailure) -> (e: NetError)
        ensures
            e@ == self@.error(f@),
    {
        let s = match (self.kind, f) {
            (StepKind::Ip, RunFailure::NotRun(e)) => text::cat4(
                "ip ",
                text::joined(&self.args, " ").as_str(),
                ": ",
                e.as_str(),
            ),
            (StepKind::Ip, RunFailure::Exit(e)) => text::cat4(
                "ip ",
                text::joined(&self.args, " ").as_str(),
                " failed: ",
                e.as_str(),
            ),
            (StepKind::NetnsIptables, RunFailure::NotRun(e)) => text::cat2(
                "netns iptables: ",
                e.as_str(),
            ),
            (StepKind::NetnsIptables, RunFailure::Exit(e)) => text::cat4(
                "netns iptables ",
                debug_string(&self.args).as_str(),
                " failed: ",
                e.as_str(),
            ),
            (StepKind::NetnsForward, RunFailure::NotRun(e)) => text::cat2(
                "netns sysctl: ",
                e.as_str(),
            ),
            (StepKind::NetnsForward, RunFailure::Exit(e)) => text::cat2(
                "netns ip_forward failed: ",
                e.as_str(),
            ),
            (StepKind::HostIptables, RunFailure::NotRun(e)) => text::cat2("iptables: ", e.as_str()),
            (StepKind::HostIptables, RunFailure::Exit(e)) => text::cat4(
                "iptables ",
                debug_string(&self.args).as_str(),
                " failed: ",
                e.as_str(),
            ),
            (StepKind::HostForward, RunFailure::NotRun(e)) => e.clone(),
            (StepKind::HostForward, RunFailure::Exit(e)) => e.clone(),
        };
        NetError::Other(s)
    }
}

/// A command for each list of words.
pub open spec fn steps_of(
    kind: StepKind,
    namespace: Seq<char>,
    words: Seq<Seq<Seq<char>>>,
    on_failure: OnFailure,
) -> Seq<NetStepView> {
    Seq::new(words.len(), |i: int| NetStepView { kind, namespace, args: words[i], on_failure })
}

/// Adds a command for each list of words.
fn push_steps(
    steps: &mut Vec<NetStep>,
    kind: StepKind,
    namespace: &str,
    words: &Vec<Vec<String>>,
    on_failure: OnFailure,
)
    ensures
        final(steps).deep_view() == old(steps).deep_view() + steps_of(
            kind,
            namespace@,
            words.deep_view(),
            on_failure,
        ),
{
    let ghost s0 = steps.deep_view();
    let ghost all = steps_of(kind, namespace@, words.deep_view(), on_failure);
    let mut i: usize = 0;
    assert(s0 + all.take(0) =~= s0);
    while i < words.len()
        invariant
            i <= words@.len(),
            all == steps_of(kind, namespace@, words.deep_view(), on_failure),
            steps.deep_view() == s0 + all.take(i as int),
        decreases words@.len() - i,
    {
        let ghost before = steps.deep_view();
        let step = NetStep {
            kind,
            namespace: namespace.to_owned(),
            args: words[i].duplicate(),
            on_failure,
        };
        let ghost v = step@;
        steps.push(step);
        proof {
            assert(steps.deep_view() =~= before.push(v));
            assert(v == all[i as int]);
            assert(s0 + all.take(i + 1) =~= before.push(all[i as int]));
        }
        i = i + 1;
    }
    assert(all.take(i as int) =~= all);
}

/// The network of the guest behind a gateway: for a block of four addresses,
/// written from its first address.
pub open spec fn guest_network(gateway: Seq<char>, prefix: u8) -> Seq<char> {
    let parts = text::split(gateway, '.');
    let whole = gateway + "/"@ + text::dec(prefix as nat);
    if prefix == 30 && parts.len() == 4 {
        match text::parse_dec(parts[3], 255) {
            Some(last) => parts[0] + "."@ + parts[1] + "."@ + parts[2] + "."@ + text::dec(
                (last - last % 4) as nat,
            ) + "/"@ + text::dec(prefix as nat),
            None => whole,
        }
    } else {
        whole
    }
}

/// The network of the guest behind a gateway.
pub fn guest_cidr(gateway: &str, prefix: u8) -> (r: String)
    ensures
        r@ == guest_network(gateway@, prefix),
{
    let parts = text::split_on(gateway, '.');
    let p = text::dec_string(prefix as u64);
    assert(parts.deep_view().len() == parts@.len());
    if prefix == 30 && parts.len() == 4 {
        assert(parts.deep_view()[0] == parts@[0]@);
        assert(parts.deep_view()[1] == parts@[1]@);
        assert(parts.deep_view()[2] == parts@[2]@);
        assert(parts.deep_view()[3] == parts@[3]@);
        if let Some(last) = text::parse_number(parts[3].as_str(), 255) {
            let head = text::cat6(
                parts[0].as_str(),
                ".",
                parts[1].as_str(),
                ".",
                parts[2].as_str(),
                ".",
            );
            return text::cat4(
                head.as_str(),
                text::dec_string(last - last % 4).as_str(),
                "/",
                p.as_str(),
            );
        }
    }
    text::cat3(gateway, "/", p.as_str())
}

/// The commands that make the namespace and its tap device.
pub open spec fn tap_up(c: ConfigView, id: Seq<char>) -> Seq<NetStepView> {
    let ns = c.netns_name(id);
    let tap = c.net.tap_name;
    let addr = c.net.tap_gateway + "/"@ + text::dec(c.net.tap_prefix as nat);
    steps_of(StepKind::Ip, ns, seq![seq!["netns"@, "add"@, ns]], OnFailure::Ignore) + steps_of(
        StepKind::Ip,
        ns,
        seq![
            seq![
                "netns"@,
                "exec"@,
                ns,
                "ip"@,
                "tuntap"@,
                "add"@,
                "dev"@,
                tap,
                "mode"@,
                "tap"@,
            ],
            seq!["netns"@, "exec"@, ns, "ip"@, "addr"@, "add"@, addr, "dev"@, tap],
            seq!["netns"@, "exec"@, ns, "ip"@, "link"@, "set"@, tap, "up"@],
        ],
        OnFailure::Stop,
    )
}

/// The commands that build the link to the host.
pub open spec fn veth_up(plan: crate::net::cni::HostVethPlanView) -> Seq<NetStepView> {
    steps_of(StepKind::Ip, plan.netns_name, crate::net::cni::link_up(plan), OnFailure::Undo)
}

/// The commands that take everything down after the link could not be built.
pub open spec fn veth_undo(plan: crate::net::cni::HostVethPlanView) -> Seq<NetStepView> {
    steps_of(
        StepKind::Ip,
        plan.netns_name,
        crate::net::cni::link_down(plan.host_veth, plan.pod_ip).push(
            seq!["netns"@, "del"@, plan.netns_name],
        ),
        OnFailure::Ignore,
    )
}

/// The commands that lead the agent's port to the guest.
pub open spec fn forward_up(c: ConfigView, id: Seq<char>, ip: Seq<char>) -> Seq<NetStepView> {
    steps_of(
        StepKind::NetnsIptables,
        c.netns_name(id),
        crate::net::forward::port_forward_rules(
            GuestPortForwardView {
                pod_ip: ip,
                guest_ip: c.net.guest_ip,
                port: c.net.guest_agent_port,
            },
        ),
        OnFailure::Stop,
    )
}

/// The commands that let the guest out.
pub open spec fn egress_up(c: ConfigView, id: Seq<char>) -> Seq<NetStepView> {
    let ns = c.netns_name(id);
    steps_of(StepKind::NetnsForward, ns, seq![seq![]], OnFailure::Stop) + steps_of(
        StepKind::NetnsIptables,
        ns,
        crate::net::forward::guest_egress_rules(
            GuestEgressView {
                guest_cidr: guest_network(c.net.tap_gateway, c.net.tap_prefix),
                tap_name: c.net.tap_name,
            },
        ),
        OnFailure::Stop,
    ) + steps_of(
        StepKind::HostIptables,
        ns,
        crate::net::forward::host_egress_rules(HostEgressView { pod_cidr: c.net.pod_cidr }),
        OnFailure::Ignore,
    ) + steps_of(StepKind::HostForward, ns, seq![seq![]], OnFailure::Ignore)
}

/// The network that the commands build around a leased address.
pub open spec fn built(
    c: ConfigView,
    id: Seq<char>,
    lease: IpLeaseView,
    host_veth: Seq<char>,
) -> NetConfigView {
    NetConfigView {
        netns_path: c.netns_path(id),
        tap_name: c.net.tap_name,
        mac: c.net.guest_mac,
        pod_ip: lease.ip,
        gateway: c.net.pod_gateway,
        lease: IpLeaseView { sandbox_id: id, ..lease },
        host_veth,
    }
}

/// The plan for the network of a sandbox that holds `lease`: the tap device,
/// then the link where it is enabled, then the agent's port, then the way out
/// where it is enabled.
pub open spec fn plan_for(c: ConfigView, id: Seq<char>, lease: IpLeaseView) -> SetupPlanView {
    let ns = c.netns_name(id);
    let tail = forward_up(c, id, lease.ip) + (if c.net.enable_guest_egress {
        egress_up(c, id)
    } else {
        seq![]
    });
    let held = IpLeaseView { sandbox_id: id, ..lease };
    if !c.net.enable_host_veth {
        SetupPlanView {
            steps: tap_up(c, id) + tail,
            undo: seq![],
            lease: held,
            result: Ok(built(c, id, lease, ""@)),
        }
    } else {
        match crate::net::cni::prefix_of(c.net.pod_cidr) {
            Ok(prefix) => {
                let link = crate::net::cni::link_plan(
                    id,
                    ns,
                    lease.ip,
                    c.net.pod_iface,
                    c.net.pod_gateway,
                    prefix,
                );
                SetupPlanView {
                    steps: tap_up(c, id) + veth_up(link) + tail,
                    undo: veth_undo(link),
                    lease: held,
                    result: Ok(built(c, id, lease, link.host_veth)),
                }
            },
            Err(e) => SetupPlanView {
                steps: tap_up(c, id),
                undo: seq![],
                lease: held,
                result: Err(NetErrorView::Other(e)),
            },
        }
    }
}

/// The plan where no address could be leased: none of the commands is run.
pub open spec fn plan_without_lease(e: StoreErrorView) -> SetupPlanView {
    SetupPlanView {
        steps: seq![],
        undo: seq![],
        lease: IpLeaseView { ip: ""@, cidr: ""@, sandbox_id: ""@ },
        result: Err(NetErrorView::Other(e.text())),
    }
}

/// The networks of a node.
pub struct NetManager {
    pub cfg: Config,
}

impl NetManager {
    pub fn new(cfg: Config) -> (r: Self)
        ensures
            r.cfg@ == cfg@,
    {
        NetManager { cfg }
    }

    /// The block that the address of a sandbox is leased from.
    pub fn lease_from(&self) -> (r: &str)
        ensures
            r@ == self.cfg@.net.pod_cidr,
    {
        self.cfg.net.pod_cidr.as_str()
    }

    fn push_tap(&self, sandbox_id: &str, steps: &mut Vec<NetStep>)
        ensures
            final(steps).deep_view() == old(steps).deep_view() + tap_up(self.cfg@, sandbox_id@),
    {
        let ghost s0 = steps.deep_view();
        let ns = self.cfg.netns_name(sandbox_id);
        let tap = &self.cfg.net.tap_name;
        let addr = text::cat3(
            self.cfg.net.tap_gateway.as_str(),
            "/",
            text::dec_string(self.cfg.net.tap_prefix as u64).as_str(),
        );
        let first = vec![vec!["netns".to_owned(), "add".to_owned(), ns.clone()]];
        let rest = vec![
            vec![
                "netns".to_owned(),
                "exec".to_owned(),
                ns.clone(),
                "ip".to_owned(),
                "tuntap".to_owned(),
                "add".to_owned(),
                "dev".to_owned(),
                tap.clone(),
                "mode".to_owned(),
                "tap".to_owned(),
            ],
            vec![
                "netns".to_owned(),
                "exec".to_owned(),
                ns.clone(),
                "ip".to_owned(),
                "addr".to_owned(),
                "add".to_owned(),
                addr.clone(),
                "dev".to_owned(),
                tap.clone(),
            ],
            vec![
                "netns".to_owned(),
                "exec".to_owned(),
                ns.clone(),
                "ip".to_owned(),
                "link".to_owned(),
                "set".to_owned(),
                tap.clone(),
                "up".to_owned(),
            ],
        ];
        proof {
            assert(first.deep_view() =~~= seq![seq!["netns"@, "add"@, ns@]]);
            assert(rest.deep_view() =~~= seq![
                seq![
                    "netns"@,
                    "exec"@,
                    ns@,
                    "ip"@,
                    "tuntap"@,
                    "add"@,
                    "dev"@,
                    tap@,
                    "mode"@,
                    "tap"@,
                ],
                seq!["netns"@, "exec"@, ns@, "ip"@, "addr"@, "add"@, addr@, "dev"@, tap@],
                seq!["netns"@, "exec"@, ns@, "ip"@, "link"@, "set"@, tap@, "up"@],
            ]);
        }
        push_steps(steps, StepKind::Ip, ns.as_str(), &first, OnFailure::Ignore);
        push_steps(steps, StepKind::Ip, ns.as_str(), &rest, OnFailure::Stop);
        assert(steps.deep_view() =~= s0 + tap_up(self.cfg@, sandbox_id@));
    }

    fn push_forward(&self, sandbox_id: &str, ip: &str, steps: &mut Vec<NetStep>)
        ensures
            final(steps).deep_view() == old(steps).deep_view() + forward_up(
                self.cfg@,
                sandbox_id@,
                ip@,
            ),
    {
        let ns = self.cfg.netns_name(sandbox_id);
        let fwd = GuestPortForward {
            pod_ip: ip.to_owned(),
            guest_ip: self.cfg.net.guest_ip.clone(),
            port: self.cfg.net.guest_agent_port,
        };
        let words = guest_port_forward_cmds(&fwd);
        push_steps(steps, StepKind::NetnsIptables, ns.as_str(), &words, OnFailure::Stop);
    }

    fn push_egress(&self, sandbox_id: &str, steps: &mut Vec<NetStep>)
        ensures
            final(steps).deep_view() == old(steps).deep_view() + egress_up(self.cfg@, sandbox_id@),
    {
        let ghost s0 = steps.deep_view();
        let ns = self.cfg.netns_name(sandbox_id);
        let none: Vec<Vec<String>> = vec![Vec::new()];
        assert(none.deep_view() =~~= seq![seq![]]);
        let guest = GuestEgress {
            guest_cidr: guest_cidr(self.cfg.net.tap_gateway.as_str(), self.cfg.net.tap_prefix),
            tap_name: self.cfg.net.tap_name.clone(),
        };
        let host = HostEgress { pod_cidr: self.cfg.net.pod_cidr.clone() };
        let out = guest_egress_cmds(&guest);
        let up = host_egress_cmds(&host);
        push_steps(steps, StepKind::NetnsForward, ns.as_str(), &none, OnFailure::Stop);
        push_steps(steps, StepKind::NetnsIptables, ns.as_str(), &out, OnFailure::Stop);
        push_steps(steps, StepKind::HostIptables, ns.as_str(), &up, OnFailure::Ignore);
        push_steps(steps, StepKind::HostForward, ns.as_str(), &none, OnFailure::Ignore);
        assert(steps.deep_view() =~= s0 + egress_up(self.cfg@, sandbox_id@));
    }

    fn network(&self, sandbox_id: &str, lease: &IpLease, host_veth: String) -> (r: NetConfig)
        ensures
            r@ == built(self.cfg@, sandbox_id@, lease@, host_veth@),
    {
        NetConfig {
            netns_path: self.cfg.netns_path(sandbox_id),
            tap_name: self.cfg.net.tap_name.clone(),
            mac: self.cfg.net.guest_mac.clone(),
            pod_ip: lease.ip.clone(),
            gateway: self.cfg.net.pod_gateway.clone(),
            lease: IpLease {
                ip: lease.ip.clone(),
                cidr: lease.cidr.clone(),
                sandbox_id: sandbox_id.to_owned(),
            },
            host_veth,
        }
    }

    /// All the commands for the network of a sandbox, once an address of
    /// [`NetManager::lease_from`] was asked for.
    pub fn setup(&self, sandbox_id: &str, leased: Result<IpLease, StoreError>) -> (r: NetSetup)
        ensures
            r@.phase == SetupPhaseView::Forward(0),
            r@.plan == (match leased {
                Ok(lease) => plan_for(self.cfg@, sandbox_id@, lease@),
                Err(e) => plan_without_lease(e@),
            }),
    {
        let lease = match leased {
            Ok(l) => l,
            Err(e) => {
                let plan = SetupPlan {
                    steps: Vec::new(),
                    undo: Vec::new(),
                    lease: IpLease {
                        ip: "".to_owned(),
                        cidr: "".to_owned(),
                        sandbox_id: "".to_owned(),
                    },
                    result: Err(NetError::Other(e.message())),
                };
                assert(plan@ =~= plan_without_lease(e@));
                return NetSetup { plan, phase: SetupPhase::Forward(0) };
            },
        };
        let ghost c = self.cfg@;
        let ns = self.cfg.netns_name(sandbox_id);
        let held = IpLease {
            ip: lease.ip.clone(),
            cidr: lease.cidr.clone(),
            sandbox_id: sandbox_id.to_owned(),
        };
        let mut steps: Vec<NetStep> = Vec::new();
        let mut undo: Vec<NetStep> = Vec::new();
        let mut host_veth = "".to_owned();
        assert(steps.deep_view() =~= seq![]);
        assert(undo.deep_view() =~= seq![]);
        self.push_tap(sandbox_id, &mut steps);
        assert(steps.deep_view() =~= tap_up(c, sandbox_id@));
        if self.cfg.net.enable_host_veth {
            let link = match host_veth_plan(
                sandbox_id,
                ns.as_str(),
                lease.ip.as_str(),
                self.cfg.net.pod_cidr.as_str(),
                self.cfg.net.pod_iface.as_str(),
                self.cfg.net.pod_gateway.as_str(),
            ) {
                Ok(p) => p,
                Err(e) => {
                    let plan = SetupPlan {
                        steps,
                        undo,
                        lease: held,
                        result: Err(NetError::Other(e)),
                    };
                    assert(plan@ =~= plan_for(c, sandbox_id@, lease@));
                    return NetSetup { plan, phase: SetupPhase::Forward(0) };
                },
            };
            let up = host_veth_setup_cmds(&link);
            push_steps(&mut steps, StepKind::Ip, ns.as_str(), &up, OnFailure::Undo);
            let mut down = host_veth_teardown_cmds(link.host_veth.as_str(), link.pod_ip.as_str());
            let ghost d0 = down.deep_view();
            let del = vec!["netns".to_owned(), "del".to_owned(), ns.clone()];
            assert(del.deep_view() =~= seq!["netns"@, "del"@, ns@]);
            down.push(del);
            assert(down.deep_view() =~= d0.push(seq!["netns"@, "del"@, ns@]));
            push_steps(&mut undo, StepKind::Ip, ns.as_str(), &down, OnFailure::Ignore);
            assert(undo.deep_view() =~= veth_undo(link@));
            host_veth = link.host_veth;
        }
        let ghost s1 = steps.deep_view();
        self.push_forward(sandbox_id, lease.ip.as_str(), &mut steps);
        if self.cfg.net.enable_guest_egress {
            self.push_egress(sandbox_id, &mut steps);
        }
        let result = Ok(self.network(sandbox_id, &lease, host_veth));
        let plan = SetupPlan { steps, undo, lease: held, result };
        assert(plan@.steps =~= plan_for(c, sandbox_id@, lease@).steps);
        assert(plan@ =~= plan_for(c, sandbox_id@, lease@));
        NetSetup { plan, phase: SetupPhase::Forward(0) }
    }
}

impl NetSetupView {
    /// The next thing to do once the last command has ended, with the failure
    /// it ended in, if any.
    pub open spec fn next(self, failure: Option<RunFailureView>) -> (NetSetupView, SetupActionView) {
        match self.phase {
            SetupPhaseView::Forward(at) => {
                let failed = if 0 < at <= self.plan.steps.len() && failure is Some {
                    self.plan.steps[at - 1].on_failure
                } else {
                    OnFailure::Ignore
                };
                match failed {
                    OnFailure::Stop => (
                        self,
                        SetupActionView::Finish(
                            Err(self.plan.steps[at - 1].error(failure.unwrap())),
                        ),
                    ),
                    OnFailure::Undo => NetSetupView {
                        phase: SetupPhaseView::Undoing(
                            0,
                            self.plan.steps[at - 1].error(failure.unwrap()),
                        ),
                        ..self
                    }.undo_next(),
                    OnFailure::Ignore => if at < self.plan.steps.len() {
                        (
                            NetSetupView {
                                phase: SetupPhaseView::Forward((at + 1) as usize),
                                ..self
                            },
                            SetupActionView::Run(self.plan.steps[at as int]),
                        )
                    } else {
                        (self, SetupActionView::Finish(self.plan.result))
                    },
                }
            },
            SetupPhaseView::Undoing(at, e) => self.undo_next(),
            SetupPhaseView::Released(e) => (self, SetupActionView::Finish(Err(e))),
        }
    }

    /// The next thing to do on the way back: the commands that take things
    /// down, whether or not they fail, and then the address.
    pub open spec fn undo_next(self) -> (NetSetupView, SetupActionView) {
        match self.phase {
            SetupPhaseView::Undoing(at, e) => if at < self.plan.undo.len() {
                (
                    NetSetupView {
                        phase: SetupPhaseView::Undoing((at + 1) as usize, e),
                        ..self
                    },
                    SetupActionView::Run(self.plan.undo[at as int]),
                )
            } else {
                (
                    NetSetupView { phase: SetupPhaseView::Released(e), ..self },
                    SetupActionView::Release(self.plan.lease),
                )
            },
            _ => (self, SetupActionView::Finish(self.plan.result)),
        }
    }
}

impl NetSetup {
    /// The next thing to do once the last command has ended, with the failure
    /// it ended in, if any.
    pub fn next(&mut self, failure: Option<RunFailure>) -> (a: SetupAction)
        ensures
            (final(self)@, a@) == old(self)@.next(failure.deep_view()),
    {
        let mut error: Option<NetError> = None;
        match &self.phase {
            SetupPhase::Forward(at) => {
                let at: usize = *at;
                if 0 < at && at <= self.plan.steps.len() {
                    if let Some(f) = &failure {
                        let step = &self.plan.steps[at - 1];
                        match step.on_failure {
                            OnFailure::Ignore => {},
                            OnFailure::Stop => {
                                return SetupAction::Finish(Err(step.error(f)));
                            },
                            OnFailure::Undo => {
                                error = Some(step.error(f));
                            },
                        }
                    }
                }
                match error {
                    None => {
                        if at < self.plan.steps.len() {
                            let step = self.plan.steps[at].duplicate();
                            self.phase = SetupPhase::Forward(at + 1);
                            return SetupAction::Run(step);
                        }
                        return SetupAction::Finish(
                            crate::model::duplicate_result(&self.plan.result),
                        );
                    },
                    Some(e) => {
                        self.phase = SetupPhase::Undoing(0, e);
                    },
                }
            },
            SetupPhase::Undoing(_, _) => {},
            SetupPhase::Released(e) => {
                return SetupAction::Finish(Err(e.duplicate()));
            },
        }
        self.undo_next()
    }

    fn undo_next(&mut self) -> (a: SetupAction)
        ensures
            (final(self)@, a@) == old(self)@.undo_next(),
    {
        match &self.phase {
            SetupPhase::Undoing(at, e) => {
                let at: usize = *at;
                let e = e.duplicate();
                if at < self.plan.undo.len() {
                    let step = self.plan.undo[at].duplicate();
                    self.phase = SetupPhase::Undoing(at + 1, e);
                    SetupAction::Run(step)
                } else {
                    let lease = self.plan.lease.duplicate();
                    self.phase = SetupPhase::Released(e);
                    SetupAction::Release(lease)
                }
            },
            _ => SetupAction::Finish(crate::model::duplicate_result(&self.plan.result)),
        }
    }
}

/// The commands that take a network down.
pub open spec fn tear_down(net: NetConfigView) -> Seq<NetStepView> {
    let ns = text::after_last(net.netns_path, '/');
    let link = if net.host_veth.len() == 0 {
        seq![]
    } else {
        crate::net::cni::link_down(net.host_veth, net.pod_ip)
    };
    steps_of(StepKind::Ip, ns, link.push(seq!["netns"@, "del"@, ns]), OnFailure::Ignore)
}

/// The commands that take a network down. They are all run, whether or not
/// they fail; then its lease is given back.
pub fn teardown(net: &NetConfig) -> (r: Vec<NetStep>)
    ensures
        r.deep_view() == tear_down(net@),
{
    let path = text::chars_of(net.netns_path.as_str());
    let n: usize = path.len();
    let ns = match text::last_place(net.netns_path.as_str(), '/') {
        Some(i) => {
            let t = text::string_of(&path, i + 1, n);
            assert(t@ =~= net@.netns_path.skip(i + 1));
            t
        },
        None => net.netns_path.clone(),
    };
    let mut words: Vec<Vec<String>> = if text::is_empty(net.host_veth.as_str()) {
        Vec::new()
    } else {
        host_veth_teardown_cmds(net.host_veth.as_str(), net.pod_ip.as_str())
    };
    proof {
        if net.host_veth@.len() == 0 {
            assert(words.deep_view() =~= seq![]);
        }
    }
    let ghost before = words.deep_view();
    let del = vec!["netns".to_owned(), "del".to_owned(), ns.clone()];
    assert(del.deep_view() =~= seq!["netns"@, "del"@, ns@]);
    words.push(del);
    assert(words.deep_view() =~= before.push(seq!["netns"@, "del"@, ns@]));
    let mut r: Vec<NetStep> = Vec::new();
    assert(r.deep_view() =~= seq![]);
    push_steps(&mut r, StepKind::Ip, ns.as_str(), &words, OnFailure::Ignore);
    assert(r.deep_view() =~= tear_down(net@));
    r
}

/// What taking down a network returns, once its lease was given back or not.
pub fn torn_down(released: Result<(), StoreError>) -> (r: Result<(), NetError>)
    ensures
        match released {
            Ok(_) => r is Ok,
            Err(e) => r matches Err(f) && f@ == NetErrorView::Other(e@.text()),
        },
{
    match released {
        Ok(_) => Ok(()),
        Err(e) => Err(NetError::Other(e.message())),
    }
}

impl NetSetupView {
    /// The actions that follow when the commands end one after the other as
    /// `ends` says.
    pub open spec fn trace(self, ends: Seq<Option<RunFailureView>>) -> Seq<SetupActionView>
        decreases ends.len(),
    {
        if ends.len() == 0 {
            seq![]
        } else {
            let (s, a) = self.next(ends[0]);
            seq![a] + s.trace(ends.drop_first())
        }
    }
}

/// Commands as actions.
pub open spec fn runs(steps: Seq<NetStepView>) -> Seq<SetupActionView> {
    Seq::new(steps.len(), |i: int| SetupActionView::Run(steps[i]))
}

/// Where no command fails, all the commands of the plan are run in their order,
/// and the planned result is returned.
pub proof fn setup_without_failure(s: NetSetupView, at: usize)
    requires
        s.phase == SetupPhaseView::Forward(at),
        at <= s.plan.steps.len() <= usize::MAX,
    ensures
        s.trace(Seq::new((s.plan.steps.len() - at + 1) as nat, |i: int| None)) == runs(
            s.plan.steps.skip(at as int),
        ).push(SetupActionView::Finish(s.plan.result)),
    decreases s.plan.steps.len() - at,
{
    let n = s.plan.steps.len();
    let none: spec_fn(int) -> Option<RunFailureView> = |i: int| None;
    let ends = Seq::new((n - at + 1) as nat, none);
    let (t, a) = s.next(ends[0]);
    if at < n {
        setup_without_failure(t, (at + 1) as usize);
        assert(ends.drop_first() =~= Seq::new((n - (at + 1) + 1) as nat, none));
        assert(runs(s.plan.steps.skip(at as int)).push(SetupActionView::Finish(s.plan.result))
            =~= seq![a] + runs(s.plan.steps.skip(at + 1)).push(
            SetupActionView::Finish(s.plan.result),
        ));
    } else {
        assert(t.trace(ends.drop_first()) =~= seq![]);
        assert(runs(s.plan.steps.skip(at as int)) =~= seq![]);
        assert(s.trace(ends) =~= seq![a]);
    }
}

proof fn undo_runs(s: NetSetupView, at: usize, e: NetErrorView, ends: Seq<Option<RunFailureView>>)
    requires
        s.phase == SetupPhaseView::Undoing(at, e),
        at <= s.plan.undo.len() <= usize::MAX,
        ends.len() == s.plan.undo.len() - at + 2,
    ensures
        s.trace(ends) == runs(s.plan.undo.skip(at as int)) + seq![
            SetupActionView::Release(s.plan.lease),
            SetupActionView::Finish(Err(e)),
        ],
    decreases s.plan.undo.len() - at,
{
    let (t, a) = s.next(ends[0]);
    let tail = seq![
        SetupActionView::Release(s.plan.lease),
        SetupActionView::Finish(Err::<NetConfigView, NetErrorView>(e)),
    ];
    if at < s.plan.undo.len() {
        undo_runs(t, (at + 1) as usize, e, ends.drop_first());
        assert(runs(s.plan.undo.skip(at as int)) + tail =~= seq![a] + (runs(
            s.plan.undo.skip(at + 1),
        ) + tail));
    } else {
        let (u, b) = t.next(ends[1]);
        assert(ends.drop_first()[0] == ends[1]);
        assert(u.trace(ends.drop_first().drop_first()) =~= seq![]);
        assert(t.trace(ends.drop_first()) =~= seq![b]);
        assert(runs(s.plan.undo.skip(at as int)) =~= seq![]);
        assert(s.trace(ends) =~= tail);
    }
}

/// Where a command of the link fails, every command of the way back is run,
/// whatever comes of it, the address is given back, and the error of the
/// failed command is returned.
pub proof fn setup_undoes_link(
    s: NetSetupView,
    at: usize,
    f: RunFailureView,
    ends: Seq<Option<RunFailureView>>,
)
    requires
        s.phase == SetupPhaseView::Forward(at),
        0 < at <= s.plan.steps.len(),
        s.plan.steps[at - 1].on_failure == OnFailure::Undo,
        s.plan.undo.len() <= usize::MAX,
        ends.len() == s.plan.undo.len() + 1,
    ensures
        s.trace(seq![Some(f)] + ends) == runs(s.plan.undo) + seq![
            SetupActionView::Release(s.plan.lease),
            SetupActionView::Finish(Err(s.plan.steps[at - 1].error(f))),
        ],
{
    let e = s.plan.steps[at - 1].error(f);
    let u = NetSetupView { phase: SetupPhaseView::Undoing(0, e), ..s };
    let all = seq![Some(f)] + ends;
    undo_runs(u, 0, e, all);
    assert(s.plan.undo.skip(0) =~= s.plan.undo);
    assert(s.next(all[0]) == u.next(all[0]));
}

/// A failed command that builds the tap device, the agent's port or the
/// guest's way out ends the building at once with its error.
pub proof fn setup_stops(s: NetSetupView, at: usize, f: RunFailureView)
    requires
        s.phase == SetupPhaseView::Forward(at),
        0 < at <= s.plan.steps.len(),
        s.plan.steps[at - 1].on_failure == OnFailure::Stop,
    ensures
        s.next(Some(f)).1 == SetupActionView::Finish(Err(s.plan.steps[at - 1].error(f))),
{
}

} // verus!
