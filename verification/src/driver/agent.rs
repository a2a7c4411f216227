//! Waiting until the agent inside a guest can be reached.

use vstd::prelude::*;

use crate::model::Duplicate;
use crate::text;

verus! {

/// How far the waiting has come.
#[derive(Debug, Clone, Copy, PartialEq, Eq, Structural)]
pub enum AgentPhase {
    /// Is there time left?
    Clock,
    Python,
    Bash,
    Pause,
    Reached,
    TimedOut,
}

impl DeepView for AgentPhase {
    type V = AgentPhase;

    open spec fn deep_view(&self) -> AgentPhase {
        *self
    }
}

impl Duplicate for AgentPhase {
    fn duplicate(&self) -> (r: Self) {
        *self
    }
}

/// What is to be done next.
#[derive(Debug, PartialEq)]
pub enum AgentAction {
    /// See whether there is time left.
    ReadClock,
    /// Run `ip` with these words and see whether it succeeds.
    Run(Vec<String>),
    /// Wait a moment.
    Pause,
    Finish(Result<(), String>),
}

/// The abstract value of [`AgentAction`].
#[verifier::ext_equal]
pub enum AgentActionView {
    ReadClock,
    Run(Seq<Seq<char>>),
    Pause,
    Finish(Result<(), Seq<char>>),
}

impl DeepView for AgentAction {
    type V = AgentActionView;

    open spec fn deep_view(&self) -> AgentActionView {
        match *self {
            AgentAction::ReadClock => AgentActionView::ReadClock,
            AgentAction::Run(a) => AgentActionView::Run(a.deep_view()),
            AgentAction::Pause => AgentActionView::Pause,
            AgentAction::Finish(a) => AgentActionView::Finish(crate::model::result_view(a)),
        }
    }
}

impl View for AgentAction {
    type V = AgentActionView;

    open spec fn view(&self) -> AgentActionView {
        self.deep_view()
    }
}

impl Duplicate for AgentAction {
    fn duplicate(&self) -> (r: Self) {
        match self {
            AgentAction::ReadClock => AgentAction::ReadClock,
            AgentAction::Run(a) => AgentAction::Run(a.duplicate()),
            AgentAction::Pause => AgentAction::Pause,
            AgentAction::Finish(a) => AgentAction::Finish(crate::model::duplicate_result(a)),
        }
    }
}

impl Clone for AgentAction {
    fn clone(&self) -> (r: Self)
        ensures
            r@ == self@,
    {
        self.duplicate()
    }
}

/// The wait for an agent.
#[derive(Debug, PartialEq)]
pub struct AgentWait {
    pub netns_path: String,
    pub guest_ip: String,
    pub port: u16,
    pub timeout_secs: u64,
    pub phase: AgentPhase,
}

/// The abstract value of [`AgentWait`].
#[verifier::ext_equal]
pub struct AgentWaitView {
    pub netns_path: Seq<char>,
    pub guest_ip: Seq<char>,
    pub port: u16,
    pub timeout_secs: u64,
    pub phase: AgentPhase,
}

impl DeepView for AgentWait {
    type V = AgentWaitView;

    open spec fn deep_view(&self) -> AgentWaitView {
        AgentWaitView {
            netns_path: self.netns_path@,
            guest_ip: self.guest_ip@,
            port: self.port,
            timeout_secs: self.timeout_secs,
            phase: self.phase,
        }
    }
}

impl View for AgentWait {
    type V = AgentWaitView;

    open spec fn view(&self) -> AgentWaitView {
        self.deep_view()
    }
}

impl Duplicate for AgentWait {
    fn duplicate(&self) -> (r: Self) {
        AgentWait {
            netns_path: self.netns_path.duplicate(),
            guest_ip: self.guest_ip.duplicate(),
            port: self.port,
            timeout_secs: self.timeout_secs,
            phase: self.phase,
        }
    }
}

impl Clone for AgentWait {
    fn clone(&self) -> (r: Self)
        ensures
            r@ == self@,
    {
        self.duplicate()
    }
}

impl AgentWaitView {
    /// The namespace, by name.
    pub open spec fn namespace(self) -> Seq<char> {
        let last = text::after_last(self.netns_path, '/');
        if last.len() > 0 {
            last
        } else {
            self.netns_path
        }
    }

    /// What is to be done: the agent is tried with one program and then with
    /// another, as long as there is time.
    pub open spec fn wants(self) -> AgentActionView {
        let port = text::dec(self.port as nat);
        match self.phase {
            AgentPhase::Clock => AgentActionView::ReadClock,
            AgentPhase::Python => AgentActionView::Run(
                seq![
                    "netns"@,
                    "exec"@,
                    self.namespace(),
                    "python3"@,
                    "-c"@,
                    "import socket; s=socket.create_connection(('"@ + self.guest_ip + "',"@ + port
                        + "),1); s.close()"@,
                ],
            ),
            AgentPhase::Bash => AgentActionView::Run(
                seq![
                    "netns"@,
                    "exec"@,
                    self.namespace(),
                    "bash"@,
                    "-c"@,
                    "echo >/dev/tcp/"@ + self.guest_ip + "/"@ + port,
                ],
            ),
            AgentPhase::Pause => AgentActionView::Pause,
            AgentPhase::Reached => AgentActionView::Finish(Ok(())),
            AgentPhase::TimedOut => AgentActionView::Finish(
                Err(
                    "timeout waiting for guest-agent "@ + self.guest_ip + ":"@ + port
                        + " in netns "@ + self.namespace() + " ("@ + text::dec(
                        self.timeout_secs as nat,
                    ) + "s)"@,
                ),
            ),
        }
    }
}

impl AgentPhase {
    /// What follows, where `yes` answers what was asked.
    pub open spec fn after(self, yes: bool) -> AgentPhase {
        match self {
            AgentPhase::Clock => if yes {
                AgentPhase::Python
            } else {
                AgentPhase::TimedOut
            },
            AgentPhase::Python => if yes {
                AgentPhase::Reached
            } else {
                AgentPhase::Bash
            },
            AgentPhase::Bash => if yes {
                AgentPhase::Reached
            } else {
                AgentPhase::Pause
            },
            AgentPhase::Pause => AgentPhase::Clock,
            p => p,
        }
    }
}

impl AgentWait {
    pub fn new(netns_path: String, guest_ip: String, port: u16, timeout_secs: u64) -> (w: Self)
        ensures
            w@ == (AgentWaitView {
                netns_path: netns_path@,
                guest_ip: guest_ip@,
                port,
                timeout_secs,
                phase: AgentPhase::Clock,
            }),
    {
        AgentWait { netns_path, guest_ip, port, timeout_secs, phase: AgentPhase::Clock }
    }

    fn namespace(&self) -> (r: String)
        ensures
            r@ == self@.namespace(),
    {
        let v = text::chars_of(self.netns_path.as_str());
        let n: usize = v.len();
        let last = match text::last_place(self.netns_path.as_str(), '/') {
            Some(i) => {
                let t = text::string_of(&v, i + 1, n);
                assert(t@ =~= self@.netns_path.skip(i + 1));
                t
            },
            None => self.netns_path.clone(),
        };
        if text::is_empty(last.as_str()) {
            self.netns_path.clone()
        } else {
            last
        }
    }

    /// What is to be done.
    pub fn action(&self) -> (a: AgentAction)
        ensures
            a@ == self@.wants(),
    {
        let ns = self.namespace();
        let port = text::dec_string(self.port as u64);
        match self.phase {
            AgentPhase::Clock => AgentAction::ReadClock,
            AgentPhase::Python => {
                let script = text::cat5(
                    "import socket; s=socket.create_connection(('",
                    self.guest_ip.as_str(),
                    "',",
                    port.as_str(),
                    "),1); s.close()",
                );
                let words = vec![
                    "netns".to_owned(),
                    "exec".to_owned(),
                    ns,
                    "python3".to_owned(),
                    "-c".to_owned(),
                    script,
                ];
                let a = AgentAction::Run(words);
                assert(a@->Run_0 =~= self@.wants()->Run_0);
                a
            },
            AgentPhase::Bash => {
                let script = text::cat4("echo >/dev/tcp/", self.guest_ip.as_str(), "/", port.as_str());
                let words = vec![
                    "netns".to_owned(),
                    "exec".to_owned(),
                    ns,
                    "bash".to_owned(),
                    "-c".to_owned(),
                    script,
                ];
                let a = AgentAction::Run(words);
                assert(a@->Run_0 =~= self@.wants()->Run_0);
                a
            },
            AgentPhase::Pause => AgentAction::Pause,
            AgentPhase::Reached => AgentAction::Finish(Ok(())),
            AgentPhase::TimedOut => {
                let head = text::cat5(
                    "timeout waiting for guest-agent ",
                    self.guest_ip.as_str(),
                    ":",
                    port.as_str(),
                    " in netns ",
                );
                AgentAction::Finish(
                    Err(
                        text::cat5(
                            head.as_str(),
                            ns.as_str(),
                            " (",
                            text::dec_string(self.timeout_secs).as_str(),
                            "s)",
                        ),
                    ),
                )
            },
        }
    }

    /// Takes the answer to what was asked.
    pub fn advance(&mut self, yes: bool)
        ensures
            final(self)@ == (AgentWaitView { phase: old(self)@.phase.after(yes), ..old(self)@ }),
    {
        self.phase = match self.phase {
            AgentPhase::Clock => {
                if yes {
                    AgentPhase::Python
                } else {
                    AgentPhase::TimedOut
                }
            },
            AgentPhase::Python => {
                if yes {
                    AgentPhase::Reached
                } else {
                    AgentPhase::Bash
                }
            },
            AgentPhase::Bash => {
                if yes {
                    AgentPhase::Reached
                } else {
                    AgentPhase::Pause
                }
            },
            AgentPhase::Pause => AgentPhase::Clock,
            p => p,
        };
    }
}

} // verus!
