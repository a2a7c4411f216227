//! The tasks of a shim: a pod, and the containers in it.

use vstd::prelude::*;

use crate::ctrd::bundle::{BundleSpec, BundleSpecView, ContainerType};
use crate::ctrd::vm::{VmCreateArgs, VmCreateArgsView, VmState};
use crate::model::Duplicate;
use crate::strmap::StrMap;
use crate::text;

verus! {

/// The process that a container pretends to have.
pub const FAKE_CONTAINER_PID: u32 = 424243;

/// A container without a process: it runs until it is told to end.
#[derive(Debug, Clone, Copy, PartialEq)]
pub struct ContainerState {
    pub pid: u32,
    pub exited: bool,
    pub exit_code: u32,
}

impl DeepView for ContainerState {
    type V = ContainerState;

    open spec fn deep_view(&self) -> ContainerState {
        *self
    }
}

impl Duplicate for ContainerState {
    fn duplicate(&self) -> (r: Self) {
        *self
    }
}

impl ContainerState {
    /// A container that has ended; the first code counts.
    pub open spec fn ended(self, code: u32) -> ContainerState {
        if self.exited {
            self
        } else {
            ContainerState { exited: true, exit_code: code, ..self }
        }
    }

    pub fn new(pid: u32) -> (c: Self)
        ensures
            c == (ContainerState { pid, exited: false, exit_code: 0 }),
    {
        ContainerState { pid, exited: false, exit_code: 0 }
    }

    /// Ends a container; the first code counts.
    pub fn mark_exited(&mut self, code: u32)
        ensures
            *final(self) == old(self).ended(code),
    {
        if self.exited {
            return;
        }
        self.exited = true;
        self.exit_code = code;
    }
}

/// A task.
#[derive(Debug, Clone, Copy, PartialEq)]
pub enum TaskEntry {
    /// A pod, which is the microVM.
    Sandbox,
    /// A container of the pod.
    Container(ContainerState),
}

impl DeepView for TaskEntry {
    type V = TaskEntry;

    open spec fn deep_view(&self) -> TaskEntry {
        *self
    }
}

impl Duplicate for TaskEntry {
    fn duplicate(&self) -> (r: Self) {
        *self
    }
}

/// How a task is.
#[derive(Debug, Clone, Copy, PartialEq, Eq, Structural)]
pub enum TaskStatus {
    Created,
    Running,
    Stopped,
}

impl DeepView for TaskStatus {
    type V = TaskStatus;

    open spec fn deep_view(&self) -> TaskStatus {
        *self
    }
}

impl Duplicate for TaskStatus {
    fn duplicate(&self) -> (r: Self) {
        *self
    }
}

/// What is told of a task.
#[derive(Debug, Clone, Copy, PartialEq)]
pub struct TaskReport {
    pub pid: u32,
    pub status: TaskStatus,
    pub exit_status: u32,
    /// Whether a time of its end is told.
    pub ended: bool,
}

/// Who is to answer a request.
#[derive(Debug, PartialEq)]
pub enum Answer<T> {
    /// The microVM is to be asked first.
    AskVm,
    /// The answer is known.
    Known(T),
}

/// What is told of the microVM's task.
pub open spec fn vm_report(state: VmState, pid: u32) -> TaskReport {
    TaskReport {
        pid,
        status: match state {
            VmState::Running => TaskStatus::Running,
            VmState::Stopped => TaskStatus::Stopped,
            VmState::NotExist => TaskStatus::Created,
        },
        exit_status: 0,
        ended: false,
    }
}

/// What is told of a container's task.
pub open spec fn container_report(c: ContainerState) -> TaskReport {
    if c.exited {
        TaskReport {
            pid: c.pid,
            status: TaskStatus::Stopped,
            exit_status: c.exit_code,
            ended: true,
        }
    } else {
        TaskReport { pid: c.pid, status: TaskStatus::Running, exit_status: 0, ended: false }
    }
}

/// The failure of a request for a task that there is not.
pub open spec fn no_task(op: Seq<char>, id: Seq<char>) -> Seq<char> {
    op + ": task "@ + id + " not found"@
}

fn missing(op: &str, id: &str) -> (r: String)
    ensures
        r@ == no_task(op@, id@),
{
    text::cat4(op, ": task ", id, " not found")
}

/// The end of a task, as it is told when the task is deleted, and whether the
/// shim is done.
#[derive(Debug, Clone, Copy, PartialEq)]
pub struct Deleted {
    pub pid: u32,
    pub exit_status: u32,
    pub exit: bool,
}

/// What a microVM for a task is made of.
pub open spec fn args_for(id: Seq<char>, s: BundleSpecView) -> VmCreateArgsView {
    VmCreateArgsView {
        sandbox_id: id,
        netns_path: match s.netns_path {
            Some(p) => p,
            None => ""@,
        },
        type_id: match s.type_id {
            Some(t) => t,
            None => 0,
        },
    }
}

/// The tasks of a shim. The microVM is asked by whoever holds it.
pub struct TaskService {
    tasks: StrMap<TaskEntry>,
}

impl View for TaskService {
    type V = Map<Seq<char>, TaskEntry>;

    closed spec fn view(&self) -> Map<Seq<char>, TaskEntry> {
        self.tasks@
    }
}

impl TaskService {
    pub fn new() -> (s: Self)
        ensures
            s@ == Map::<Seq<char>, TaskEntry>::empty(),
    {
        TaskService { tasks: StrMap::new() }
    }

    /// Begins to create a task: a container is there at once, and for a pod a
    /// microVM is to be made first. A description that could not be read is a
    /// failure.
    pub fn create(&mut self, id: &str, bundle: &str, spec: Result<BundleSpec, String>) -> (r: Result<
        CreateTask,
        String,
    >)
        ensures
            match spec {
                Err(e) => {
                    &&& r matches Err(f) && f@ == "create: load bundle "@ + bundle@ + ": "@ + e@
                    &&& final(self)@ == old(self)@
                },
                Ok(s) => match s@.container_type {
                    ContainerType::Sandbox => {
                        &&& r matches Ok(CreateTask::MakeVm(a)) && a@ == args_for(id@, s@)
                        &&& final(self)@ == old(self)@
                    },
                    ContainerType::Container => {
                        &&& r matches Ok(CreateTask::Done(pid)) && pid == FAKE_CONTAINER_PID
                        &&& final(self)@ == old(self)@.insert(
                            id@,
                            TaskEntry::Container(
                                ContainerState {
                                    pid: FAKE_CONTAINER_PID,
                                    exited: false,
                                    exit_code: 0,
                                },
                            ),
                        )
                    },
                },
            },
    {
        let s = match spec {
            Ok(s) => s,
            Err(e) => {
                return Err(text::cat4("create: load bundle ", bundle, ": ", e.as_str()));
            },
        };
        match s.container_type {
            ContainerType::Sandbox => {
                let netns_path = match s.netns_path {
                    Some(p) => p,
                    None => "".to_owned(),
                };
                let type_id: u8 = match s.type_id {
                    Some(t) => t,
                    None => 0,
                };
                Ok(
                    CreateTask::MakeVm(
                        VmCreateArgs { sandbox_id: id.to_owned(), netns_path, type_id },
                    ),
                )
            },
            ContainerType::Container => {
                let st = ContainerState::new(FAKE_CONTAINER_PID);
                self.tasks.insert(id.to_owned(), TaskEntry::Container(st));
                Ok(CreateTask::Done(st.pid))
            },
        }
    }

    /// Ends to create a pod's task, once the microVM was made and asked for its
    /// process. Where it could not be made there is no task.
    pub fn created(&mut self, id: &str, made: Result<(), String>, pid: u32) -> (r: Result<
        u32,
        String,
    >)
        ensures
            match made {
                Ok(_) => r == Ok::<u32, String>(pid) && final(self)@ == old(self)@.insert(
                    id@,
                    TaskEntry::Sandbox,
                ),
                Err(e) => {
                    &&& r matches Err(f) && f@ == "create: vm create: "@ + e@
                    &&& final(self)@ == old(self)@
                },
            },
    {
        match made {
            Ok(_) => {
                self.tasks.insert(id.to_owned(), TaskEntry::Sandbox);
                Ok(pid)
            },
            Err(e) => Err(text::cat2("create: vm create: ", e.as_str())),
        }
    }

    /// Begins to start a task: the microVM is to be started, and a container
    /// runs already.
    pub fn start(&self, id: &str) -> (r: Result<Answer<u32>, String>)
        ensures
            if self@.contains_key(id@) {
                match self@[id@] {
                    TaskEntry::Sandbox => r == Ok::<Answer<u32>, String>(Answer::AskVm),
                    TaskEntry::Container(c) => r == Ok::<Answer<u32>, String>(
                        Answer::Known(c.pid),
                    ),
                }
            } else {
                r matches Err(e) && e@ == no_task("start"@, id@)
            },
    {
        match self.tasks.get(id) {
            Some(TaskEntry::Sandbox) => Ok(Answer::AskVm),
            Some(TaskEntry::Container(st)) => Ok(Answer::Known(st.pid)),
            None => Err(missing("start", id)),
        }
    }

    /// Ends to start a pod's task, once the microVM was started and asked for
    /// its process.
    pub fn started(&self, vm: Result<(), String>, pid: u32) -> (r: Result<u32, String>)
        ensures
            match vm {
                Ok(_) => r == Ok::<u32, String>(pid),
                Err(e) => r matches Err(f) && f@ == "start: vm start: "@ + e@,
            },
    {
        match vm {
            Ok(_) => Ok(pid),
            Err(e) => Err(text::cat2("start: vm start: ", e.as_str())),
        }
    }

    /// How a task is; for a pod's task the microVM is to be asked.
    pub fn state(&self, id: &str) -> (r: Result<Answer<TaskReport>, String>)
        ensures
            if self@.contains_key(id@) {
                match self@[id@] {
                    TaskEntry::Sandbox => r == Ok::<Answer<TaskReport>, String>(Answer::AskVm),
                    TaskEntry::Container(c) => r == Ok::<Answer<TaskReport>, String>(
                        Answer::Known(container_report(c)),
                    ),
                }
            } else {
                r matches Err(e) && e@ == no_task("state"@, id@)
            },
    {
        match self.tasks.get(id) {
            Some(TaskEntry::Sandbox) => Ok(Answer::AskVm),
            Some(TaskEntry::Container(st)) => {
                if st.exited {
                    Ok(
                        Answer::Known(
                            TaskReport {
                                pid: st.pid,
                                status: TaskStatus::Stopped,
                                exit_status: st.exit_code,
                                ended: true,
                            },
                        ),
                    )
                } else {
                    Ok(
                        Answer::Known(
                            TaskReport {
                                pid: st.pid,
                                status: TaskStatus::Running,
                                exit_status: 0,
                                ended: false,
                            },
                        ),
                    )
                }
            },
            None => Err(missing("state", id)),
        }
    }

    /// How a pod's task is, by what the microVM has told.
    pub fn vm_state(&self, state: VmState, pid: u32) -> (r: TaskReport)
        ensures
            r == vm_report(state, pid),
    {
        TaskReport {
            pid,
            status: match state {
                VmState::Running => TaskStatus::Running,
                VmState::Stopped => TaskStatus::Stopped,
                VmState::NotExist => TaskStatus::Created,
            },
            exit_status: 0,
            ended: false,
        }
    }

    /// How a task has ended: nothing while a container has not. The end of a
    /// pod's task is that of the microVM, and its code is zero.
    pub fn wait(&self, id: &str) -> (r: Result<Answer<Option<u32>>, String>)
        ensures
            if self@.contains_key(id@) {
                match self@[id@] {
                    TaskEntry::Sandbox => r == Ok::<Answer<Option<u32>>, String>(Answer::AskVm),
                    TaskEntry::Container(c) => r == Ok::<Answer<Option<u32>>, String>(
                        Answer::Known(
                            if c.exited {
                                Some(c.exit_code)
                            } else {
                                None
                            },
                        ),
                    ),
                }
            } else {
                r matches Err(e) && e@ == no_task("wait"@, id@)
            },
    {
        match self.tasks.get(id) {
            Some(TaskEntry::Sandbox) => Ok(Answer::AskVm),
            Some(TaskEntry::Container(st)) => Ok(
                Answer::Known(
                    if st.exited {
                        Some(st.exit_code)
                    } else {
                        None
                    },
                ),
            ),
            None => Err(missing("wait", id)),
        }
    }

    /// Ends a container; for a pod's task the microVM is to be stopped.
    pub fn kill(&mut self, id: &str) -> (r: Result<Answer<()>, String>)
        ensures
            if old(self)@.contains_key(id@) {
                match old(self)@[id@] {
                    TaskEntry::Sandbox => r matches Ok(Answer::AskVm) && final(self)@ == old(
                        self,
                    )@,
                    TaskEntry::Container(c) => r matches Ok(Answer::Known(_)) && final(self)@
                        == old(self)@.insert(id@, TaskEntry::Container(c.ended(0))),
                }
            } else {
                &&& r matches Err(e) && e@ == no_task("kill"@, id@)
                &&& final(self)@ == old(self)@
            },
    {
        let entry: TaskEntry = match self.tasks.get(id) {
            Some(e) => *e,
            None => {
                return Err(missing("kill", id));
            },
        };
        match entry {
            TaskEntry::Sandbox => Ok(Answer::AskVm),
            TaskEntry::Container(c) => {
                let mut st = c;
                st.mark_exited(0);
                self.tasks.insert(id.to_owned(), TaskEntry::Container(st));
                Ok(Answer::Known(()))
            },
        }
    }

    /// Ends to kill a pod's task, once the microVM was stopped.
    pub fn killed(&self, vm: Result<(), String>) -> (r: Result<(), String>)
        ensures
            match vm {
                Ok(_) => r is Ok,
                Err(e) => r matches Err(f) && f@ == "kill: vm stop: "@ + e@,
            },
    {
        match vm {
            Ok(_) => Ok(()),
            Err(e) => Err(text::cat2("kill: vm stop: ", e.as_str())),
        }
    }

    /// Begins to delete a task: a pod's microVM is to be stopped first; another
    /// is gone at once. The shim is done when no task is left.
    pub fn delete(&mut self, id: &str) -> (r: Answer<Deleted>)
        ensures
            if old(self)@.contains_key(id@) && old(self)@[id@] == TaskEntry::Sandbox {
                r == Answer::<Deleted>::AskVm && final(self)@ == old(self)@
            } else {
                let end = match old(self)@[id@] {
                    TaskEntry::Container(c) if old(self)@.contains_key(id@) => (
                        c.pid,
                        c.ended(0).exit_code,
                    ),
                    _ => (0u32, 0u32),
                };
                &&& final(self)@ == old(self)@.remove(id@)
                &&& r == Answer::Known(
                    Deleted {
                        pid: end.0,
                        exit_status: end.1,
                        exit: final(self)@ == Map::<Seq<char>, TaskEntry>::empty(),
                    },
                )
            },
    {
        let entry: Option<TaskEntry> = match self.tasks.get(id) {
            Some(e) => Some(*e),
            None => None,
        };
        match entry {
            Some(TaskEntry::Sandbox) => Answer::AskVm,
            Some(TaskEntry::Container(c)) => {
                let mut st = c;
                st.mark_exited(0);
                self.tasks.remove(id);
                Answer::Known(
                    Deleted { pid: st.pid, exit_status: st.exit_code, exit: self.tasks.is_empty() },
                )
            },
            None => {
                self.tasks.remove(id);
                Answer::Known(Deleted { pid: 0, exit_status: 0, exit: self.tasks.is_empty() })
            },
        }
    }

    /// Ends to delete a pod's task, once the microVM was stopped and asked for
    /// its process. That it could not be stopped does no harm.
    pub fn deleted(&mut self, id: &str, pid: u32) -> (r: Deleted)
        ensures
            final(self)@ == old(self)@.remove(id@),
            r == (Deleted {
                pid,
                exit_status: 0,
                exit: final(self)@ == Map::<Seq<char>, TaskEntry>::empty(),
            }),
    {
        self.tasks.remove(id);
        Deleted { pid, exit_status: 0, exit: self.tasks.is_empty() }
    }

    /// The process of a task: none where there is no such task; for a pod's
    /// task the microVM is to be asked.
    pub fn connect(&self, id: &str) -> (r: Answer<u32>)
        ensures
            r == (if self@.contains_key(id@) {
                match self@[id@] {
                    TaskEntry::Sandbox => Answer::AskVm,
                    TaskEntry::Container(c) => Answer::Known(c.pid),
                }
            } else {
                Answer::Known(0u32)
            }),
    {
        match self.tasks.get(id) {
            Some(TaskEntry::Sandbox) => Answer::AskVm,
            Some(TaskEntry::Container(st)) => Answer::Known(st.pid),
            None => Answer::Known(0),
        }
    }

    /// Whether the shim is done: when no task is left.
    pub fn shutdown(&self) -> (exit: bool)
        ensures
            exit == (self@ == Map::<Seq<char>, TaskEntry>::empty()),
    {
        self.tasks.is_empty()
    }
}

/// What is to be done to create a task.
#[derive(Debug, PartialEq)]
pub enum CreateTask {
    /// A microVM is to be made.
    MakeVm(VmCreateArgs),
    /// The task is there, with this process.
    Done(u32),
}

/// A shim with a pod and a container is not done when one of the two is
/// deleted, and is done when both are.
pub proof fn done_when_both_are_deleted(
    tasks: Map<Seq<char>, TaskEntry>,
    pod: Seq<char>,
    container: Seq<char>,
)
    requires
        pod != container,
        tasks.dom() =~= set![pod, container],
    ensures
        tasks.remove(container) != Map::<Seq<char>, TaskEntry>::empty(),
        tasks.remove(pod) != Map::<Seq<char>, TaskEntry>::empty(),
        tasks.remove(container).remove(pod) == Map::<Seq<char>, TaskEntry>::empty(),
{
    assert(tasks.remove(container).contains_key(pod));
    assert(tasks.remove(pod).contains_key(container));
    assert(tasks.remove(container).remove(pod) =~= Map::<Seq<char>, TaskEntry>::empty());
}

/// A container that has ended stays as it ended.
pub proof fn the_first_end_counts(c: ContainerState, first: u32, second: u32)
    ensures
        c.ended(first).ended(second) == c.ended(first),
        !c.exited ==> c.ended(first).exit_code == first,
{
}

} // verus!
