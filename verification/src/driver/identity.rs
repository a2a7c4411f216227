//! Which process is a sandbox's microVM. A process number alone does not tell,
//! since numbers are used again; the mount namespace does.

use vstd::prelude::*;

use crate::text;

verus! {

/// What a shim notes of the microVM that it started.
#[derive(Debug, Clone, Copy, PartialEq, Eq, Structural)]
pub struct ShimMeta {
    pub fc_pid: u32,
    /// The inode of the process's mount namespace.
    pub mntns_inode: u64,
    pub started_at: i64,
    pub shim_pid: u32,
}

impl DeepView for ShimMeta {
    type V = ShimMeta;

    open spec fn deep_view(&self) -> ShimMeta {
        *self
    }
}

impl crate::model::Duplicate for ShimMeta {
    fn duplicate(&self) -> (r: Self) {
        *self
    }
}

/// Whether a process is the one that was noted: it is alive, and its mount
/// namespace could be read and is the noted one.
pub fn verify_fc_pid(alive: bool, inode: Option<u64>, meta: &ShimMeta) -> (r: bool)
    ensures
        r == (alive && inode == Some(meta.mntns_inode)),
{
    if !alive {
        return false;
    }
    match inode {
        Some(n) => n == meta.mntns_inode,
        None => false,
    }
}

/// How many times a process is looked at before it is killed.
pub const TERMINATE_POLLS: u8 = 20;

/// The next thing to do on the way to the end of a process.
#[derive(Debug, Clone, Copy, PartialEq, Eq, Structural)]
pub enum TerminateAction {
    /// Ask the process to end.
    Ask,
    /// See whether the process is alive.
    Probe,
    /// Wait a moment.
    Pause,
    /// Kill the process.
    Kill,
    Finish,
}

/// The end of a process in the making: it is asked to end, given some time,
/// and then killed.
#[derive(Debug, Clone, Copy, PartialEq, Eq, Structural)]
pub enum Termination {
    Asking,
    /// It was seen alive this many times.
    Probing(u8),
    Pausing(u8),
    Killing,
    Done,
}

impl Termination {
    /// What is to be done.
    pub open spec fn wants(self) -> TerminateAction {
        match self {
            Termination::Asking => TerminateAction::Ask,
            Termination::Probing(_) => TerminateAction::Probe,
            Termination::Pausing(_) => TerminateAction::Pause,
            Termination::Killing => TerminateAction::Kill,
            Termination::Done => TerminateAction::Finish,
        }
    }

    /// What is to be done.
    pub fn action(&self) -> (a: TerminateAction)
        ensures
            a == self.wants(),
    {
        match self {
            Termination::Asking => TerminateAction::Ask,
            Termination::Probing(_) => TerminateAction::Probe,
            Termination::Pausing(_) => TerminateAction::Pause,
            Termination::Killing => TerminateAction::Kill,
            Termination::Done => TerminateAction::Finish,
        }
    }

    /// What follows, where `alive` tells what a look at the process has shown.
    pub open spec fn after(self, alive: bool) -> Termination {
        match self {
            Termination::Asking => Termination::Probing(0),
            Termination::Probing(n) => if !alive {
                Termination::Done
            } else {
                Termination::Pausing(n)
            },
            Termination::Pausing(n) => if n + 1 < TERMINATE_POLLS {
                Termination::Probing((n + 1) as u8)
            } else {
                Termination::Killing
            },
            Termination::Killing => Termination::Done,
            Termination::Done => Termination::Done,
        }
    }

    /// What follows, where `alive` tells what a look at the process has shown.
    pub fn advance(&mut self, alive: bool)
        ensures
            *final(self) == old(self).after(alive),
    {
        *self = match *self {
            Termination::Asking => Termination::Probing(0),
            Termination::Probing(n) => {
                if !alive {
                    Termination::Done
                } else {
                    Termination::Pausing(n)
                }
            },
            Termination::Pausing(n) => {
                if n < TERMINATE_POLLS - 1 {
                    Termination::Probing(n + 1)
                } else {
                    Termination::Killing
                }
            },
            Termination::Killing => Termination::Done,
            Termination::Done => Termination::Done,
        };
    }
}

impl Termination {
    /// How many steps are left at most.
    pub open spec fn steps_left(self) -> int {
        match self {
            Termination::Asking => 2 * TERMINATE_POLLS + 2,
            Termination::Probing(n) => 2 * (TERMINATE_POLLS - n) + 1,
            Termination::Pausing(n) => 2 * (TERMINATE_POLLS - n),
            Termination::Killing => 1,
            Termination::Done => 0,
        }
    }

    /// Whether the process was not looked at too often.
    pub open spec fn in_bounds(self) -> bool {
        match self {
            Termination::Probing(n) => n < TERMINATE_POLLS,
            Termination::Pausing(n) => n < TERMINATE_POLLS,
            _ => true,
        }
    }
}

/// The end of a process comes after a bounded number of steps, and unless the
/// process was seen to have ended, it was killed.
pub proof fn termination_ends(t: Termination, alive: bool)
    requires
        t.in_bounds(),
        t !is Done,
    ensures
        t.after(alive).in_bounds(),
        0 <= t.after(alive).steps_left() < t.steps_left(),
        t.after(alive) is Done ==> t is Killing || (t is Probing && !alive),
{
}

/// A process as the kernel lists it.
pub struct ProcEntry {
    /// The name of its directory.
    pub name: String,
    /// The name of its program.
    pub comm: String,
    /// Device and inode of its root directory, where they could be read.
    pub root: Option<(u64, u64)>,
}

/// Whether the name of a program, with or without the line end that the kernel
/// puts behind it, is that of a microVM.
pub open spec fn names_vm(comm: Seq<char>) -> bool {
    comm == "firecracker"@ || comm == "firecracker\n"@
}

impl ProcEntry {
    /// The number of the process, where it is a microVM with the given root
    /// directory.
    pub open spec fn is_vm_in(self, root: (u64, u64)) -> Option<nat> {
        match text::parse_dec(self.name@, u32::MAX as nat) {
            Some(pid) => if names_vm(self.comm@) && self.root == Some(
                root,
            ) {
                Some(pid)
            } else {
                None
            },
            None => None,
        }
    }
}

/// The first microVM from `from` on with the given root directory.
pub open spec fn first_vm_in(entries: Seq<ProcEntry>, root: (u64, u64), from: nat) -> Option<nat>
    decreases entries.len() - from,
{
    if from >= entries.len() {
        None
    } else {
        match entries[from as int].is_vm_in(root) {
            Some(pid) => Some(pid),
            None => first_vm_in(entries, root, from + 1),
        }
    }
}

/// The process of the microVM whose root directory is the jail. There is none
/// where the jail could not be read.
pub fn find_fc_pid(jail_root: Option<(u64, u64)>, entries: &Vec<ProcEntry>) -> (r: Option<u32>)
    ensures
        match jail_root {
            Some(root) => match r {
                Some(pid) => first_vm_in(entries@, root, 0) == Some(pid as nat),
                None => first_vm_in(entries@, root, 0) is None,
            },
            None => r is None,
        },
{
    let (dev, ino) = match jail_root {
        Some(t) => t,
        None => {
            return None;
        },
    };
    let mut i: usize = 0;
    while i < entries.len()
        invariant
            i <= entries@.len(),
            jail_root == Some((dev, ino)),
            first_vm_in(entries@, (dev, ino), 0) == first_vm_in(entries@, (dev, ino), i as nat),
        decreases entries@.len() - i,
    {
        let e = &entries[i];
        if let Some(pid) = text::parse_number(e.name.as_str(), u32::MAX as u64) {
            let comm = e.comm.as_str();
            if text::same(comm, "firecracker") || text::same(comm, "firecracker\n") {
                if let Some((d, n)) = e.root {
                    if d == dev && n == ino {
                        return Some(pid as u32);
                    }
                }
            }
        }
        i = i + 1;
    }
    None
}

} // verus!
