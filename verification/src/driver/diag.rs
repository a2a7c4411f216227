//! A report on why a microVM may not be allowed to use the virtualisation
//! device.

use vstd::prelude::*;

use crate::model::Duplicate;
use crate::text;

verus! {

/// A device node.
#[derive(Debug, Clone, Copy, PartialEq, Eq, Structural)]
pub struct DeviceInfo {
    pub mode: u32,
    pub uid: u32,
    pub gid: u32,
    pub rdev: u64,
}

impl DeepView for DeviceInfo {
    type V = DeviceInfo;

    open spec fn deep_view(&self) -> DeviceInfo {
        *self
    }
}

impl Duplicate for DeviceInfo {
    fn duplicate(&self) -> (r: Self) {
        *self
    }
}

/// What was read for the report. An error stands for what could not be read.
#[derive(Debug, PartialEq)]
pub struct KvmDiag {
    pub sandbox_id: String,
    pub shim_pid: u32,
    pub shim_cgroup: Result<String, String>,
    pub shim_mntns: Result<String, String>,
    pub fc_pid: u32,
    pub fc_cgroup: Result<String, String>,
    pub fc_status: Result<String, String>,
    pub fc_mntns: Result<String, String>,
    /// The permissions of the device on the host.
    pub kvm_mode: Result<u32, String>,
    /// The names in the device directory of the jail.
    pub jail_dev: Result<Vec<String>, String>,
    /// The device in the jail.
    pub jail_kvm: Result<DeviceInfo, String>,
}

/// The abstract value of [`KvmDiag`].
#[verifier::ext_equal]
pub struct KvmDiagView {
    pub sandbox_id: Seq<char>,
    pub shim_pid: u32,
    pub shim_cgroup: Result<Seq<char>, Seq<char>>,
    pub shim_mntns: Result<Seq<char>, Seq<char>>,
    pub fc_pid: u32,
    pub fc_cgroup: Result<Seq<char>, Seq<char>>,
    pub fc_status: Result<Seq<char>, Seq<char>>,
    pub fc_mntns: Result<Seq<char>, Seq<char>>,
    pub kvm_mode: Result<u32, Seq<char>>,
    pub jail_dev: Result<Seq<Seq<char>>, Seq<char>>,
    pub jail_kvm: Result<DeviceInfo, Seq<char>>,
}

impl DeepView for KvmDiag {
    type V = KvmDiagView;

    open spec fn deep_view(&self) -> KvmDiagView {
        KvmDiagView {
            sandbox_id: self.sandbox_id@,
            shim_pid: self.shim_pid,
            shim_cgroup: crate::model::result_view(self.shim_cgroup),
            shim_mntns: crate::model::result_view(self.shim_mntns),
            fc_pid: self.fc_pid,
            fc_cgroup: crate::model::result_view(self.fc_cgroup),
            fc_status: crate::model::result_view(self.fc_status),
            fc_mntns: crate::model::result_view(self.fc_mntns),
            kvm_mode: crate::model::result_view(self.kvm_mode),
            jail_dev: crate::model::result_view(self.jail_dev),
            jail_kvm: crate::model::result_view(self.jail_kvm),
        }
    }
}

impl View for KvmDiag {
    type V = KvmDiagView;

    open spec fn view(&self) -> KvmDiagView {
        self.deep_view()
    }
}

impl Duplicate for KvmDiag {
    fn duplicate(&self) -> (r: Self) {
        KvmDiag {
            sandbox_id: self.sandbox_id.duplicate(),
            shim_pid: self.shim_pid,
            shim_cgroup: crate::model::duplicate_result(&self.shim_cgroup),
            shim_mntns: crate::model::duplicate_result(&self.shim_mntns),
            fc_pid: self.fc_pid,
            fc_cgroup: crate::model::duplicate_result(&self.fc_cgroup),
            fc_status: crate::model::duplicate_result(&self.fc_status),
            fc_mntns: crate::model::duplicate_result(&self.fc_mntns),
            kvm_mode: crate::model::duplicate_result(&self.kvm_mode),
            jail_dev: crate::model::duplicate_result(&self.jail_dev),
            jail_kvm: crate::model::duplicate_result(&self.jail_kvm),
        }
    }
}

impl Clone for KvmDiag {
    fn clone(&self) -> (r: Self)
        ensures
            r@ == self@,
    {
        self.duplicate()
    }
}

/// What was read, or the error in angle brackets.
pub open spec fn shown(r: Result<Seq<char>, Seq<char>>) -> Seq<char> {
    match r {
        Ok(s) => s,
        Err(e) => "<"@ + e + ">"@,
    }
}

/// What was read, or the error in angle brackets.
fn show(r: &Result<String, String>) -> (s: String)
    ensures
        s@ == shown(crate::model::result_view(*r)),
{
    match r {
        Ok(s) => s.clone(),
        Err(e) => text::cat3("<", e.as_str(), ">"),
    }
}

/// The lines, of the first `n`, that tell the capabilities of a process.
pub open spec fn cap_lines(lines: Seq<Seq<char>>, n: nat) -> Seq<Seq<char>>
    decreases n,
{
    if n == 0 {
        seq![]
    } else {
        let head = cap_lines(lines, (n - 1) as nat);
        if text::has_prefix(lines[n - 1], "Cap"@) {
            head.push(lines[n - 1])
        } else {
            head
        }
    }
}

/// The lines that tell the capabilities of a process.
fn capabilities(status: &str) -> (r: Vec<String>)
    ensures
        r.deep_view() == cap_lines(text::lines(status@), text::lines(status@).len()),
{
    let lines = text::lines_of(status);
    let ghost v = lines.deep_view();
    let mut r: Vec<String> = Vec::new();
    let mut i: usize = 0;
    assert(r.deep_view() =~= cap_lines(v, 0));
    while i < lines.len()
        invariant
            i <= lines@.len(),
            v == lines.deep_view(),
            r.deep_view() == cap_lines(v, i as nat),
        decreases lines@.len() - i,
    {
        let ghost before = r.deep_view();
        assert(v[i as int] == lines@[i as int]@);
        if text::strip_prefix(lines[i].as_str(), "Cap").is_some() {
            r.push(lines[i].clone());
            assert(r.deep_view() =~= before.push(v[i as int]));
        }
        i = i + 1;
    }
    r
}

/// The device in the jail, as text.
pub open spec fn device_text(d: DeviceInfo) -> Seq<char> {
    "exists mode="@ + text::oct(d.mode as nat) + " uid="@ + text::dec(d.uid as nat) + " gid="@
        + text::dec(d.gid as nat) + " rdev="@ + text::dec((d.rdev / 256) as nat) + ":"@ + text::dec(
        (d.rdev % 256) as nat,
    )
}

impl KvmDiagView {
    /// The report.
    pub open spec fn text(self) -> Seq<char> {
        let status = text::lines(shown(self.fc_status));
        let caps = text::join(cap_lines(status, status.len()), "\n"@);
        let kvm = match self.kvm_mode {
            Ok(m) => "exists (mode "@ + text::oct(m as nat) + ")"@,
            Err(e) => "<"@ + e + ">"@,
        };
        let dev = match self.jail_dev {
            Ok(names) => text::join(names, ", "@),
            Err(e) => "<"@ + e + ">"@,
        };
        let jail = match self.jail_kvm {
            Ok(d) => device_text(d),
            Err(e) => "<"@ + e + ">"@,
        };
        "=== oas-shim kvm diag (sid="@ + self.sandbox_id + ") ===\n[shim] pid="@ + text::dec(
            self.shim_pid as nat,
        ) + "\n[shim] cgroup="@ + text::trim(shown(self.shim_cgroup)) + "\n[shim] mntns="@ + shown(
            self.shim_mntns,
        ) + "\n[fc]   pid="@ + text::dec(self.fc_pid as nat) + "\n[fc]   cgroup="@ + text::trim(
            shown(self.fc_cgroup),
        ) + "\n[fc]   mntns="@ + shown(self.fc_mntns) + "\n[fc]   caps:\n"@ + caps
            + "\n[host] /dev/kvm: "@ + kvm + "\n[jail] /dev/ : "@ + dev + "\n[jail] /dev/kvm: "@
            + jail + "\n"@
    }
}

impl KvmDiag {
    /// The report.
    pub fn text(&self) -> (r: String)
        ensures
            r@ == self@.text(),
    {
        let status = show(&self.fc_status);
        let caps = text::joined(&capabilities(status.as_str()), "\n");
        let kvm = match &self.kvm_mode {
            Ok(m) => text::cat3("exists (mode ", text::oct_string(*m as u64).as_str(), ")"),
            Err(e) => text::cat3("<", e.as_str(), ">"),
        };
        let dev = match &self.jail_dev {
            Ok(names) => text::joined(names, ", "),
            Err(e) => text::cat3("<", e.as_str(), ">"),
        };
        let jail = match &self.jail_kvm {
            Ok(d) => {
                let head = text::cat6(
                    "exists mode=",
                    text::oct_string(d.mode as u64).as_str(),
                    " uid=",
                    text::dec_string(d.uid as u64).as_str(),
                    " gid=",
                    text::dec_string(d.gid as u64).as_str(),
                );
                text::cat5(
                    head.as_str(),
                    " rdev=",
                    text::dec_string(d.rdev / 256).as_str(),
                    ":",
                    text::dec_string(d.rdev % 256).as_str(),
                )
            },
            Err(e) => text::cat3("<", e.as_str(), ">"),
        };
        let shim = text::cat4(
            "=== oas-shim kvm diag (sid=",
            self.sandbox_id.as_str(),
            ") ===\n[shim] pid=",
            text::dec_string(self.shim_pid as u64).as_str(),
        );
        let shim = text::cat5(
            shim.as_str(),
            "\n[shim] cgroup=",
            text::trimmed(show(&self.shim_cgroup).as_str()).as_str(),
            "\n[shim] mntns=",
            show(&self.shim_mntns).as_str(),
        );
        let fc = text::cat7(
            shim.as_str(),
            "\n[fc]   pid=",
            text::dec_string(self.fc_pid as u64).as_str(),
            "\n[fc]   cgroup=",
            text::trimmed(show(&self.fc_cgroup).as_str()).as_str(),
            "\n[fc]   mntns=",
            show(&self.fc_mntns).as_str(),
        );
        let host = text::cat5(
            fc.as_str(),
            "\n[fc]   caps:\n",
            caps.as_str(),
            "\n[host] /dev/kvm: ",
            kvm.as_str(),
        );
        text::cat6(
            host.as_str(),
            "\n[jail] /dev/ : ",
            dev.as_str(),
            "\n[jail] /dev/kvm: ",
            jail.as_str(),
            "\n",
        )
    }
}

} // verus!
