//! What passes between a node, its shims and their microVMs.

use vstd::prelude::*;

#[allow(unused_imports)]
use crate::config::ConfigView;
#[allow(unused_imports)]
use crate::ctrd::vm::{inputs_for, state_of, VmCreateArgsView, VmState};
#[allow(unused_imports)]
use crate::driver::agent::{AgentActionView, AgentPhase, AgentWaitView};
#[allow(unused_imports)]
use crate::driver::firecracker::{is_success, load_body, logger_body, request_text};
#[allow(unused_imports)]
use crate::driver::identity::{first_vm_in, ProcEntry, ShimMeta, TerminateAction, Termination};
#[allow(unused_imports)]
use crate::driver::real_driver::{
    create_request, lifecycle_of, listed_as, owner_of, shim_words, status_of, CreateVmPhaseView,
    CreateVmReplyView, CreateVmView, DeletePhaseView, GetVmPhaseView, KillPhaseView, KillReplyView,
    WaitPhaseView,
};
#[allow(unused_imports)]
use crate::driver::shim::{inputs_of, CreateResponseView};
#[allow(unused_imports)]
use crate::driver::diag::{cap_lines, device_text, DeviceInfo};
#[allow(unused_imports)]
use crate::driver::vm_core::{
    CreatePhaseView, RestoreActionView, RestoreInputsView, RestorePhaseView, RestoreReplyView,
    RestoreView, VmCoreState, VmCoreView, VmHandleView,
};
#[allow(unused_imports)]
use crate::driver::{DriverErrorView, VmLifecycle, VmNetView, VmSpecView};
#[allow(unused_imports)]
use crate::layout::{is_dir, is_name, paths_of_a_sandbox};
#[allow(unused_imports)]
use crate::model::{flag_at, option, option_at, plain, push_keeps};
#[allow(unused_imports)]
use crate::text;

verus! {

/// Whether a value that may be missing is not empty where it is there.
pub open spec fn not_empty(v: Option<Seq<char>>) -> bool {
    v matches Some(s) ==> s.len() > 0
}

/// A request for a microVM carries to its shim what the node knows of it: the
/// snapshot of its type, its namespace, its disks, and the users and programs
/// of the configuration. There is no request just where the type is unknown or
/// has a cloud disk.
pub proof fn a_request_carries_the_sandbox(
    c: ConfigView,
    id: Seq<char>,
    net: VmNetView,
    type_id: u8,
    spec: VmSpecView,
)
    requires
        not_empty(spec.rw_layer_path),
        not_empty(spec.cloud_disk_dev),
        is_dir(c.artifacts_dir),
        is_dir(c.chroot_base_dir),
        is_dir(c.run_base_dir),
        is_dir(c.log_dir),
        is_name(id),
    ensures
        create_request(c, id, net, type_id, spec) is Ok <==> c.get_type(type_id) is Some
            && !c.get_type(type_id).unwrap().has_cloud_disk,
        create_request(c, id, net, type_id, spec) matches Ok(req) ==> {
            let got = inputs_of(req);
            let ty = c.get_type(type_id).unwrap();
            &&& req.sandbox_id == id
            &&& req.tap_name == net.tap_name
            &&& is_name(ty.bundle) ==> got.bundle_dir == c.artifacts_dir + "/snapshots/"@
                + ty.bundle
            &&& got.netns_path == net.netns_path
            &&& got.rw_layer_path == spec.rw_layer_path
            &&& got.cloud_disk_dev == spec.cloud_disk_dev
            &&& got.jailer_uid == c.jailer_uid
            &&& got.jailer_gid == c.jailer_gid
            &&& got.chroot_base_dir == c.chroot_base_dir
            &&& got.firecracker_bin == c.firecracker_bin
            &&& got.jailer_bin == c.jailer_bin
        },
{
    reveal_strlit("");
    if c.get_type(type_id) is Some {
        let ty = c.get_type(type_id).unwrap();
        if is_name(ty.bundle) {
            paths_of_a_sandbox(c, id, ty.bundle);
        }
    }
    assert(""@.len() == 0);
}

/// A microVM that is started through containerd is restored from the same
/// inputs as one that the node's own driver starts: the layer is the one that is
/// made for the sandbox, and where no namespace is given it is the one that is
/// made for it.
pub proof fn both_ways_restore_the_same(
    c: ConfigView,
    id: Seq<char>,
    netns_path: Seq<char>,
    tap_name: Seq<char>,
    type_id: u8,
)
    requires
        is_dir(c.rw_base_dir),
        is_name(id),
    ensures
        ({
            let args = VmCreateArgsView { sandbox_id: id, netns_path, type_id };
            let ty = c.get_type(type_id);
            let spec = VmSpecView {
                rw_layer_path: if ty is Some && ty.unwrap().has_rw_layer {
                    Some(c.rw_base_dir + "/"@ + id + ".ext4"@)
                } else {
                    None
                },
                cloud_disk_dev: None,
            };
            let net = VmNetView {
                netns_path: if netns_path.len() == 0 {
                    "/var/run/netns/oas-"@ + id
                } else {
                    netns_path
                },
                tap_name,
            };
            let req = create_request(c, id, net, type_id, spec);
            &&& inputs_for(c, args) is Ok <==> req is Ok
            &&& inputs_for(c, args) matches Ok(inputs) ==> inputs == inputs_of(req->Ok_0)
        }),
{
    reveal_strlit("");
    reveal_strlit("/");
    reveal_strlit(".ext4");
    assert(id.contains(id[0]));
    let part = id + ".ext4"@;
    assert(part[0] == id[0]);
    assert(c.rw_base_dir.push('/') + part =~= c.rw_base_dir + "/"@ + id + ".ext4"@);
}

/// The state that a shim tells is read for what it is: running where it runs,
/// being made where it is not there yet, stopped, or failed. A microVM counts as
/// started and healthy just where it runs, and two states never read the same.
pub proof fn a_told_state_is_read(s: VmCoreState, t: VmCoreState, id: Seq<char>)
    ensures
        lifecycle_of(s.told()) == VmLifecycle::Running <==> s == VmCoreState::Running,
        lifecycle_of(s.told()) == VmLifecycle::Stopped <==> s == VmCoreState::Stopped,
        lifecycle_of(s.told()) == VmLifecycle::Degraded <==> s == VmCoreState::Failed,
        lifecycle_of(s.told()) == VmLifecycle::Creating <==> s == VmCoreState::NotExist,
        s != t ==> s.told() != t.told(),
        status_of(id, s.told()).id == id,
        status_of(id, s.told()).started <==> s == VmCoreState::Running,
        status_of(id, s.told()).healthy <==> s == VmCoreState::Running,
        status_of(id, s.told()).lifecycle == lifecycle_of(s.told()),
        state_of(s) == VmState::Running <==> s == VmCoreState::Running,
        state_of(s) == VmState::NotExist <==> s == VmCoreState::NotExist,
{
    reveal_strlit("Running");
    reveal_strlit("Stopped");
    reveal_strlit("Failed");
    reveal_strlit("Pending");
    assert("Running"@[0] == 'R');
    assert("Stopped"@[0] == 'S');
    assert("Failed"@[0] == 'F');
    assert("Pending"@[0] == 'P');
}

/// A microVM whose shim cannot be asked is listed all the same, as neither
/// started nor healthy.
pub proof fn a_silent_shim_is_listed(id: Seq<char>, s: VmCoreState, e: DriverErrorView)
    ensures
        listed_as(id, Err(e)).id == id,
        !listed_as(id, Err(e)).started,
        !listed_as(id, Err(e)).healthy,
        listed_as(id, Err(e)).lifecycle == VmLifecycle::Degraded,
        listed_as(id, Ok(s.told())) == status_of(id, s.told()),
{
}

/// A microVM is made just where its shim says that it runs; where the shim says
/// anything else the error tells what the shim said. A shim is started only
/// where there is none.
pub proof fn made_only_where_it_runs(c: CreateVmView, r: CreateResponseView, s: VmCoreState)
    requires
        c.phase == CreateVmPhaseView::Call,
        r.state == s.told(),
    ensures
        c.after(CreateVmReplyView::Answered(Ok(r))) is Done,
        c.after(CreateVmReplyView::Answered(Ok(r))) == CreateVmPhaseView::Done(Ok(())) <==> s
            == VmCoreState::Running,
        s != VmCoreState::Running ==> c.after(CreateVmReplyView::Answered(Ok(r)))
            == CreateVmPhaseView::Done(
            Err(DriverErrorView::Shim("create Failed: "@ + r.error)),
        ),
        ({
            let first = CreateVmView { phase: CreateVmPhaseView::Probe, ..c };
            &&& first.after(CreateVmReplyView::Exists(true)) == CreateVmPhaseView::Call
            &&& first.after(CreateVmReplyView::Exists(false)) == CreateVmPhaseView::Spawn
        }),
{
    a_told_state_is_read(s, VmCoreState::Running, ""@);
}

/// The socket of a shim tells whose it is, and no other name does.
pub proof fn a_socket_tells_its_owner(id: Seq<char>, name: Seq<char>)
    ensures
        owner_of("oas-shim-"@ + id + ".sock"@) == Some(id),
        owner_of(name) matches Some(x) ==> name == "oas-shim-"@ + x + ".sock"@,
{
    reveal_strlit("oas-shim-");
    reveal_strlit(".sock");
    let s = "oas-shim-"@ + id + ".sock"@;
    assert(s.take(9) =~= "oas-shim-"@);
    assert(s.skip(9) =~= id + ".sock"@);
    assert((id + ".sock"@).skip(id.len() as int) =~= ".sock"@);
    assert((id + ".sock"@).take(id.len() as int) =~= id);
    if let Some(x) = owner_of(name) {
        let rest = name.skip(9);
        assert(name =~= name.take(9) + rest);
        assert(rest =~= rest.take(rest.len() - 5) + rest.skip(rest.len() - 5));
        assert(name =~= "oas-shim-"@ + x + ".sock"@);
    }
}

/// A shim is started with the configuration of its node, for its sandbox, on the
/// socket and with the log of that sandbox.
pub proof fn a_shim_is_started_for_its_sandbox(
    c: ConfigView,
    cfg_path: Seq<char>,
    id: Seq<char>,
)
    requires
        plain(cfg_path),
        plain(id),
        is_name(id),
        is_dir(c.artifacts_dir),
        is_dir(c.chroot_base_dir),
        is_dir(c.run_base_dir),
        is_dir(c.log_dir),
        plain(c.run_base_dir),
    ensures
        shim_words(c, cfg_path, id)[0] == "shim"@,
        option(shim_words(c, cfg_path, id), "--config"@) == Some(cfg_path),
        option(shim_words(c, cfg_path, id), "--sandbox-id"@) == Some(id),
        option(shim_words(c, cfg_path, id), "--socket"@) == Some(
            c.run_base_dir + "/oas-shim-"@ + id + ".sock"@,
        ),
        option(shim_words(c, cfg_path, id), "--log-file"@) == Some(
            c.log_dir + "/oas-shim-"@ + id + ".log"@,
        ),
{
    paths_of_a_sandbox(c, id, id);
    reveal_strlit("shim");
    reveal_strlit("--config");
    reveal_strlit("--sandbox-id");
    reveal_strlit("--socket");
    reveal_strlit("--log-file");
    let w = shim_words(c, cfg_path, id);
    assert(c.shim_socket(id)[0] == c.run_base_dir[0]);
    assert("--config"@.len() == 8 && "--config"@[0] == '-' && "--config"@[2] == 'c');
    assert("--socket"@.len() == 8 && "--socket"@[0] == '-' && "--socket"@[2] == 's');
    assert("--sandbox-id"@.len() == 12 && "--sandbox-id"@[0] == '-');
    assert("--log-file"@.len() == 10 && "--log-file"@[0] == '-');
    option_at(w, "--config"@, 1);
    option_at(w, "--sandbox-id"@, 3);
    option_at(w, "--socket"@, 5);
    option_at(w, "--log-file"@, 7);
}

/// A wait for a shim after it was missed a number of times.
pub open spec fn missed(n: nat) -> WaitPhaseView
    decreases n,
{
    if n == 0 {
        WaitPhaseView::Probe(0)
    } else {
        missed((n - 1) as nat).after(false).after(false)
    }
}

/// A shim that is missed is looked for again two hundred times, and then given
/// up; one that is found ends the wait.
pub proof fn a_shim_is_awaited(n: nat)
    ensures
        n <= 200 ==> missed(n) == WaitPhaseView::Probe(n as u32),
        n <= 200 ==> missed(n).after(true) == WaitPhaseView::Up,
        n > 200 ==> missed(n) == WaitPhaseView::TimedOut,
    decreases n,
{
    if n > 0 {
        a_shim_is_awaited((n - 1) as nat);
    }
}

/// The ending of a process after it was seen alive a number of times.
pub open spec fn seen_alive(n: nat) -> Termination
    decreases n,
{
    if n == 0 {
        Termination::Asking.after(true)
    } else {
        seen_alive((n - 1) as nat).after(true).after(true)
    }
}

/// A process is asked to end before anything else. It is killed just where it
/// was seen alive twenty times since; one that is gone is not.
pub proof fn a_process_is_asked_before_it_is_killed(n: nat)
    requires
        n <= 20,
    ensures
        Termination::Asking.wants() == TerminateAction::Ask,
        n < 20 ==> seen_alive(n).wants() == TerminateAction::Probe,
        n < 20 ==> seen_alive(n).after(false).wants() == TerminateAction::Finish,
        n < 20 ==> seen_alive(n).after(true).wants() == TerminateAction::Pause,
        n == 20 ==> seen_alive(n).wants() == TerminateAction::Kill,
        n == 20 ==> seen_alive(n).after(false).wants() == TerminateAction::Finish,
        n < 20 ==> seen_alive(n) == Termination::Probing(n as u8),
    decreases n,
{
    if n > 0 {
        a_process_is_asked_before_it_is_killed((n - 1) as nat);
    }
}

/// An answer at the first, second or third asking is the answer.
pub proof fn an_answer_ends_the_asking(
    id: Seq<char>,
    s: Seq<char>,
    a: DriverErrorView,
    b: DriverErrorView,
)
    ensures
        ({
            let first = GetVmPhaseView::Ask(0);
            let second = first.answered(id, Err(a)).done().done();
            let third = second.answered(id, Err(b)).done().done();
            let told = GetVmPhaseView::Done(Ok(status_of(id, s)));
            &&& first.answered(id, Ok(s)) == told
            &&& second.answered(id, Ok(s)) == told
            &&& third.answered(id, Ok(s)) == told
            &&& first.answered(id, Err(a)) is Respawn
            &&& first.answered(id, Err(a)).done() is Pause
        }),
{
}

/// A microVM is deleted through its shim where the shim can be reached, and
/// without it where it cannot; either way what is left is cleaned up once more
/// before the end.
pub proof fn deletion_cleans_up_twice(a: bool, b: bool, c: bool, d: bool)
    ensures
        DeletePhaseView::Connect.after(true) == DeletePhaseView::Stop,
        DeletePhaseView::Connect.after(false) == DeletePhaseView::Kill,
        DeletePhaseView::Connect.after(a).after(b) == DeletePhaseView::Pause,
        DeletePhaseView::Connect.after(a).after(b).after(c) == DeletePhaseView::KillAgain,
        DeletePhaseView::Connect.after(a).after(b).after(c).after(d) == DeletePhaseView::Done,
{
}

/// An emergency end after a number of replies.
pub open spec fn killing(replies: Seq<KillReplyView>) -> KillPhaseView
    decreases replies.len(),
{
    if replies.len() == 0 {
        KillPhaseView::ReadMeta
    } else {
        killing(replies.drop_last()).after(replies.last())
    }
}

/// What an emergency end has done and was replied, in order.
pub open spec fn kill_log(replies: Seq<KillReplyView>) -> Seq<(KillPhaseView, KillReplyView)>
    decreases replies.len(),
{
    if replies.len() == 0 {
        seq![]
    } else {
        kill_log(replies.drop_last()).push((killing(replies.drop_last()), replies.last()))
    }
}

/// Whether a process was found to be the microVM: it was noted, is alive and
/// has the noted namespace; or it was found in the jail.
pub open spec fn is_the_vm(log: Seq<(KillPhaseView, KillReplyView)>, pid: u32) -> bool {
    ||| log.contains((KillPhaseView::Find, KillReplyView::Pid(Some(pid))))
    ||| exists|meta: ShimMeta|
        {
            &&& meta.fc_pid == pid
            &&& log.contains((KillPhaseView::ReadMeta, KillReplyView::Meta(Some(meta))))
            &&& #[trigger] log.contains(
                (
                    KillPhaseView::Check(meta),
                    KillReplyView::Process { alive: true, inode: Some(meta.mntns_inode) },
                ),
            )
        }
}

/// Whether a microVM was ended, or there was none.
pub open spec fn vm_gone(log: Seq<(KillPhaseView, KillReplyView)>) -> bool {
    ||| exists|pid: u32|
        #[trigger] log.contains((KillPhaseView::Kill(pid), KillReplyView::Done)) && is_the_vm(
            log,
            pid,
        )
    ||| log.contains((KillPhaseView::Find, KillReplyView::Pid(None)))
    ||| exists|meta: ShimMeta, alive: bool, inode: Option<u64>|
        {
            &&& log.contains((KillPhaseView::ReadMeta, KillReplyView::Meta(Some(meta))))
            &&& #[trigger] log.contains(
                (KillPhaseView::Check(meta), KillReplyView::Process { alive, inode }),
            )
            &&& (!alive || inode != Some(meta.mntns_inode))
        }
}

/// Whether the jail was removed, or is to be kept.
pub open spec fn jail_gone(log: Seq<(KillPhaseView, KillReplyView)>) -> bool {
    ||| log.contains((KillPhaseView::KeepFlag, KillReplyView::Keep(true)))
    ||| log.contains((KillPhaseView::KeepFlag, KillReplyView::Keep(false))) && log.contains(
        (KillPhaseView::RemoveJail, KillReplyView::Done),
    )
}

/// What was done and replied by the time that an emergency end has come to a
/// phase.
pub open spec fn kill_came_to(
    log: Seq<(KillPhaseView, KillReplyView)>,
    phase: KillPhaseView,
) -> bool {
    match phase {
        KillPhaseView::ReadMeta => true,
        KillPhaseView::Check(meta) => log.contains(
            (KillPhaseView::ReadMeta, KillReplyView::Meta(Some(meta))),
        ),
        KillPhaseView::Find => true,
        KillPhaseView::Kill(pid) => is_the_vm(log, pid),
        KillPhaseView::KeepFlag => vm_gone(log),
        KillPhaseView::RemoveJail => vm_gone(log) && log.contains(
            (KillPhaseView::KeepFlag, KillReplyView::Keep(false)),
        ),
        KillPhaseView::RemoveMeta => vm_gone(log) && jail_gone(log),
        KillPhaseView::RemoveSocket => vm_gone(log) && jail_gone(log) && log.contains(
            (KillPhaseView::RemoveMeta, KillReplyView::Done),
        ),
        KillPhaseView::Done => vm_gone(log) && jail_gone(log) && log.contains(
            (KillPhaseView::RemoveMeta, KillReplyView::Done),
        ) && log.contains((KillPhaseView::RemoveSocket, KillReplyView::Done)),
    }
}

#[verifier::rlimit(30)]
proof fn gone_stays(
    l: Seq<(KillPhaseView, KillReplyView)>,
    x: (KillPhaseView, KillReplyView),
)
    ensures
        forall|pid: u32| #[trigger] is_the_vm(l, pid) ==> is_the_vm(l.push(x), pid),
        vm_gone(l) ==> vm_gone(l.push(x)),
{
    let m = l.push(x);
    push_keeps(l, x);
    assert forall|pid: u32| #[trigger] is_the_vm(l, pid) implies is_the_vm(m, pid) by {
        if !l.contains((KillPhaseView::Find, KillReplyView::Pid(Some(pid)))) {
            let meta = choose|meta: ShimMeta|
                {
                    &&& meta.fc_pid == pid
                    &&& l.contains((KillPhaseView::ReadMeta, KillReplyView::Meta(Some(meta))))
                    &&& #[trigger] l.contains(
                        (
                            KillPhaseView::Check(meta),
                            KillReplyView::Process { alive: true, inode: Some(meta.mntns_inode) },
                        ),
                    )
                };
            assert(m.contains(
                (
                    KillPhaseView::Check(meta),
                    KillReplyView::Process { alive: true, inode: Some(meta.mntns_inode) },
                ),
            ));
        }
    }
    if vm_gone(l) {
        if exists|pid: u32|
            #[trigger] l.contains((KillPhaseView::Kill(pid), KillReplyView::Done)) && is_the_vm(
                l,
                pid,
            ) {
            let pid = choose|pid: u32|
                #[trigger] l.contains((KillPhaseView::Kill(pid), KillReplyView::Done))
                    && is_the_vm(l, pid);
            assert(m.contains((KillPhaseView::Kill(pid), KillReplyView::Done)));
            assert(is_the_vm(m, pid));
        } else if !l.contains((KillPhaseView::Find, KillReplyView::Pid(None))) {
            let (meta, alive, inode) = choose|meta: ShimMeta, alive: bool, inode: Option<u64>|
                {
                    &&& l.contains((KillPhaseView::ReadMeta, KillReplyView::Meta(Some(meta))))
                    &&& #[trigger] l.contains(
                        (KillPhaseView::Check(meta), KillReplyView::Process { alive, inode }),
                    )
                    &&& (!alive || inode != Some(meta.mntns_inode))
                };
            assert(m.contains(
                (KillPhaseView::Check(meta), KillReplyView::Process { alive, inode }),
            ));
        }
    }
}

/// Whatever is replied: an emergency end kills only a process that was found to
/// be the microVM, and when it is over the microVM was ended or there was none,
/// the jail was removed unless it is to be kept, and the note and the socket of
/// the shim are removed.
pub proof fn an_emergency_end_cleans_up(replies: Seq<KillReplyView>)
    ensures
        kill_came_to(kill_log(replies), killing(replies)),
    decreases replies.len(),
{
    if replies.len() > 0 {
        an_emergency_end_cleans_up(replies.drop_last());
        let p = killing(replies.drop_last());
        let l = kill_log(replies.drop_last());
        let x = (p, replies.last());
        let m = l.push(x);
        push_keeps(l, x);
        gone_stays(l, x);
        match x {
            (KillPhaseView::Check(meta), KillReplyView::Process { alive, inode }) => {
                assert(m.contains(
                    (KillPhaseView::Check(meta), KillReplyView::Process { alive, inode }),
                ));
                assert(m.contains((KillPhaseView::ReadMeta, KillReplyView::Meta(Some(meta)))));
                if alive && inode == Some(meta.mntns_inode) {
                    assert(is_the_vm(m, meta.fc_pid));
                } else {
                    assert(vm_gone(m));
                }
            },
            (KillPhaseView::Find, KillReplyView::Pid(q)) => {
                if let Some(pid) = q {
                    assert(is_the_vm(m, pid));
                } else {
                    assert(vm_gone(m));
                }
            },
            (KillPhaseView::Kill(pid), KillReplyView::Done) => {
                assert(m.contains((KillPhaseView::Kill(pid), KillReplyView::Done)));
                assert(is_the_vm(m, pid));
                assert(vm_gone(m));
            },
            _ => {},
        }
    }
}

/// Whether one text is part of another.
pub open spec fn part_of(part: Seq<char>, whole: Seq<char>) -> bool {
    exists|i: int|
        0 <= i <= whole.len() - part.len() && #[trigger] whole.subrange(i, i + part.len()) == part
}

proof fn is_part(a: Seq<char>, part: Seq<char>, b: Seq<char>, whole: Seq<char>)
    requires
        whole == a + part + b,
    ensures
        part_of(part, whole),
{
    let i = a.len() as int;
    assert(whole.len() == a.len() + part.len() + b.len());
    assert(whole.subrange(i, i + part.len()) =~= part);
}

/// The request to load a snapshot names the file of its state as the snapshot
/// and the file of its memory as a memory that is read from a file, and asks
/// that the microVM runs at once.
pub proof fn a_load_names_state_and_memory(vmstate: Seq<char>, mem: Seq<char>)
    ensures
        part_of("\"snapshot_path\":\""@ + vmstate + "\""@, load_body(vmstate, mem)),
        part_of("\"backend_path\":\""@ + mem + "\""@, load_body(vmstate, mem)),
        part_of("\"backend_type\":\"File\""@, load_body(vmstate, mem)),
        part_of("\"resume_vm\":true"@, load_body(vmstate, mem)),
{
    reveal_strlit("\"snapshot_path\":\"");
    reveal_strlit("\"backend_path\":\"");
    reveal_strlit("\"backend_type\":\"File\"");
    reveal_strlit("\"resume_vm\":true");
    reveal_strlit("\"");
    reveal_strlit("{\"snapshot_path\":\"");
    reveal_strlit("\",\"mem_backend\":{\"backend_type\":\"File\",\"backend_path\":\"");
    reveal_strlit("\"},\"track_dirty_pages\":false,\"resume_vm\":true}");
    let one = "{\"snapshot_path\":\""@;
    let two = "\",\"mem_backend\":{\"backend_type\":\"File\",\"backend_path\":\""@;
    let three = "\"},\"track_dirty_pages\":false,\"resume_vm\":true}"@;
    let body = load_body(vmstate, mem);
    assert(body =~= one + vmstate + two + mem + three);
    let p = "\"snapshot_path\":\""@ + vmstate + "\""@;
    assert(body =~= one.take(1) + p + (two.skip(1) + mem + three));
    is_part(one.take(1), p, two.skip(1) + mem + three, body);
    let q = "\"backend_path\":\""@ + mem + "\""@;
    assert(two.skip(39) =~= "\"backend_path\":\""@);
    assert(body =~= (one + vmstate + two.take(39)) + q + three.skip(1));
    is_part(one + vmstate + two.take(39), q, three.skip(1), body);
    let r = "\"backend_type\":\"File\""@;
    assert(two.subrange(17, 38) =~= r);
    assert(body =~= (one + vmstate + two.take(17)) + r + (two.skip(38) + mem + three));
    is_part(one + vmstate + two.take(17), r, two.skip(38) + mem + three, body);
    let t = "\"resume_vm\":true"@;
    assert(three.subrange(29, 45) =~= t);
    assert(body =~= (one + vmstate + two + mem + three.take(29)) + t + three.skip(45));
    is_part(one + vmstate + two + mem + three.take(29), t, three.skip(45), body);
}

/// The request to write a log names its file.
pub proof fn a_logger_names_its_file(path: Seq<char>)
    ensures
        part_of("\"log_path\":\""@ + path + "\""@, logger_body(path)),
{
    reveal_strlit("\"log_path\":\"");
    reveal_strlit("\"");
    reveal_strlit("{\"log_path\":\"");
    reveal_strlit("\",\"level\":\"Debug\",\"show_level\":true,\"show_log_origin\":true}");
    let one = "{\"log_path\":\""@;
    let two = "\",\"level\":\"Debug\",\"show_level\":true,\"show_log_origin\":true}"@;
    let p = "\"log_path\":\""@ + path + "\""@;
    assert(logger_body(path) =~= one.take(1) + p + two.skip(1));
    is_part(one.take(1), p, two.skip(1), logger_body(path));
}

/// An answer of the microVM is a success just where its code is one of the two
/// hundreds.
pub proof fn success_is_of_the_two_hundreds(code: u16)
    ensures
        is_success(code) <==> code / 100 == 2,
{
}

/// A wait for an agent after a number of replies.
pub open spec fn awaiting(w: AgentWaitView, yes: Seq<bool>) -> AgentWaitView
    decreases yes.len(),
{
    if yes.len() == 0 {
        w
    } else {
        let b = awaiting(w, yes.drop_last());
        AgentWaitView { phase: b.phase.after(yes.last()), ..b }
    }
}

/// Whether a command tries the port of the guest from within a namespace.
pub open spec fn tries(
    a: AgentActionView,
    space: Seq<char>,
    guest_ip: Seq<char>,
    port: u16,
) -> bool {
    a matches AgentActionView::Run(w) && {
        &&& w.len() == 6
        &&& w[0] == "netns"@ && w[1] == "exec"@ && w[2] == space
        &&& w[4] == "-c"@
        &&& (w[3] == "python3"@ && part_of(
            "('"@ + guest_ip + "',"@ + text::dec(port as nat) + ")"@,
            w[5],
        ) || w[3] == "bash"@ && part_of(
            "/dev/tcp/"@ + guest_ip + "/"@ + text::dec(port as nat),
            w[5],
        ))
    }
}

/// Whatever is replied: an agent counts as reached just where a command that
/// tries the guest's port, from within the namespace of the sandbox, succeeded;
/// and the wait is given up only where no time is left.
#[verifier::rlimit(30)]
pub proof fn an_agent_is_reached_from_its_namespace(
    id: Seq<char>,
    guest_ip: Seq<char>,
    port: u16,
    timeout_secs: u64,
    yes: Seq<bool>,
    last: bool,
)
    requires
        !id.contains('/'),
    ensures
        ({
            let start = AgentWaitView {
                netns_path: "/var/run/netns/oas-"@ + id,
                guest_ip,
                port,
                timeout_secs,
                phase: AgentPhase::Clock,
            };
            let now = awaiting(start, yes);
            let next = awaiting(start, yes.push(last));
            let trying = now.wants() is Run;
            &&& trying ==> tries(now.wants(), "oas-"@ + id, guest_ip, port)
            &&& now.wants() !is Finish ==> {
                &&& next.wants() == AgentActionView::Finish(Ok(())) <==> trying && last
                &&& (next.wants() matches AgentActionView::Finish(Err(_))) <==> now.wants()
                    == AgentActionView::ReadClock && !last
            }
            &&& yes.len() == 0 ==> now.wants() == AgentActionView::ReadClock
        }),
{
    let start = AgentWaitView {
        netns_path: "/var/run/netns/oas-"@ + id,
        guest_ip,
        port,
        timeout_secs,
        phase: AgentPhase::Clock,
    };
    let now = awaiting(start, yes);
    awaiting_keeps(start, yes);
    assert(yes.push(last).drop_last() =~= yes);
    crate::net::laws::name_behind(id);
    reveal_strlit("oas-");
    reveal_strlit("import socket; s=socket.create_connection(('");
    reveal_strlit("('");
    reveal_strlit("',");
    reveal_strlit(")");
    reveal_strlit("),1); s.close()");
    reveal_strlit("echo >/dev/tcp/");
    reveal_strlit("/dev/tcp/");
    let d = text::dec(port as nat);
    let a = "import socket; s=socket.create_connection(('"@;
    let z = "),1); s.close()"@;
    let p = "('"@ + guest_ip + "',"@ + d + ")"@;
    let w = a + guest_ip + "',"@ + d + z;
    assert(w =~= a.take(42) + p + z.skip(1));
    is_part(a.take(42), p, z.skip(1), w);
    let e = "echo >/dev/tcp/"@;
    let q = "/dev/tcp/"@ + guest_ip + "/"@ + d;
    let v = e + guest_ip + "/"@ + d;
    assert(v =~= e.take(6) + q + seq![]);
    is_part(e.take(6), q, seq![], v);
    assert(now.namespace() == "oas-"@ + id);
}

proof fn awaiting_keeps(w: AgentWaitView, yes: Seq<bool>)
    ensures
        awaiting(w, yes) == (AgentWaitView { phase: awaiting(w, yes).phase, ..w }),
    decreases yes.len(),
{
    if yes.len() > 0 {
        awaiting_keeps(w, yes.drop_last());
    }
}

/// Whether a process is the microVM of a jail: its directory is its number, its
/// program is the microVM's, and its root is the jail.
pub open spec fn runs_in(e: ProcEntry, root: (u64, u64), pid: nat) -> bool {
    &&& text::parse_dec(e.name@, 0xffff_ffff) == Some(pid)
    &&& (e.comm@ == "firecracker"@ || e.comm@ == "firecracker\n"@)
    &&& e.root == Some(root)
}

/// The process that is found for a jail is a microVM in that jail, the first one
/// in the order of the processes; where none is found there is none.
pub proof fn the_first_microvm_in_a_jail_is_found(
    entries: Seq<ProcEntry>,
    root: (u64, u64),
    from: nat,
)
    requires
        from <= entries.len(),
    ensures
        match first_vm_in(entries, root, from) {
            Some(pid) => exists|i: int|
                {
                    &&& from <= i < entries.len()
                    &&& #[trigger] runs_in(entries[i], root, pid)
                    &&& forall|j: int, q: nat|
                        from <= j < i ==> !#[trigger] runs_in(entries[j], root, q)
                },
            None => forall|j: int, q: nat|
                from <= j < entries.len() ==> !#[trigger] runs_in(entries[j], root, q),
        },
    decreases entries.len() - from,
{
    if from < entries.len() {
        the_first_microvm_in_a_jail_is_found(entries, root, from + 1);
        match entries[from as int].is_vm_in(root) {
            Some(pid) => {
                assert(runs_in(entries[from as int], root, pid));
            },
            None => {
                assert forall|q: nat| !#[trigger] runs_in(entries[from as int], root, q) by {}
                if let Some(pid) = first_vm_in(entries, root, from + 1) {
                    let i = choose|i: int|
                        {
                            &&& from + 1 <= i < entries.len()
                            &&& #[trigger] runs_in(entries[i], root, pid)
                            &&& forall|j: int, q: nat|
                                from + 1 <= j < i ==> !#[trigger] runs_in(entries[j], root, q)
                        };
                    assert(runs_in(entries[i], root, pid));
                }
            },
        }
    }
}

/// A restore that has missed the control socket a number of times.
pub open spec fn socket_missed(s: RestoreView, n: nat) -> RestoreView
    decreases n,
{
    if n == 0 {
        RestoreView { phase: RestorePhaseView::Socket(0), ..s }
    } else {
        let b = socket_missed(s, (n - 1) as nat);
        let c = RestoreView { phase: b.after(RestoreReplyView::Flag(false)), ..b };
        RestoreView { phase: c.after(RestoreReplyView::Done), ..c }
    }
}

/// The control socket is looked for two thousand times more where it is missed,
/// always at the same place, and then the restore is given up; where it is found
/// the process is looked for.
pub proof fn a_control_socket_is_awaited(s: RestoreView, n: nat)
    ensures
        n <= 2000 ==> socket_missed(s, n).phase == RestorePhaseView::Socket(n as u32),
        n <= 2000 ==> socket_missed(s, n).after(RestoreReplyView::Flag(true))
            == RestorePhaseView::Find,
        n > 2000 ==> (socket_missed(s, n).phase matches RestorePhaseView::Done(Err(_))),
        socket_missed(s, n).cfg == s.cfg,
        socket_missed(s, n).sandbox_id == s.sandbox_id,
    decreases n,
{
    if n > 0 {
        a_control_socket_is_awaited(s, (n - 1) as nat);
    }
}

/// The log that the microVM is told to write is the one that is saved after a
/// failure, under the same name in the directory of the logs; the name tells the
/// sandbox.
pub proof fn the_log_that_is_written_is_saved(s: RestoreView, pid: u32, e: Seq<char>)
    requires
        is_dir(s.cfg.log_dir),
    ensures
        ({
            let put = RestoreView { phase: RestorePhaseView::Logger(pid), ..s }.wants();
            let save = RestoreView { phase: RestorePhaseView::SaveLog(e), ..s }.wants();
            let name = "fc-"@ + s.sandbox_id + ".log"@;
            &&& put is PutLogger
            &&& put->PutLogger_log_path == name
            &&& save is SaveLog
            &&& save->SaveLog_src == s.cfg.jail_root(s.sandbox_id) + "/"@ + name
            &&& save->SaveLog_dir == s.cfg.log_dir
            &&& save->SaveLog_dst == s.cfg.log_dir + "/"@ + name
        }),
{
    reveal_strlit("fc-");
    reveal_strlit(".log");
    reveal_strlit("/");
    reveal_strlit("root");
    let name = "fc-"@ + s.sandbox_id + ".log"@;
    let jail = s.cfg.jail_root(s.sandbox_id);
    assert(jail.len() > 0 && jail.last() == 't');
    assert(jail.push('/') + name =~= jail + "/"@ + name);
    assert(s.cfg.log_dir.push('/') + name =~= s.cfg.log_dir + "/"@ + name);
}

/// A restore that fails once its process is there ends that process, saves its
/// log, and is answered with what went wrong; before that there is nothing to
/// end.
pub proof fn a_failed_restore_ends_its_process(s: RestoreView, pid: u32, e: Seq<char>)
    requires
        s.phase == RestorePhaseView::Load(pid) || s.phase == RestorePhaseView::Agent(pid)
            || s.phase == RestorePhaseView::Inode(pid),
    ensures
        ({
            let kill = RestoreView { phase: s.after(RestoreReplyView::Failed(e)), ..s };
            let save = RestoreView { phase: kill.after(RestoreReplyView::Done), ..kill };
            let end = RestoreView { phase: save.after(RestoreReplyView::Done), ..save };
            &&& kill.wants() == RestoreActionView::Terminate(pid)
            &&& save.wants() is SaveLog
            &&& end.wants() matches RestoreActionView::Finish(Err(t)) && text::has_suffix(t, e)
        }),
{
    assert(e.skip(0) =~= e);
    assert(("stat mntns: "@ + e).skip("stat mntns: "@.len() as int) =~= e);
}

/// What is told of a microVM: a fresh one is not there and has no process; one
/// that was made runs, with its process, for as long as that is alive, and has
/// stopped once it is not; a failed creation reads as failed. Making it anew
/// looks at the process that is known.
pub proof fn a_microvm_is_told_as_it_is(
    c: VmCoreView,
    h: VmHandleView,
    e: Seq<char>,
    inputs: RestoreInputsView,
    shim_pid: u32,
)
    requires
        h.fc_pid != 0,
    ensures
        ({
            let made = c.created_by(CreatePhaseView::Done(Ok(h)));
            let failed = c.created_by(CreatePhaseView::Done(Err(e)));
            &&& made.liveness(true) == (VmCoreState::Running, h.fc_pid)
            &&& made.liveness(false) == (VmCoreState::Stopped, h.fc_pid)
            &&& failed.liveness(true).0 == VmCoreState::Failed
            &&& failed.liveness(false).0 == VmCoreState::Failed
            &&& made.create(inputs, shim_pid).wants() == RestoreActionView::ProbeAlive(h.fc_pid)
            &&& made.create(inputs, shim_pid).after(RestoreReplyView::Flag(true)).wants()
                == RestoreActionView::StatMntns(h.fc_pid)
            &&& made.create(inputs, shim_pid).after(RestoreReplyView::Flag(false)).wants()
                == RestoreActionView::FindPid(c.cfg.jail_root(c.sandbox_id))
            &&& c.re_attach(inputs, shim_pid).wants() == RestoreActionView::FindPid(
                c.cfg.jail_root(c.sandbox_id),
            )
        }),
{
}

/// A process that is found in the jail is taken over, with the inode that is read
/// for it, and noted for the shim that asked.
pub proof fn a_found_process_is_taken_over(
    c: VmCoreView,
    inputs: RestoreInputsView,
    shim_pid: u32,
    pid: u32,
    ino: u64,
    r: RestoreReplyView,
)
    requires
        r == RestoreReplyView::Done || r is Failed,
    ensures
        ({
            let a = c.re_attach(inputs, shim_pid).after(RestoreReplyView::Pid(Some(pid)));
            let b = a.after(RestoreReplyView::Inode(ino));
            &&& a.wants() == RestoreActionView::StatMntns(pid)
            &&& b.wants() == RestoreActionView::WriteMeta(
                ShimMeta { fc_pid: pid, mntns_inode: ino, started_at: 0, shim_pid },
            )
            &&& b.after(r).wants() == RestoreActionView::Finish(
                Ok(VmHandleView { fc_pid: pid, mntns_inode: ino, guest: None }),
            )
            &&& (c.re_attach(inputs, shim_pid).after(
                RestoreReplyView::Pid(None),
            ).wants() matches RestoreActionView::Finish(Err(_)))
        }),
{
}

/// A device is told with its permissions in octal, its owner, and its two
/// numbers, of which the second is below 256.
#[verifier::rlimit(30)]
pub proof fn a_device_is_told_by_its_numbers(d: DeviceInfo, major: u64, minor: u64)
    requires
        minor < 256,
        d.rdev == major * 256 + minor,
    ensures
        part_of("mode="@ + text::oct(d.mode as nat) + " "@, device_text(d)),
        part_of("uid="@ + text::dec(d.uid as nat) + " "@, device_text(d)),
        part_of("gid="@ + text::dec(d.gid as nat) + " "@, device_text(d)),
        text::has_suffix(
            device_text(d),
            "rdev="@ + text::dec(major as nat) + ":"@ + text::dec(minor as nat),
        ),
{
    reveal_strlit("exists mode=");
    reveal_strlit("mode=");
    reveal_strlit(" uid=");
    reveal_strlit("uid=");
    reveal_strlit(" gid=");
    reveal_strlit("gid=");
    reveal_strlit(" rdev=");
    reveal_strlit("rdev=");
    reveal_strlit(" ");
    let m = text::oct(d.mode as nat);
    let u = text::dec(d.uid as nat);
    let g = text::dec(d.gid as nat);
    let tail = text::dec(major as nat) + ":"@ + text::dec(minor as nat);
    assert((d.rdev / 256) as nat == major as nat);
    assert((d.rdev % 256) as nat == minor as nat);
    let t = device_text(d);
    let rest2 = "rdev="@ + tail;
    let rest1 = "gid="@ + g + " "@ + rest2;
    let rest0 = "uid="@ + u + " "@ + rest1;
    assert(t =~= "exists "@ + ("mode="@ + m + " "@) + rest0) by {
        reveal_strlit("exists ");
    }
    is_part("exists "@, "mode="@ + m + " "@, rest0, t);
    let h1 = "exists "@ + ("mode="@ + m + " "@);
    assert(t =~= h1 + ("uid="@ + u + " "@) + rest1);
    is_part(h1, "uid="@ + u + " "@, rest1, t);
    let h2 = h1 + ("uid="@ + u + " "@);
    assert(t =~= h2 + ("gid="@ + g + " "@) + rest2);
    is_part(h2, "gid="@ + g + " "@, rest2, t);
    let whole = "rdev="@ + text::dec(major as nat) + ":"@ + text::dec(minor as nat);
    assert(rest2 =~= whole);
    let h3 = h2 + ("gid="@ + g + " "@);
    assert(t =~= h3 + whole);
    assert(t.skip(h3.len() as int) =~= whole);
}

/// Of the lines of a status just those that tell capabilities are kept.
pub proof fn lines_of_capabilities_are_kept(lines: Seq<Seq<char>>, n: nat, l: Seq<char>)
    requires
        n <= lines.len(),
    ensures
        cap_lines(lines, n).contains(l) <==> exists|i: int|
            0 <= i < n && #[trigger] lines[i] == l && text::has_prefix(l, "Cap"@),
    decreases n,
{
    if n > 0 {
        let m = (n - 1) as nat;
        lines_of_capabilities_are_kept(lines, m, l);
        let head = cap_lines(lines, m);
        let last = lines[n - 1];
        if text::has_prefix(last, "Cap"@) {
            push_keeps(head, last);
            assert(cap_lines(lines, n) == head.push(last));
            if head.push(last).contains(l) {
                let k = choose|k: int| 0 <= k < head.push(last).len() && head.push(last)[k] == l;
                if k < head.len() {
                    assert(head[k] == l);
                    assert(head.contains(l));
                } else {
                    assert(lines[n - 1] == l);
                }
            }
        }
        if exists|i: int| 0 <= i < n && #[trigger] lines[i] == l && text::has_prefix(l, "Cap"@) {
            let i = choose|i: int|
                0 <= i < n && #[trigger] lines[i] == l && text::has_prefix(l, "Cap"@);
            if i < m {
                assert(head.contains(l));
            } else {
                assert(head.push(last)[head.len() as int] == l);
            }
        }
    }
}

/// A request to the microVM starts with its method and path, announces the
/// length of its body in bytes, and ends with an empty line and the body.
pub proof fn a_request_announces_its_body(method: Seq<char>, path: Seq<char>, body: Seq<char>)
    ensures
        text::has_prefix(request_text(method, path, body), method + " "@ + path + " HTTP/1.1\r\n"@),
        part_of(
            "Content-Length: "@ + text::dec(vstd::utf8::encode_utf8(body).len()) + "\r\n"@,
            request_text(method, path, body),
        ),
        text::has_suffix(request_text(method, path, body), "\r\n\r\n"@ + body),
{
    let n = text::dec(vstd::utf8::encode_utf8(body).len());
    let one = " HTTP/1.1\r\nHost: localhost\r\nContent-Type: application/json\r\nContent-Length: "@;
    let two = "\r\nConnection: close\r\n\r\n"@;
    reveal_strlit(
        " HTTP/1.1\r\nHost: localhost\r\nContent-Type: application/json\r\nContent-Length: ",
    );
    reveal_strlit("\r\nConnection: close\r\n\r\n");
    reveal_strlit(" HTTP/1.1\r\n");
    reveal_strlit("Content-Length: ");
    reveal_strlit("\r\n");
    reveal_strlit("\r\n\r\n");
    let t = request_text(method, path, body);
    let head = method + " "@ + path;
    assert(t =~= head + one + n + two + body);
    let p = head + " HTTP/1.1\r\n"@;
    assert(t.take(p.len() as int) =~= p);
    let m = one.len() - 16;
    assert(one.skip(m) =~= "Content-Length: "@);
    assert(t =~= (head + one.take(m)) + ("Content-Length: "@ + n + "\r\n"@) + (two.skip(2)
        + body));
    is_part(
        head + one.take(m),
        "Content-Length: "@ + n + "\r\n"@,
        two.skip(2) + body,
        t,
    );
    let k = two.len() - 4;
    assert(two.skip(k) =~= "\r\n\r\n"@);
    let before = head + one + n + two.take(k);
    assert(t =~= before + ("\r\n\r\n"@ + body));
    assert(t.skip(before.len() as int) =~= "\r\n\r\n"@ + body);
}

} // verus!
