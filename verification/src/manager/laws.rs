//! What holds of the life of sandboxes and containers as a whole.

use vstd::prelude::*;

#[allow(unused_imports)]
use crate::driver::VmId;
#[allow(unused_imports)]
use crate::manager::containers::{
    ContainerStatusView, CreateContainerView, CreateCtPhaseView, RemoveContainerView,
    RemoveCtPhaseView, StartContainerView, StartPhaseView, StatusPhaseView, StopContainerView,
};
#[allow(unused_imports)]
use crate::manager::sandboxes::{
    ManagerActionView, ManagerReplyView, RemovePhaseView, RemoveSandboxView, RunPhaseView,
    RunSandboxView, StopPhaseView, StopSandboxView,
};
#[allow(unused_imports)]
use crate::net::NetConfigView;
#[allow(unused_imports)]
use crate::storage::DiskConfigView;
#[allow(unused_imports)]
use crate::store::{StoreErrorView, TablesView};
#[allow(unused_imports)]
use crate::types::{ContainerExitReason, ContainerRecordView, ContainerState, SandboxRecordView, SandboxState};

verus! {

/// What a request for a sandbox has made so far and not given back.
#[verifier::ext_equal]
pub struct Held {
    pub net: Option<NetConfigView>,
    pub disk: Option<DiskConfigView>,
    pub vm: Option<VmId>,
}

/// What a request for a sandbox has made so far and not given back. Once it is
/// answered, what is left belongs to the sandbox.
pub open spec fn held(p: RunPhaseView) -> Held {
    match p {
        RunPhaseView::Provision(_, net) => Held { net: Some(net), disk: None, vm: None },
        RunPhaseView::CreateVm(_, net, disk) => Held { net: Some(net), disk: Some(disk), vm: None },
        RunPhaseView::Ready(_, net, disk, vm) => Held {
            net: Some(net),
            disk: Some(disk),
            vm: Some(vm),
        },
        RunPhaseView::Put(_, net, disk, vm) => Held {
            net: Some(net),
            disk: Some(disk),
            vm: Some(vm),
        },
        RunPhaseView::DeleteVm(_, net, disk, vm, _) => Held {
            net: Some(net),
            disk: Some(disk),
            vm: Some(vm),
        },
        RunPhaseView::Cleanup(net, disk, _) => Held { net: Some(net), disk: Some(disk), vm: None },
        RunPhaseView::Teardown(net, _) => Held { net: Some(net), disk: None, vm: None },
        _ => Held { net: None, disk: None, vm: None },
    }
}

/// Whether `b` is `a` with one more thing, that the reply brought.
pub open spec fn gained(a: Held, b: Held, reply: ManagerReplyView) -> bool {
    ||| reply matches ManagerReplyView::Net(Ok(n)) && b == (Held { net: Some(n), ..a })
    ||| reply matches ManagerReplyView::Disk(Ok(d)) && b == (Held { disk: Some(d), ..a })
    ||| reply matches ManagerReplyView::Vm(Ok(v)) && b == (Held { vm: Some(v), ..a })
}

/// Whether `b` is `a` without one thing, that the action gave back: the microVM
/// first, then the disks, then the network.
pub open spec fn gave_back(a: Held, b: Held, action: ManagerActionView) -> bool {
    ||| {
        &&& action is DeleteVm
        &&& a.vm == Some(action->DeleteVm_vm_id)
        &&& b == (Held { vm: None, ..a })
    }
    ||| {
        &&& action is CleanupDisk
        &&& a.vm is None
        &&& a.disk == Some(action->CleanupDisk_0)
        &&& b == (Held { disk: None, ..a })
    }
    ||| {
        &&& action is TeardownNet
        &&& a.vm is None
        &&& a.disk is None
        &&& a.net == Some(action->TeardownNet_0)
        &&& b == (Held { net: None, ..a })
    }
}

/// Nothing that was made for a sandbox gets lost: with each reply, what is held
/// stays, grows by what was just made, or shrinks by what was just given back,
/// in reverse order of the making; only with the record in the store does all
/// of it pass to the sandbox.
pub proof fn run_loses_nothing(s: RunSandboxView, reply: ManagerReplyView, now: i64)
    ensures
        ({
            let next = s.after(reply, now);
            ||| held(next) == held(s.phase)
            ||| gained(held(s.phase), held(next), reply)
            ||| gave_back(held(s.phase), held(next), s.wants())
            ||| {
                &&& s.wants() is PutSandbox
                &&& reply matches ManagerReplyView::Stored(Ok(_))
                &&& next matches RunPhaseView::Done(Ok(_))
            }
        }),
{
}

/// A request for a sandbox that is answered with an error holds nothing any
/// more, and the step before was to give back the last thing, or it held
/// nothing then either.
pub proof fn run_error_leaves_nothing(s: RunSandboxView, reply: ManagerReplyView, now: i64)
    requires
        s.after(reply, now) matches RunPhaseView::Done(Err(_)),
        s.phase !is Done,
    ensures
        s.wants() is TeardownNet || held(s.phase) == (Held { net: None, disk: None, vm: None }),
{
}

/// A request for a sandbox after a number of replies, each with the time at
/// which it came.
pub open spec fn ran(s: RunSandboxView, replies: Seq<(ManagerReplyView, i64)>) -> RunSandboxView
    decreases replies.len(),
{
    if replies.len() == 0 {
        s
    } else {
        let before = ran(s, replies.drop_last());
        RunSandboxView { phase: before.after(replies.last().0, replies.last().1), ..before }
    }
}

/// How many networks, disks and microVMs one reply adds, less those that it
/// takes away.
pub open spec fn change(s: RunSandboxView, reply: ManagerReplyView) -> (int, int, int) {
    match (s.wants(), reply) {
        (ManagerActionView::SetupNet(_), ManagerReplyView::Net(Ok(_))) => (1, 0, 0),
        (ManagerActionView::TeardownNet(_), ManagerReplyView::Done) => (-1, 0, 0),
        (ManagerActionView::Provision { .. }, ManagerReplyView::Disk(Ok(_))) => (0, 1, 0),
        (ManagerActionView::CleanupDisk(_), ManagerReplyView::Done) => (0, -1, 0),
        (ManagerActionView::CreateVm { .. }, ManagerReplyView::Vm(Ok(_))) => (0, 0, 1),
        (ManagerActionView::DeleteVm { .. }, ManagerReplyView::Done) => (0, 0, -1),
        _ => (0, 0, 0),
    }
}

/// How many networks, disks and microVMs a number of replies add, less those
/// that they take away.
pub open spec fn balance(s: RunSandboxView, replies: Seq<(ManagerReplyView, i64)>) -> (
    int,
    int,
    int,
)
    decreases replies.len(),
{
    if replies.len() == 0 {
        (0, 0, 0)
    } else {
        let b = balance(s, replies.drop_last());
        let c = change(ran(s, replies.drop_last()), replies.last().0);
        (b.0 + c.0, b.1 + c.1, b.2 + c.2)
    }
}

/// One where there is something.
pub open spec fn count<T>(o: Option<T>) -> int {
    if o is Some {
        1
    } else {
        0
    }
}

/// Whatever is replied, and however often: a request for a sandbox that ends in
/// an error has given back every network, disk and microVM that it made. One
/// that ends well has made one of each and kept it, or, where the pod had a
/// sandbox, has made nothing. On the way, what was made and not given back is
/// what is held.
pub proof fn run_balances(s: RunSandboxView, replies: Seq<(ManagerReplyView, i64)>)
    requires
        s.phase == RunPhaseView::Lock,
    ensures
        match ran(s, replies).phase {
            RunPhaseView::Done(Err(_)) => balance(s, replies) == (0int, 0int, 0int),
            RunPhaseView::Done(Ok(_)) => balance(s, replies) == (0int, 0int, 0int) || balance(
                s,
                replies,
            ) == (1int, 1int, 1int),
            p => balance(s, replies) == (
                count(held(p).net),
                count(held(p).disk),
                count(held(p).vm),
            ),
        },
    decreases replies.len(),
{
    if replies.len() > 0 {
        run_balances(s, replies.drop_last());
    }
}

/// How many replies a request for a sandbox can still take to heart.
pub open spec fn run_left(p: RunPhaseView) -> nat {
    match p {
        RunPhaseView::Lock => 11,
        RunPhaseView::Find => 10,
        RunPhaseView::NewId => 9,
        RunPhaseView::Setup(_) => 8,
        RunPhaseView::Provision(_, _) => 7,
        RunPhaseView::CreateVm(_, _, _) => 6,
        RunPhaseView::Ready(_, _, _, _) => 5,
        RunPhaseView::Put(_, _, _, _) => 4,
        RunPhaseView::DeleteVm(_, _, _, _, _) => 3,
        RunPhaseView::Cleanup(_, _, _) => 2,
        RunPhaseView::Teardown(_, _) => 1,
        RunPhaseView::Done(_) => 0,
    }
}

/// How many replies a stop of a sandbox can still take to heart.
pub open spec fn stop_left(p: StopPhaseView) -> int {
    let polls = 2 * crate::manager::sandboxes::MAX_STOP_POLLS;
    match p {
        StopPhaseView::Lock => polls + 5,
        StopPhaseView::Read => polls + 4,
        StopPhaseView::DeleteVm(_) => polls + 3,
        StopPhaseView::Poll(_, n) => polls - 2 * n + 2,
        StopPhaseView::Pause(_, n) => polls - 2 * n + 1,
        StopPhaseView::Teardown(_) => 2,
        StopPhaseView::Put(_) => 1,
        StopPhaseView::Done(_) => 0,
    }
}

/// A request for a sandbox, and a stop of one, come to an end: each reply that
/// changes anything brings them nearer to it, and only at the end is nothing
/// left to do.
pub proof fn run_and_stop_end(
    r: RunSandboxView,
    s: StopSandboxView,
    reply: ManagerReplyView,
    now: i64,
)
    requires
        match s.phase {
            StopPhaseView::Poll(_, n) => n < crate::manager::sandboxes::MAX_STOP_POLLS,
            StopPhaseView::Pause(_, n) => n < crate::manager::sandboxes::MAX_STOP_POLLS,
            _ => true,
        },
    ensures
        r.after(reply, now) == r.phase || run_left(r.after(reply, now)) < run_left(r.phase),
        s.after(reply) == s.phase || 0 <= stop_left(s.after(reply)) < stop_left(s.phase),
        r.wants() == ManagerActionView::Finish <==> r.phase is Done,
        s.wants() == ManagerActionView::Finish <==> s.phase is Done,
{
}

/// A request for a pod that has a sandbox which is ready is answered with that
/// sandbox, and makes nothing.
pub proof fn run_is_idempotent(s: RunSandboxView, t: TablesView, found: SandboxRecordView, now: i64)
    requires
        s.phase == RunPhaseView::Find,
        t.sandbox_of_pod(s.req.metadata.uid) == Some(found),
        found.state == SandboxState::Ready,
    ensures
        s.wants() == ManagerActionView::FindByUid(s.req.metadata.uid),
        s.after(
            ManagerReplyView::Found(Ok(t.sandbox_of_pod(s.req.metadata.uid))),
            now,
        ) == RunPhaseView::Done(Ok(found.sandbox_id)),
{
}

/// A request for a pod whose sandbox was stopped is refused until that one is
/// removed.
pub proof fn run_after_stop_conflicts(s: RunSandboxView, found: SandboxRecordView, now: i64)
    requires
        s.phase == RunPhaseView::Find,
        found.state == SandboxState::NotReady,
    ensures
        s.after(ManagerReplyView::Found(Ok(Some(found))), now) matches RunPhaseView::Done(Err(e))
            && e is Conflict,
{
}

/// The record that is stored for a request has metadata, labels and annotations
/// as they were given, and is ready.
pub proof fn run_keeps_metadata(s: RunSandboxView, id: Seq<char>, net: NetConfigView, disk: DiskConfigView, vm: VmId, now: i64)
    requires
        s.phase == RunPhaseView::Ready(id, net, disk, vm),
    ensures
        s.after(ManagerReplyView::Ready(Ok(())), now) matches RunPhaseView::Put(rec, _, _, _) && {
            &&& rec.sandbox_id == id
            &&& rec.pod_uid == s.req.metadata.uid
            &&& rec.metadata == s.req.metadata
            &&& rec.labels == s.req.labels
            &&& rec.annotations == s.req.annotations
            &&& rec.runtime_handler == s.req.runtime_handler
            &&& rec.vm_id == vm.0
            &&& rec.pod_ip == net.pod_ip
            &&& rec.state == SandboxState::Ready
        },
{
}

/// What a request for a sandbox stored, once it is answered, is what later
/// requests for the same pod find.
pub proof fn run_then_find(t: TablesView, rec: SandboxRecordView)
    requires
        t.keyed(),
        t.sandboxes.dom().finite(),
        t.sandbox_of_pod(rec.pod_uid) is None,
    ensures
        t.put_sandbox(rec).sandbox_of_pod(rec.pod_uid) == Some(rec),
{
    let u = t.put_sandbox(rec);
    assert(u.sandboxes.dom() =~= t.sandboxes.dom().insert(rec.sandbox_id));
    crate::store::laws::sandbox_of_pod_exact(t, rec.pod_uid);
    crate::store::laws::sandbox_of_pod_exact(u, rec.pod_uid);
    assert(u.sandboxes.contains_key(rec.sandbox_id));
    assert(u.sandboxes[rec.sandbox_id] == rec);
    match u.sandbox_of_pod(rec.pod_uid) {
        Some(s) => {
            let k = choose|k: Seq<char>| #[trigger] u.sandboxes.contains_key(k) && u.sandboxes[k] == s;
            if k != rec.sandbox_id {
                assert(t.sandboxes.contains_key(k));
            }
        },
        None => {},
    }
}

/// No two sandboxes belong to one pod.
pub open spec fn one_per_pod(t: TablesView) -> bool {
    forall|a: Seq<char>, b: Seq<char>|
        #![trigger t.sandboxes.contains_key(a), t.sandboxes.contains_key(b)]
        t.sandboxes.contains_key(a) && t.sandboxes.contains_key(b) && t.sandboxes[a].pod_uid
            == t.sandboxes[b].pod_uid ==> a == b
}

/// No write of a request gives a pod a second sandbox: one is made only where
/// none was found, one that is stopped stays the one it was, and one that is
/// removed is gone.
pub proof fn pods_have_one_sandbox(
    t: TablesView,
    run: RunSandboxView,
    found: Option<SandboxRecordView>,
    made: SandboxRecordView,
    stop: StopSandboxView,
    kept: SandboxRecordView,
    gone: Seq<char>,
)
    requires
        t.keyed(),
        t.sandboxes.dom().finite(),
        one_per_pod(t),
        t.sandbox_of_pod(made.pod_uid) is None,
        stop.phase == StopPhaseView::Put(kept),
        t.sandboxes.contains_key(kept.sandbox_id),
        t.sandboxes[kept.sandbox_id] == kept,
    ensures
        run.looked(found) is NewId ==> found is None,
        one_per_pod(t.put_sandbox(made)),
        stop.wants() matches ManagerActionView::PutSandbox(r) && one_per_pod(t.put_sandbox(r)),
        one_per_pod(t.delete_sandbox(gone)),
{
    crate::store::laws::sandbox_of_pod_exact(t, made.pod_uid);
}

/// Once the sandbox of a pod is removed, a request for the pod that is not
/// refused makes a new one.
pub proof fn removed_pod_runs_anew(
    t: TablesView,
    rec: SandboxRecordView,
    s: RunSandboxView,
    now: i64,
)
    requires
        t.keyed(),
        t.sandboxes.dom().finite(),
        one_per_pod(t),
        t.sandbox_of_pod(s.req.metadata.uid) == Some(rec),
        s.phase == RunPhaseView::Find,
        crate::manager::sandboxes::refusal(s.cfg, s.req) is None,
    ensures
        ({
            let u = t.delete_sandbox(rec.sandbox_id);
            &&& u.sandbox_of_pod(s.req.metadata.uid) is None
            &&& s.after(
                ManagerReplyView::Found(Ok(u.sandbox_of_pod(s.req.metadata.uid))),
                now,
            ) == RunPhaseView::NewId
        }),
{
    let uid = s.req.metadata.uid;
    let u = t.delete_sandbox(rec.sandbox_id);
    crate::store::laws::sandbox_of_pod_exact(t, uid);
    crate::store::laws::sandbox_of_pod_exact(u, uid);
    let k = choose|k: Seq<char>| #[trigger] t.sandboxes.contains_key(k) && t.sandboxes[k] == rec;
    assert(k == rec.sandbox_id);
    if let Some(other) = u.sandbox_of_pod(uid) {
        let j = choose|j: Seq<char>| #[trigger]
            u.sandboxes.contains_key(j) && u.sandboxes[j] == other;
        assert(t.sandboxes.contains_key(j));
    }
}

/// The only record that stopping a sandbox writes is the one that it read, as
/// not ready.
pub proof fn stop_only_marks(s: StopSandboxView, rec: SandboxRecordView)
    requires
        s.phase == StopPhaseView::Put(rec),
    ensures
        s.wants() == ManagerActionView::PutSandbox(
            SandboxRecordView { state: SandboxState::NotReady, ..rec },
        ),
{
}

/// The record that a stop works on is the one that it read.
pub open spec fn stop_record(p: StopPhaseView) -> Option<SandboxRecordView> {
    match p {
        StopPhaseView::DeleteVm(s) => Some(s),
        StopPhaseView::Poll(s, _) => Some(s),
        StopPhaseView::Pause(s, _) => Some(s),
        StopPhaseView::Teardown(s) => Some(s),
        StopPhaseView::Put(s) => Some(s),
        _ => None,
    }
}

/// A stop keeps to the record that it read, looks at the microVM a bounded
/// number of times, and takes the network down before it says that it is done.
pub proof fn stop_is_bounded(s: StopSandboxView, reply: ManagerReplyView)
    requires
        match s.phase {
            StopPhaseView::Poll(_, n) => n < crate::manager::sandboxes::MAX_STOP_POLLS,
            StopPhaseView::Pause(_, n) => n < crate::manager::sandboxes::MAX_STOP_POLLS,
            _ => true,
        },
    ensures
        match s.after(reply) {
            StopPhaseView::Poll(_, n) => n < crate::manager::sandboxes::MAX_STOP_POLLS,
            StopPhaseView::Pause(_, n) => n < crate::manager::sandboxes::MAX_STOP_POLLS,
            _ => true,
        },
        stop_record(s.phase) is Some && stop_record(s.after(reply)) is Some ==> stop_record(
            s.after(reply),
        ) == stop_record(s.phase),
        s.after(reply) is Put && s.phase !is Put ==> s.wants() is TeardownNet,
        s.phase !is Done && s.after(reply) == StopPhaseView::Done(Ok(())) ==> s.wants() is PutSandbox,
{
}

/// To remove a sandbox that is not there is no error and touches nothing.
pub proof fn remove_missing_is_ok(s: RemoveSandboxView, m: Seq<char>)
    requires
        s.phase == RemovePhaseView::Read,
    ensures
        s.after(ManagerReplyView::Sandbox(Err(StoreErrorView::NotFound(m)))) == RemovePhaseView::Done(
            Ok(()),
        ),
{
}

/// To stop or to remove a container that is not there is no error and touches
/// nothing.
pub proof fn missing_container_is_ok(
    s: StopContainerView,
    r: RemoveContainerView,
    m: Seq<char>,
    now: i64,
)
    requires
        s.phase == StartPhaseView::First,
        r.phase == RemoveCtPhaseView::First,
    ensures
        s.after(ManagerReplyView::Container(Err(StoreErrorView::NotFound(m))), now)
            == StartPhaseView::Done(Ok(())),
        r.after(ManagerReplyView::Container(Err(StoreErrorView::NotFound(m)))) == RemoveCtPhaseView::Done(
            Ok(()),
        ),
{
}

/// The stages of a container: only a new one comes to run, and whatever does
/// not yet count as ended can be stopped. A running one that is started, and an
/// ended one that is stopped, stay as they are.
pub proof fn container_stages(
    a: StartContainerView,
    b: StopContainerView,
    c: ContainerRecordView,
    now: i64,
)
    requires
        a.phase == StartPhaseView::Read,
        b.phase == StartPhaseView::Read,
    ensures
        ({
            let read = ManagerReplyView::Container(Ok(c));
            &&& a.after(read, now) is Sandbox <==> c.state == ContainerState::Created
            &&& a.after(read, now) == StartPhaseView::Done(Ok(())) <==> c.state
                == ContainerState::Running
            &&& b.after(read, now) is Sandbox <==> c.state != ContainerState::Exited
            &&& b.after(read, now) == StartPhaseView::Done(Ok(())) <==> c.state
                == ContainerState::Exited
        }),
{
}

/// The exit code of a container that is stopped on request does not depend on
/// what the microVM says.
pub proof fn stop_sets_exit(
    s: StopContainerView,
    c: ContainerRecordView,
    vm: VmId,
    said: Result<(), crate::driver::DriverErrorView>,
    now: i64,
)
    requires
        s.phase == StartPhaseView::Driver(c, vm),
    ensures
        s.after(ManagerReplyView::Driver(said), now) matches StartPhaseView::Put(d) && {
            &&& d.state == ContainerState::Exited
            &&& d.exit_code == 0
            &&& d.reason == Some(ContainerExitReason::Completed)
            &&& d.finished_at == Some(now)
            &&& d.container_id == c.container_id
            &&& d.metadata == c.metadata
            &&& d.labels == c.labels
            &&& d.annotations == c.annotations
        },
{
}

/// A container that the microVM does not take leaves no record behind.
pub proof fn refused_container_leaves_no_record(
    s: CreateContainerView,
    vm: VmId,
    c: ContainerRecordView,
    e: crate::driver::DriverErrorView,
    stored: Result<(), StoreErrorView>,
    now: i64,
)
    requires
        s.phase == CreateCtPhaseView::Driver(vm, c),
    ensures
        ({
            let undo = CreateContainerView {
                phase: s.after(ManagerReplyView::Driver(Err(e)), now),
                ..s
            };
            &&& undo.wants() == ManagerActionView::DeleteContainer(c.container_id)
            &&& undo.after(ManagerReplyView::Stored(stored), now) == CreateCtPhaseView::Done(
                Err(crate::manager::errors::of_driver(e)),
            )
        }),
{
}

/// The state of a container is what the store holds, whatever the microVM says.
pub proof fn status_is_what_is_stored(
    s: ContainerStatusView,
    c: ContainerRecordView,
    sandbox: Result<SandboxRecordView, StoreErrorView>,
    said: Result<(), crate::driver::DriverErrorView>,
)
    requires
        s.phase == StatusPhaseView::Sandbox(c),
    ensures
        ({
            let next = ContainerStatusView {
                phase: s.after(ManagerReplyView::Sandbox(sandbox)),
                ..s
            };
            ||| next.phase == StatusPhaseView::Done(Ok(c))
            ||| next.after(ManagerReplyView::Driver(said)) == StatusPhaseView::Done(Ok(c))
        }),
{
}

} // verus!
