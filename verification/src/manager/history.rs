//! What an operation has asked for and was replied by the time that it is
//! answered.

use vstd::prelude::*;

#[allow(unused_imports)]
use crate::config::ConfigView;
#[allow(unused_imports)]
use crate::driver::{ContainerSpecView, VmId, VmLifecycle, VmSpecView};
#[allow(unused_imports)]
use crate::manager::containers::{
    ContainerStatusView, CreateContainerView, CreateCtPhaseView, RemoveContainerView,
    RemoveCtPhaseView, StartContainerView, StartPhaseView, StatusPhaseView, StopContainerView,
};
#[allow(unused_imports)]
use crate::manager::laws::ran;
#[allow(unused_imports)]
use crate::manager::sandboxes::{
    ManagerActionView, ManagerReplyView, RemovePhaseView, RemoveSandboxView, RunPhaseView,
    RunSandboxView, StopPhaseView, StopSandboxView,
};
#[allow(unused_imports)]
use crate::manager::{CreateContainerRequestView, CreateSandboxRequestView, OasErrorView};
#[allow(unused_imports)]
use crate::model::push_keeps;
#[allow(unused_imports)]
use crate::net::NetConfigView;
#[allow(unused_imports)]
use crate::storage::DiskConfigView;
#[allow(unused_imports)]
use crate::store::{StoreErrorView, TablesView};
#[allow(unused_imports)]
use crate::types::{
    ContainerExitReason, ContainerRecordView, ContainerState, SandboxRecordView, SandboxState,
};

verus! {

/// What was asked for, with what came of it, in order.
pub type Log = Seq<(ManagerActionView, ManagerReplyView)>;

/// There is one success only.
proof fn success_is_one(r: ManagerReplyView)
    ensures
        r matches ManagerReplyView::Stored(Ok(u)) ==> r == ManagerReplyView::Stored(Ok(())),
        r matches ManagerReplyView::Ready(Ok(u)) ==> r == ManagerReplyView::Ready(Ok(())),
        r matches ManagerReplyView::Driver(Ok(u)) ==> r == ManagerReplyView::Driver(Ok(())),
{
    if let ManagerReplyView::Stored(Ok(u)) = r {
        assert(u == ());
    }
    if let ManagerReplyView::Ready(Ok(u)) = r {
        assert(u == ());
    }
    if let ManagerReplyView::Driver(Ok(u)) = r {
        assert(u == ());
    }
}

/// What a request for a sandbox has asked for and was replied.
pub open spec fn run_log(s: RunSandboxView, replies: Seq<(ManagerReplyView, i64)>) -> Log
    decreases replies.len(),
{
    if replies.len() == 0 {
        seq![]
    } else {
        run_log(s, replies.drop_last()).push(
            (ran(s, replies.drop_last()).wants(), replies.last().0),
        )
    }
}

/// Whether a network was set up for a new sandbox of a pod that had none.
pub open spec fn has_net(log: Log, req: CreateSandboxRequestView, id: Seq<char>, net: NetConfigView) -> bool {
    &&& log.contains((ManagerActionView::Lock(req.metadata.uid), ManagerReplyView::Done))
    &&& log.contains(
        (ManagerActionView::FindByUid(req.metadata.uid), ManagerReplyView::Found(Ok(None))),
    )
    &&& log.contains((ManagerActionView::NewSandboxId, ManagerReplyView::Id(id)))
    &&& log.contains((ManagerActionView::SetupNet(id), ManagerReplyView::Net(Ok(net))))
}

/// Whether disks were made for the sandbox, of the type and with the cloud disk
/// that were asked for.
pub open spec fn has_disk(log: Log, req: CreateSandboxRequestView, id: Seq<char>, disk: DiskConfigView) -> bool {
    log.contains(
        (
            ManagerActionView::Provision {
                sandbox_id: id,
                type_id: req.type_id,
                cloud_disk_ref: req.cloud_disk_ref,
            },
            ManagerReplyView::Disk(Ok(disk)),
        ),
    )
}

/// Whether a microVM was made for the sandbox in its network and with its
/// disks.
pub open spec fn has_vm(
    log: Log,
    req: CreateSandboxRequestView,
    id: Seq<char>,
    net: NetConfigView,
    disk: DiskConfigView,
    vm: VmId,
) -> bool {
    log.contains(
        (
            ManagerActionView::CreateVm {
                sandbox_id: id,
                netns_path: net.netns_path,
                tap_name: net.tap_name,
                type_id: req.type_id,
                spec: VmSpecView {
                    rw_layer_path: disk.rw_layer_path,
                    cloud_disk_dev: disk.cloud_disk_dev,
                },
            },
            ManagerReplyView::Vm(Ok(vm)),
        ),
    )
}

/// Whether a record names what was asked for and what was made.
pub open spec fn names_all(
    rec: SandboxRecordView,
    req: CreateSandboxRequestView,
    id: Seq<char>,
    net: NetConfigView,
    disk: DiskConfigView,
    vm: VmId,
) -> bool {
    &&& rec.sandbox_id == id
    &&& rec.state == SandboxState::Ready
    // What was asked for.
    &&& rec.pod_uid == req.metadata.uid
    &&& rec.metadata == req.metadata
    &&& rec.labels == req.labels
    &&& rec.annotations == req.annotations
    &&& rec.type_id == req.type_id
    &&& rec.runtime_handler == req.runtime_handler
    // What was made.
    &&& rec.netns_path == net.netns_path
    &&& rec.tap_name == net.tap_name
    &&& rec.mac == net.mac
    &&& rec.pod_ip == net.pod_ip
    &&& rec.gateway == net.gateway
    &&& rec.host_veth == net.host_veth
    &&& rec.rw_layer_path == disk.rw_layer_path
    &&& rec.cloud_disk_dev == disk.cloud_disk_dev
    &&& VmId(rec.vm_id) == vm
}

/// Whether a sandbox was made whole: network, disks, microVM, and a record that
/// names them all.
pub open spec fn made_whole(
    log: Log,
    req: CreateSandboxRequestView,
    id: Seq<char>,
    net: NetConfigView,
    disk: DiskConfigView,
    vm: VmId,
    rec: SandboxRecordView,
) -> bool {
    &&& has_net(log, req, id, net)
    &&& has_disk(log, req, id, disk)
    &&& has_vm(log, req, id, net, disk, vm)
    &&& log.contains((ManagerActionView::WaitReady(vm), ManagerReplyView::Ready(Ok(()))))
    &&& names_all(rec, req, id, net, disk, vm)
    &&& log.contains((ManagerActionView::PutSandbox(rec), ManagerReplyView::Stored(Ok(()))))
}

/// Whether the pod had a sandbox that is ready.
pub open spec fn had_one(log: Log, req: CreateSandboxRequestView, found: SandboxRecordView) -> bool {
    &&& found.state == SandboxState::Ready
    &&& log.contains(
        (ManagerActionView::FindByUid(req.metadata.uid), ManagerReplyView::Found(Ok(Some(found)))),
    )
}

/// Whether a network was made for the request.
pub open spec fn made_net(log: Log, req: CreateSandboxRequestView, net: NetConfigView) -> bool {
    exists|id: Seq<char>| #[trigger] has_net(log, req, id, net)
}

/// Whether a network and disks were made for the request, for one sandbox.
pub open spec fn made_disks(
    log: Log,
    req: CreateSandboxRequestView,
    net: NetConfigView,
    disk: DiskConfigView,
) -> bool {
    exists|id: Seq<char>| #[trigger] has_net(log, req, id, net) && has_disk(log, req, id, disk)
}

/// Whether the pod has a sandbox of an id: one that was found ready, or one that
/// was made whole.
pub open spec fn has_sandbox(log: Log, req: CreateSandboxRequestView, id: Seq<char>) -> bool {
    ||| exists|found: SandboxRecordView|
        #[trigger] had_one(log, req, found) && found.sandbox_id == id
    ||| exists|net: NetConfigView, disk: DiskConfigView, vm: VmId, rec: SandboxRecordView|
        #[trigger] made_whole(log, req, id, net, disk, vm, rec)
}

/// What was asked and replied by the time that a request for a sandbox has come
/// to a phase.
pub open spec fn run_came_to(log: Log, s: RunSandboxView) -> bool {
    let req = s.req;
    match s.phase {
        RunPhaseView::Lock => true,
        RunPhaseView::Find => log.contains(
            (ManagerActionView::Lock(req.metadata.uid), ManagerReplyView::Done),
        ),
        RunPhaseView::NewId => {
            &&& log.contains((ManagerActionView::Lock(req.metadata.uid), ManagerReplyView::Done))
            &&& log.contains(
                (ManagerActionView::FindByUid(req.metadata.uid), ManagerReplyView::Found(Ok(None))),
            )
        },
        RunPhaseView::Setup(id) => {
            &&& log.contains((ManagerActionView::Lock(req.metadata.uid), ManagerReplyView::Done))
            &&& log.contains(
                (ManagerActionView::FindByUid(req.metadata.uid), ManagerReplyView::Found(Ok(None))),
            )
            &&& log.contains((ManagerActionView::NewSandboxId, ManagerReplyView::Id(id)))
        },
        RunPhaseView::Provision(id, net) => has_net(log, req, id, net),
        RunPhaseView::CreateVm(id, net, disk) => has_net(log, req, id, net) && has_disk(
            log,
            req,
            id,
            disk,
        ),
        RunPhaseView::Ready(id, net, disk, vm) => {
            &&& has_net(log, req, id, net)
            &&& has_disk(log, req, id, disk)
            &&& has_vm(log, req, id, net, disk, vm)
        },
        RunPhaseView::Put(rec, net, disk, vm) => {
            &&& has_net(log, req, rec.sandbox_id, net)
            &&& has_disk(log, req, rec.sandbox_id, disk)
            &&& has_vm(log, req, rec.sandbox_id, net, disk, vm)
            &&& log.contains((ManagerActionView::WaitReady(vm), ManagerReplyView::Ready(Ok(()))))
            &&& names_all(rec, req, rec.sandbox_id, net, disk, vm)
        },
        RunPhaseView::DeleteVm(id, net, disk, vm, _) => {
            &&& has_net(log, req, id, net)
            &&& has_disk(log, req, id, disk)
            &&& has_vm(log, req, id, net, disk, vm)
        },
        RunPhaseView::Cleanup(net, disk, _) => made_disks(log, req, net, disk),
        RunPhaseView::Teardown(net, _) => made_net(log, req, net),
        RunPhaseView::Done(Ok(id)) => has_sandbox(log, req, id),
        RunPhaseView::Done(Err(_)) => true,
    }
}

/// Whatever is replied, and however often: a request for a sandbox is answered
/// with an id only where the pod had a ready sandbox of that id, or where a new
/// one was made whole. Then its microVM was made in the network that was set up
/// for it, with the disks that were made for it, of the type that was asked
/// for, was waited for, and the record that was stored names all of these. On
/// the way back, too, what is given back is what was made.
#[verifier::rlimit(30)]
pub proof fn run_makes_a_sandbox_whole(
    start: RunSandboxView,
    replies: Seq<(ManagerReplyView, i64)>,
)
    requires
        start.phase == RunPhaseView::Lock,
    ensures
        ran(start, replies).req == start.req,
        ran(start, replies).cfg == start.cfg,
        run_came_to(run_log(start, replies), ran(start, replies)),
    decreases replies.len(),
{
    if replies.len() > 0 {
        run_makes_a_sandbox_whole(start, replies.drop_last());
        let s = ran(start, replies.drop_last());
        let l = run_log(start, replies.drop_last());
        let x = (s.wants(), replies.last().0);
        let m = l.push(x);
        let req = start.req;
        push_keeps(l, x);
        success_is_one(x.1);
        match s.phase {
            RunPhaseView::DeleteVm(id, net, disk, vm, _) => {
                assert(has_net(m, req, id, net) && has_disk(m, req, id, disk));
                assert(made_disks(m, req, net, disk));
            },
            RunPhaseView::Cleanup(net, disk, _) => {
                let id = choose|id: Seq<char>|
                    #[trigger] has_net(l, req, id, net) && has_disk(l, req, id, disk);
                assert(has_net(m, req, id, net) && has_disk(m, req, id, disk));
                assert(made_disks(m, req, net, disk));
                assert(made_net(m, req, net));
            },
            RunPhaseView::Teardown(net, _) => {
                let id = choose|id: Seq<char>| #[trigger] has_net(l, req, id, net);
                assert(has_net(m, req, id, net));
                assert(made_net(m, req, net));
            },
            RunPhaseView::CreateVm(id, net, disk) => {
                assert(has_net(m, req, id, net) && has_disk(m, req, id, disk));
                assert(made_disks(m, req, net, disk));
            },
            RunPhaseView::Provision(id, net) => {
                assert(has_net(m, req, id, net));
                assert(made_net(m, req, net));
            },
            RunPhaseView::Put(rec, net, disk, vm) => {
                if let ManagerReplyView::Stored(Ok(_)) = x.1 {
                    assert(x.1 == ManagerReplyView::Stored(Ok(())));
                    assert(x.0 == ManagerActionView::PutSandbox(rec));
                    assert(m.contains(
                        (ManagerActionView::PutSandbox(rec), ManagerReplyView::Stored(Ok(()))),
                    ));
                    assert(made_whole(m, req, rec.sandbox_id, net, disk, vm, rec));
                    assert(has_sandbox(m, req, rec.sandbox_id));
                    assert(ran(start, replies).phase == RunPhaseView::Done(Ok(rec.sandbox_id)));
                }
            },
            RunPhaseView::Find => {
                if let ManagerReplyView::Found(Ok(Some(found))) = x.1 {
                    if found.state == SandboxState::Ready {
                        assert(had_one(m, req, found));
                    }
                }
            },
            RunPhaseView::Done(Ok(id)) => {
                if exists|found: SandboxRecordView|
                    #[trigger] had_one(l, req, found) && found.sandbox_id == id {
                    let found = choose|found: SandboxRecordView|
                        #[trigger] had_one(l, req, found) && found.sandbox_id == id;
                    assert(had_one(m, req, found));
                } else {
                    let (net, disk, vm, rec) = choose|
                        net: NetConfigView,
                        disk: DiskConfigView,
                        vm: VmId,
                        rec: SandboxRecordView,
                    | #[trigger]
                        made_whole(l, req, id, net, disk, vm, rec);
                    assert(made_whole(m, req, id, net, disk, vm, rec));
                }
            },
            _ => {},
        }
    }
}

/// The error that a request for a sandbox will be answered with, once it is
/// known.
pub open spec fn run_error(p: RunPhaseView) -> Option<OasErrorView> {
    match p {
        RunPhaseView::DeleteVm(_, _, _, _, e) => Some(e),
        RunPhaseView::Cleanup(_, _, e) => Some(e),
        RunPhaseView::Teardown(_, e) => Some(e),
        RunPhaseView::Done(Err(e)) => Some(e),
        _ => None,
    }
}

/// The first error is the answer: nothing on the way back changes it. And only
/// a failure leads there: a reply that tells success never does, unless the pod
/// has a sandbox that is not ready or the request is refused.
pub proof fn the_first_error_is_the_answer(s: RunSandboxView, reply: ManagerReplyView, now: i64)
    ensures
        run_error(s.phase) is Some ==> run_error(s.after(reply, now)) == run_error(s.phase),
        run_error(s.phase) is None && run_error(s.after(reply, now)) is Some ==> {
            ||| reply matches ManagerReplyView::Found(_)
            ||| reply matches ManagerReplyView::Net(Err(_))
            ||| reply matches ManagerReplyView::Disk(Err(_))
            ||| reply matches ManagerReplyView::Vm(Err(_))
            ||| reply matches ManagerReplyView::Ready(Err(_))
            ||| reply matches ManagerReplyView::Stored(Err(_))
        },
        // A failure that is replied to what was asked is never passed over.
        s.wants() is SetupNet && (reply matches ManagerReplyView::Net(Err(_))) ==> run_error(
            s.after(reply, now),
        ) is Some,
        s.wants() is Provision && (reply matches ManagerReplyView::Disk(Err(_))) ==> run_error(
            s.after(reply, now),
        ) is Some,
        s.wants() is CreateVm && (reply matches ManagerReplyView::Vm(Err(_))) ==> run_error(
            s.after(reply, now),
        ) is Some,
        s.wants() is WaitReady && (reply matches ManagerReplyView::Ready(Err(_))) ==> run_error(
            s.after(reply, now),
        ) is Some,
        s.wants() is PutSandbox && (reply matches ManagerReplyView::Stored(Err(_))) ==> run_error(
            s.after(reply, now),
        ) is Some,
{
}

/// A request for a pod without a sandbox goes on just where there is a type
/// with the number that was asked for, and a cloud disk is named just where
/// that type has one; otherwise the request itself is at fault.
pub proof fn run_is_refused_by_its_type(s: RunSandboxView, now: i64)
    requires
        s.phase == RunPhaseView::Find,
    ensures
        ({
            let next = s.after(ManagerReplyView::Found(Ok(None)), now);
            let ty = s.cfg.get_type(s.req.type_id);
            &&& next == RunPhaseView::NewId <==> ty is Some && (ty.unwrap().has_cloud_disk
                <==> s.req.cloud_disk_ref is Some)
            &&& next != RunPhaseView::NewId ==> {
                &&& next matches RunPhaseView::Done(Err(OasErrorView::InvalidArgument(_)))
            }
        }),
{
}

/// The stop of a sandbox after a number of replies.
pub open spec fn stopping(s: StopSandboxView, replies: Seq<ManagerReplyView>) -> StopSandboxView
    decreases replies.len(),
{
    if replies.len() == 0 {
        s
    } else {
        let b = stopping(s, replies.drop_last());
        StopSandboxView { phase: b.after(replies.last()), ..b }
    }
}

/// What the stop of a sandbox has asked for and was replied.
pub open spec fn stop_log(s: StopSandboxView, replies: Seq<ManagerReplyView>) -> Log
    decreases replies.len(),
{
    if replies.len() == 0 {
        seq![]
    } else {
        stop_log(s, replies.drop_last()).push(
            (stopping(s, replies.drop_last()).wants(), replies.last()),
        )
    }
}

/// Whether the record of the sandbox was read under its lock, and its microVM
/// was deleted.
pub open spec fn vm_deleted(log: Log, id: Seq<char>, rec: SandboxRecordView) -> bool {
    &&& log.contains((ManagerActionView::Lock(id), ManagerReplyView::Done))
    &&& log.contains((ManagerActionView::ReadSandbox(id), ManagerReplyView::Sandbox(Ok(rec))))
    &&& log.contains(
        (
            ManagerActionView::DeleteVm { sandbox_id: rec.sandbox_id, vm_id: VmId(rec.vm_id) },
            ManagerReplyView::Done,
        ),
    )
}

/// Whether a network is the one that a record names, with the address of the
/// record as the lease that is to be given back.
pub open spec fn is_net_of(net: NetConfigView, rec: SandboxRecordView) -> bool {
    &&& net.netns_path == rec.netns_path
    &&& net.tap_name == rec.tap_name
    &&& net.mac == rec.mac
    &&& net.pod_ip == rec.pod_ip
    &&& net.gateway == rec.gateway
    &&& net.host_veth == rec.host_veth
    &&& net.lease.ip == rec.pod_ip
    &&& net.lease.sandbox_id == rec.sandbox_id
}

/// Whether the network of the record was taken down.
pub open spec fn net_down(log: Log, rec: SandboxRecordView, net: NetConfigView) -> bool {
    &&& is_net_of(net, rec)
    &&& log.contains((ManagerActionView::TeardownNet(net), ManagerReplyView::Done))
}

/// What was asked and replied by the time that the stop of a sandbox has come
/// to a phase.
pub open spec fn stop_came_to(log: Log, s: StopSandboxView) -> bool {
    let id = s.sandbox_id;
    match s.phase {
        StopPhaseView::Lock => true,
        StopPhaseView::Read => log.contains((ManagerActionView::Lock(id), ManagerReplyView::Done)),
        StopPhaseView::DeleteVm(rec) => {
            &&& log.contains((ManagerActionView::Lock(id), ManagerReplyView::Done))
            &&& log.contains(
                (ManagerActionView::ReadSandbox(id), ManagerReplyView::Sandbox(Ok(rec))),
            )
        },
        StopPhaseView::Poll(rec, _) => vm_deleted(log, id, rec),
        StopPhaseView::Pause(rec, _) => vm_deleted(log, id, rec),
        StopPhaseView::Teardown(rec) => vm_deleted(log, id, rec),
        StopPhaseView::Put(rec) => vm_deleted(log, id, rec) && exists|net: NetConfigView|
            #[trigger] net_down(log, rec, net),
        StopPhaseView::Done(Ok(_)) => exists|rec: SandboxRecordView, net: NetConfigView|
            #[trigger] net_down(log, rec, net) && vm_deleted(log, id, rec) && log.contains(
                (
                    ManagerActionView::PutSandbox(
                        SandboxRecordView { state: SandboxState::NotReady, ..rec },
                    ),
                    ManagerReplyView::Stored(Ok(())),
                ),
            ),
        StopPhaseView::Done(Err(_)) => true,
    }
}

/// Whatever is replied: a stop is answered with success only where the record
/// of the sandbox was read, the microVM that it names was deleted, the network
/// that it names was taken down with its address as the lease to give back, and
/// the record was stored as not ready and otherwise as it was.
pub proof fn stop_gives_all_back(start: StopSandboxView, replies: Seq<ManagerReplyView>)
    requires
        start.phase == StopPhaseView::Lock,
    ensures
        stopping(start, replies).sandbox_id == start.sandbox_id,
        stop_came_to(stop_log(start, replies), stopping(start, replies)),
    decreases replies.len(),
{
    if replies.len() > 0 {
        stop_gives_all_back(start, replies.drop_last());
        let s = stopping(start, replies.drop_last());
        let l = stop_log(start, replies.drop_last());
        let x = (s.wants(), replies.last());
        let m = l.push(x);
        let id = start.sandbox_id;
        push_keeps(l, x);
        success_is_one(x.1);
        match s.phase {
            StopPhaseView::Teardown(rec) => {
                if x.1 is Done {
                    let net = x.0->TeardownNet_0;
                    assert(net_down(m, rec, net));
                }
            },
            StopPhaseView::Put(rec) => {
                let net = choose|net: NetConfigView| #[trigger] net_down(l, rec, net);
                assert(net_down(m, rec, net));
                assert(vm_deleted(m, id, rec));
            },
            StopPhaseView::Done(Ok(_)) => {
                let (rec, net) = choose|rec: SandboxRecordView, net: NetConfigView|
                    #[trigger] net_down(l, rec, net) && vm_deleted(l, id, rec) && l.contains(
                        (
                            ManagerActionView::PutSandbox(
                                SandboxRecordView { state: SandboxState::NotReady, ..rec },
                            ),
                            ManagerReplyView::Stored(Ok(())),
                        ),
                    );
                assert(net_down(m, rec, net));
                assert(vm_deleted(m, id, rec));
            },
            _ => {},
        }
    }
}

/// What the stop of a sandbox gives back is what the run of it took: of the
/// network that was built for the run, named by the record that the run stored,
/// namespace, device and link are the ones that are taken down, and the leased
/// address is the one that is given back. It is free in the store afterwards,
/// and no other address is.
pub proof fn stop_gives_back_what_run_took(
    cfg: ConfigView,
    id: Seq<char>,
    lease: crate::types::IpLeaseView,
    net: NetConfigView,
    req: CreateSandboxRequestView,
    disk: DiskConfigView,
    vm: VmId,
    rec: SandboxRecordView,
    s: StopSandboxView,
    t: TablesView,
)
    requires
        crate::net::setup::plan_for(cfg, id, lease).result == Ok::<
            NetConfigView,
            crate::net::NetErrorView,
        >(net),
        names_all(rec, req, id, net, disk, vm),
        s.phase == StopPhaseView::Teardown(rec),
    ensures
        s.wants() is TeardownNet,
        ({
            let gone = s.wants()->TeardownNet_0;
            let u = t.release(gone.lease.ip);
            &&& gone.lease.ip == lease.ip
            &&& gone.lease.ip == net.lease.ip
            &&& gone.lease.sandbox_id == id
            &&& gone.pod_ip == net.pod_ip
            &&& gone.netns_path == net.netns_path
            &&& gone.tap_name == net.tap_name
            &&& gone.host_veth == net.host_veth
            &&& !u.leases.contains_key(lease.ip)
            &&& forall|ip: Seq<char>|
                ip != lease.ip ==> (#[trigger] u.leases.contains_key(ip) == t.leases.contains_key(
                    ip,
                ))
        }),
{
}

/// The removal of a sandbox after a number of replies.
pub open spec fn removing(s: RemoveSandboxView, replies: Seq<ManagerReplyView>) -> RemoveSandboxView
    decreases replies.len(),
{
    if replies.len() == 0 {
        s
    } else {
        let b = removing(s, replies.drop_last());
        RemoveSandboxView { phase: b.after(replies.last()), ..b }
    }
}

/// What the removal of a sandbox has asked for and was replied.
pub open spec fn remove_log(s: RemoveSandboxView, replies: Seq<ManagerReplyView>) -> Log
    decreases replies.len(),
{
    if replies.len() == 0 {
        seq![]
    } else {
        remove_log(s, replies.drop_last()).push(
            (removing(s, replies.drop_last()).wants(), replies.last()),
        )
    }
}

/// Whether the disks that the record of the sandbox names were cleaned up.
pub open spec fn disks_gone(log: Log, id: Seq<char>, rec: SandboxRecordView) -> bool {
    &&& log.contains((ManagerActionView::Lock(id), ManagerReplyView::Done))
    &&& log.contains((ManagerActionView::ReadSandbox(id), ManagerReplyView::Sandbox(Ok(rec))))
    &&& log.contains(
        (
            ManagerActionView::CleanupDisk(
                DiskConfigView {
                    rw_layer_path: rec.rw_layer_path,
                    cloud_disk_dev: rec.cloud_disk_dev,
                },
            ),
            ManagerReplyView::Done,
        ),
    )
}

/// Whether the sandbox was not there.
pub open spec fn was_missing(log: Log, id: Seq<char>, m: Seq<char>) -> bool {
    log.contains(
        (
            ManagerActionView::ReadSandbox(id),
            ManagerReplyView::Sandbox(Err(StoreErrorView::NotFound(m))),
        ),
    )
}

/// What was asked and replied by the time that the removal of a sandbox has
/// come to a phase.
pub open spec fn remove_came_to(log: Log, s: RemoveSandboxView) -> bool {
    let id = s.sandbox_id;
    match s.phase {
        RemovePhaseView::Lock => true,
        RemovePhaseView::Read => log.contains(
            (ManagerActionView::Lock(id), ManagerReplyView::Done),
        ),
        RemovePhaseView::Cleanup(disk) => {
            &&& log.contains((ManagerActionView::Lock(id), ManagerReplyView::Done))
            &&& exists|rec: SandboxRecordView|
                {
                    &&& #[trigger] log.contains(
                        (ManagerActionView::ReadSandbox(id), ManagerReplyView::Sandbox(Ok(rec))),
                    )
                    &&& disk.rw_layer_path == rec.rw_layer_path
                    &&& disk.cloud_disk_dev == rec.cloud_disk_dev
                }
        },
        RemovePhaseView::Delete => exists|rec: SandboxRecordView| #[trigger]
            disks_gone(log, id, rec),
        RemovePhaseView::Done(Ok(_)) => {
            ||| exists|m: Seq<char>| #[trigger] was_missing(log, id, m)
            ||| exists|rec: SandboxRecordView|
                #[trigger] disks_gone(log, id, rec) && log.contains(
                    (ManagerActionView::DeleteSandbox(id), ManagerReplyView::Stored(Ok(()))),
                )
        },
        RemovePhaseView::Done(Err(_)) => true,
    }
}

/// Whatever is replied: a removal is answered with success only where the
/// sandbox was not there, or where the disks that its record names were cleaned
/// up and the record was deleted.
#[verifier::rlimit(30)]
pub proof fn remove_takes_disks_and_record(start: RemoveSandboxView, replies: Seq<ManagerReplyView>)
    requires
        start.phase == RemovePhaseView::Lock,
    ensures
        removing(start, replies).sandbox_id == start.sandbox_id,
        remove_came_to(remove_log(start, replies), removing(start, replies)),
    decreases replies.len(),
{
    if replies.len() > 0 {
        remove_takes_disks_and_record(start, replies.drop_last());
        let s = removing(start, replies.drop_last());
        let l = remove_log(start, replies.drop_last());
        let x = (s.wants(), replies.last());
        let m = l.push(x);
        let id = start.sandbox_id;
        push_keeps(l, x);
        success_is_one(x.1);
        match s.phase {
            RemovePhaseView::Read => {
                match x.1 {
                    ManagerReplyView::Sandbox(Ok(rec)) => {
                        assert(m.contains(
                            (ManagerActionView::ReadSandbox(id), ManagerReplyView::Sandbox(Ok(rec))),
                        ));
                    },
                    ManagerReplyView::Sandbox(Err(StoreErrorView::NotFound(e))) => {
                        assert(was_missing(m, id, e));
                    },
                    _ => {},
                }
            },
            RemovePhaseView::Cleanup(disk) => {
                let rec = choose|rec: SandboxRecordView|
                    {
                        &&& #[trigger] l.contains(
                            (ManagerActionView::ReadSandbox(id), ManagerReplyView::Sandbox(Ok(rec))),
                        )
                        &&& disk.rw_layer_path == rec.rw_layer_path
                        &&& disk.cloud_disk_dev == rec.cloud_disk_dev
                    };
                assert(m.contains(
                    (ManagerActionView::ReadSandbox(id), ManagerReplyView::Sandbox(Ok(rec))),
                ));
                if x.1 is Done {
                    assert(disks_gone(m, id, rec));
                }
            },
            RemovePhaseView::Delete => {
                let rec = choose|rec: SandboxRecordView| #[trigger] disks_gone(l, id, rec);
                assert(disks_gone(m, id, rec));
            },
            RemovePhaseView::Done(Ok(_)) => {
                if exists|e: Seq<char>| #[trigger] was_missing(l, id, e) {
                    let e = choose|e: Seq<char>| #[trigger] was_missing(l, id, e);
                    assert(was_missing(m, id, e));
                } else {
                    let rec = choose|rec: SandboxRecordView|
                        #[trigger] disks_gone(l, id, rec) && l.contains(
                            (ManagerActionView::DeleteSandbox(id), ManagerReplyView::Stored(Ok(()))),
                        );
                    assert(disks_gone(m, id, rec));
                }
            },
            _ => {},
        }
    }
}

/// A request for a container after a number of replies.
pub open spec fn creating(
    s: CreateContainerView,
    replies: Seq<(ManagerReplyView, i64)>,
) -> CreateContainerView
    decreases replies.len(),
{
    if replies.len() == 0 {
        s
    } else {
        let b = creating(s, replies.drop_last());
        CreateContainerView { phase: b.after(replies.last().0, replies.last().1), ..b }
    }
}

/// What a request for a container has asked for and was replied.
pub open spec fn create_log(
    s: CreateContainerView,
    replies: Seq<(ManagerReplyView, i64)>,
) -> Log
    decreases replies.len(),
{
    if replies.len() == 0 {
        seq![]
    } else {
        create_log(s, replies.drop_last()).push(
            (creating(s, replies.drop_last()).wants(), replies.last().0),
        )
    }
}

/// Whether the sandbox of the container was read under its lock, and runs in a
/// microVM.
pub open spec fn in_sandbox(log: Log, req: CreateContainerRequestView, vm: VmId) -> bool {
    &&& log.contains((ManagerActionView::Lock(req.pod_sandbox_id), ManagerReplyView::Done))
    &&& exists|sb: SandboxRecordView|
        #[trigger] log.contains(
            (ManagerActionView::ReadSandbox(req.pod_sandbox_id), ManagerReplyView::Sandbox(Ok(sb))),
        ) && VmId(sb.vm_id) == vm
}

/// Whether a record is that of a container as it was asked for: new, in its
/// sandbox, with all that the request names, and its variables as name, equals
/// sign and value.
pub open spec fn records_request(
    rec: ContainerRecordView,
    req: CreateContainerRequestView,
    id: Seq<char>,
) -> bool {
    &&& rec.container_id == id
    &&& rec.sandbox_id == req.pod_sandbox_id
    &&& rec.metadata == req.metadata
    &&& rec.image == req.image
    &&& rec.command == req.command
    &&& rec.args == req.args
    &&& rec.mounts == req.mounts
    &&& rec.resources == req.resources
    &&& rec.labels == req.labels
    &&& rec.annotations == req.annotations
    &&& rec.env.len() == req.envs.len()
    &&& forall|i: int|
        0 <= i < rec.env.len() ==> #[trigger] rec.env[i] == req.envs[i].key + "="@
            + req.envs[i].value
    &&& rec.state == ContainerState::Created
    &&& rec.started_at is None
    &&& rec.finished_at is None
    &&& rec.exit_code == 0
    &&& rec.reason is None
}

/// Whether a container got its id, and its record was stored.
pub open spec fn recorded(
    log: Log,
    req: CreateContainerRequestView,
    vm: VmId,
    rec: ContainerRecordView,
) -> bool {
    &&& in_sandbox(log, req, vm)
    &&& log.contains((ManagerActionView::NewContainerId, ManagerReplyView::Id(rec.container_id)))
    &&& records_request(rec, req, rec.container_id)
    &&& log.contains((ManagerActionView::PutContainer(rec), ManagerReplyView::Stored(Ok(()))))
}

/// Whether the microVM of the sandbox took the process that was asked for.
pub open spec fn taken_in(
    log: Log,
    req: CreateContainerRequestView,
    vm: VmId,
    rec: ContainerRecordView,
) -> bool {
    &&& recorded(log, req, vm, rec)
    &&& log.contains(
        (
            ManagerActionView::CreateContainer {
                sandbox_id: req.pod_sandbox_id,
                vm_id: vm,
                container_id: rec.container_id,
                process: ContainerSpecView {
                    command: req.command,
                    args: req.args,
                    env: rec.env,
                    cwd: req.working_dir,
                },
            },
            ManagerReplyView::Driver(Ok(())),
        ),
    )
}

/// Whether a container was made whole.
pub open spec fn has_container(log: Log, req: CreateContainerRequestView, id: Seq<char>) -> bool {
    exists|vm: VmId, rec: ContainerRecordView|
        #[trigger] taken_in(log, req, vm, rec) && rec.container_id == id
}

/// Whether a container whose record was stored was not taken in.
pub open spec fn was_recorded(log: Log, req: CreateContainerRequestView, id: Seq<char>) -> bool {
    exists|vm: VmId, rec: ContainerRecordView|
        #[trigger] recorded(log, req, vm, rec) && rec.container_id == id
}

/// What was asked and replied by the time that a request for a container has
/// come to a phase.
pub open spec fn create_came_to(log: Log, s: CreateContainerView) -> bool {
    let req = s.req;
    match s.phase {
        CreateCtPhaseView::Lock => true,
        CreateCtPhaseView::Sandbox => log.contains(
            (ManagerActionView::Lock(req.pod_sandbox_id), ManagerReplyView::Done),
        ),
        CreateCtPhaseView::NewId(vm) => in_sandbox(log, req, vm),
        CreateCtPhaseView::Put(vm, rec) => {
            &&& in_sandbox(log, req, vm)
            &&& log.contains(
                (ManagerActionView::NewContainerId, ManagerReplyView::Id(rec.container_id)),
            )
            &&& records_request(rec, req, rec.container_id)
        },
        CreateCtPhaseView::Driver(vm, rec) => recorded(log, req, vm, rec),
        CreateCtPhaseView::Undo(id, _) => was_recorded(log, req, id),
        CreateCtPhaseView::Done(Ok(id)) => has_container(log, req, id),
        CreateCtPhaseView::Done(Err(_)) => true,
    }
}

/// Whatever is replied: a request for a container is answered with an id only
/// where its sandbox was read, a record of that id was stored that has all that
/// the request names, and the microVM of that sandbox took in the process that
/// was asked for under that id. Where a record is taken back, it is the one
/// that was stored.
#[verifier::rlimit(30)]
pub proof fn create_makes_a_container_whole(
    start: CreateContainerView,
    replies: Seq<(ManagerReplyView, i64)>,
)
    requires
        start.phase == CreateCtPhaseView::Lock,
    ensures
        creating(start, replies).req == start.req,
        creating(start, replies).cfg == start.cfg,
        create_came_to(create_log(start, replies), creating(start, replies)),
    decreases replies.len(),
{
    if replies.len() > 0 {
        create_makes_a_container_whole(start, replies.drop_last());
        let s = creating(start, replies.drop_last());
        let l = create_log(start, replies.drop_last());
        let x = (s.wants(), replies.last().0);
        let m = l.push(x);
        let req = start.req;
        push_keeps(l, x);
        success_is_one(x.1);
        assert forall|vm: VmId| #[trigger] in_sandbox(l, req, vm) implies in_sandbox(m, req, vm) by {
            let sb = choose|sb: SandboxRecordView|
                #[trigger] l.contains(
                    (
                        ManagerActionView::ReadSandbox(req.pod_sandbox_id),
                        ManagerReplyView::Sandbox(Ok(sb)),
                    ),
                ) && VmId(sb.vm_id) == vm;
            assert(m.contains(
                (
                    ManagerActionView::ReadSandbox(req.pod_sandbox_id),
                    ManagerReplyView::Sandbox(Ok(sb)),
                ),
            ));
        }
        match s.phase {
            CreateCtPhaseView::Sandbox => {
                if let ManagerReplyView::Sandbox(Ok(sb)) = x.1 {
                    assert(m.contains(
                        (
                            ManagerActionView::ReadSandbox(req.pod_sandbox_id),
                            ManagerReplyView::Sandbox(Ok(sb)),
                        ),
                    ));
                    assert(in_sandbox(m, req, VmId(sb.vm_id)));
                }
            },
            CreateCtPhaseView::NewId(vm) => {
                assert(in_sandbox(m, req, vm));
            },
            CreateCtPhaseView::Put(vm, rec) => {
                assert(in_sandbox(m, req, vm));
            },
            CreateCtPhaseView::Driver(vm, rec) => {
                assert(recorded(m, req, vm, rec));
                assert(was_recorded(m, req, rec.container_id));
                if let ManagerReplyView::Driver(Ok(_)) = x.1 {
                    assert(taken_in(m, req, vm, rec));
                    assert(has_container(m, req, rec.container_id));
                }
            },
            CreateCtPhaseView::Undo(id, _) => {
                let (vm, rec) = choose|vm: VmId, rec: ContainerRecordView|
                    #[trigger] recorded(l, req, vm, rec) && rec.container_id == id;
                assert(recorded(m, req, vm, rec));
                assert(was_recorded(m, req, id));
            },
            CreateCtPhaseView::Done(Ok(id)) => {
                let (vm, rec) = choose|vm: VmId, rec: ContainerRecordView|
                    #[trigger] taken_in(l, req, vm, rec) && rec.container_id == id;
                assert(taken_in(m, req, vm, rec));
                assert(has_container(m, req, id));
            },
            _ => {},
        }
    }
}

/// A request for a container in a sandbox goes on just where the sandbox has a
/// type, the type has an image of the same name as the one asked for, no more
/// memory is asked for than the type has mebibytes of 1048576 bytes, and no
/// more processor shares than 1024 for each of its processors. Of the refusals,
/// that of an image tells the image, and that of a resource is a mismatch with
/// the type.
pub proof fn create_is_refused_by_the_type(
    s: CreateContainerView,
    sb: SandboxRecordView,
    now: i64,
)
    requires
        s.phase == CreateCtPhaseView::Sandbox,
    ensures
        ({
            let next = s.after(ManagerReplyView::Sandbox(Ok(sb)), now);
            let want = s.req.resources;
            match s.cfg.get_type(sb.type_id) {
                None => next matches CreateCtPhaseView::Done(Err(OasErrorView::InvalidArgument(_))),
                Some(ty) => {
                    let named = exists|i: int|
                        0 <= i < ty.image_whitelist.len() && crate::config::base_name(
                            #[trigger] ty.image_whitelist[i],
                        ) == crate::config::base_name(s.req.image);
                    let memory = want.memory_limit_bytes is Some
                        && want.memory_limit_bytes.unwrap() > ty.mem_mib * 1048576;
                    let shares = want.cpu_shares is Some && want.cpu_shares.unwrap() > ty.vcpu
                        * 1024;
                    &&& next == CreateCtPhaseView::NewId(VmId(sb.vm_id)) <==> named && !memory
                        && !shares
                    &&& !named ==> next == CreateCtPhaseView::Done(
                        Err(OasErrorView::ImageNotInList(s.req.image)),
                    )
                    &&& named && (memory || shares) ==> {
                        next matches CreateCtPhaseView::Done(Err(OasErrorView::TypeMismatch(_)))
                    }
                    &&& named && !memory && want.cpu_shares is Some && ty.vcpu >= 1
                        && want.cpu_shares.unwrap() <= 1024 ==> next == CreateCtPhaseView::NewId(
                        VmId(sb.vm_id),
                    )
                },
            }
        }),
{
}

/// The start of a container after a number of replies.
pub open spec fn starting(
    s: StartContainerView,
    replies: Seq<(ManagerReplyView, i64)>,
) -> StartContainerView
    decreases replies.len(),
{
    if replies.len() == 0 {
        s
    } else {
        let b = starting(s, replies.drop_last());
        StartContainerView { phase: b.after(replies.last().0, replies.last().1), ..b }
    }
}

/// What the start of a container has asked for and was replied.
pub open spec fn start_log(s: StartContainerView, replies: Seq<(ManagerReplyView, i64)>) -> Log
    decreases replies.len(),
{
    if replies.len() == 0 {
        seq![]
    } else {
        start_log(s, replies.drop_last()).push(
            (starting(s, replies.drop_last()).wants(), replies.last().0),
        )
    }
}

/// Whether a container was read under the lock of its sandbox.
pub open spec fn read_locked(log: Log, id: Seq<char>, c: ContainerRecordView) -> bool {
    &&& exists|sid: Seq<char>| #[trigger]
        log.contains((ManagerActionView::Lock(sid), ManagerReplyView::Done))
    &&& log.contains((ManagerActionView::ReadContainer(id), ManagerReplyView::Container(Ok(c))))
}

/// Whether the microVM of a container's sandbox is known.
pub open spec fn vm_known(log: Log, sandbox_id: Seq<char>, vm: VmId) -> bool {
    exists|sb: SandboxRecordView|
        #[trigger] log.contains(
            (ManagerActionView::ReadSandbox(sandbox_id), ManagerReplyView::Sandbox(Ok(sb))),
        ) && VmId(sb.vm_id) == vm
}

/// Whether a new container was started by the microVM of its sandbox.
pub open spec fn was_started(log: Log, id: Seq<char>, c: ContainerRecordView, vm: VmId) -> bool {
    &&& read_locked(log, id, c)
    &&& c.state == ContainerState::Created
    &&& vm_known(log, c.sandbox_id, vm)
    &&& log.contains(
        (
            ManagerActionView::StartContainer {
                sandbox_id: c.sandbox_id,
                vm_id: vm,
                container_id: id,
            },
            ManagerReplyView::Driver(Ok(())),
        ),
    )
}

/// Whether a record is another one as running since some time.
pub open spec fn runs_since(d: ContainerRecordView, c: ContainerRecordView) -> bool {
    &&& d.started_at is Some
    &&& d == (ContainerRecordView {
        state: ContainerState::Running,
        started_at: d.started_at,
        ..c
    })
}

/// Whether a container that was started has its record stored as running.
pub open spec fn start_noted(
    log: Log,
    id: Seq<char>,
    c: ContainerRecordView,
    vm: VmId,
    d: ContainerRecordView,
) -> bool {
    &&& was_started(log, id, c, vm)
    &&& runs_since(d, c)
    &&& log.contains((ManagerActionView::PutContainer(d), ManagerReplyView::Stored(Ok(()))))
}

/// Whether a container runs: it did already, or it was started.
pub open spec fn is_running(log: Log, id: Seq<char>) -> bool {
    ||| exists|c: ContainerRecordView|
        #[trigger] read_locked(log, id, c) && c.state == ContainerState::Running
    ||| exists|c: ContainerRecordView, vm: VmId, d: ContainerRecordView| #[trigger]
        start_noted(log, id, c, vm, d)
}

/// Whether the record that is about to be stored is that of a container that
/// was started.
pub open spec fn start_due(log: Log, id: Seq<char>, d: ContainerRecordView) -> bool {
    exists|c: ContainerRecordView, vm: VmId|
        #[trigger] was_started(log, id, c, vm) && runs_since(d, c)
}

/// What was asked and replied by the time that the start of a container has
/// come to a phase.
pub open spec fn start_came_to(log: Log, s: StartContainerView) -> bool {
    let id = s.container_id;
    match s.phase {
        StartPhaseView::Read => exists|sid: Seq<char>| #[trigger]
            log.contains((ManagerActionView::Lock(sid), ManagerReplyView::Done)),
        StartPhaseView::Sandbox(c) => read_locked(log, id, c) && c.state
            == ContainerState::Created,
        StartPhaseView::Driver(c, vm) => {
            &&& read_locked(log, id, c)
            &&& c.state == ContainerState::Created
            &&& vm_known(log, c.sandbox_id, vm)
        },
        StartPhaseView::Put(d) => start_due(log, id, d),
        StartPhaseView::Done(Ok(_)) => is_running(log, id),
        _ => true,
    }
}

proof fn reads_stay(l: Log, x: (ManagerActionView, ManagerReplyView), id: Seq<char>)
    ensures
        forall|c: ContainerRecordView| #[trigger]
            read_locked(l, id, c) ==> read_locked(l.push(x), id, c),
        forall|sid: Seq<char>, vm: VmId| #[trigger]
            vm_known(l, sid, vm) ==> vm_known(l.push(x), sid, vm),
{
    let m = l.push(x);
    push_keeps(l, x);
    assert forall|c: ContainerRecordView| #[trigger] read_locked(l, id, c) implies read_locked(
        m,
        id,
        c,
    ) by {
        let sid = choose|sid: Seq<char>| #[trigger]
            l.contains((ManagerActionView::Lock(sid), ManagerReplyView::Done));
        assert(m.contains((ManagerActionView::Lock(sid), ManagerReplyView::Done)));
    }
    assert forall|sid: Seq<char>, vm: VmId| #[trigger] vm_known(l, sid, vm) implies vm_known(
        m,
        sid,
        vm,
    ) by {
        let sb = choose|sb: SandboxRecordView|
            #[trigger] l.contains(
                (ManagerActionView::ReadSandbox(sid), ManagerReplyView::Sandbox(Ok(sb))),
            ) && VmId(sb.vm_id) == vm;
        assert(m.contains(
            (ManagerActionView::ReadSandbox(sid), ManagerReplyView::Sandbox(Ok(sb))),
        ));
    }
}

/// Whatever is replied: a start is answered with success only where the
/// container was read under a lock and runs already, or where it was new, the
/// microVM of its sandbox started it, and its record was stored as running and
/// otherwise as it was.
#[verifier::rlimit(30)]
pub proof fn start_runs_a_container(
    start: StartContainerView,
    replies: Seq<(ManagerReplyView, i64)>,
)
    requires
        start.phase == StartPhaseView::First,
    ensures
        starting(start, replies).container_id == start.container_id,
        start_came_to(start_log(start, replies), starting(start, replies)),
    decreases replies.len(),
{
    if replies.len() > 0 {
        start_runs_a_container(start, replies.drop_last());
        let s = starting(start, replies.drop_last());
        let l = start_log(start, replies.drop_last());
        let x = (s.wants(), replies.last().0);
        let m = l.push(x);
        let id = start.container_id;
        push_keeps(l, x);
        success_is_one(x.1);
        reads_stay(l, x, id);
        match s.phase {
            StartPhaseView::Lock(sid) => {
                if x.1 is Done {
                    assert(m.contains((ManagerActionView::Lock(sid), ManagerReplyView::Done)));
                }
            },
            StartPhaseView::Read => {
                let sid = choose|sid: Seq<char>| #[trigger]
                    l.contains((ManagerActionView::Lock(sid), ManagerReplyView::Done));
                assert(m.contains((ManagerActionView::Lock(sid), ManagerReplyView::Done)));
                if let ManagerReplyView::Container(Ok(c)) = x.1 {
                    assert(read_locked(m, id, c));
                    if c.state == ContainerState::Running {
                        assert(is_running(m, id));
                    }
                }
            },
            StartPhaseView::Sandbox(c) => {
                assert(read_locked(m, id, c));
                if let ManagerReplyView::Sandbox(Ok(sb)) = x.1 {
                    assert(m.contains(
                        (
                            ManagerActionView::ReadSandbox(c.sandbox_id),
                            ManagerReplyView::Sandbox(Ok(sb)),
                        ),
                    ));
                    assert(vm_known(m, c.sandbox_id, VmId(sb.vm_id)));
                }
            },
            StartPhaseView::Driver(c, vm) => {
                assert(read_locked(m, id, c));
                assert(vm_known(m, c.sandbox_id, vm));
                if let ManagerReplyView::Driver(Ok(_)) = x.1 {
                    assert(was_started(m, id, c, vm));
                    let d = starting(start, replies).phase->Put_0;
                    assert(runs_since(d, c));
                    assert(start_due(m, id, d));
                }
            },
            StartPhaseView::Put(d) => {
                let (c, vm) = choose|c: ContainerRecordView, vm: VmId|
                    #[trigger] was_started(l, id, c, vm) && runs_since(d, c);
                assert(read_locked(m, id, c));
                assert(vm_known(m, c.sandbox_id, vm));
                assert(was_started(m, id, c, vm));
                assert(start_due(m, id, d));
                if let ManagerReplyView::Stored(Ok(_)) = x.1 {
                    assert(start_noted(m, id, c, vm, d));
                    assert(is_running(m, id));
                }
            },
            StartPhaseView::Done(Ok(_)) => {
                if exists|c: ContainerRecordView|
                    #[trigger] read_locked(l, id, c) && c.state == ContainerState::Running {
                    let c = choose|c: ContainerRecordView|
                        #[trigger] read_locked(l, id, c) && c.state == ContainerState::Running;
                    assert(read_locked(m, id, c));
                } else {
                    let (c, vm, d) = choose|
                        c: ContainerRecordView,
                        vm: VmId,
                        d: ContainerRecordView,
                    | #[trigger]
                        start_noted(l, id, c, vm, d);
                    assert(read_locked(m, id, c));
                    assert(vm_known(m, c.sandbox_id, vm));
                    assert(start_noted(m, id, c, vm, d));
                }
                assert(is_running(m, id));
            },
            _ => {},
        }
    }
}

/// The stop of a container after a number of replies.
pub open spec fn ending(
    s: StopContainerView,
    replies: Seq<(ManagerReplyView, i64)>,
) -> StopContainerView
    decreases replies.len(),
{
    if replies.len() == 0 {
        s
    } else {
        let b = ending(s, replies.drop_last());
        StopContainerView { phase: b.after(replies.last().0, replies.last().1), ..b }
    }
}

/// What the stop of a container has asked for and was replied.
pub open spec fn end_log(s: StopContainerView, replies: Seq<(ManagerReplyView, i64)>) -> Log
    decreases replies.len(),
{
    if replies.len() == 0 {
        seq![]
    } else {
        end_log(s, replies.drop_last()).push(
            (ending(s, replies.drop_last()).wants(), replies.last().0),
        )
    }
}

/// Whether the microVM of the container's sandbox was asked to stop it within
/// the time that was asked for, whatever it said.
pub open spec fn was_stopped(
    log: Log,
    id: Seq<char>,
    timeout: i64,
    c: ContainerRecordView,
    vm: VmId,
) -> bool {
    &&& read_locked(log, id, c)
    &&& c.state != ContainerState::Exited
    &&& vm_known(log, c.sandbox_id, vm)
    &&& exists|r: ManagerReplyView| #[trigger]
        log.contains(
            (
                ManagerActionView::StopContainer {
                    sandbox_id: c.sandbox_id,
                    vm_id: vm,
                    container_id: id,
                    timeout,
                },
                r,
            ),
        )
}

/// Whether a record is another one as ended in order at some time.
pub open spec fn ended_at(d: ContainerRecordView, c: ContainerRecordView) -> bool {
    &&& d.finished_at is Some
    &&& d.exit_code == 0
    &&& d.reason == Some(ContainerExitReason::Completed)
    &&& d == (ContainerRecordView {
        state: ContainerState::Exited,
        finished_at: d.finished_at,
        exit_code: d.exit_code,
        reason: d.reason,
        message: d.message,
        ..c
    })
}

/// Whether a container that was stopped has its record stored as ended.
pub open spec fn end_noted(
    log: Log,
    id: Seq<char>,
    timeout: i64,
    c: ContainerRecordView,
    vm: VmId,
    d: ContainerRecordView,
) -> bool {
    &&& was_stopped(log, id, timeout, c, vm)
    &&& ended_at(d, c)
    &&& log.contains((ManagerActionView::PutContainer(d), ManagerReplyView::Stored(Ok(()))))
}

/// Whether a container has ended: it is not there, it had ended already, or it
/// was stopped.
pub open spec fn has_ended(log: Log, id: Seq<char>, timeout: i64) -> bool {
    ||| exists|e: Seq<char>| #[trigger]
        log.contains(
            (
                ManagerActionView::ReadContainer(id),
                ManagerReplyView::Container(Err(StoreErrorView::NotFound(e))),
            ),
        )
    ||| exists|c: ContainerRecordView|
        #[trigger] read_locked(log, id, c) && c.state == ContainerState::Exited
    ||| exists|c: ContainerRecordView, vm: VmId, d: ContainerRecordView| #[trigger]
        end_noted(log, id, timeout, c, vm, d)
}

/// Whether the record that is about to be stored is that of a container that
/// was stopped.
pub open spec fn end_due(log: Log, id: Seq<char>, timeout: i64, d: ContainerRecordView) -> bool {
    exists|c: ContainerRecordView, vm: VmId|
        #[trigger] was_stopped(log, id, timeout, c, vm) && ended_at(d, c)
}

/// What was asked and replied by the time that the stop of a container has come
/// to a phase.
pub open spec fn end_came_to(log: Log, s: StopContainerView) -> bool {
    let id = s.container_id;
    match s.phase {
        StartPhaseView::Read => exists|sid: Seq<char>| #[trigger]
            log.contains((ManagerActionView::Lock(sid), ManagerReplyView::Done)),
        StartPhaseView::Sandbox(c) => read_locked(log, id, c) && c.state
            != ContainerState::Exited,
        StartPhaseView::Driver(c, vm) => {
            &&& read_locked(log, id, c)
            &&& c.state != ContainerState::Exited
            &&& vm_known(log, c.sandbox_id, vm)
        },
        StartPhaseView::Put(d) => end_due(log, id, s.timeout, d),
        StartPhaseView::Done(Ok(_)) => has_ended(log, id, s.timeout),
        _ => true,
    }
}

proof fn stops_stay(
    l: Log,
    x: (ManagerActionView, ManagerReplyView),
    id: Seq<char>,
    timeout: i64,
)
    ensures
        forall|c: ContainerRecordView, vm: VmId| #[trigger]
            was_stopped(l, id, timeout, c, vm) ==> was_stopped(l.push(x), id, timeout, c, vm),
{
    let m = l.push(x);
    push_keeps(l, x);
    reads_stay(l, x, id);
    assert forall|c: ContainerRecordView, vm: VmId| #[trigger]
        was_stopped(l, id, timeout, c, vm) implies was_stopped(m, id, timeout, c, vm) by {
        assert(read_locked(m, id, c));
        assert(vm_known(m, c.sandbox_id, vm));
        let r = choose|r: ManagerReplyView| #[trigger]
            l.contains(
                (
                    ManagerActionView::StopContainer {
                        sandbox_id: c.sandbox_id,
                        vm_id: vm,
                        container_id: id,
                        timeout,
                    },
                    r,
                ),
            );
        assert(m.contains(
            (
                ManagerActionView::StopContainer {
                    sandbox_id: c.sandbox_id,
                    vm_id: vm,
                    container_id: id,
                    timeout,
                },
                r,
            ),
        ));
    }
}

/// Whatever is replied: a stop is answered with success only where the
/// container is not there or has ended already, or where the microVM of its
/// sandbox was asked to stop it within the given time and its record was stored
/// as ended in order and otherwise as it was.
#[verifier::rlimit(30)]
pub proof fn stop_ends_a_container(
    start: StopContainerView,
    replies: Seq<(ManagerReplyView, i64)>,
)
    requires
        start.phase == StartPhaseView::First,
    ensures
        ending(start, replies).container_id == start.container_id,
        ending(start, replies).timeout == start.timeout,
        end_came_to(end_log(start, replies), ending(start, replies)),
    decreases replies.len(),
{
    if replies.len() > 0 {
        stop_ends_a_container(start, replies.drop_last());
        let s = ending(start, replies.drop_last());
        let l = end_log(start, replies.drop_last());
        let x = (s.wants(), replies.last().0);
        let m = l.push(x);
        let id = start.container_id;
        let timeout = start.timeout;
        push_keeps(l, x);
        success_is_one(x.1);
        reads_stay(l, x, id);
        stops_stay(l, x, id, timeout);
        match s.phase {
            StartPhaseView::First => {
                if let ManagerReplyView::Container(Err(StoreErrorView::NotFound(e))) = x.1 {
                    assert(m.contains(
                        (
                            ManagerActionView::ReadContainer(id),
                            ManagerReplyView::Container(Err(StoreErrorView::NotFound(e))),
                        ),
                    ));
                    assert(has_ended(m, id, timeout));
                }
            },
            StartPhaseView::Lock(sid) => {
                if x.1 is Done {
                    assert(m.contains((ManagerActionView::Lock(sid), ManagerReplyView::Done)));
                }
            },
            StartPhaseView::Read => {
                let sid = choose|sid: Seq<char>| #[trigger]
                    l.contains((ManagerActionView::Lock(sid), ManagerReplyView::Done));
                assert(m.contains((ManagerActionView::Lock(sid), ManagerReplyView::Done)));
                if let ManagerReplyView::Container(Ok(c)) = x.1 {
                    assert(read_locked(m, id, c));
                    if c.state == ContainerState::Exited {
                        assert(has_ended(m, id, timeout));
                    }
                }
            },
            StartPhaseView::Sandbox(c) => {
                assert(read_locked(m, id, c));
                if let ManagerReplyView::Sandbox(Ok(sb)) = x.1 {
                    assert(m.contains(
                        (
                            ManagerActionView::ReadSandbox(c.sandbox_id),
                            ManagerReplyView::Sandbox(Ok(sb)),
                        ),
                    ));
                    assert(vm_known(m, c.sandbox_id, VmId(sb.vm_id)));
                }
            },
            StartPhaseView::Driver(c, vm) => {
                assert(read_locked(m, id, c));
                assert(vm_known(m, c.sandbox_id, vm));
                if x.1 is Driver {
                    assert(m.contains(
                        (
                            ManagerActionView::StopContainer {
                                sandbox_id: c.sandbox_id,
                                vm_id: vm,
                                container_id: id,
                                timeout,
                            },
                            x.1,
                        ),
                    ));
                    assert(was_stopped(m, id, timeout, c, vm));
                    let d = ending(start, replies).phase->Put_0;
                    assert(ended_at(d, c));
                    assert(end_due(m, id, timeout, d));
                }
            },
            StartPhaseView::Put(d) => {
                let (c, vm) = choose|c: ContainerRecordView, vm: VmId|
                    #[trigger] was_stopped(l, id, timeout, c, vm) && ended_at(d, c);
                assert(was_stopped(m, id, timeout, c, vm));
                assert(end_due(m, id, timeout, d));
                if let ManagerReplyView::Stored(Ok(_)) = x.1 {
                    assert(end_noted(m, id, timeout, c, vm, d));
                    assert(has_ended(m, id, timeout));
                }
            },
            StartPhaseView::Done(Ok(_)) => {
                if exists|e: Seq<char>| #[trigger]
                    l.contains(
                        (
                            ManagerActionView::ReadContainer(id),
                            ManagerReplyView::Container(Err(StoreErrorView::NotFound(e))),
                        ),
                    ) {
                    let e = choose|e: Seq<char>| #[trigger]
                        l.contains(
                            (
                                ManagerActionView::ReadContainer(id),
                                ManagerReplyView::Container(Err(StoreErrorView::NotFound(e))),
                            ),
                        );
                    assert(m.contains(
                        (
                            ManagerActionView::ReadContainer(id),
                            ManagerReplyView::Container(Err(StoreErrorView::NotFound(e))),
                        ),
                    ));
                } else if exists|c: ContainerRecordView|
                    #[trigger] read_locked(l, id, c) && c.state == ContainerState::Exited {
                    let c = choose|c: ContainerRecordView|
                        #[trigger] read_locked(l, id, c) && c.state == ContainerState::Exited;
                    assert(read_locked(m, id, c));
                } else {
                    let (c, vm, d) = choose|
                        c: ContainerRecordView,
                        vm: VmId,
                        d: ContainerRecordView,
                    | #[trigger]
                        end_noted(l, id, timeout, c, vm, d);
                    assert(was_stopped(m, id, timeout, c, vm));
                    assert(end_noted(m, id, timeout, c, vm, d));
                }
                assert(has_ended(m, id, timeout));
            },
            _ => {},
        }
    }
}

/// The lock that a request waits for before it changes anything is that of the
/// sandbox it changes: the one that the record of the container names. What the
/// microVM and the store are then told to remove is the container that was
/// asked for, and nothing else.
pub proof fn removal_is_of_one_container(s: RemoveContainerView, reply: ManagerReplyView)
    ensures
        s.phase is First ==> s.wants() == ManagerActionView::ReadContainer(s.container_id),
        s.phase is First && (reply matches ManagerReplyView::Container(Ok(_))) ==> {
            let c = reply->Container_0->Ok_0;
            let locked = RemoveContainerView { phase: s.after(reply), ..s };
            let read = RemoveContainerView { phase: locked.after(ManagerReplyView::Done), ..s };
            &&& locked.wants() == ManagerActionView::Lock(c.sandbox_id)
            &&& read.wants() == ManagerActionView::ReadSandbox(c.sandbox_id)
            &&& forall|sb: SandboxRecordView|
                {
                    let told = RemoveContainerView {
                        phase: #[trigger] read.after(ManagerReplyView::Sandbox(Ok(sb))),
                        ..s
                    };
                    told.wants() == ManagerActionView::RemoveContainer {
                        sandbox_id: c.sandbox_id,
                        vm_id: VmId(sb.vm_id),
                        container_id: s.container_id,
                    }
                }
        },
        s.wants() is RemoveContainer && reply is Driver ==> {
            let next = RemoveContainerView { phase: s.after(reply), ..s };
            next.wants() == ManagerActionView::DeleteContainer(s.container_id)
        },
        s.after(reply) matches RemoveCtPhaseView::Done(Ok(_)) && s.phase !is Done ==> {
            ||| s.wants() == ManagerActionView::DeleteContainer(s.container_id) && (
            reply matches ManagerReplyView::Stored(Ok(_)))
            ||| s.wants() == ManagerActionView::ReadContainer(s.container_id) && (
            reply matches ManagerReplyView::Container(Err(StoreErrorView::NotFound(_))))
        },
{
}

/// A question for a container is answered with the record that was read under
/// its id, and with an error only where it could not be read.
pub proof fn status_tells_the_record_that_was_read(
    s: ContainerStatusView,
    c: ContainerRecordView,
    e: StoreErrorView,
)
    requires
        s.phase is Read,
    ensures
        s.wants() == ManagerActionView::ReadContainer(s.container_id),
        ({
            let next = ContainerStatusView {
                phase: s.after(ManagerReplyView::Container(Ok(c))),
                ..s
            };
            &&& next.wants() == ManagerActionView::ReadSandbox(c.sandbox_id)
            &&& forall|sb: SandboxRecordView|
                {
                    let asked = ContainerStatusView {
                        phase: #[trigger] next.after(ManagerReplyView::Sandbox(Ok(sb))),
                        ..s
                    };
                    &&& asked.wants() == ManagerActionView::ContainerStatus {
                        sandbox_id: c.sandbox_id,
                        vm_id: VmId(sb.vm_id),
                        container_id: s.container_id,
                    }
                    &&& forall|r: Result<(), crate::driver::DriverErrorView>| #[trigger]
                        asked.after(ManagerReplyView::Driver(r)) == StatusPhaseView::Done(Ok(c))
                }
            &&& next.after(ManagerReplyView::Sandbox(Err(e))) == StatusPhaseView::Done(Ok(c))
        }),
        s.after(ManagerReplyView::Container(Err(e))) matches StatusPhaseView::Done(Err(_)),
{
}

/// The stop of a sandbox whose microVM was seen not to have stopped a number of
/// times.
pub open spec fn still_up(s: StopSandboxView, l: VmLifecycle, n: nat) -> StopSandboxView
    decreases n,
{
    if n == 0 {
        s
    } else {
        let b = still_up(s, l, (n - 1) as nat);
        let c = StopSandboxView { phase: b.after(ManagerReplyView::Lifecycle(Ok(l))), ..b };
        StopSandboxView { phase: c.after(ManagerReplyView::Done), ..c }
    }
}

/// A microVM that is to stop is looked at fifty times at most, with a pause after
/// each; then its network is taken down all the same. One that has stopped, or
/// that can no longer be asked, is looked at no more.
pub proof fn a_stop_looks_fifty_times(
    start: StopSandboxView,
    r: SandboxRecordView,
    l: VmLifecycle,
    e: crate::driver::DriverErrorView,
    n: nat,
)
    requires
        start.phase == StopPhaseView::Poll(r, 0),
        l != VmLifecycle::Stopped,
        n <= 50,
    ensures
        n < 50 ==> {
            let s = still_up(start, l, n);
            let paused = StopSandboxView {
                phase: s.after(ManagerReplyView::Lifecycle(Ok(l))),
                ..s
            };
            let ended = StopSandboxView {
                phase: s.after(ManagerReplyView::Lifecycle(Ok(VmLifecycle::Stopped))),
                ..s
            };
            let lost = StopSandboxView {
                phase: s.after(ManagerReplyView::Lifecycle(Err(e))),
                ..s
            };
            &&& s.phase == StopPhaseView::Poll(r, n as u8)
            &&& s.wants() == ManagerActionView::GetVm {
                sandbox_id: r.sandbox_id,
                vm_id: VmId(r.vm_id),
            }
            &&& paused.wants() == ManagerActionView::Pause
            &&& ended.wants() is TeardownNet
            &&& lost.wants() is TeardownNet
        },
        n == 50 ==> still_up(start, l, n).wants() is TeardownNet,
    decreases n,
{
    if n > 0 {
        a_stop_looks_fifty_times(start, r, l, e, (n - 1) as nat);
    }
}

/// The times in a record are those at which it came about: a sandbox is noted as
/// made when it was found ready, a container when it got its id, its start when
/// its microVM started it, and its end when its microVM was asked to stop it.
pub proof fn records_have_the_time_of_the_event(
    run: RunSandboxView,
    create: CreateContainerView,
    start: StartContainerView,
    stop: StopContainerView,
    id: Seq<char>,
    now: i64,
    r: Result<(), crate::driver::DriverErrorView>,
)
    ensures
        run.phase is Ready ==> (run.after(ManagerReplyView::Ready(Ok(())), now) matches RunPhaseView::Put(
            rec,
            _,
            _,
            _,
        ) && rec.created_at == now),
        create.phase is NewId ==> (create.after(
            ManagerReplyView::Id(id),
            now,
        ) matches CreateCtPhaseView::Put(_, rec) && rec.created_at == now),
        start.phase is Driver ==> (start.after(
            ManagerReplyView::Driver(Ok(())),
            now,
        ) matches StartPhaseView::Put(rec) && rec.started_at == Some(now)),
        stop.phase is Driver ==> (stop.after(
            ManagerReplyView::Driver(r),
            now,
        ) matches StartPhaseView::Put(rec) && rec.finished_at == Some(now)),
{
}

/// A container that its microVM does not take is taken back: its record is
/// deleted, whatever the store says to that, and the request is answered with
/// the error of the microVM. One whose record cannot be stored is answered with
/// the error of the store, and there is nothing to take back.
pub proof fn a_container_that_is_not_taken_is_taken_back(
    s: CreateContainerView,
    vm: VmId,
    rec: ContainerRecordView,
    e: crate::driver::DriverErrorView,
    f: StoreErrorView,
    stored: Result<(), StoreErrorView>,
    now: i64,
)
    requires
        s.phase == CreateCtPhaseView::Driver(vm, rec),
    ensures
        ({
            let back = CreateContainerView {
                phase: s.after(ManagerReplyView::Driver(Err(e)), now),
                ..s
            };
            let put = CreateContainerView { phase: CreateCtPhaseView::Put(vm, rec), ..s };
            &&& back.wants() == ManagerActionView::DeleteContainer(rec.container_id)
            &&& back.after(ManagerReplyView::Stored(stored), now) == CreateCtPhaseView::Done(
                Err(crate::manager::errors::of_driver(e)),
            )
            &&& put.after(ManagerReplyView::Stored(Err(f)), now) == CreateCtPhaseView::Done(
                Err(crate::manager::errors::of_store(f)),
            )
        }),
{
}

/// The lock that a start or a stop waits for is that of the sandbox whose
/// container it changes, and the container is read again once it is held. A
/// container that has ended, or of which nothing is known, cannot be started.
#[verifier::rlimit(30)]
pub proof fn containers_change_under_the_lock_of_their_sandbox(
    start: StartContainerView,
    stop: StopContainerView,
    c: ContainerRecordView,
    now: i64,
)
    ensures
        start.phase is First ==> {
            let locked = StartContainerView {
                phase: start.after(ManagerReplyView::Container(Ok(c)), now),
                ..start
            };
            let read = StartContainerView {
                phase: locked.after(ManagerReplyView::Done, now),
                ..start
            };
            &&& start.wants() == ManagerActionView::ReadContainer(start.container_id)
            &&& locked.wants() == ManagerActionView::Lock(c.sandbox_id)
            &&& read.wants() == ManagerActionView::ReadContainer(start.container_id)
        },
        stop.phase is First ==> {
            let locked = StopContainerView {
                phase: stop.after(ManagerReplyView::Container(Ok(c)), now),
                ..stop
            };
            let read = StopContainerView {
                phase: locked.after(ManagerReplyView::Done, now),
                ..stop
            };
            &&& stop.wants() == ManagerActionView::ReadContainer(stop.container_id)
            &&& locked.wants() == ManagerActionView::Lock(c.sandbox_id)
            &&& read.wants() == ManagerActionView::ReadContainer(stop.container_id)
        },
        start.phase is Read && c.state != ContainerState::Created && c.state
            != ContainerState::Running ==> (start.after(
            ManagerReplyView::Container(Ok(c)),
            now,
        ) matches StartPhaseView::Done(Err(OasErrorView::Conflict(_)))),
        start.phase is Read && c.state == ContainerState::Running ==> start.after(
            ManagerReplyView::Container(Ok(c)),
            now,
        ) == StartPhaseView::Done(Ok(())),
        stop.phase is Read && c.state == ContainerState::Exited ==> stop.after(
            ManagerReplyView::Container(Ok(c)),
            now,
        ) == StartPhaseView::Done(Ok(())),
{
}

} // verus!
