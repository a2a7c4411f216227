//! What holds from a request to what is told of it.

use vstd::prelude::*;

#[allow(unused_imports)]
use crate::cri::error::{Code, StatusView};
#[allow(unused_imports)]
use crate::cri::pb;
#[allow(unused_imports)]
use crate::driver::VmId;
#[allow(unused_imports)]
use crate::manager::{CreateContainerRequestView, CreateSandboxRequestView, OasErrorView};
#[allow(unused_imports)]
use crate::net::NetConfigView;
#[allow(unused_imports)]
use crate::storage::DiskConfigView;
#[allow(unused_imports)]
use crate::cri::convert;
#[allow(unused_imports)]
use crate::store::TablesView;
#[allow(unused_imports)]
use crate::text;
#[allow(unused_imports)]
use crate::types::{
    ContainerExitReason, ContainerRecordView, ContainerState, MountPropagation, SandboxRecordView,
    SandboxState,
};

verus! {

/// A pod that was asked for and made is told, on its own and in a listing, with
/// metadata, labels and annotations as they were in the request, as ready, and
/// with the address that it was given.
pub proof fn pod_comes_out_as_it_went_in(
    req: pb::RunPodSandboxRequestView,
    q: CreateSandboxRequestView,
    id: Seq<char>,
    net: NetConfigView,
    disk: DiskConfigView,
    vm: VmId,
    now: i64,
)
    requires
        crate::cri::runtime_svc::pod_request(req) == Ok::<CreateSandboxRequestView, StatusView>(q),
    ensures
        ({
            let r = crate::manager::sandboxes::record_of(q, id, net, disk, vm, now);
            let s = crate::cri::convert::sandbox_status_out(r);
            let l = crate::cri::convert::sandbox_out(r);
            let cfg = req.config.unwrap();
            &&& req.config is Some
            &&& s.id == id && l.id == id
            &&& s.metadata == cfg.metadata && l.metadata == cfg.metadata
            &&& s.labels == cfg.labels && l.labels == cfg.labels
            &&& s.annotations == cfg.annotations && l.annotations == cfg.annotations
            &&& s.state == pb::PodSandboxState::SandboxReady.number() && l.state == s.state
            &&& s.runtime_handler == "oas"@ && l.runtime_handler == "oas"@
            &&& s.network matches Some(n) && n.ip == net.pod_ip
        }),
{
}

/// A container that was asked for and made is told, on its own and in a
/// listing, with metadata, labels, annotations and image as they were in the
/// request, and as created.
pub proof fn container_comes_out_as_it_went_in(
    req: pb::CreateContainerRequestView,
    q: CreateContainerRequestView,
    id: Seq<char>,
    now: i64,
)
    requires
        crate::cri::runtime_svc::container_request(req) == Ok::<
            CreateContainerRequestView,
            StatusView,
        >(q),
    ensures
        ({
            let r = crate::manager::containers::record_of(q, id, now);
            let s = crate::cri::convert::container_status_out(r);
            let l = crate::cri::convert::container_out(r);
            let cfg = req.config.unwrap();
            &&& req.config is Some
            &&& s.id == id && l.id == id
            &&& l.pod_sandbox_id == req.pod_sandbox_id
            &&& s.metadata == cfg.metadata && l.metadata == cfg.metadata
            &&& s.labels == cfg.labels && l.labels == cfg.labels
            &&& s.annotations == cfg.annotations && l.annotations == cfg.annotations
            &&& s.image == cfg.image && l.image == cfg.image
            &&& s.state == pb::ContainerState::ContainerCreated.number() && l.state == s.state
            &&& s.exit_code == 0
        }),
{
}

/// A request that names another handler than the own one is refused before
/// anything else is looked at.
pub proof fn other_handlers_are_refused(req: pb::RunPodSandboxRequestView)
    requires
        crate::text::trim(req.runtime_handler).len() > 0,
        crate::text::trim(req.runtime_handler) != "oas"@,
    ensures
        crate::cri::runtime_svc::pod_request(req) matches Err(s) && s.code
            == Code::InvalidArgument,
{
}

/// A listing that was asked for without a filter tells every sandbox.
pub proof fn an_open_listing_tells_all(t: TablesView, id: Seq<char>)
    requires
        t.keyed(),
        t.sandboxes.dom().finite(),
        t.sandboxes.contains_key(id),
    ensures
        crate::cri::runtime_svc::sandboxes_out(
            t.list_sandboxes(crate::cri::convert::sandbox_filter_in(None)),
        ).contains(crate::cri::convert::sandbox_out(t.sandboxes[id])),
{
    let f = crate::cri::convert::sandbox_filter_in(None);
    crate::store::laws::list_sandboxes_exact(t, f);
    let l = t.list_sandboxes(f);
    assert(l.contains(t.sandboxes[id]));
    let i = choose|i: int| 0 <= i < l.len() && l[i] == t.sandboxes[id];
    assert(crate::cri::runtime_svc::sandboxes_out(l)[i] == crate::cri::convert::sandbox_out(
        t.sandboxes[id],
    ));
}

/// The numbers of the interface for states and ways to propagate a mount, in and
/// out: a pod is ready as zero and else one, a container is created, running,
/// exited or unknown as zero to three, and a mount is private, from the host or
/// both ways as zero to two. A number that means nothing is not ready, unknown
/// or private.
pub proof fn numbers_of_the_interface(n: i32)
    ensures
        convert::sandbox_state_out(SandboxState::Ready) == 0,
        convert::sandbox_state_out(SandboxState::NotReady) == 1,
        convert::sandbox_state_in(n) == SandboxState::Ready <==> n == 0,
        convert::container_state_out(ContainerState::Created) == 0,
        convert::container_state_out(ContainerState::Running) == 1,
        convert::container_state_out(ContainerState::Exited) == 2,
        convert::container_state_out(ContainerState::Unknown) == 3,
        convert::container_state_in(n) == ContainerState::Created <==> n == 0,
        convert::container_state_in(n) == ContainerState::Running <==> n == 1,
        convert::container_state_in(n) == ContainerState::Exited <==> n == 2,
        convert::propagation_in(n) == MountPropagation::HostToContainer <==> n == 1,
        convert::propagation_in(n) == MountPropagation::Bidirectional <==> n == 2,
        convert::propagation_in(n) == MountPropagation::Private <==> n != 1 && n != 2,
{
}

/// The type that a pod asks for by its annotation is the type it gets: every
/// number from zero to 255, written in decimal. Without the annotation, or with
/// another text in it, the request is refused as malformed.
pub proof fn a_pod_gets_the_type_it_asks_for(
    cfg: pb::PodSandboxConfigView,
    handler: Seq<char>,
    n: u8,
)
    requires
        cfg.metadata is Some,
    ensures
        cfg.annotations.contains_key("agent-sandbox/type"@) && cfg.annotations["agent-sandbox/type"@]
            == text::dec(n as nat) ==> (convert::sandbox_request_in(cfg, handler) matches Ok(r)
            && r.type_id == n),
        !cfg.annotations.contains_key("agent-sandbox/type"@) ==> (convert::sandbox_request_in(
            cfg,
            handler,
        ) matches Err(OasErrorView::InvalidArgument(_))),
        cfg.annotations.contains_key("agent-sandbox/type"@) && text::parse_dec(
            cfg.annotations["agent-sandbox/type"@],
            255,
        ) is None ==> (convert::sandbox_request_in(cfg, handler) matches Err(
            OasErrorView::InvalidArgument(_),
        )),
{
    text::dec_reads_back(n as nat);
    assert(text::parse_dec(text::dec(n as nat), 255) == Some(n as nat));
}

/// A pod's cloud disk is the one that its annotation names, and it has none
/// where the annotation is missing or empty; its size likewise is the number in
/// the annotation for it. Its handler is the one that was named, and the own one
/// where none was; its host name, log directory, name servers and cgroup are
/// those of the request.
pub proof fn a_pod_gets_what_it_asks_for(
    cfg: pb::PodSandboxConfigView,
    handler: Seq<char>,
    size: u64,
)
    ensures
        convert::sandbox_request_in(cfg, handler) matches Ok(r) ==> {
            let a = cfg.annotations;
            let disk = "agent-sandbox/cloud-disk"@;
            let rw = "agent-sandbox/rw-size"@;
            &&& cfg.metadata is Some
            &&& r.metadata.name == cfg.metadata.unwrap().name
            &&& r.metadata.namespace == cfg.metadata.unwrap().namespace
            &&& r.metadata.uid == cfg.metadata.unwrap().uid
            &&& r.metadata.attempt == cfg.metadata.unwrap().attempt
            &&& a.contains_key(disk) && a[disk].len() > 0 ==> r.cloud_disk_ref == Some(a[disk])
            &&& !a.contains_key(disk) || a[disk].len() == 0 ==> r.cloud_disk_ref is None
            &&& a.contains_key(rw) && a[rw] == text::dec(size as nat) ==> r.rw_size == Some(size)
            &&& !a.contains_key(rw) ==> r.rw_size is None
            &&& handler.len() == 0 ==> r.runtime_handler == "oas"@
            &&& handler.len() > 0 ==> r.runtime_handler == handler
            &&& r.labels == cfg.labels
            &&& r.annotations == cfg.annotations
            &&& r.hostname == cfg.hostname
            &&& r.log_directory == cfg.log_directory
            &&& cfg.linux matches Some(l) ==> r.cgroup_parent == l.cgroup_parent
            &&& cfg.linux is None ==> r.cgroup_parent.len() == 0
            &&& r.dns_config is Some <==> cfg.dns_config is Some
            &&& r.dns_config matches Some(d) ==> {
                &&& d.servers == cfg.dns_config.unwrap().servers
                &&& d.searches == cfg.dns_config.unwrap().searches
                &&& d.options == cfg.dns_config.unwrap().options
            }
        },
{
    reveal_strlit("");
    text::dec_reads_back(size as nat);
    assert(text::parse_dec(text::dec(size as nat), u64::MAX as nat) == Some(size as nat));
}

/// A container gets what its request asks for, in the order of the request. Its
/// limits are those of the request that are above zero; one that is zero or
/// less is none.
#[verifier::rlimit(30)]
pub proof fn a_container_gets_what_it_asks_for(sandbox: Seq<char>, cfg: pb::ContainerConfigView)
    ensures
        convert::container_request_in(sandbox, cfg) is Ok <==> cfg.metadata is Some && cfg.image is Some,
        convert::container_request_in(sandbox, cfg) matches Ok(r) ==> {
            &&& r.pod_sandbox_id == sandbox
            &&& r.metadata.name == cfg.metadata.unwrap().name
            &&& r.metadata.attempt == cfg.metadata.unwrap().attempt
            &&& r.image == cfg.image.unwrap().image
            &&& r.command == cfg.command
            &&& r.args == cfg.args
            &&& r.working_dir == cfg.working_dir
            &&& r.labels == cfg.labels
            &&& r.annotations == cfg.annotations
            &&& r.log_path == cfg.log_path
            &&& r.tty == cfg.tty
            &&& r.stdin == cfg.stdin
            &&& r.stdin_once == cfg.stdin_once
            &&& r.envs.len() == cfg.envs.len()
            &&& forall|i: int|
                0 <= i < r.envs.len() ==> {
                    &&& (#[trigger] r.envs[i]).key == cfg.envs[i].key
                    &&& r.envs[i].value == cfg.envs[i].value
                }
            &&& r.mounts.len() == cfg.mounts.len()
            &&& forall|i: int|
                0 <= i < r.mounts.len() ==> {
                    &&& (#[trigger] r.mounts[i]).container_path == cfg.mounts[i].container_path
                    &&& r.mounts[i].host_path == cfg.mounts[i].host_path
                    &&& r.mounts[i].read_only == cfg.mounts[i].readonly
                    &&& r.mounts[i].propagation == MountPropagation::HostToContainer
                        <==> cfg.mounts[i].propagation == 1
                    &&& r.mounts[i].propagation == MountPropagation::Bidirectional
                        <==> cfg.mounts[i].propagation == 2
                }
            &&& match cfg.linux {
                Some(l) => match l.resources {
                    Some(q) => {
                        &&& q.cpu_shares > 0 ==> r.resources.cpu_shares == Some(
                            q.cpu_shares as u64,
                        )
                        &&& q.cpu_shares <= 0 ==> r.resources.cpu_shares is None
                        &&& q.memory_limit_in_bytes > 0 ==> r.resources.memory_limit_bytes == Some(
                            q.memory_limit_in_bytes,
                        )
                        &&& q.memory_limit_in_bytes <= 0 ==> r.resources.memory_limit_bytes is None
                    },
                    None => r.resources.cpu_shares is None && r.resources.memory_limit_bytes is None,
                },
                None => r.resources.cpu_shares is None && r.resources.memory_limit_bytes is None,
            }
        },
{
}

/// A time in seconds is told in nanoseconds, a thousand million to the second;
/// a time that cannot be told so is the nearest that can. Times keep their
/// order.
pub proof fn times_are_told_in_nanoseconds(s: i64, t: i64)
    ensures
        -9_223_372_036 <= s <= 9_223_372_036 ==> convert::nanos(s as int) == s * 1_000_000_000,
        s > 9_223_372_036 ==> convert::nanos(s as int) == 0x7fff_ffff_ffff_ffff,
        s < -9_223_372_036 ==> convert::nanos(s as int) == -0x8000_0000_0000_0000,
        s <= t ==> convert::nanos(s as int) <= convert::nanos(t as int),
{
}

/// What is told of a sandbox is what its record has, wherever it is told: its
/// own id, its address, its time in nanoseconds, and whether it is ready.
#[verifier::rlimit(30)]
pub proof fn a_record_is_told(s: SandboxRecordView, c: ContainerRecordView)
    ensures
        ({
            let a = convert::sandbox_status_out(s);
            let b = convert::sandbox_out(s);
            &&& a.id == s.sandbox_id && b.id == s.sandbox_id
            &&& a.network matches Some(n) && n.ip == s.pod_ip
            &&& a.state == 0 <==> s.state == SandboxState::Ready
            &&& b.state == a.state
            &&& b.created_at == a.created_at
            &&& -9_223_372_036 <= s.created_at <= 9_223_372_036 ==> a.created_at == s.created_at
                * 1_000_000_000
        }),
        ({
            let a = convert::container_status_out(c);
            let b = convert::container_out(c);
            &&& a.id == c.container_id && b.id == c.container_id
            &&& b.pod_sandbox_id == c.sandbox_id
            &&& a.image matches Some(i) && i.image == c.image
            &&& b.image == a.image
            &&& a.image_ref == c.image && b.image_ref == c.image
            &&& a.image_id == c.image && b.image_id == c.image
            &&& a.state == 0 <==> c.state == ContainerState::Created
            &&& a.state == 1 <==> c.state == ContainerState::Running
            &&& a.state == 2 <==> c.state == ContainerState::Exited
            &&& b.state == a.state
            &&& -9_223_372_036 <= c.created_at <= 9_223_372_036 ==> a.created_at == c.created_at
                * 1_000_000_000 && b.created_at == a.created_at
            &&& c.started_at is None ==> a.started_at == 0
            &&& c.started_at matches Some(t) ==> -9_223_372_036 <= t <= 9_223_372_036
                ==> a.started_at == t * 1_000_000_000
            &&& c.finished_at is None ==> a.finished_at == 0
            &&& c.finished_at matches Some(t) ==> -9_223_372_036 <= t <= 9_223_372_036
                ==> a.finished_at == t * 1_000_000_000
            &&& c.reason is None <==> a.reason.len() == 0
            &&& c.reason == Some(ContainerExitReason::Completed) <==> a.reason == "Completed"@
            &&& c.reason == Some(ContainerExitReason::Error) <==> a.reason == "Error"@
            &&& c.reason == Some(ContainerExitReason::OomKilled) <==> a.reason == "OOMKilled"@
        }),
{
    reveal_strlit("");
    reveal_strlit("Completed");
    reveal_strlit("Error");
    reveal_strlit("OOMKilled");
    assert("Completed"@.len() == 9 && "Completed"@[0] == 'C');
    assert("OOMKilled"@.len() == 9 && "OOMKilled"@[0] == 'O');
    assert("Error"@.len() == 5);
}

/// Whether a record has all the labels that are wanted, each with its value.
pub open spec fn has_labels(
    labels: Map<Seq<char>, Seq<char>>,
    wanted: Map<Seq<char>, Seq<char>>,
) -> bool {
    forall|k: Seq<char>|
        #[trigger] wanted.contains_key(k) ==> labels.contains_key(k) && labels[k] == wanted[k]
}

/// A filter of the interface lets through the sandboxes that have the id, the
/// state and the labels that it names, whatever it leaves empty being open; a
/// filter for statistics does so without the state.
pub proof fn a_filter_names_sandboxes(
    f: pb::PodSandboxFilterView,
    g: pb::PodSandboxStatsFilterView,
    s: SandboxRecordView,
)
    ensures
        crate::store::sandbox_matches(s, convert::sandbox_filter_in(Some(f))) <==> {
            &&& f.id.len() == 0 || f.id == s.sandbox_id
            &&& (f.state matches Some(v) ==> (v.state == 0 <==> s.state == SandboxState::Ready))
            &&& has_labels(s.labels, f.label_selector)
        },
        crate::store::sandbox_matches(s, crate::cri::runtime_svc::pod_stats_filter_in(Some(g)))
            <==> {
            &&& g.id.len() == 0 || g.id == s.sandbox_id
            &&& has_labels(s.labels, g.label_selector)
        },
{
}

/// A filter of the interface lets through the containers that have the id, the
/// sandbox, the state and the labels that it names, whatever it leaves empty
/// being open; a filter for statistics does so without the state. The containers
/// of a sandbox are those that name it.
pub proof fn a_filter_names_containers(
    f: pb::ContainerFilterView,
    g: pb::ContainerStatsFilterView,
    sandbox: Seq<char>,
    c: ContainerRecordView,
)
    ensures
        crate::store::container_matches(c, convert::container_filter_in(Some(f))) <==> {
            &&& f.id.len() == 0 || f.id == c.container_id
            &&& f.pod_sandbox_id.len() == 0 || f.pod_sandbox_id == c.sandbox_id
            &&& (f.state matches Some(v) ==> {
                &&& v.state == 0 <==> c.state == ContainerState::Created
                &&& v.state == 1 <==> c.state == ContainerState::Running
                &&& v.state == 2 <==> c.state == ContainerState::Exited
            })
            &&& has_labels(c.labels, f.label_selector)
        },
        crate::store::container_matches(c, crate::cri::runtime_svc::stats_filter_in(Some(g)))
            <==> {
            &&& g.id.len() == 0 || g.id == c.container_id
            &&& g.pod_sandbox_id.len() == 0 || g.pod_sandbox_id == c.sandbox_id
            &&& has_labels(c.labels, g.label_selector)
        },
        crate::store::container_matches(c, crate::cri::runtime_svc::of_sandbox(sandbox)) <==> c.sandbox_id
            == sandbox,
        crate::store::container_matches(c, convert::container_filter_in(None)),
{
}

/// Errors keep their meaning and their text on the way out: what is missing is
/// told as missing, an image that is not listed as missing too, a microVM that is
/// there already as being there, a driver that fails and a pool that is used up
/// as unavailable for now, what does not fit as malformed, and all else as a
/// fault of the runtime.
#[verifier::rlimit(30)]
pub proof fn errors_keep_their_meaning(a: Seq<char>)
    ensures
        ({
            let told = |e: OasErrorView| crate::cri::error::status_of(e).code;
            &&& told(
                crate::manager::errors::of_store(crate::store::StoreErrorView::NotFound(a)),
            ) == Code::NotFound
            &&& told(crate::manager::errors::of_store(crate::store::StoreErrorView::Db(a)))
                == Code::Internal
            &&& told(crate::manager::errors::of_store(crate::store::StoreErrorView::Io(a)))
                == Code::Internal
            &&& told(crate::manager::errors::of_store(crate::store::StoreErrorView::Other(a)))
                == Code::Internal
            &&& told(
                crate::manager::errors::of_driver(crate::driver::DriverErrorView::NotFound(a)),
            ) == Code::NotFound
            &&& told(crate::manager::errors::of_driver(crate::driver::DriverErrorView::Exists(a)))
                == Code::AlreadyExists
            &&& told(crate::manager::errors::of_driver(crate::driver::DriverErrorView::Shim(a)))
                == Code::Unavailable
            &&& told(
                crate::manager::errors::of_driver(crate::driver::DriverErrorView::Snapshot(a)),
            ) == Code::Unavailable
            &&& told(
                crate::manager::errors::of_driver(
                    crate::driver::DriverErrorView::FirecrackerApi(a),
                ),
            ) == Code::Unavailable
            &&& told(
                crate::manager::errors::of_driver(crate::driver::DriverErrorView::Unsupported(a)),
            ) == Code::Unavailable
            &&& told(crate::manager::errors::of_driver(crate::driver::DriverErrorView::Io(a)))
                == Code::Unavailable
            &&& told(crate::manager::errors::of_driver(crate::driver::DriverErrorView::Other(a)))
                == Code::Unavailable
            &&& told(crate::manager::errors::of_net(crate::net::NetErrorView::IpamExhausted(a)))
                == Code::Unavailable
            &&& told(crate::manager::errors::of_net(crate::net::NetErrorView::Io(a)))
                == Code::Internal
            &&& told(crate::manager::errors::of_net(crate::net::NetErrorView::Other(a)))
                == Code::Internal
            &&& told(
                crate::manager::errors::of_storage(
                    crate::storage::StorageErrorView::CloudDiskNotFound(a),
                ),
            ) == Code::InvalidArgument
            &&& told(crate::manager::errors::of_storage(crate::storage::StorageErrorView::Io(a)))
                == Code::Internal
            &&& told(OasErrorView::ImageNotInList(a)) == Code::NotFound
            &&& told(OasErrorView::TypeMismatch(a)) == Code::InvalidArgument
            &&& told(OasErrorView::InvalidArgument(a)) == Code::InvalidArgument
            &&& told(OasErrorView::Conflict(a)) == Code::AlreadyExists
            &&& told(OasErrorView::Unavailable(a)) == Code::Unavailable
        }),
{
}

/// The text of an error ends with what is known of it, from where it arose to
/// where it is told.
#[verifier::rlimit(30)]
pub proof fn errors_keep_their_text(
    s: crate::store::StoreErrorView,
    d: crate::driver::DriverErrorView,
    n: crate::net::NetErrorView,
    t: crate::storage::StorageErrorView,
    a: Seq<char>,
)
    ensures
        text::has_suffix(
            crate::cri::error::status_of(crate::manager::errors::of_store(s)).message,
            s.text(),
        ),
        text::has_suffix(
            crate::cri::error::status_of(crate::manager::errors::of_driver(d)).message,
            d.text(),
        ),
        text::has_suffix(
            crate::cri::error::status_of(crate::manager::errors::of_net(n)).message,
            n.text(),
        ),
        text::has_suffix(
            crate::cri::error::status_of(crate::manager::errors::of_storage(t)).message,
            t.text(),
        ),
        text::has_suffix(
            crate::cri::error::status_of(OasErrorView::ImageNotInList(a)).message,
            a,
        ),
        text::has_suffix(crate::cri::error::status_of(OasErrorView::TypeMismatch(a)).message, a),
        text::has_suffix(
            crate::cri::error::status_of(OasErrorView::InvalidArgument(a)).message,
            a,
        ),
        text::has_suffix(crate::cri::error::status_of(OasErrorView::Conflict(a)).message, a),
        text::has_suffix(crate::store::StoreErrorView::NotFound(a).text(), a),
        text::has_suffix(crate::driver::DriverErrorView::NotFound(a).text(), a),
        text::has_suffix(crate::driver::DriverErrorView::Shim(a).text(), a),
        text::has_suffix(crate::net::NetErrorView::IpamExhausted(a).text(), a),
        text::has_suffix(crate::storage::StorageErrorView::CloudDiskNotFound(a).text(), a),
{
    ends_with("not found: "@, s.text());
    ends_with("internal: "@, s.text());
    ends_with("not found: "@, d.text());
    ends_with("conflict: "@, d.text());
    ends_with("unavailable: "@, d.text());
    ends_with("unavailable: "@, n.text());
    ends_with("internal: "@, n.text());
    ends_with("invalid argument: "@, t.text());
    ends_with("internal: "@, t.text());
    ends_with("image not in whitelist: "@, a);
    ends_with("type mismatch: "@, a);
    ends_with("invalid argument: "@, a);
    ends_with("conflict: "@, a);
    ends_with("not found: "@, a);
    ends_with("vm not found: "@, a);
    ends_with("shim error: "@, a);
    ends_with("ipam exhausted: "@, a);
    ends_with("cloud disk not found: "@, a);
}

proof fn ends_with(head: Seq<char>, tail: Seq<char>)
    ensures
        text::has_suffix(head + tail, tail),
{
    assert((head + tail).skip(head.len() as int) =~= tail);
}

/// An image is told under its own reference, which is its only tag, and by which
/// it is found again; it is never collected.
pub proof fn an_image_is_told_under_its_reference(image: Seq<char>)
    ensures
        ({
            let i = convert::image_info_out(crate::manager::facade::info_of(image));
            &&& i.spec matches Some(s) && s.image == image
            &&& i.repo_tags == seq![image]
            &&& i.repo_digests.len() == 0
            &&& i.pinned
            &&& i.size > 0
            &&& i.id == "sha256:"@ + image
            &&& !image.contains('/') && !image.contains(':') && image.len() > 0
                ==> crate::config::base_name(i.id) == crate::config::base_name(image)
        }),
{
    if !image.contains('/') && !image.contains(':') && image.len() > 0 {
        crate::layout::an_image_is_known_by_its_name(seq![], image, seq![]);
    }
}

/// The statistics of a sandbox are told for it, at a time that is not before the
/// first, with those of its containers in their order; all amounts are zero.
pub proof fn statistics_are_told_for_a_sandbox(
    s: SandboxRecordView,
    c: Seq<ContainerRecordView>,
)
    ensures
        ({
            let t = convert::sandbox_stats_out(s, c);
            let l = t.linux.unwrap();
            &&& t.attributes.unwrap().id == s.sandbox_id
            &&& t.linux is Some
            &&& l.containers.len() == c.len()
            &&& forall|i: int|
                0 <= i < c.len() ==> {
                    let a = (#[trigger] l.containers[i]).attributes;
                    &&& a is Some
                    &&& a.unwrap().id == c[i].container_id
                    &&& a.unwrap().labels == c[i].labels
                    &&& a.unwrap().metadata == Some(
                        convert::container_metadata_out(c[i].metadata),
                    )
                }
            &&& l.cpu matches Some(u) && u.timestamp >= 1 && (0 < s.created_at
                <= 9_223_372_036 ==> u.timestamp == s.created_at * 1_000_000_000)
        }),
        forall|i: int|
            0 <= i < c.len() ==> {
                let t = convert::container_stats_out(#[trigger] c[i]);
                let at = if c[i].started_at is Some {
                    c[i].started_at.unwrap()
                } else {
                    c[i].created_at
                };
                &&& t.cpu matches Some(u) && (0 <= at <= 9_223_372_036 ==> u.timestamp == at
                    * 1_000_000_000)
                &&& t.memory matches Some(m) && m.timestamp == t.cpu.unwrap().timestamp
            },
{
}

} // verus!
