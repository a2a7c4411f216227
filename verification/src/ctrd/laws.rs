//! What containerd's tasks come to.

use vstd::prelude::*;

#[allow(unused_imports)]
use crate::config::ConfigView;
#[allow(unused_imports)]
use crate::ctrd::bundle::{
    network_at, network_of, spec_of, BundleSpecView, ContainerType, OciNamespaceView, OciSpecView,
};
#[allow(unused_imports)]
use crate::ctrd::start::{group_of, launch_words, sock_path_of};
#[allow(unused_imports)]
use crate::ctrd::task::{args_for, container_report, vm_report, ContainerState, TaskStatus};
#[allow(unused_imports)]
use crate::ctrd::vm::{inputs_for, state_of, VmState};
#[allow(unused_imports)]
use crate::driver::vm_core::VmCoreState;
#[allow(unused_imports)]
use crate::model::{flag_at, option, option_at, plain};
#[allow(unused_imports)]
use crate::text;

verus! {

/// A bundle is a container just where its annotation says so, and a pod
/// otherwise; it belongs to the pod that its annotation names.
pub proof fn a_bundle_tells_what_it_is(s: OciSpecView)
    ensures
        ({
            let kind = "io.kubernetes.cri.container-type"@;
            let pod = "io.kubernetes.cri.sandbox-id"@;
            let a = s.annotations;
            &&& spec_of(s).container_type == ContainerType::Container <==> a.contains_key(kind)
                && a[kind] == "container"@
            &&& a.contains_key(pod) && a[pod].len() > 0 ==> spec_of(s).sandbox_id == Some(a[pod])
            &&& !a.contains_key(pod) || a[pod].len() == 0 ==> spec_of(s).sandbox_id is None
        }),
{
}

/// The namespace of a bundle is the path of its first network namespace, and
/// there is none where that is empty or there is no such namespace.
pub proof fn a_bundle_tells_its_namespace(n: Seq<OciNamespaceView>, i: int)
    ensures
        0 <= i < n.len() && n[i].ns_type == "network"@ && (forall|j: int|
            0 <= j < i ==> (#[trigger] n[j]).ns_type != "network"@) ==> network_of(n) == if n[i].path.len()
            > 0 {
            Some(n[i].path)
        } else {
            None
        },
        (forall|j: int| 0 <= j < n.len() ==> (#[trigger] n[j]).ns_type != "network"@)
            ==> network_of(n) is None,
{
    if network_at(n, i) {
        let k = choose|k: int| network_at(n, k);
        if k < i {
            assert(n[k].ns_type != "network"@);
        } else if i < k {
            assert(n[i].ns_type != "network"@);
        }
    }
}

/// The type of a bundle is the number in its annotation; a pod without a
/// readable one has none, and its microVM is of the first type.
pub proof fn a_bundle_tells_its_type(s: OciSpecView, id: Seq<char>, n: u8)
    ensures
        ({
            let key = "agent-sandbox/type"@;
            let a = s.annotations;
            &&& a.contains_key(key) && a[key] == text::dec(n as nat) ==> spec_of(s).type_id
                == Some(n) && args_for(id, spec_of(s)).type_id == n
            &&& !a.contains_key(key) ==> spec_of(s).type_id is None && args_for(
                id,
                spec_of(s),
            ).type_id == 0
        }),
{
    text::dec_reads_back(n as nat);
    assert(text::parse_dec(text::dec(n as nat), 255) == Some(n as nat));
}

/// The microVM of a bundle is made for its own id, from the snapshot of its
/// type, in the namespace that the bundle names, or in that of its id where it
/// names none.
pub proof fn a_microvm_is_made_for_its_bundle(c: ConfigView, s: BundleSpecView, id: Seq<char>)
    requires
        s.netns_path matches Some(p) ==> p.len() > 0,
    ensures
        args_for(id, s).sandbox_id == id,
        inputs_for(c, args_for(id, s)) matches Ok(i) ==> {
            let ty = c.get_type(
                if s.type_id is Some {
                    s.type_id.unwrap()
                } else {
                    0
                },
            );
            &&& ty is Some
            &&& !ty.unwrap().has_cloud_disk
            &&& i.bundle_dir == c.bundle_dir(ty.unwrap().bundle)
            &&& s.netns_path matches Some(p) ==> i.netns_path == p
            &&& s.netns_path is None ==> i.netns_path == "/var/run/netns/oas-"@ + id
            &&& i.rw_layer_path is Some <==> ty.unwrap().has_rw_layer
            &&& i.jailer_uid == c.jailer_uid
            &&& i.jailer_gid == c.jailer_gid
            &&& i.cloud_disk_dev is None
        },
{
    reveal_strlit("");
}

/// A container is served by the shim of the pod it names, a pod by its own, and
/// so is what cannot be read or names no pod.
pub proof fn a_bundle_is_grouped_with_its_pod(s: BundleSpecView, id: Seq<char>)
    ensures
        s.container_type == ContainerType::Sandbox ==> group_of(Some(s), id) == id,
        s.sandbox_id is None ==> group_of(Some(s), id) == id,
        group_of(None, id) == id,
        s.container_type == ContainerType::Container ==> (s.sandbox_id matches Some(pod)
            ==> group_of(Some(s), id) == pod),
{
}

/// A shim is launched with the words that it was asked for, each under its flag,
/// and is told to run; its socket is the path behind the address.
pub proof fn a_shim_is_launched_as_asked(
    namespace: Seq<char>,
    id: Seq<char>,
    address: Seq<char>,
    socket: Seq<char>,
    path: Seq<char>,
)
    requires
        plain(namespace),
        plain(id),
        plain(address),
        plain(socket),
    ensures
        ({
            let w = launch_words(namespace, id, address, socket);
            &&& option(w, "--namespace"@) == Some(namespace)
            &&& option(w, "--id"@) == Some(id)
            &&& option(w, "--address"@) == Some(address)
            &&& option(w, "--socket"@) == Some(socket)
            &&& w.last() == "run"@
        }),
        sock_path_of("unix://"@ + path) == path,
{
    reveal_strlit("--namespace");
    reveal_strlit("--id");
    reveal_strlit("--address");
    reveal_strlit("--socket");
    reveal_strlit("unix://");
    let w = launch_words(namespace, id, address, socket);
    assert("--namespace"@.len() == 11 && "--namespace"@[0] == '-');
    assert("--id"@.len() == 4 && "--id"@[0] == '-');
    assert("--address"@.len() == 9 && "--address"@[0] == '-');
    assert("--socket"@.len() == 8 && "--socket"@[0] == '-');
    option_at(w, "--namespace"@, 0);
    option_at(w, "--id"@, 2);
    option_at(w, "--address"@, 4);
    option_at(w, "--socket"@, 6);
    assert(("unix://"@ + path).take(7) =~= "unix://"@);
    assert(("unix://"@ + path).skip(7) =~= path);
}

/// A pod is told running just where its microVM runs, created where it is not
/// there yet, and stopped where it has stopped or failed. A container is told
/// stopped, with the code of its end, just where it has ended, and running
/// before.
pub proof fn a_task_is_told_as_it_is(s: VmCoreState, pid: u32, c: ContainerState)
    ensures
        vm_report(state_of(s), pid).pid == pid,
        vm_report(state_of(s), pid).status == TaskStatus::Running <==> s == VmCoreState::Running,
        vm_report(state_of(s), pid).status == TaskStatus::Created <==> s == VmCoreState::NotExist,
        vm_report(state_of(s), pid).status == TaskStatus::Stopped <==> s == VmCoreState::Stopped
            || s == VmCoreState::Failed,
        container_report(c).pid == c.pid,
        container_report(c).status == TaskStatus::Stopped <==> c.exited,
        container_report(c).status == TaskStatus::Running <==> !c.exited,
        container_report(c).ended == c.exited,
        c.exited ==> container_report(c).exit_status == c.exit_code,
        !c.exited ==> container_report(c).exit_status == 0,
        forall|code: u32|
            !c.exited ==> container_report(#[trigger] c.ended(code)).exit_status == code,
{
}

/// The words for the state of a microVM differ from each other.
pub proof fn states_have_their_own_words(a: VmState, b: VmState)
    requires
        a != b,
    ensures
        a.word() != b.word(),
        a.name() != b.name(),
        VmState::Running.word() == "running"@,
        VmState::Stopped.word() == "stopped"@,
        VmState::NotExist.word() == "notexist"@,
{
    reveal_strlit("running");
    reveal_strlit("stopped");
    reveal_strlit("notexist");
    reveal_strlit("Running");
    reveal_strlit("Stopped");
    reveal_strlit("NotExist");
    assert("running"@[0] == 'r' && "stopped"@[0] == 's' && "notexist"@[0] == 'n');
    assert("Running"@[0] == 'R' && "Stopped"@[0] == 'S' && "NotExist"@[0] == 'N');
}

} // verus!
