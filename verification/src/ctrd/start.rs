//! How a shim is started and found.

use vstd::prelude::*;

use crate::ctrd::bundle::{BundleSpec, BundleSpecView, ContainerType};
use crate::text;

verus! {

/// The address that `containerd_shim::socket_address` makes on Linux of the
/// address of containerd, a namespace and an id.
pub uninterp spec fn shim_address(address: Seq<char>, namespace: Seq<char>, id: Seq<char>) -> Seq<char>;

/// `containerd_shim::socket_address`, whose result is named.
#[verifier::external_body]
fn socket_address(address: &str, namespace: &str, id: &str) -> (r: String)
    ensures
        r@ == shim_address(address@, namespace@, id@),
{
    containerd_shim::socket_address(address, namespace, id)
}

/// The directory of a container's description: the present one where none is
/// named.
pub fn bundle_dir(bundle: &str) -> (r: String)
    ensures
        r@ == (if bundle@.len() == 0 {
            "."@
        } else {
            bundle@
        }),
{
    if text::is_empty(bundle) {
        ".".to_owned()
    } else {
        bundle.to_owned()
    }
}

/// Which shim a task belongs to: a container's is that of its pod, another's
/// is its own.
pub open spec fn group_of(spec: Option<BundleSpecView>, id: Seq<char>) -> Seq<char> {
    match spec {
        Some(s) => match s.sandbox_id {
            Some(pod) if s.container_type == ContainerType::Container => pod,
            _ => id,
        },
        None => id,
    }
}

/// Which shim a task belongs to. A description that cannot be read does no
/// harm.
pub fn resolve_grouping(spec: Result<BundleSpec, String>, id: &str) -> (r: String)
    ensures
        r@ == group_of(
            match spec {
                Ok(s) => Some(s@),
                Err(_) => None,
            },
            id@,
        ),
{
    match spec {
        Ok(s) => match s.container_type {
            ContainerType::Container => match s.sandbox_id {
                Some(pod) => pod,
                None => id.to_owned(),
            },
            ContainerType::Sandbox => id.to_owned(),
        },
        Err(_) => id.to_owned(),
    }
}

/// The containers of a pod and the pod itself belong to one shim, and so have
/// one address.
pub proof fn pod_shares_one_shim(
    pod: BundleSpecView,
    pod_id: Seq<char>,
    c: BundleSpecView,
    c_id: Seq<char>,
    address: Seq<char>,
    namespace: Seq<char>,
)
    requires
        pod.container_type == ContainerType::Sandbox,
        c.container_type == ContainerType::Container,
        c.sandbox_id == Some(pod_id),
    ensures
        group_of(Some(pod), pod_id) == group_of(Some(c), c_id),
        shim_address(address, namespace, group_of(Some(pod), pod_id)) == shim_address(
            address,
            namespace,
            group_of(Some(c), c_id),
        ),
{
}

/// How to start a shim: the address it is to serve, the path of its socket,
/// and the words it is started with.
#[derive(Debug, PartialEq)]
pub struct Launch {
    pub address: String,
    pub sock_path: String,
    pub args: Vec<String>,
}

/// The path in an address.
pub open spec fn sock_path_of(address: Seq<char>) -> Seq<char> {
    if text::has_prefix(address, "unix://"@) {
        address.skip("unix://"@.len() as int)
    } else {
        address
    }
}

/// The words that a shim is started with.
pub open spec fn launch_words(
    namespace: Seq<char>,
    id: Seq<char>,
    address: Seq<char>,
    socket: Seq<char>,
) -> Seq<Seq<char>> {
    seq![
        "--namespace"@,
        namespace,
        "--id"@,
        id,
        "--address"@,
        address,
        "--socket"@,
        socket,
        "run"@,
    ]
}

/// How to start a shim whose address is known.
pub fn launch_at(socket: String, namespace: &str, id: &str, address: &str) -> (r: Launch)
    ensures
        r.address@ == socket@,
        r.sock_path@ == sock_path_of(socket@),
        r.args.deep_view() == launch_words(namespace@, id@, address@, socket@),
{
    let sock_path = match text::strip_prefix(socket.as_str(), "unix://") {
        Some(p) => p,
        None => socket.clone(),
    };
    let args = vec![
        "--namespace".to_owned(),
        namespace.to_owned(),
        "--id".to_owned(),
        id.to_owned(),
        "--address".to_owned(),
        address.to_owned(),
        "--socket".to_owned(),
        socket.clone(),
        "run".to_owned(),
    ];
    assert(args.deep_view() =~= launch_words(namespace@, id@, address@, socket@));
    Launch { address: socket, sock_path, args }
}

/// How to start the shim of a group.
pub fn action_start(namespace: &str, id: &str, address: &str, grouping: &str) -> (r: Launch)
    ensures
        ({
            let socket = shim_address(address@, namespace@, grouping@);
            &&& r.address@ == socket
            &&& r.sock_path@ == sock_path_of(socket)
            &&& r.args.deep_view() == launch_words(namespace@, id@, address@, socket)
        }),
{
    launch_at(socket_address(address, namespace, grouping), namespace, id, address)
}

/// The address to tell: what the shim itself has told, or else the one it was
/// to serve.
pub fn reported(address: &str, ready: &str) -> (r: String)
    ensures
        r@ == (if text::trim(ready@).len() == 0 {
            address@
        } else {
            text::trim(ready@)
        }),
{
    let told = text::trimmed(ready);
    if text::is_empty(told.as_str()) {
        address.to_owned()
    } else {
        told
    }
}

} // verus!
