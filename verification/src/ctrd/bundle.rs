//! What the description of a container tells its task.

use vstd::prelude::*;

use crate::config::path_join;
use crate::cri::convert;
use crate::model::Duplicate;
use crate::strmap::StrMap;
use crate::text;

verus! {

/// The annotation that tells what a task stands for.
pub const ANNOTATION_CONTAINER_TYPE: &'static str = "io.kubernetes.cri.container-type";

/// The annotation that tells the pod that a container belongs to.
pub const ANNOTATION_SANDBOX_ID: &'static str = "io.kubernetes.cri.sandbox-id";

/// What a task stands for.
#[derive(Debug, Clone, Copy, PartialEq, Eq, Structural)]
pub enum ContainerType {
    /// A pod, which is a microVM.
    Sandbox,
    /// A container of a pod.
    Container,
}

impl DeepView for ContainerType {
    type V = ContainerType;

    open spec fn deep_view(&self) -> ContainerType {
        *self
    }
}

impl Duplicate for ContainerType {
    fn duplicate(&self) -> (r: Self) {
        *self
    }
}

/// A namespace of a container.
#[derive(Debug, PartialEq)]
pub struct OciNamespace {
    pub ns_type: String,
    pub path: String,
}

/// The abstract value of [`OciNamespace`].
#[verifier::ext_equal]
pub struct OciNamespaceView {
    pub ns_type: Seq<char>,
    pub path: Seq<char>,
}

impl DeepView for OciNamespace {
    type V = OciNamespaceView;

    open spec fn deep_view(&self) -> OciNamespaceView {
        OciNamespaceView {
            ns_type: self.ns_type@,
            path: self.path@,
        }
    }
}

impl View for OciNamespace {
    type V = OciNamespaceView;

    open spec fn view(&self) -> OciNamespaceView {
        self.deep_view()
    }
}

impl Duplicate for OciNamespace {
    fn duplicate(&self) -> (r: Self) {
        OciNamespace {
            ns_type: self.ns_type.duplicate(),
            path: self.path.duplicate(),
        }
    }
}

impl Clone for OciNamespace {
    fn clone(&self) -> (r: Self)
        ensures
            r@ == self@,
    {
        self.duplicate()
    }
}

/// What is particular to Linux.
#[derive(Debug, PartialEq)]
pub struct OciLinux {
    pub namespaces: Vec<OciNamespace>,
}

/// The abstract value of [`OciLinux`].
#[verifier::ext_equal]
pub struct OciLinuxView {
    pub namespaces: Seq<OciNamespaceView>,
}

impl DeepView for OciLinux {
    type V = OciLinuxView;

    open spec fn deep_view(&self) -> OciLinuxView {
        OciLinuxView {
            namespaces: self.namespaces.deep_view(),
        }
    }
}

impl View for OciLinux {
    type V = OciLinuxView;

    open spec fn view(&self) -> OciLinuxView {
        self.deep_view()
    }
}

impl Duplicate for OciLinux {
    fn duplicate(&self) -> (r: Self) {
        OciLinux {
            namespaces: self.namespaces.duplicate(),
        }
    }
}

impl Clone for OciLinux {
    fn clone(&self) -> (r: Self)
        ensures
            r@ == self@,
    {
        self.duplicate()
    }
}

/// The part of a container's description that is looked at.
#[derive(Debug, PartialEq)]
pub struct OciSpec {
    pub annotations: StrMap<String>,
    pub linux: Option<OciLinux>,
}

/// The abstract value of [`OciSpec`].
#[verifier::ext_equal]
pub struct OciSpecView {
    pub annotations: Map<Seq<char>, Seq<char>>,
    pub linux: Option<OciLinuxView>,
}

impl DeepView for OciSpec {
    type V = OciSpecView;

    open spec fn deep_view(&self) -> OciSpecView {
        OciSpecView {
            annotations: self.annotations.deep_view(),
            linux: self.linux.deep_view(),
        }
    }
}

impl View for OciSpec {
    type V = OciSpecView;

    open spec fn view(&self) -> OciSpecView {
        self.deep_view()
    }
}

impl Duplicate for OciSpec {
    fn duplicate(&self) -> (r: Self) {
        OciSpec {
            annotations: self.annotations.duplicate(),
            linux: self.linux.duplicate(),
        }
    }
}

impl Clone for OciSpec {
    fn clone(&self) -> (r: Self)
        ensures
            r@ == self@,
    {
        self.duplicate()
    }
}

/// What a task is to know of its container.
#[derive(Debug, PartialEq)]
pub struct BundleSpec {
    pub container_type: ContainerType,
    /// The pod that a container belongs to.
    pub sandbox_id: Option<String>,
    /// The network namespace, where one is given.
    pub netns_path: Option<String>,
    /// The type of sandbox, where one is told.
    pub type_id: Option<u8>,
}

/// The abstract value of [`BundleSpec`].
#[verifier::ext_equal]
pub struct BundleSpecView {
    pub container_type: ContainerType,
    pub sandbox_id: Option<Seq<char>>,
    pub netns_path: Option<Seq<char>>,
    pub type_id: Option<u8>,
}

impl DeepView for BundleSpec {
    type V = BundleSpecView;

    open spec fn deep_view(&self) -> BundleSpecView {
        BundleSpecView {
            container_type: self.container_type,
            sandbox_id: self.sandbox_id.deep_view(),
            netns_path: self.netns_path.deep_view(),
            type_id: self.type_id.deep_view(),
        }
    }
}

impl View for BundleSpec {
    type V = BundleSpecView;

    open spec fn view(&self) -> BundleSpecView {
        self.deep_view()
    }
}

impl Duplicate for BundleSpec {
    fn duplicate(&self) -> (r: Self) {
        BundleSpec {
            container_type: self.container_type,
            sandbox_id: self.sandbox_id.duplicate(),
            netns_path: self.netns_path.duplicate(),
            type_id: self.type_id.duplicate(),
        }
    }
}

impl Clone for BundleSpec {
    fn clone(&self) -> (r: Self)
        ensures
            r@ == self@,
    {
        self.duplicate()
    }
}

/// Where among namespaces the one of the network first stands.
pub open spec fn network_at(n: Seq<OciNamespaceView>, i: int) -> bool {
    &&& 0 <= i < n.len()
    &&& n[i].ns_type == "network"@
    &&& forall|j: int| 0 <= j < i ==> (#[trigger] n[j]).ns_type != "network"@
}

/// The path of the network namespace: the first one counts, and an empty one
/// is none.
pub open spec fn network_of(n: Seq<OciNamespaceView>) -> Option<Seq<char>> {
    if exists|i: int| network_at(n, i) {
        convert::present(n[choose|i: int| network_at(n, i)].path)
    } else {
        None
    }
}

/// An annotation that is there and not empty.
pub open spec fn annotation(a: Map<Seq<char>, Seq<char>>, key: Seq<char>) -> Option<Seq<char>> {
    if a.contains_key(key) {
        convert::present(a[key])
    } else {
        None
    }
}

/// What a task is to know of its container. One without a mark is a pod; a type
/// that cannot be read is none.
pub open spec fn spec_of(s: OciSpecView) -> BundleSpecView {
    BundleSpecView {
        container_type: if s.annotations.contains_key(ANNOTATION_CONTAINER_TYPE@)
            && s.annotations[ANNOTATION_CONTAINER_TYPE@] == "container"@ {
            ContainerType::Container
        } else {
            ContainerType::Sandbox
        },
        sandbox_id: annotation(s.annotations, ANNOTATION_SANDBOX_ID@),
        netns_path: match s.linux {
            Some(l) => network_of(l.namespaces),
            None => None,
        },
        type_id: match convert::type_id_in(s.annotations) {
            Ok(t) => Some(t),
            Err(_) => None,
        },
    }
}

fn network_path(n: &Vec<OciNamespace>) -> (r: Option<String>)
    ensures
        r.deep_view() == network_of(n.deep_view()),
{
    let ghost v = n.deep_view();
    let mut i: usize = 0;
    while i < n.len()
        invariant
            i <= n@.len(),
            v == n.deep_view(),
            forall|j: int| 0 <= j < i ==> (#[trigger] v[j]).ns_type != "network"@,
        decreases n@.len() - i,
    {
        if text::same(n[i].ns_type.as_str(), "network") {
            assert(network_at(v, i as int));
            let ghost k = choose|k: int| network_at(v, k);
            assert(k == i);
            return convert::opt_string(n[i].path.as_str());
        }
        i = i + 1;
    }
    None
}

/// What a task is to know of its container.
pub fn bundle_spec(s: &OciSpec) -> (r: BundleSpec)
    ensures
        r@ == spec_of(s@),
{
    let container_type = match s.annotations.get(ANNOTATION_CONTAINER_TYPE) {
        Some(t) => if text::same(t.as_str(), "container") {
            ContainerType::Container
        } else {
            ContainerType::Sandbox
        },
        None => ContainerType::Sandbox,
    };
    let sandbox_id = match s.annotations.get(ANNOTATION_SANDBOX_ID) {
        Some(id) => convert::opt_string(id.as_str()),
        None => None,
    };
    let netns_path = match &s.linux {
        Some(l) => network_path(&l.namespaces),
        None => None,
    };
    let type_id: Option<u8> = match convert::parse_type_id(&s.annotations) {
        Ok(t) => Some(t),
        Err(_) => None,
    };
    BundleSpec { container_type, sandbox_id, netns_path, type_id }
}

/// Where the description of a container stands.
pub fn config_path(bundle_dir: &str) -> (r: String)
    ensures
        r@ == crate::config::join_path(bundle_dir@, "config.json"@),
{
    path_join(bundle_dir, "config.json")
}

/// What a task is to know of its container, once its description was looked
/// for and read: a failure to parse it is told as such.
pub fn parse_bundle_spec(parsed: Result<OciSpec, String>) -> (r: Result<BundleSpec, String>)
    ensures
        match parsed {
            Ok(s) => r matches Ok(b) && b@ == spec_of(s@),
            Err(e) => r matches Err(f) && f@ == "parse config.json: "@ + e@,
        },
{
    match parsed {
        Ok(s) => Ok(bundle_spec(&s)),
        Err(e) => Err(text::cat2("parse config.json: ", e.as_str())),
    }
}

/// What a failure to read the description is told as.
pub fn read_failure(bundle_dir: &str, e: &str) -> (r: String)
    ensures
        r@ == "read "@ + crate::config::join_path(bundle_dir@, "config.json"@) + ": "@ + e@,
{
    text::cat4("read ", config_path(bundle_dir).as_str(), ": ", e)
}

} // verus!
