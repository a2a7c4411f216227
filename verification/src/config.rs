//! The configuration of a node: paths, network, and the table of sandbox types.

use vstd::prelude::*;
use vstd::string::StrSliceExecFns;

use crate::model::Duplicate;
use crate::text;

verus! {

/// The network of a node. All sandboxes have the same addresses inside their own namespaces.
#[derive(Debug, PartialEq)]
pub struct NetConfig {
    /// The tap device inside each namespace.
    pub tap_name: String,
    /// The address of the tap device.
    pub tap_gateway: String,
    /// The prefix length of the tap network.
    pub tap_prefix: u8,
    /// The address of the guest.
    pub guest_ip: String,
    /// The hardware address of the guest.
    pub guest_mac: String,
    /// The block that pod addresses are leased from.
    pub pod_cidr: String,
    /// The gateway of the pods.
    pub pod_gateway: String,
    /// The port of the agent inside the guest.
    pub guest_agent_port: u16,
    /// Whether a pod gets a link to the host.
    pub enable_host_veth: bool,
    /// Whether a guest may reach outside.
    pub enable_guest_egress: bool,
    /// The name of the pod's end of the link.
    pub pod_iface: String,
    /// Whether a restored guest must answer before it counts as up.
    pub wait_guest_agent: bool,
    /// How long to wait for the guest to answer.
    pub guest_agent_wait_secs: u64,
}

/// The abstract value of [`NetConfig`].
#[verifier::ext_equal]
pub struct NetConfigView {
    pub tap_name: Seq<char>,
    pub tap_gateway: Seq<char>,
    pub tap_prefix: u8,
    pub guest_ip: Seq<char>,
    pub guest_mac: Seq<char>,
    pub pod_cidr: Seq<char>,
    pub pod_gateway: Seq<char>,
    pub guest_agent_port: u16,
    pub enable_host_veth: bool,
    pub enable_guest_egress: bool,
    pub pod_iface: Seq<char>,
    pub wait_guest_agent: bool,
    pub guest_agent_wait_secs: u64,
}

impl DeepView for NetConfig {
    type V = NetConfigView;

    open spec fn deep_view(&self) -> NetConfigView {
        NetConfigView {
            tap_name: self.tap_name@,
            tap_gateway: self.tap_gateway@,
            tap_prefix: self.tap_prefix,
            guest_ip: self.guest_ip@,
            guest_mac: self.guest_mac@,
            pod_cidr: self.pod_cidr@,
            pod_gateway: self.pod_gateway@,
            guest_agent_port: self.guest_agent_port,
            enable_host_veth: self.enable_host_veth,
            enable_guest_egress: self.enable_guest_egress,
            pod_iface: self.pod_iface@,
            wait_guest_agent: self.wait_guest_agent,
            guest_agent_wait_secs: self.guest_agent_wait_secs,
        }
    }
}

impl View for NetConfig {
    type V = NetConfigView;

    open spec fn view(&self) -> NetConfigView {
        self.deep_view()
    }
}

impl Duplicate for NetConfig {
    fn duplicate(&self) -> (r: Self) {
        NetConfig {
            tap_name: self.tap_name.duplicate(),
            tap_gateway: self.tap_gateway.duplicate(),
            tap_prefix: self.tap_prefix,
            guest_ip: self.guest_ip.duplicate(),
            guest_mac: self.guest_mac.duplicate(),
            pod_cidr: self.pod_cidr.duplicate(),
            pod_gateway: self.pod_gateway.duplicate(),
            guest_agent_port: self.guest_agent_port,
            enable_host_veth: self.enable_host_veth,
            enable_guest_egress: self.enable_guest_egress,
            pod_iface: self.pod_iface.duplicate(),
            wait_guest_agent: self.wait_guest_agent,
            guest_agent_wait_secs: self.guest_agent_wait_secs,
        }
    }
}

impl Clone for NetConfig {
    fn clone(&self) -> (r: Self)
        ensures
            r@ == self@,
    {
        self.duplicate()
    }
}

/// One type of sandbox.
#[derive(Debug, PartialEq)]
pub struct SandboxType {
    pub type_id: u8,
    /// The directory of the snapshot, below `snapshots/`.
    pub bundle: String,
    pub vcpu: u32,
    pub mem_mib: u32,
    pub has_rw_layer: bool,
    pub has_cloud_disk: bool,
    /// The images that may run in it.
    pub image_whitelist: Vec<String>,
}

/// The abstract value of [`SandboxType`].
#[verifier::ext_equal]
pub struct SandboxTypeView {
    pub type_id: u8,
    pub bundle: Seq<char>,
    pub vcpu: u32,
    pub mem_mib: u32,
    pub has_rw_layer: bool,
    pub has_cloud_disk: bool,
    pub image_whitelist: Seq<Seq<char>>,
}

impl DeepView for SandboxType {
    type V = SandboxTypeView;

    open spec fn deep_view(&self) -> SandboxTypeView {
        SandboxTypeView {
            type_id: self.type_id,
            bundle: self.bundle@,
            vcpu: self.vcpu,
            mem_mib: self.mem_mib,
            has_rw_layer: self.has_rw_layer,
            has_cloud_disk: self.has_cloud_disk,
            image_whitelist: self.image_whitelist.deep_view(),
        }
    }
}

impl View for SandboxType {
    type V = SandboxTypeView;

    open spec fn view(&self) -> SandboxTypeView {
        self.deep_view()
    }
}

impl Duplicate for SandboxType {
    fn duplicate(&self) -> (r: Self) {
        SandboxType {
            type_id: self.type_id,
            bundle: self.bundle.duplicate(),
            vcpu: self.vcpu,
            mem_mib: self.mem_mib,
            has_rw_layer: self.has_rw_layer,
            has_cloud_disk: self.has_cloud_disk,
            image_whitelist: self.image_whitelist.duplicate(),
        }
    }
}

impl Clone for SandboxType {
    fn clone(&self) -> (r: Self)
        ensures
            r@ == self@,
    {
        self.duplicate()
    }
}

/// The configuration of a node.
#[derive(Debug, PartialEq)]
pub struct Config {
    pub firecracker_bin: String,
    pub jailer_bin: String,
    /// Where the jails are.
    pub chroot_base_dir: String,
    pub jailer_uid: u32,
    pub jailer_gid: u32,
    /// Where the snapshots are.
    pub artifacts_dir: String,
    /// Where the sockets are.
    pub run_base_dir: String,
    pub log_dir: String,
    pub store_path: String,
    pub cri_socket: String,
    /// Where the writable layers are.
    pub rw_base_dir: String,
    /// The size of a writable layer.
    pub rw_size_mib: u64,
    /// Whether files are copied by sharing their blocks.
    pub reflink_enabled: bool,
    /// Whether a copy that cannot share blocks is refused.
    pub reflink_required: bool,
    /// A formatted writable layer to copy.
    pub rw_template_path: Option<String>,
    pub net: NetConfig,
    pub types: Vec<SandboxType>,
}

/// The abstract value of [`Config`].
#[verifier::ext_equal]
pub struct ConfigView {
    pub firecracker_bin: Seq<char>,
    pub jailer_bin: Seq<char>,
    pub chroot_base_dir: Seq<char>,
    pub jailer_uid: u32,
    pub jailer_gid: u32,
    pub artifacts_dir: Seq<char>,
    pub run_base_dir: Seq<char>,
    pub log_dir: Seq<char>,
    pub store_path: Seq<char>,
    pub cri_socket: Seq<char>,
    pub rw_base_dir: Seq<char>,
    pub rw_size_mib: u64,
    pub reflink_enabled: bool,
    pub reflink_required: bool,
    pub rw_template_path: Option<Seq<char>>,
    pub net: NetConfigView,
    pub types: Seq<SandboxTypeView>,
}

impl DeepView for Config {
    type V = ConfigView;

    open spec fn deep_view(&self) -> ConfigView {
        ConfigView {
            firecracker_bin: self.firecracker_bin@,
            jailer_bin: self.jailer_bin@,
            chroot_base_dir: self.chroot_base_dir@,
            jailer_uid: self.jailer_uid,
            jailer_gid: self.jailer_gid,
            artifacts_dir: self.artifacts_dir@,
            run_base_dir: self.run_base_dir@,
            log_dir: self.log_dir@,
            store_path: self.store_path@,
            cri_socket: self.cri_socket@,
            rw_base_dir: self.rw_base_dir@,
            rw_size_mib: self.rw_size_mib,
            reflink_enabled: self.reflink_enabled,
            reflink_required: self.reflink_required,
            rw_template_path: self.rw_template_path.deep_view(),
            net: self.net.deep_view(),
            types: self.types.deep_view(),
        }
    }
}

impl View for Config {
    type V = ConfigView;

    open spec fn view(&self) -> ConfigView {
        self.deep_view()
    }
}

impl Duplicate for Config {
    fn duplicate(&self) -> (r: Self) {
        Config {
            firecracker_bin: self.firecracker_bin.duplicate(),
            jailer_bin: self.jailer_bin.duplicate(),
            chroot_base_dir: self.chroot_base_dir.duplicate(),
            jailer_uid: self.jailer_uid,
            jailer_gid: self.jailer_gid,
            artifacts_dir: self.artifacts_dir.duplicate(),
            run_base_dir: self.run_base_dir.duplicate(),
            log_dir: self.log_dir.duplicate(),
            store_path: self.store_path.duplicate(),
            cri_socket: self.cri_socket.duplicate(),
            rw_base_dir: self.rw_base_dir.duplicate(),
            rw_size_mib: self.rw_size_mib,
            reflink_enabled: self.reflink_enabled,
            reflink_required: self.reflink_required,
            rw_template_path: self.rw_template_path.duplicate(),
            net: self.net.duplicate(),
            types: self.types.duplicate(),
        }
    }
}

impl Clone for Config {
    fn clone(&self) -> (r: Self)
        ensures
            r@ == self@,
    {
        self.duplicate()
    }
}

/// The configuration where none is given.
pub open spec fn default_config() -> ConfigView {
    ConfigView {
        firecracker_bin: "/home/yunfei/workspace/snap_double_shot/bin/firecracker"@,
        jailer_bin: "/home/yunfei/workspace/snap_double_shot/bin/jailer"@,
        chroot_base_dir: "/home/yunfei/oas-test"@,
        jailer_uid: 1234,
        jailer_gid: 1234,
        artifacts_dir: "/var/lib/oas/artifacts"@,
        run_base_dir: "/run/oas"@,
        log_dir: "/var/log/oas"@,
        store_path: "/var/lib/oas/store.redb"@,
        cri_socket: "/run/oas.sock"@,
        rw_base_dir: "/var/lib/oas/rw"@,
        rw_size_mib: 1024,
        reflink_enabled: true,
        reflink_required: true,
        rw_template_path: Some("/var/lib/oas/artifacts/rw-template.ext4"@),
        net: NetConfigView {
            tap_name: "tapH0"@,
            tap_gateway: "172.16.0.1"@,
            tap_prefix: 30,
            guest_ip: "172.16.0.2"@,
            guest_mac: "06:00:AC:10:00:02"@,
            pod_cidr: "10.244.0.0/24"@,
            pod_gateway: "10.244.0.254"@,
            guest_agent_port: 10000,
            enable_host_veth: false,
            enable_guest_egress: false,
            pod_iface: "eth0"@,
            wait_guest_agent: false,
            guest_agent_wait_secs: 30,
        },
        types: seq![
            SandboxTypeView {
                type_id: 0,
                bundle: "base-0"@,
                vcpu: 1,
                mem_mib: 512,
                has_rw_layer: false,
                has_cloud_disk: false,
                image_whitelist: seq!["img-a"@],
            },
            SandboxTypeView {
                type_id: 1,
                bundle: "base-1"@,
                vcpu: 2,
                mem_mib: 1024,
                has_rw_layer: true,
                has_cloud_disk: false,
                image_whitelist: seq!["img-b"@],
            },
            SandboxTypeView {
                type_id: 2,
                bundle: "base-2"@,
                vcpu: 4,
                mem_mib: 2048,
                has_rw_layer: true,
                has_cloud_disk: true,
                image_whitelist: seq!["img-c"@],
            },
        ],
    }
}

/// Whether files are copied by sharing blocks where the configuration is silent.
pub fn default_reflink_enabled() -> (r: bool)
    ensures
        r == true,
{
    true
}

/// Whether block sharing is required where the configuration is silent.
pub fn default_reflink_required() -> (r: bool)
    ensures
        r == true,
{
    true
}

/// The writable layer to copy where the configuration is silent.
pub fn default_rw_template_path() -> (r: Option<String>)
    ensures
        r.deep_view() == Some("/var/lib/oas/artifacts/rw-template.ext4"@),
{
    Some("/var/lib/oas/artifacts/rw-template.ext4".to_owned())
}

impl Default for Config {
    fn default() -> (r: Self)
        ensures
            r@ == default_config(),
    {
        let types: Vec<SandboxType> = vec![
            SandboxType {
                type_id: 0,
                bundle: "base-0".to_owned(),
                vcpu: 1,
                mem_mib: 512,
                has_rw_layer: false,
                has_cloud_disk: false,
                image_whitelist: vec!["img-a".to_owned()],
            },
            SandboxType {
                type_id: 1,
                bundle: "base-1".to_owned(),
                vcpu: 2,
                mem_mib: 1024,
                has_rw_layer: true,
                has_cloud_disk: false,
                image_whitelist: vec!["img-b".to_owned()],
            },
            SandboxType {
                type_id: 2,
                bundle: "base-2".to_owned(),
                vcpu: 4,
                mem_mib: 2048,
                has_rw_layer: true,
                has_cloud_disk: true,
                image_whitelist: vec!["img-c".to_owned()],
            },
        ];
        let c = Config {
            firecracker_bin: "/home/yunfei/workspace/snap_double_shot/bin/firecracker".to_owned(),
            jailer_bin: "/home/yunfei/workspace/snap_double_shot/bin/jailer".to_owned(),
            chroot_base_dir: "/home/yunfei/oas-test".to_owned(),
            jailer_uid: 1234,
            jailer_gid: 1234,
            artifacts_dir: "/var/lib/oas/artifacts".to_owned(),
            run_base_dir: "/run/oas".to_owned(),
            log_dir: "/var/log/oas".to_owned(),
            store_path: "/var/lib/oas/store.redb".to_owned(),
            cri_socket: "/run/oas.sock".to_owned(),
            rw_base_dir: "/var/lib/oas/rw".to_owned(),
            rw_size_mib: 1024,
            reflink_enabled: default_reflink_enabled(),
            reflink_required: default_reflink_required(),
            rw_template_path: default_rw_template_path(),
            net: NetConfig {
                tap_name: "tapH0".to_owned(),
                tap_gateway: "172.16.0.1".to_owned(),
                tap_prefix: 30,
                guest_ip: "172.16.0.2".to_owned(),
                guest_mac: "06:00:AC:10:00:02".to_owned(),
                pod_cidr: "10.244.0.0/24".to_owned(),
                pod_gateway: "10.244.0.254".to_owned(),
                guest_agent_port: 10000,
                enable_host_veth: false,
                enable_guest_egress: false,
                pod_iface: "eth0".to_owned(),
                wait_guest_agent: false,
                guest_agent_wait_secs: 30,
            },
            types,
        };
        assert(c@.types =~~= default_config().types);
        c
    }
}

/// A path and a part to go below it. An absolute part takes the place of the
/// path.
pub open spec fn join_path(base: Seq<char>, part: Seq<char>) -> Seq<char> {
    if part.len() > 0 && part[0] == '/' {
        part
    } else if base.len() > 0 && base.last() != '/' {
        base.push('/') + part
    } else {
        base + part
    }
}

/// A path and a part to go below it.
pub fn path_join(base: &str, part: &str) -> (r: String)
    ensures
        r@ == join_path(base@, part@),
{
    let b = text::chars_of(base);
    let p = text::chars_of(part);
    if p.len() > 0 && p[0] == '/' {
        part.to_owned()
    } else if b.len() > 0 && b[b.len() - 1] != '/' {
        let mut s = base.to_owned();
        s.push('/');
        text::cat2(s.as_str(), part)
    } else {
        text::cat2(base, part)
    }
}

/// The name of an image without digest prefix, registry, path and tag.
pub open spec fn base_name(image: Seq<char>) -> Seq<char> {
    let bare = if text::has_prefix(image, "sha256:"@) || text::has_prefix(image, "sha512:"@) {
        image.skip(7)
    } else {
        image
    };
    text::before_last(text::after_last(bare, '/'), ':')
}

/// The name of an image without digest prefix, registry, path and tag.
pub fn image_base_name(image: &str) -> (r: &str)
    ensures
        r@ == base_name(image@),
{
    let n: usize = text::chars_of(image).len();
    proof {
        reveal_strlit("sha256:");
        reveal_strlit("sha512:");
    }
    let bare = if text::strip_prefix(image, "sha256:").is_some() || text::strip_prefix(
        image,
        "sha512:",
    ).is_some() {
        image.substring_char(7, n)
    } else {
        image
    };
    let m: usize = text::chars_of(bare).len();
    let last = match text::last_place(bare, '/') {
        Some(i) => bare.substring_char(i + 1, m),
        None => bare,
    };
    match text::last_place(last, ':') {
        Some(i) => last.substring_char(0, i),
        None => last,
    }
}

impl SandboxTypeView {
    /// Whether an image may run in this type.
    pub open spec fn allows(self, image: Seq<char>) -> bool {
        exists|i: int|
            0 <= i < self.image_whitelist.len() && base_name(#[trigger] self.image_whitelist[i])
                == base_name(image)
    }
}

impl SandboxType {
    /// Whether an image may run in this type.
    pub fn image_allowed(&self, image: &str) -> (r: bool)
        ensures
            r == self@.allows(image@),
    {
        let base = image_base_name(image);
        let mut i: usize = 0;
        while i < self.image_whitelist.len()
            invariant
                i <= self.image_whitelist@.len(),
                base@ == base_name(image@),
                forall|j: int|
                    0 <= j < i ==> base_name(#[trigger] self@.image_whitelist[j]) != base_name(image@),
            decreases self.image_whitelist@.len() - i,
        {
            if text::same(image_base_name(self.image_whitelist[i].as_str()), base) {
                assert(base_name(self@.image_whitelist[i as int]) == base_name(image@));
                return true;
            }
            i = i + 1;
        }
        false
    }
}

impl ConfigView {
    pub open spec fn bundle_dir(self, bundle: Seq<char>) -> Seq<char> {
        join_path(join_path(self.artifacts_dir, "snapshots"@), bundle)
    }

    pub open spec fn sandbox_dir(self, id: Seq<char>) -> Seq<char> {
        join_path(join_path(self.chroot_base_dir, "firecracker"@), id)
    }

    pub open spec fn jail_root(self, id: Seq<char>) -> Seq<char> {
        join_path(self.sandbox_dir(id), "root"@)
    }

    pub open spec fn shim_socket(self, id: Seq<char>) -> Seq<char> {
        join_path(self.run_base_dir, "oas-shim-"@ + id + ".sock"@)
    }

    pub open spec fn shim_log(self, id: Seq<char>) -> Seq<char> {
        join_path(self.log_dir, "oas-shim-"@ + id + ".log"@)
    }

    pub open spec fn netns_path(self, id: Seq<char>) -> Seq<char> {
        "/var/run/netns/oas-"@ + id
    }

    pub open spec fn netns_name(self, id: Seq<char>) -> Seq<char> {
        "oas-"@ + id
    }

    /// Where in the table the type with this number first stands.
    pub open spec fn type_at(self, type_id: u8, i: int) -> bool {
        &&& 0 <= i < self.types.len()
        &&& self.types[i].type_id == type_id
        &&& forall|j: int| 0 <= j < i ==> (#[trigger] self.types[j]).type_id != type_id
    }

    /// The type with a number: the first one where several have it.
    pub open spec fn get_type(self, type_id: u8) -> Option<SandboxTypeView> {
        if exists|i: int| self.type_at(type_id, i) {
            Some(self.types[choose|i: int| self.type_at(type_id, i)])
        } else {
            None
        }
    }

    /// Whether an image may run in any type.
    pub open spec fn allows_any(self, image: Seq<char>) -> bool {
        exists|i: int| 0 <= i < self.types.len() && (#[trigger] self.types[i]).allows(image)
    }

    /// The images of the first `n` types, in the order of the table.
    pub open spec fn images(self, n: nat) -> Seq<Seq<char>>
        decreases n,
    {
        if n == 0 {
            seq![]
        } else {
            self.images((n - 1) as nat) + self.types[n - 1].image_whitelist
        }
    }
}

impl Config {
    /// The configuration that a file gives, or the default where there is no
    /// file or it cannot be read.
    pub fn load(parsed: Option<Config>) -> (r: Config)
        ensures
            r@ == (match parsed {
                Some(c) => c@,
                None => default_config(),
            }),
    {
        match parsed {
            Some(c) => c,
            None => Config::default(),
        }
    }

    /// The directory of a snapshot.
    pub fn bundle_dir(&self, bundle: &str) -> (r: String)
        ensures
            r@ == self@.bundle_dir(bundle@),
    {
        path_join(path_join(self.artifacts_dir.as_str(), "snapshots").as_str(), bundle)
    }

    /// The root directory that a sandbox's microVM sees.
    pub fn jail_root(&self, sandbox_id: &str) -> (r: String)
        ensures
            r@ == self@.jail_root(sandbox_id@),
    {
        path_join(self.sandbox_dir(sandbox_id).as_str(), "root")
    }

    /// The directory of a sandbox.
    pub fn sandbox_dir(&self, sandbox_id: &str) -> (r: String)
        ensures
            r@ == self@.sandbox_dir(sandbox_id@),
    {
        path_join(path_join(self.chroot_base_dir.as_str(), "firecracker").as_str(), sandbox_id)
    }

    /// The socket of a sandbox's shim.
    pub fn shim_socket(&self, sandbox_id: &str) -> (r: String)
        ensures
            r@ == self@.shim_socket(sandbox_id@),
    {
        path_join(
            self.run_base_dir.as_str(),
            text::cat3("oas-shim-", sandbox_id, ".sock").as_str(),
        )
    }

    /// The network namespace of a sandbox, as a path.
    pub fn netns_path(&self, sandbox_id: &str) -> (r: String)
        ensures
            r@ == self@.netns_path(sandbox_id@),
    {
        text::cat2("/var/run/netns/oas-", sandbox_id)
    }

    /// The network namespace of a sandbox, by name.
    pub fn netns_name(&self, sandbox_id: &str) -> (r: String)
        ensures
            r@ == self@.netns_name(sandbox_id@),
    {
        text::cat2("oas-", sandbox_id)
    }

    /// The log of a sandbox's shim.
    pub fn shim_log(&self, sandbox_id: &str) -> (r: String)
        ensures
            r@ == self@.shim_log(sandbox_id@),
    {
        path_join(self.log_dir.as_str(), text::cat3("oas-shim-", sandbox_id, ".log").as_str())
    }

    /// The type with a number.
    pub fn get_type(&self, type_id: u8) -> (r: Option<&SandboxType>)
        ensures
            match r {
                Some(t) => self@.get_type(type_id) == Some(t@),
                None => self@.get_type(type_id) is None,
            },
    {
        let mut i: usize = 0;
        while i < self.types.len()
            invariant
                i <= self.types@.len(),
                forall|j: int| 0 <= j < i ==> (#[trigger] self@.types[j]).type_id != type_id,
            decreases self.types@.len() - i,
        {
            assert(self@.types[i as int] == self.types@[i as int]@);
            if self.types[i].type_id == type_id {
                proof {
                    assert(self@.type_at(type_id, i as int));
                    let k = choose|k: int| self@.type_at(type_id, k);
                    if k < i {
                        assert(self@.types[k].type_id != type_id);
                    } else if i < k {
                        assert(self@.types[i as int].type_id != type_id);
                    }
                }
                return Some(&self.types[i]);
            }
            i = i + 1;
        }
        None
    }

    /// The images of all types, in the order of the table.
    pub fn all_images(&self) -> (r: Vec<&str>)
        ensures
            r.deep_view() == self@.images(self@.types.len()),
    {
        let mut out: Vec<&str> = Vec::new();
        let mut i: usize = 0;
        assert(out.deep_view() =~= self@.images(0));
        while i < self.types.len()
            invariant
                i <= self.types@.len(),
                out.deep_view() == self@.images(i as nat),
            decreases self.types@.len() - i,
        {
            let list = &self.types[i].image_whitelist;
            assert(self@.types[i as int] == self.types@[i as int]@);
            let mut j: usize = 0;
            let ghost before = out.deep_view();
            assert(before + list.deep_view().take(0) =~= before);
            while j < list.len()
                invariant
                    j <= list@.len(),
                    out.deep_view() == before + list.deep_view().take(j as int),
                decreases list@.len() - j,
            {
                let ghost o = out.deep_view();
                out.push(list[j].as_str());
                proof {
                    assert(out.deep_view() =~= o.push(list@[j as int]@));
                    assert(before + list.deep_view().take(j + 1) =~= o.push(list.deep_view()[j as int]));
                }
                j = j + 1;
            }
            assert(list.deep_view().take(j as int) =~= list.deep_view());
            i = i + 1;
        }
        out
    }

    /// Whether an image may run in any type.
    pub fn image_allowed_any(&self, image: &str) -> (r: bool)
        ensures
            r == self@.allows_any(image@),
    {
        let mut i: usize = 0;
        while i < self.types.len()
            invariant
                i <= self.types@.len(),
                forall|j: int| 0 <= j < i ==> !(#[trigger] self@.types[j]).allows(image@),
            decreases self.types@.len() - i,
        {
            assert(self@.types[i as int] == self.types@[i as int]@);
            if self.types[i].image_allowed(image) {
                return true;
            }
            i = i + 1;
        }
        false
    }
}

/// How a file was copied.
#[derive(Debug, Clone, Copy, PartialEq, Eq, Structural)]
pub enum CopyMethod {
    /// The copy shares the blocks of the source.
    Reflink,
    /// The bytes were copied.
    Ordinary,
}

/// The next thing to do on the way to a copy.
#[derive(Debug, Clone, Copy, PartialEq, Eq, Structural)]
pub enum CopyAction {
    /// Ask the file system for a copy that shares blocks.
    Clone,
    /// Copy the bytes.
    CopyBytes,
    /// Take away what a failed attempt left, then copy the bytes.
    RemoveThenCopyBytes,
    /// Take away what a failed attempt left, and give up.
    RemoveThenFail,
    /// The copy is made.
    Done(CopyMethod),
}

/// How a copy begins.
pub fn copy_start(reflink_enabled: bool) -> (a: CopyAction)
    ensures
        a == (if reflink_enabled {
            CopyAction::Clone
        } else {
            CopyAction::CopyBytes
        }),
{
    if reflink_enabled {
        CopyAction::Clone
    } else {
        CopyAction::CopyBytes
    }
}

/// What follows an attempt to share blocks. Only where sharing is not required
/// are the bytes copied in its place.
pub fn copy_after_clone(cloned: bool, reflink_required: bool) -> (a: CopyAction)
    ensures
        cloned ==> a == CopyAction::Done(CopyMethod::Reflink),
        !cloned && reflink_required ==> a == CopyAction::RemoveThenFail,
        !cloned && !reflink_required ==> a == CopyAction::RemoveThenCopyBytes,
{
    if cloned {
        CopyAction::Done(CopyMethod::Reflink)
    } else if reflink_required {
        CopyAction::RemoveThenFail
    } else {
        CopyAction::RemoveThenCopyBytes
    }
}

} // verus!
