//! The link between a pod and its host: names, addresses and the `ip`
//! commands that build it up and take it down.

use vstd::prelude::*;

use crate::model::Duplicate;
use crate::text;

verus! {

/// A link to build.
#[derive(Debug, PartialEq, Eq)]
pub struct HostVethPlan {
    pub netns_name: String,
    /// The host's end.
    pub host_veth: String,
    /// The pod's end before it is renamed.
    pub peer_veth: String,
    /// The pod's end.
    pub pod_iface: String,
    pub pod_ip: String,
    pub prefix: u8,
    pub host_gateway_ip: String,
}

/// The abstract value of [`HostVethPlan`].
#[verifier::ext_equal]
pub struct HostVethPlanView {
    pub netns_name: Seq<char>,
    pub host_veth: Seq<char>,
    pub peer_veth: Seq<char>,
    pub pod_iface: Seq<char>,
    pub pod_ip: Seq<char>,
    pub prefix: u8,
    pub host_gateway_ip: Seq<char>,
}

impl DeepView for HostVethPlan {
    type V = HostVethPlanView;

    open spec fn deep_view(&self) -> HostVethPlanView {
        HostVethPlanView {
            netns_name: self.netns_name@,
            host_veth: self.host_veth@,
            peer_veth: self.peer_veth@,
            pod_iface: self.pod_iface@,
            pod_ip: self.pod_ip@,
            prefix: self.prefix,
            host_gateway_ip: self.host_gateway_ip@,
        }
    }
}

impl View for HostVethPlan {
    type V = HostVethPlanView;

    open spec fn view(&self) -> HostVethPlanView {
        self.deep_view()
    }
}

impl Duplicate for HostVethPlan {
    fn duplicate(&self) -> (r: Self) {
        HostVethPlan {
            netns_name: self.netns_name.duplicate(),
            host_veth: self.host_veth.duplicate(),
            peer_veth: self.peer_veth.duplicate(),
            pod_iface: self.pod_iface.duplicate(),
            pod_ip: self.pod_ip.duplicate(),
            prefix: self.prefix,
            host_gateway_ip: self.host_gateway_ip.duplicate(),
        }
    }
}

impl Clone for HostVethPlan {
    fn clone(&self) -> (r: Self)
        ensures
            r@ == self@,
    {
        self.duplicate()
    }
}

/// The prefix length at the end of a block, as far as it can be read.
pub open spec fn prefix_of(cidr: Seq<char>) -> Result<u8, Seq<char>> {
    match cidr.index_of_first('/') {
        Some(i) => match text::parse_dec(cidr.skip(i + 1), 255) {
            Some(p) => Ok(p as u8),
            None => Err("invalid cidr prefix: "@ + cidr),
        },
        None => Err("cidr missing prefix: "@ + cidr),
    }
}

/// The prefix length at the end of a block.
pub fn cidr_prefix(cidr: &str) -> (r: Result<u8, String>)
    ensures
        match r {
            Ok(p) => prefix_of(cidr@) == Ok::<u8, Seq<char>>(p),
            Err(e) => prefix_of(cidr@) == Err::<u8, Seq<char>>(e@),
        },
{
    match text::split_once(cidr, '/') {
        Some((_, prefix)) => match text::parse_number(prefix.as_str(), 255) {
            Some(p) => Ok(p as u8),
            None => Err(text::cat2("invalid cidr prefix: ", cidr)),
        },
        None => Err(text::cat2("cidr missing prefix: ", cidr)),
    }
}

/// The 32-bit FNV-1a hash of bytes.
pub open spec fn fnv1a(bytes: Seq<u8>) -> u32
    decreases bytes.len(),
{
    if bytes.len() == 0 {
        2_166_136_261
    } else {
        let h = fnv1a(bytes.drop_last()) ^ (bytes.last() as u32);
        ((h * 16_777_619) % 0x1_0000_0000) as u32
    }
}

/// The names of the two ends of a sandbox's link.
pub open spec fn link_names(sandbox_id: Seq<char>) -> (Seq<char>, Seq<char>) {
    let digest = text::hex(fnv1a(vstd::utf8::encode_utf8(sandbox_id)) as nat, 8);
    ("oasv"@ + digest, "oasp"@ + digest)
}

/// The names of the two ends of a sandbox's link.
pub fn veth_names(sandbox_id: &str) -> (r: (String, String))
    ensures
        (r.0@, r.1@) == link_names(sandbox_id@),
{
    let bytes = sandbox_id.as_bytes();
    let mut hash: u32 = 2_166_136_261;
    let mut i: usize = 0;
    assert(bytes@.take(0) =~= seq![]);
    while i < bytes.len()
        invariant
            i <= bytes@.len(),
            hash == fnv1a(bytes@.take(i as int)),
        decreases bytes@.len() - i,
    {
        assert(bytes@.take(i + 1).drop_last() =~= bytes@.take(i as int));
        let h: u32 = hash ^ (bytes[i] as u32);
        let m: u64 = (h as u64 * 16_777_619) % 0x1_0000_0000;
        hash = m as u32;
        i = i + 1;
    }
    assert(bytes@.take(i as int) =~= bytes@);
    let digest = text::hex_string(hash as u64, 8);
    (text::cat2("oasv", digest.as_str()), text::cat2("oasp", digest.as_str()))
}

/// The names of a link are twelve characters long, within the fifteen that the
/// kernel allows, and its two ends have different names.
pub proof fn link_names_fit(sandbox_id: Seq<char>)
    ensures
        link_names(sandbox_id).0.len() == 12,
        link_names(sandbox_id).1.len() == 12,
        link_names(sandbox_id).0 != link_names(sandbox_id).1,
{
    let h = fnv1a(vstd::utf8::encode_utf8(sandbox_id)) as nat;
    text::hex_len(h, 8);
    reveal_strlit("oasv");
    reveal_strlit("oasp");
    assert(link_names(sandbox_id).0[3] == 'v');
    assert(link_names(sandbox_id).1[3] == 'p');
}

/// The link of a sandbox.
pub open spec fn link_plan(
    sandbox_id: Seq<char>,
    netns_name: Seq<char>,
    pod_ip: Seq<char>,
    pod_iface: Seq<char>,
    host_gateway_ip: Seq<char>,
    prefix: u8,
) -> HostVethPlanView {
    HostVethPlanView {
        netns_name,
        host_veth: link_names(sandbox_id).0,
        peer_veth: link_names(sandbox_id).1,
        pod_iface,
        pod_ip,
        prefix,
        host_gateway_ip,
    }
}

/// Plans the link of a sandbox. Only a block whose prefix length cannot be
/// read is refused.
pub fn host_veth_plan(
    sandbox_id: &str,
    netns_name: &str,
    pod_ip: &str,
    pod_cidr: &str,
    pod_iface: &str,
    host_gateway_ip: &str,
) -> (r: Result<HostVethPlan, String>)
    ensures
        match r {
            Ok(p) => prefix_of(pod_cidr@) matches Ok(n) && p@ == link_plan(
                sandbox_id@,
                netns_name@,
                pod_ip@,
                pod_iface@,
                host_gateway_ip@,
                n,
            ),
            Err(e) => prefix_of(pod_cidr@) == Err::<u8, Seq<char>>(e@),
        },
{
    match cidr_prefix(pod_cidr) {
        Ok(prefix) => {
            let (host_veth, peer_veth) = veth_names(sandbox_id);
            Ok(
                HostVethPlan {
                    netns_name: netns_name.to_owned(),
                    host_veth,
                    peer_veth,
                    pod_iface: pod_iface.to_owned(),
                    pod_ip: pod_ip.to_owned(),
                    prefix,
                    host_gateway_ip: host_gateway_ip.to_owned(),
                },
            )
        },
        Err(e) => Err(e),
    }
}

/// The `ip` commands that build a link: its two ends, the address and the default
/// route of the pod, the gateway address of the host and the route to the pod.
pub open spec fn link_up(plan: HostVethPlanView) -> Seq<Seq<Seq<char>>> {
    seq![
        seq![
            "link"@,
            "add"@,
            plan.host_veth,
            "type"@,
            "veth"@,
            "peer"@,
            "name"@,
            plan.peer_veth,
        ],
        seq![
            "link"@,
            "set"@,
            plan.peer_veth,
            "netns"@,
            plan.netns_name,
        ],
        seq![
            "netns"@,
            "exec"@,
            plan.netns_name,
            "ip"@,
            "link"@,
            "set"@,
            plan.peer_veth,
            "name"@,
            plan.pod_iface,
        ],
        seq![
            "netns"@,
            "exec"@,
            plan.netns_name,
            "ip"@,
            "addr"@,
            "add"@,
            plan.pod_ip + "/"@ + text::dec(plan.prefix as nat),
            "dev"@,
            plan.pod_iface,
        ],
        seq![
            "netns"@,
            "exec"@,
            plan.netns_name,
            "ip"@,
            "link"@,
            "set"@,
            plan.pod_iface,
            "up"@,
        ],
        seq![
            "addr"@,
            "add"@,
            plan.host_gateway_ip + "/"@ + text::dec(plan.prefix as nat),
            "dev"@,
            plan.host_veth,
        ],
        seq![
            "link"@,
            "set"@,
            plan.host_veth,
            "up"@,
        ],
        seq![
            "netns"@,
            "exec"@,
            plan.netns_name,
            "ip"@,
            "route"@,
            "replace"@,
            "default"@,
            "via"@,
            plan.host_gateway_ip,
            "dev"@,
            plan.pod_iface,
        ],
        seq![
            "route"@,
            "replace"@,
            plan.pod_ip,
            "dev"@,
            plan.host_veth,
        ],
    ]
}

/// The `ip` commands that build a link: its two ends, the address and the default
/// route of the pod, the gateway address of the host and the route to the pod.
pub fn host_veth_setup_cmds(plan: &HostVethPlan) -> (r: Vec<Vec<String>>)
    ensures
        r.deep_view() == link_up(plan@),
{
    let r: Vec<Vec<String>> = vec![
        vec![
            "link".to_owned(),
            "add".to_owned(),
            plan.host_veth.clone(),
            "type".to_owned(),
            "veth".to_owned(),
            "peer".to_owned(),
            "name".to_owned(),
            plan.peer_veth.clone(),
        ],
        vec![
            "link".to_owned(),
            "set".to_owned(),
            plan.peer_veth.clone(),
            "netns".to_owned(),
            plan.netns_name.clone(),
        ],
        vec![
            "netns".to_owned(),
            "exec".to_owned(),
            plan.netns_name.clone(),
            "ip".to_owned(),
            "link".to_owned(),
            "set".to_owned(),
            plan.peer_veth.clone(),
            "name".to_owned(),
            plan.pod_iface.clone(),
        ],
        vec![
            "netns".to_owned(),
            "exec".to_owned(),
            plan.netns_name.clone(),
            "ip".to_owned(),
            "addr".to_owned(),
            "add".to_owned(),
            text::cat3(plan.pod_ip.as_str(), "/", text::dec_string(plan.prefix as u64).as_str()),
            "dev".to_owned(),
            plan.pod_iface.clone(),
        ],
        vec![
            "netns".to_owned(),
            "exec".to_owned(),
            plan.netns_name.clone(),
            "ip".to_owned(),
            "link".to_owned(),
            "set".to_owned(),
            plan.pod_iface.clone(),
            "up".to_owned(),
        ],
        vec![
            "addr".to_owned(),
            "add".to_owned(),
            text::cat3(plan.host_gateway_ip.as_str(), "/", text::dec_string(plan.prefix as u64).as_str()),
            "dev".to_owned(),
            plan.host_veth.clone(),
        ],
        vec![
            "link".to_owned(),
            "set".to_owned(),
            plan.host_veth.clone(),
            "up".to_owned(),
        ],
        vec![
            "netns".to_owned(),
            "exec".to_owned(),
            plan.netns_name.clone(),
            "ip".to_owned(),
            "route".to_owned(),
            "replace".to_owned(),
            "default".to_owned(),
            "via".to_owned(),
            plan.host_gateway_ip.clone(),
            "dev".to_owned(),
            plan.pod_iface.clone(),
        ],
        vec![
            "route".to_owned(),
            "replace".to_owned(),
            plan.pod_ip.clone(),
            "dev".to_owned(),
            plan.host_veth.clone(),
        ],
    ];
    assert(r.deep_view() =~~= link_up(plan@));
    r
}

/// The `ip` commands that take a link down.
pub open spec fn link_down(host_veth: Seq<char>, pod_ip: Seq<char>) -> Seq<Seq<Seq<char>>> {
    seq![
        seq![
            "route"@,
            "del"@,
            pod_ip,
        ],
        seq![
            "link"@,
            "del"@,
            host_veth,
        ],
    ]
}

/// The `ip` commands that take a link down.
pub fn host_veth_teardown_cmds(host_veth: &str, pod_ip: &str) -> (r: Vec<Vec<String>>)
    ensures
        r.deep_view() == link_down(host_veth@, pod_ip@),
{
    let r: Vec<Vec<String>> = vec![
        vec![
            "route".to_owned(),
            "del".to_owned(),
            pod_ip.to_owned(),
        ],
        vec![
            "link".to_owned(),
            "del".to_owned(),
            host_veth.to_owned(),
        ],
    ];
    assert(r.deep_view() =~~= link_down(host_veth@, pod_ip@));
    r
}

} // verus!
