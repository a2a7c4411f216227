//! What the commands of a sandbox's network come to: which packets the rules
//! match and where they send them, and which devices, addresses and routes
//! there are once the commands have run.

use vstd::prelude::*;

#[allow(unused_imports)]
use crate::config::ConfigView;
#[allow(unused_imports)]
use crate::model::{flag_at, option, option_at, plain};
#[allow(unused_imports)]
use crate::net::cni::{
    fnv1a, link_down, link_names, link_plan, link_up, prefix_of, HostVethPlanView,
};
#[allow(unused_imports)]
use crate::net::forward::{
    guest_egress_rules, host_egress_rules, port_forward_rules, GuestEgressView,
    GuestPortForwardView, HostEgressView,
};
#[allow(unused_imports)]
use crate::net::setup::{
    built, guest_network, plan_for, plan_without_lease, tear_down, NetStepView, OnFailure,
    RunFailureView, StepKind,
};
#[allow(unused_imports)]
use crate::net::{NetConfigView, NetErrorView};
#[allow(unused_imports)]
use crate::store::StoreErrorView;
#[allow(unused_imports)]
use crate::text;
#[allow(unused_imports)]
use crate::types::IpLeaseView;

verus! {

/// Whether a rule takes packets on their way in that are meant for a port of
/// one address, and sends them on to the same port of another.
pub open spec fn sends_on(
    rule: Seq<Seq<char>>,
    from: Seq<char>,
    port: u16,
    to: Seq<char>,
) -> bool {
    &&& option(rule, "-t"@) == Some("nat"@)
    &&& option(rule, "-A"@) == Some("PREROUTING"@)
    &&& option(rule, "-p"@) == Some("tcp"@)
    &&& option(rule, "-d"@) == Some(from)
    &&& option(rule, "--dport"@) == Some(text::dec(port as nat))
    &&& option(rule, "-j"@) == Some("DNAT"@)
    &&& option(rule, "--to-destination"@) == Some(to + ":"@ + text::dec(port as nat))
}

/// Whether a rule makes packets to a port of an address look as if they came
/// from here.
pub open spec fn answers_here(rule: Seq<Seq<char>>, to: Seq<char>, port: u16) -> bool {
    &&& option(rule, "-t"@) == Some("nat"@)
    &&& option(rule, "-A"@) == Some("POSTROUTING"@)
    &&& option(rule, "-p"@) == Some("tcp"@)
    &&& option(rule, "-d"@) == Some(to)
    &&& option(rule, "--dport"@) == Some(text::dec(port as nat))
    &&& option(rule, "-j"@) == Some("MASQUERADE"@)
}

#[verifier::rlimit(30)]
proof fn rule_words()
    ensures
        plain("nat"@),
        plain("PREROUTING"@),
        plain("POSTROUTING"@),
        plain("FORWARD"@),
        plain("ACCEPT"@),
        plain("tcp"@),
        plain("DNAT"@),
        plain("MASQUERADE"@),
        plain("conntrack"@),
        plain("RELATED,ESTABLISHED"@),
        plain("!"@),
        !plain("-t"@) && !plain("-A"@) && !plain("-p"@) && !plain("-d"@) && !plain("-j"@),
        !plain("-i"@) && !plain("-o"@) && !plain("-m"@) && !plain("-s"@),
        !plain("--dport"@) && !plain("--to-destination"@) && !plain("--ctstate"@),
        "-t"@.len() == 2 && "-t"@[1] == 't',
        "-A"@.len() == 2 && "-A"@[1] == 'A',
        "-p"@.len() == 2 && "-p"@[1] == 'p',
        "-d"@.len() == 2 && "-d"@[1] == 'd',
        "-j"@.len() == 2 && "-j"@[1] == 'j',
        "-i"@.len() == 2 && "-i"@[1] == 'i',
        "-o"@.len() == 2 && "-o"@[1] == 'o',
        "-m"@.len() == 2 && "-m"@[1] == 'm',
        "-s"@.len() == 2 && "-s"@[1] == 's',
        "--dport"@.len() == 7,
        "--ctstate"@.len() == 9,
        "--to-destination"@.len() == 16,
{
    reveal_strlit("nat");
    reveal_strlit("PREROUTING");
    reveal_strlit("POSTROUTING");
    reveal_strlit("FORWARD");
    reveal_strlit("ACCEPT");
    reveal_strlit("tcp");
    reveal_strlit("DNAT");
    reveal_strlit("MASQUERADE");
    reveal_strlit("conntrack");
    reveal_strlit("RELATED,ESTABLISHED");
    reveal_strlit("!");
    reveal_strlit("-t");
    reveal_strlit("-A");
    reveal_strlit("-p");
    reveal_strlit("-d");
    reveal_strlit("-j");
    reveal_strlit("-i");
    reveal_strlit("-o");
    reveal_strlit("-m");
    reveal_strlit("-s");
    reveal_strlit("--dport");
    reveal_strlit("--to-destination");
    reveal_strlit("--ctstate");
}

proof fn port_is_plain(port: u16)
    ensures
        plain(text::dec(port as nat)),
{
    text::dec_reads_back(port as nat);
    assert('0' <= text::dec(port as nat)[0]);
}

/// The rules of a forward: one takes the packets for the port of the pod's
/// address and sends them to the same port of the guest's address, and one lets
/// the guest answer to where they came from.
pub proof fn forward_leads_the_pod_to_the_guest(fwd: GuestPortForwardView)
    requires
        plain(fwd.pod_ip),
        plain(fwd.guest_ip),
    ensures
        port_forward_rules(fwd).len() == 2,
        sends_on(port_forward_rules(fwd)[0], fwd.pod_ip, fwd.port, fwd.guest_ip),
        answers_here(port_forward_rules(fwd)[1], fwd.guest_ip, fwd.port),
{
    rule_words();
    port_is_plain(fwd.port);
    let a = port_forward_rules(fwd)[0];
    option_at(a, "-t"@, 0);
    option_at(a, "-A"@, 2);
    option_at(a, "-p"@, 4);
    option_at(a, "-d"@, 6);
    option_at(a, "--dport"@, 8);
    option_at(a, "-j"@, 10);
    option_at(a, "--to-destination"@, 12);
    let b = port_forward_rules(fwd)[1];
    option_at(b, "-t"@, 0);
    option_at(b, "-A"@, 2);
    option_at(b, "-d"@, 4);
    option_at(b, "-p"@, 6);
    option_at(b, "--dport"@, 8);
    option_at(b, "-j"@, 10);
}

/// Whether a rule lets packets pass that came in by a device.
pub open spec fn lets_in_from(rule: Seq<Seq<char>>, device: Seq<char>) -> bool {
    &&& option(rule, "-t"@) is None
    &&& option(rule, "-A"@) == Some("FORWARD"@)
    &&& option(rule, "-i"@) == Some(device)
    &&& option(rule, "-o"@) is None
    &&& option(rule, "-j"@) == Some("ACCEPT"@)
}

/// Whether a rule lets answers pass that go out by a device.
pub open spec fn lets_answers_to(rule: Seq<Seq<char>>, device: Seq<char>) -> bool {
    &&& option(rule, "-t"@) is None
    &&& option(rule, "-A"@) == Some("FORWARD"@)
    &&& option(rule, "-o"@) == Some(device)
    &&& option(rule, "-i"@) is None
    &&& option(rule, "-m"@) == Some("conntrack"@)
    &&& option(rule, "--ctstate"@) == Some("RELATED,ESTABLISHED"@)
    &&& option(rule, "-j"@) == Some("ACCEPT"@)
}

/// Whether a rule makes packets from a block look as if they came from here.
pub open spec fn hides(rule: Seq<Seq<char>>, block: Seq<char>) -> bool {
    &&& option(rule, "-t"@) == Some("nat"@)
    &&& option(rule, "-A"@) == Some("POSTROUTING"@)
    &&& option(rule, "-s"@) == Some(block)
    &&& option(rule, "-j"@) == Some("MASQUERADE"@)
}

/// Whether a rule leaves out the packets to a block.
pub open spec fn spares(rule: Seq<Seq<char>>, block: Seq<char>) -> bool {
    exists|i: int|
        1 <= i < rule.len() - 1 && rule[i - 1] == "!"@ && #[trigger] rule[i] == "-d"@ && rule[i
            + 1] == block
}

proof fn no_option(words: Seq<Seq<char>>, flag: Seq<char>)
    requires
        forall|i: int| 0 <= i < words.len() ==> #[trigger] words[i] != flag,
    ensures
        option(words, flag) is None,
{
}

/// The rules of a guest's way out: packets from its tap device pass, answers to
/// it pass, and what leaves its block for elsewhere looks as if it came from
/// the namespace. What leaves the block of the pods looks as if it came from
/// the host.
pub proof fn egress_lets_the_guest_out(g: GuestEgressView, h: HostEgressView)
    requires
        plain(g.tap_name),
        plain(g.guest_cidr),
        plain(h.pod_cidr),
    ensures
        guest_egress_rules(g).len() == 3,
        lets_in_from(guest_egress_rules(g)[0], g.tap_name),
        lets_answers_to(guest_egress_rules(g)[1], g.tap_name),
        hides(guest_egress_rules(g)[2], g.guest_cidr),
        spares(guest_egress_rules(g)[2], g.guest_cidr),
        host_egress_rules(h).len() == 1,
        hides(host_egress_rules(h)[0], h.pod_cidr),
        option(host_egress_rules(h)[0], "-d"@) is None,
{
    rule_words();
    let a = guest_egress_rules(g)[0];
    no_option(a, "-t"@);
    no_option(a, "-o"@);
    option_at(a, "-A"@, 0);
    option_at(a, "-i"@, 2);
    option_at(a, "-j"@, 4);
    let b = guest_egress_rules(g)[1];
    no_option(b, "-t"@);
    no_option(b, "-i"@);
    option_at(b, "-A"@, 0);
    option_at(b, "-o"@, 2);
    option_at(b, "-m"@, 4);
    option_at(b, "--ctstate"@, 6);
    option_at(b, "-j"@, 8);
    let c = guest_egress_rules(g)[2];
    option_at(c, "-t"@, 0);
    option_at(c, "-A"@, 2);
    option_at(c, "-s"@, 4);
    option_at(c, "-j"@, 9);
    assert(c[7] == "-d"@);
    let d = host_egress_rules(h)[0];
    option_at(d, "-t"@, 0);
    option_at(d, "-A"@, 2);
    option_at(d, "-s"@, 4);
    option_at(d, "-j"@, 6);
    no_option(d, "-d"@);
}

/// A step runs a rule in a namespace.
pub open spec fn rules_in(step: NetStepView, space: Seq<char>, rule: Seq<Seq<char>>) -> bool {
    &&& step.program() == "ip"@
    &&& step.words() == seq!["netns"@, "exec"@, space, "iptables"@, "-w"@, "5"@] + rule
}

/// Whether a step sends packets on within a namespace.
pub open spec fn step_sends_on(
    step: NetStepView,
    space: Seq<char>,
    from: Seq<char>,
    port: u16,
    to: Seq<char>,
) -> bool {
    exists|rule: Seq<Seq<char>>| #[trigger]
        rules_in(step, space, rule) && sends_on(rule, from, port, to)
}

/// In the plan for a sandbox that holds an address, the agent's port of that
/// address leads, in the namespace of that sandbox, to the same port of the
/// guest. The network that comes of the plan has that address, keeps the lease
/// for the sandbox, and lies in that namespace.
#[verifier::rlimit(30)]
pub proof fn plan_forwards_the_leased_address(c: ConfigView, id: Seq<char>, lease: IpLeaseView)
    requires
        plain(lease.ip),
        plain(c.net.guest_ip),
        plan_for(c, id, lease).result is Ok,
    ensures
        exists|i: int|
            0 <= i < plan_for(c, id, lease).steps.len() && step_sends_on(
                #[trigger] plan_for(c, id, lease).steps[i],
                "oas-"@ + id,
                lease.ip,
                c.net.guest_agent_port,
                c.net.guest_ip,
            ),
        ({
            let net = plan_for(c, id, lease).result->Ok_0;
            &&& net.pod_ip == lease.ip
            &&& net.lease == (IpLeaseView { ip: lease.ip, cidr: lease.cidr, sandbox_id: id })
            &&& plan_for(c, id, lease).lease == net.lease
            &&& net.netns_path == "/var/run/netns/"@ + ("oas-"@ + id)
            &&& net.tap_name == c.net.tap_name
            &&& net.mac == c.net.guest_mac
            &&& net.gateway == c.net.pod_gateway
            &&& net.host_veth == if c.net.enable_host_veth {
                link_names(id).0
            } else {
                seq![]
            }
        }),
{
    let p = plan_for(c, id, lease);
    let fwd = GuestPortForwardView {
        pod_ip: lease.ip,
        guest_ip: c.net.guest_ip,
        port: c.net.guest_agent_port,
    };
    forward_leads_the_pod_to_the_guest(fwd);
    reveal_strlit("");
    reveal_strlit("/var/run/netns/oas-");
    reveal_strlit("/var/run/netns/");
    reveal_strlit("oas-");
    assert("/var/run/netns/oas-"@ + id =~= "/var/run/netns/"@ + ("oas-"@ + id));
    assert(""@ =~= seq![]);
    let at: int = if c.net.enable_host_veth {
        13
    } else {
        4
    };
    let step = p.steps[at];
    assert(step.args == port_forward_rules(fwd)[0]);
    assert(rules_in(step, "oas-"@ + id, port_forward_rules(fwd)[0]));
    assert(step_sends_on(step, "oas-"@ + id, lease.ip, c.net.guest_agent_port, c.net.guest_ip));
}

/// Where a device is: on the host, or in a namespace.
pub type Place = Option<Seq<char>>;

/// One thing that is so on a host.
pub enum Fact {
    /// There is a namespace.
    Space(Seq<char>),
    /// There is a device.
    Device(Place, Seq<char>),
    /// A device has an address.
    Address(Place, Seq<char>, Seq<char>),
    /// A device is up.
    Up(Place, Seq<char>),
    /// Packets for a destination go by way of a device, through a gateway where
    /// there is one.
    Route(Place, Seq<char>, Option<Seq<char>>, Seq<char>),
}

impl Fact {
    /// Whether this is about a device.
    pub open spec fn on(self, place: Place, device: Seq<char>) -> bool {
        match self {
            Fact::Space(_) => false,
            Fact::Device(p, d) => p == place && d == device,
            Fact::Address(p, d, _) => p == place && d == device,
            Fact::Up(p, d) => p == place && d == device,
            Fact::Route(p, _, _, d) => p == place && d == device,
        }
    }

    /// Whether this is about a namespace or something in it.
    pub open spec fn within(self, space: Seq<char>) -> bool {
        match self {
            Fact::Space(n) => n == space,
            Fact::Device(p, _) => p == Some(space),
            Fact::Address(p, _, _) => p == Some(space),
            Fact::Up(p, _) => p == Some(space),
            Fact::Route(p, _, _, _) => p == Some(space),
        }
    }

    /// Whether this is a route to a destination.
    pub open spec fn to(self, place: Place, destination: Seq<char>) -> bool {
        match self {
            Fact::Route(p, t, _, _) => p == place && t == destination,
            _ => false,
        }
    }
}

/// What an `ip` command makes of a host, run at a place, where it succeeds. The
/// other end of a pair that is deleted is left to its namespace.
pub open spec fn ip_at(place: Place, s: Set<Fact>, w: Seq<Seq<char>>) -> Option<Set<Fact>> {
    let known = |d: Seq<char>| s.contains(Fact::Device(place, d));
    if w.len() == 3 && w[0] == "netns"@ && w[1] == "add"@ {
        if s.contains(Fact::Space(w[2])) {
            None
        } else {
            Some(s.insert(Fact::Space(w[2])))
        }
    } else if w.len() == 3 && w[0] == "netns"@ && w[1] == "del"@ {
        Some(s.filter(|f: Fact| !f.within(w[2])))
    } else if w.len() == 6 && w[0] == "tuntap"@ && w[1] == "add"@ && w[2] == "dev"@ && w[4]
        == "mode"@ && w[5] == "tap"@ {
        if known(w[3]) {
            None
        } else {
            Some(s.insert(Fact::Device(place, w[3])))
        }
    } else if w.len() == 8 && w[0] == "link"@ && w[1] == "add"@ && w[3] == "type"@ && w[4]
        == "veth"@ && w[5] == "peer"@ && w[6] == "name"@ {
        if known(w[2]) || known(w[7]) || w[2] == w[7] {
            None
        } else {
            Some(s.insert(Fact::Device(place, w[2])).insert(Fact::Device(place, w[7])))
        }
    } else if w.len() == 5 && w[0] == "link"@ && w[1] == "set"@ && w[3] == "netns"@ {
        if !known(w[2]) || !s.contains(Fact::Space(w[4])) || s.contains(
            Fact::Device(Some(w[4]), w[2]),
        ) {
            None
        } else {
            Some(
                s.filter(|f: Fact| !f.on(place, w[2])).insert(
                    Fact::Device(Some(w[4]), w[2]),
                ),
            )
        }
    } else if w.len() == 5 && w[0] == "link"@ && w[1] == "set"@ && w[3] == "name"@ {
        if !known(w[2]) || known(w[4]) {
            None
        } else {
            Some(
                s.filter(|f: Fact| !f.on(place, w[2])).insert(Fact::Device(place, w[4])),
            )
        }
    } else if w.len() == 4 && w[0] == "link"@ && w[1] == "set"@ && w[3] == "up"@ {
        if !known(w[2]) {
            None
        } else {
            Some(s.insert(Fact::Up(place, w[2])))
        }
    } else if w.len() == 3 && w[0] == "link"@ && w[1] == "del"@ {
        if !known(w[2]) {
            None
        } else {
            Some(s.filter(|f: Fact| !f.on(place, w[2])))
        }
    } else if w.len() == 5 && w[0] == "addr"@ && w[1] == "add"@ && w[3] == "dev"@ {
        if !known(w[4]) {
            None
        } else {
            Some(s.insert(Fact::Address(place, w[4], w[2])))
        }
    } else if w.len() == 7 && w[0] == "route"@ && w[1] == "replace"@ && w[3] == "via"@ && w[5]
        == "dev"@ {
        if !s.contains(Fact::Up(place, w[6])) {
            None
        } else {
            Some(
                s.filter(|f: Fact| !f.to(place, w[2])).insert(
                    Fact::Route(place, w[2], Some(w[4]), w[6]),
                ),
            )
        }
    } else if w.len() == 5 && w[0] == "route"@ && w[1] == "replace"@ && w[3] == "dev"@ {
        if !s.contains(Fact::Up(place, w[4])) {
            None
        } else {
            Some(
                s.filter(|f: Fact| !f.to(place, w[2])).insert(
                    Fact::Route(place, w[2], None, w[4]),
                ),
            )
        }
    } else if w.len() == 3 && w[0] == "route"@ && w[1] == "del"@ {
        Some(s.filter(|f: Fact| !f.to(place, w[2])))
    } else {
        None
    }
}

/// What an `ip` command makes of a host: on the host, or within a namespace,
/// where other programs than `ip` change none of these facts.
pub open spec fn ip(s: Set<Fact>, w: Seq<Seq<char>>) -> Option<Set<Fact>> {
    if w.len() >= 4 && w[0] == "netns"@ && w[1] == "exec"@ {
        if !s.contains(Fact::Space(w[2])) {
            None
        } else if w[3] == "ip"@ {
            ip_at(Some(w[2]), s, w.skip(4))
        } else {
            Some(s)
        }
    } else {
        ip_at(None, s, w)
    }
}

/// What a step makes of a host.
pub open spec fn step_on(s: Set<Fact>, step: NetStepView) -> Option<Set<Fact>> {
    if step.program() == "ip"@ {
        ip(s, step.words())
    } else {
        Some(s)
    }
}

/// What steps make of a host, where each succeeds.
pub open spec fn steps_on(s: Set<Fact>, steps: Seq<NetStepView>) -> Option<Set<Fact>>
    decreases steps.len(),
{
    if steps.len() == 0 {
        Some(s)
    } else {
        match steps_on(s, steps.drop_last()) {
            Some(t) => step_on(t, steps.last()),
            None => None,
        }
    }
}

proof fn one_more(s: Set<Fact>, steps: Seq<NetStepView>, i: int, t: Set<Fact>, u: Set<Fact>)
    requires
        0 <= i < steps.len(),
        steps_on(s, steps.take(i)) == Some(t),
        step_on(t, steps[i]) == Some(u),
    ensures
        steps_on(s, steps.take(i + 1)) == Some(u),
{
    assert(steps.take(i + 1).drop_last() =~= steps.take(i));
}

proof fn the_rest_is_idle(s: Set<Fact>, steps: Seq<NetStepView>, n: int, i: int, t: Set<Fact>)
    requires
        0 <= n <= i <= steps.len(),
        steps_on(s, steps.take(n)) == Some(t),
        forall|k: int| n <= k < i ==> step_on(t, #[trigger] steps[k]) == Some(t),
    ensures
        steps_on(s, steps.take(i)) == Some(t),
    decreases i - n,
{
    if n < i {
        the_rest_is_idle(s, steps, n, i - 1, t);
        one_more(s, steps, i - 1, t, t);
    }
}

proof fn ip_words()
    ensures
        "ip"@.len() == 2,
        "iptables"@.len() == 8,
        "sysctl"@.len() == 6,
        "netns"@.len() == 5,
        "tuntap"@.len() == 6 && "tuntap"@[0] == 't',
        "link"@.len() == 4 && "link"@[0] == 'l',
        "addr"@.len() == 4 && "addr"@[0] == 'a',
        "route"@.len() == 5 && "route"@[0] == 'r',
        "netns"@[0] == 'n',
        "add"@.len() == 3 && "add"@[0] == 'a',
        "set"@.len() == 3 && "set"@[0] == 's',
        "del"@.len() == 3 && "del"@[0] == 'd',
        "exec"@.len() == 4,
        "replace"@.len() == 7,
        "name"@.len() == 4,
        "up"@.len() == 2,
        "dev"@.len() == 3,
        "via"@.len() == 3 && "via"@[0] == 'v',
        "dev"@[0] == 'd',
{
    reveal_strlit("ip");
    reveal_strlit("iptables");
    reveal_strlit("sysctl");
    reveal_strlit("netns");
    reveal_strlit("tuntap");
    reveal_strlit("link");
    reveal_strlit("addr");
    reveal_strlit("route");
    reveal_strlit("add");
    reveal_strlit("set");
    reveal_strlit("del");
    reveal_strlit("exec");
    reveal_strlit("replace");
    reveal_strlit("name");
    reveal_strlit("up");
    reveal_strlit("dev");
    reveal_strlit("via");
}

/// Whether a host has nothing yet that would be in the way of a network: no such
/// namespace, no device of these names and no route to this address.
pub open spec fn has_room(
    s: Set<Fact>,
    space: Seq<char>,
    host_veth: Seq<char>,
    peer_veth: Seq<char>,
    pod_ip: Seq<char>,
) -> bool {
    &&& forall|f: Fact| #[trigger] s.contains(f) ==> !f.within(space) && !f.on(None, host_veth)
        && !f.on(None, peer_veth) && !f.to(None, pod_ip)
}

/// The facts of a guest's tap device.
pub open spec fn has_tap(
    s: Set<Fact>,
    space: Seq<char>,
    tap: Seq<char>,
    address: Seq<char>,
) -> bool {
    &&& s.contains(Fact::Space(space))
    &&& s.contains(Fact::Device(Some(space), tap))
    &&& s.contains(Fact::Address(Some(space), tap, address))
    &&& s.contains(Fact::Up(Some(space), tap))
}

/// The facts of a link between the host and a pod: both ends are up, the pod's
/// end has the pod's address, the host's end that of the gateway, the pod
/// reaches everything through the gateway, and the host reaches the pod.
pub open spec fn has_link(
    s: Set<Fact>,
    space: Seq<char>,
    host_veth: Seq<char>,
    pod_iface: Seq<char>,
    pod_ip: Seq<char>,
    gateway: Seq<char>,
    prefix: u8,
) -> bool {
    let len = "/"@ + text::dec(prefix as nat);
    &&& s.contains(Fact::Device(Some(space), pod_iface))
    &&& s.contains(Fact::Address(Some(space), pod_iface, pod_ip + len))
    &&& s.contains(Fact::Up(Some(space), pod_iface))
    &&& s.contains(Fact::Route(Some(space), "default"@, Some(gateway), pod_iface))
    &&& s.contains(Fact::Device(None, host_veth))
    &&& s.contains(Fact::Address(None, host_veth, gateway + len))
    &&& s.contains(Fact::Up(None, host_veth))
    &&& s.contains(Fact::Route(None, pod_ip, None, host_veth))
}

/// Whether all that is new is in a namespace, about one device of the host, or
/// the route to one address.
pub open spec fn adds_only(
    s: Set<Fact>,
    t: Set<Fact>,
    space: Seq<char>,
    host_veth: Seq<char>,
) -> bool {
    &&& forall|f: Fact| s.contains(f) ==> #[trigger] t.contains(f)
    &&& forall|f: Fact| #[trigger]
        t.contains(f) ==> s.contains(f) || f.within(space) || f.on(None, host_veth)
}

proof fn tap_comes_up(s: Set<Fact>, c: ConfigView, id: Seq<char>, steps: Seq<NetStepView>) -> (t:
    Set<Fact>)
    requires
        forall|f: Fact| #[trigger] s.contains(f) ==> !f.within("oas-"@ + id),
        steps.len() >= 4,
        steps.take(4) == crate::net::setup::tap_up(c, id),
    ensures
        steps_on(s, steps.take(4)) == Some(t),
        t == s.insert(Fact::Space("oas-"@ + id)).insert(
            Fact::Device(Some("oas-"@ + id), c.net.tap_name),
        ).insert(
            Fact::Address(
                Some("oas-"@ + id),
                c.net.tap_name,
                c.net.tap_gateway + "/"@ + text::dec(c.net.tap_prefix as nat),
            ),
        ).insert(Fact::Up(Some("oas-"@ + id), c.net.tap_name)),
{
    ip_words();
    let ns = "oas-"@ + id;
    let tap = c.net.tap_name;
    let addr = c.net.tap_gateway + "/"@ + text::dec(c.net.tap_prefix as nat);
    assert forall|k: int| 0 <= k < 4 implies #[trigger] steps[k] == steps.take(4)[k] by {}
    let t1 = s.insert(Fact::Space(ns));
    let t2 = t1.insert(Fact::Device(Some(ns), tap));
    let t3 = t2.insert(Fact::Address(Some(ns), tap, addr));
    let t4 = t3.insert(Fact::Up(Some(ns), tap));
    assert(!s.contains(Fact::Space(ns)));
    assert(!s.contains(Fact::Device(Some(ns), tap)));
    assert(steps.take(0) =~= seq![]);
    assert(steps[0].words() == seq!["netns"@, "add"@, ns]);
    assert(step_on(s, steps[0]) == Some(t1));
    one_more(s, steps, 0, s, t1);
    assert(steps[1].words().skip(4) =~= seq!["tuntap"@, "add"@, "dev"@, tap, "mode"@, "tap"@]);
    assert(step_on(t1, steps[1]) == Some(t2));
    one_more(s, steps, 1, t1, t2);
    assert(steps[2].words().skip(4) =~= seq!["addr"@, "add"@, addr, "dev"@, tap]);
    assert(step_on(t2, steps[2]) == Some(t3));
    one_more(s, steps, 2, t2, t3);
    assert(steps[3].words().skip(4) =~= seq!["link"@, "set"@, tap, "up"@]);
    assert(step_on(t3, steps[3]) == Some(t4));
    one_more(s, steps, 3, t3, t4);
    t4
}

/// Without a link: the plan for a sandbox makes a namespace with a tap device
/// that is up and has the gateway's address, and nothing else.
pub proof fn plan_without_link_makes_a_tap(
    s: Set<Fact>,
    c: ConfigView,
    id: Seq<char>,
    lease: IpLeaseView,
)
    requires
        !c.net.enable_host_veth,
        forall|f: Fact| #[trigger] s.contains(f) ==> !f.within("oas-"@ + id),
    ensures
        ({
            let end = steps_on(s, plan_for(c, id, lease).steps);
            &&& end is Some
            &&& has_tap(
                end.unwrap(),
                "oas-"@ + id,
                c.net.tap_name,
                c.net.tap_gateway + "/"@ + text::dec(c.net.tap_prefix as nat),
            )
            &&& forall|f: Fact| #[trigger]
                end.unwrap().contains(f) ==> s.contains(f) || f.within("oas-"@ + id)
            &&& forall|f: Fact| s.contains(f) ==> #[trigger] end.unwrap().contains(f)
        }),
{
    let steps = plan_for(c, id, lease).steps;
    ip_words();
    assert(steps.take(4) =~= crate::net::setup::tap_up(c, id));
    let t = tap_comes_up(s, c, id, steps);
    assert forall|k: int| 4 <= k < steps.len() implies step_on(t, #[trigger] steps[k]) == Some(
        t,
    ) by {
        if steps[k].program() == "ip"@ {
            assert(steps[k].words()[0] == "netns"@);
            assert(steps[k].words()[1] == "exec"@);
            assert(steps[k].words()[2] == "oas-"@ + id);
            assert(steps[k].words()[3].len() == 8 || steps[k].words()[3].len() == 6);
        }
    }
    the_rest_is_idle(s, steps, 4, steps.len() as int, t);
    assert(steps.take(steps.len() as int) =~= steps);
}

/// The commands of a link on a host that has the namespace.
#[verifier::rlimit(30)]
proof fn link_comes_up(
    s: Set<Fact>,
    plan: HostVethPlanView,
    s0: Set<Fact>,
    steps: Seq<NetStepView>,
) -> (t: Set<Fact>)
    requires
        plan.host_veth != plan.peer_veth,
        plan.pod_iface != plan.peer_veth,
        s.contains(Fact::Space(plan.netns_name)),
        !s.contains(Fact::Device(None, plan.host_veth)),
        !s.contains(Fact::Device(None, plan.peer_veth)),
        !s.contains(Fact::Device(Some(plan.netns_name), plan.peer_veth)),
        !s.contains(Fact::Device(Some(plan.netns_name), plan.pod_iface)),
        forall|f: Fact| #[trigger]
            s.contains(f) ==> !f.on(None, plan.peer_veth) && !f.to(None, plan.pod_ip) && !f.on(
                Some(plan.netns_name),
                plan.peer_veth,
            ) && !f.to(Some(plan.netns_name), "default"@),
        steps.len() >= 13,
        steps_on(s0, steps.take(4)) == Some(s),
        steps.subrange(4, 13) == crate::net::setup::veth_up(plan),
    ensures
        steps_on(s0, steps.take(13)) == Some(t),
        adds_only(s, t, plan.netns_name, plan.host_veth),
        has_link(
            t,
            plan.netns_name,
            plan.host_veth,
            plan.pod_iface,
            plan.pod_ip,
            plan.host_gateway_ip,
            plan.prefix,
        ),
{
    ip_words();
    let ns = plan.netns_name;
    let len = "/"@ + text::dec(plan.prefix as nat);
    let pod = plan.pod_ip + "/"@ + text::dec(plan.prefix as nat);
    let gw = plan.host_gateway_ip + "/"@ + text::dec(plan.prefix as nat);
    assert(pod =~= plan.pod_ip + len);
    assert(gw =~= plan.host_gateway_ip + len);
    assert forall|k: int| 4 <= k < 13 implies #[trigger] steps[k] == steps.subrange(4, 13)[k
        - 4] by {}
    let t1 = s.insert(Fact::Device(None, plan.host_veth)).insert(
        Fact::Device(None, plan.peer_veth),
    );
    let t2 = s.insert(Fact::Device(None, plan.host_veth)).insert(
        Fact::Device(Some(ns), plan.peer_veth),
    );
    let t3 = s.insert(Fact::Device(None, plan.host_veth)).insert(
        Fact::Device(Some(ns), plan.pod_iface),
    );
    let t4 = t3.insert(Fact::Address(Some(ns), plan.pod_iface, pod));
    let t5 = t4.insert(Fact::Up(Some(ns), plan.pod_iface));
    let t6 = t5.insert(Fact::Address(None, plan.host_veth, gw));
    let t7 = t6.insert(Fact::Up(None, plan.host_veth));
    let t8 = t7.insert(
        Fact::Route(Some(ns), "default"@, Some(plan.host_gateway_ip), plan.pod_iface),
    );
    let t9 = t8.insert(Fact::Route(None, plan.pod_ip, None, plan.host_veth));
    assert(step_on(s, steps[4]) == Some(t1));
    one_more(s0, steps, 4, s, t1);
    assert(steps[5].words() == seq!["link"@, "set"@, plan.peer_veth, "netns"@, ns]);
    assert(t1.filter(|f: Fact| !f.on(None, plan.peer_veth)).insert(
        Fact::Device(Some(ns), plan.peer_veth),
    ) =~= t2);
    assert(step_on(t1, steps[5]) == Some(t2));
    one_more(s0, steps, 5, t1, t2);
    assert(steps[6].words().skip(4) =~= seq![
        "link"@,
        "set"@,
        plan.peer_veth,
        "name"@,
        plan.pod_iface,
    ]);
    assert(t2.filter(|f: Fact| !f.on(Some(ns), plan.peer_veth)).insert(
        Fact::Device(Some(ns), plan.pod_iface),
    ) =~= t3);
    assert(step_on(t2, steps[6]) == Some(t3));
    one_more(s0, steps, 6, t2, t3);
    assert(steps[7].words().skip(4) =~= seq!["addr"@, "add"@, pod, "dev"@, plan.pod_iface]);
    assert(step_on(t3, steps[7]) == Some(t4));
    one_more(s0, steps, 7, t3, t4);
    assert(steps[8].words().skip(4) =~= seq!["link"@, "set"@, plan.pod_iface, "up"@]);
    assert(step_on(t4, steps[8]) == Some(t5));
    one_more(s0, steps, 8, t4, t5);
    assert(steps[9].words() == seq!["addr"@, "add"@, gw, "dev"@, plan.host_veth]);
    assert(step_on(t5, steps[9]) == Some(t6));
    one_more(s0, steps, 9, t5, t6);
    assert(steps[10].words() == seq!["link"@, "set"@, plan.host_veth, "up"@]);
    assert(step_on(t6, steps[10]) == Some(t7));
    one_more(s0, steps, 10, t6, t7);
    assert(steps[11].words().skip(4) =~= seq![
        "route"@,
        "replace"@,
        "default"@,
        "via"@,
        plan.host_gateway_ip,
        "dev"@,
        plan.pod_iface,
    ]);
    assert(t7.filter(|f: Fact| !f.to(Some(ns), "default"@)).insert(
        Fact::Route(Some(ns), "default"@, Some(plan.host_gateway_ip), plan.pod_iface),
    ) =~= t8);
    assert(step_on(t7, steps[11]) == Some(t8));
    one_more(s0, steps, 11, t7, t8);
    assert(steps[12].words() == seq![
        "route"@,
        "replace"@,
        plan.pod_ip,
        "dev"@,
        plan.host_veth,
    ]);
    assert(t8.filter(|f: Fact| !f.to(None, plan.pod_ip)).insert(
        Fact::Route(None, plan.pod_ip, None, plan.host_veth),
    ) =~= t9);
    assert(step_on(t8, steps[12]) == Some(t9));
    one_more(s0, steps, 12, t8, t9);
    t9
}

/// The last part of the path of a sandbox's namespace is its name.
pub proof fn name_behind(id: Seq<char>)
    requires
        !id.contains('/'),
    ensures
        text::after_last("/var/run/netns/oas-"@ + id, '/') == "oas-"@ + id,
{
    let s = "/var/run/netns/oas-"@ + id;
    reveal_strlit("/var/run/netns/oas-");
    reveal_strlit("oas-");
    assert(s[14] == '/');
    assert(s.contains('/'));
    let i = s.index_of_last('/').unwrap();
    s.index_of_last_ensures('/');
    assert(i == 14) by {
        if i > 14 {
            assert(s[i] == '/');
            if i >= 19 {
                assert(id[i - 19] == '/');
            }
        }
    }
    assert(s.skip(15) =~= "oas-"@ + id);
}

/// With a link: on a host that has room for it, every command of the plan for a
/// sandbox succeeds. Once they have run there is the namespace with its tap
/// device and the link for the leased address, and nothing else is new. Taking
/// down the network that came of it leaves the host as it was.
#[verifier::rlimit(30)]
pub proof fn plan_with_link_is_taken_down(
    s: Set<Fact>,
    c: ConfigView,
    id: Seq<char>,
    lease: IpLeaseView,
    prefix: u8,
)
    requires
        c.net.enable_host_veth,
        prefix_of(c.net.pod_cidr) == Ok::<u8, Seq<char>>(prefix),
        !id.contains('/'),
        c.net.pod_iface != c.net.tap_name,
        c.net.pod_iface != link_names(id).1,
        c.net.tap_name != link_names(id).1,
        has_room(s, "oas-"@ + id, link_names(id).0, link_names(id).1, lease.ip),
    ensures
        ({
            let plan = plan_for(c, id, lease);
            let end = steps_on(s, plan.steps);
            &&& end is Some
            &&& has_tap(
                end.unwrap(),
                "oas-"@ + id,
                c.net.tap_name,
                c.net.tap_gateway + "/"@ + text::dec(c.net.tap_prefix as nat),
            )
            &&& has_link(
                end.unwrap(),
                "oas-"@ + id,
                link_names(id).0,
                c.net.pod_iface,
                lease.ip,
                c.net.pod_gateway,
                prefix,
            )
            &&& adds_only(s, end.unwrap(), "oas-"@ + id, link_names(id).0)
            &&& plan.result is Ok
            &&& steps_on(end.unwrap(), tear_down(plan.result->Ok_0)) == Some(s)
            &&& plan.undo == tear_down(plan.result->Ok_0)
        }),
{
    let plan = plan_for(c, id, lease);
    let steps = plan.steps;
    let ns = "oas-"@ + id;
    let link = link_plan(id, ns, lease.ip, c.net.pod_iface, c.net.pod_gateway, prefix);
    ip_words();
    crate::net::cni::link_names_fit(id);
    assert(steps.take(4) =~= crate::net::setup::tap_up(c, id));
    let t = tap_comes_up(s, c, id, steps);
    assert(steps.subrange(4, 13) =~= crate::net::setup::veth_up(link));
    assert(!s.contains(Fact::Device(None, link.host_veth)));
    assert(!s.contains(Fact::Device(None, link.peer_veth)));
    assert(!s.contains(Fact::Device(Some(ns), link.peer_veth)));
    assert(!s.contains(Fact::Device(Some(ns), link.pod_iface)));
    let u = link_comes_up(t, link, s, steps);
    assert forall|k: int| 13 <= k < steps.len() implies step_on(u, #[trigger] steps[k]) == Some(
        u,
    ) by {
        if steps[k].program() == "ip"@ {
            assert(steps[k].words()[0] == "netns"@);
            assert(steps[k].words()[1] == "exec"@);
            assert(steps[k].words()[2] == ns);
            assert(steps[k].words()[3].len() == 8 || steps[k].words()[3].len() == 6);
        }
    }
    the_rest_is_idle(s, steps, 13, steps.len() as int, u);
    assert(steps.take(steps.len() as int) =~= steps);
    assert forall|f: Fact| s.contains(f) implies #[trigger] u.contains(f) by {
        assert(t.contains(f));
    }
    assert forall|f: Fact| #[trigger] u.contains(f) implies s.contains(f) || f.within(ns) || f.on(
        None,
        link.host_veth,
    ) by {
        assert(t.contains(f) || f.within(ns) || f.on(None, link.host_veth));
    }
    let net = plan.result->Ok_0;
    name_behind(id);
    let down = tear_down(net);
    assert(net.host_veth.len() == 12);
    assert(down.len() == 3);
    assert(down[0].words() == seq!["route"@, "del"@, lease.ip]);
    assert(down[1].words() == seq!["link"@, "del"@, link.host_veth]);
    assert(down[2].words() == seq!["netns"@, "del"@, ns]);
    let v1 = u.filter(|f: Fact| !f.to(None, lease.ip));
    let v2 = v1.filter(|f: Fact| !f.on(None, link.host_veth));
    let v3 = v2.filter(|f: Fact| !f.within(ns));
    assert(down.take(0) =~= seq![]);
    assert(step_on(u, down[0]) == Some(v1));
    one_more(u, down, 0, u, v1);
    assert(v1.contains(Fact::Device(None, link.host_veth)));
    assert(step_on(v1, down[1]) == Some(v2));
    one_more(u, down, 1, v1, v2);
    assert(step_on(v2, down[2]) == Some(v3));
    one_more(u, down, 2, v2, v3);
    assert(down.take(3) =~= down);
    assert(v3 =~= s);
    assert(plan.undo =~= down);
}

/// Of the commands of a plan, a failure undoes everything just where it is one of
/// the link, and is passed over just where it makes the namespace anew or sets
/// the host's own rules.
pub proof fn plan_says_which_failures_matter(c: ConfigView, id: Seq<char>, lease: IpLeaseView)
    requires
        plan_for(c, id, lease).result is Ok,
    ensures
        ({
            let steps = plan_for(c, id, lease).steps;
            &&& steps[0].words() == seq!["netns"@, "add"@, "oas-"@ + id]
            &&& forall|i: int|
                0 <= i < steps.len() ==> {
                    &&& (#[trigger] steps[i]).on_failure == OnFailure::Ignore <==> i == 0
                        || steps[i].program() != "ip"@
                    &&& steps[i].on_failure == OnFailure::Undo <==> c.net.enable_host_veth && 4
                        <= i < 13
                }
        }),
{
    ip_words();
    let steps = plan_for(c, id, lease).steps;
    assert(steps[0].words() =~= seq!["netns"@, "add"@, "oas-"@ + id]);
}

proof fn plan_ends_with_the_way_out(c: ConfigView, id: Seq<char>, lease: IpLeaseView)
    requires
        plan_for(c, id, lease).result is Ok,
        c.net.enable_guest_egress,
    ensures
        ({
            let steps = plan_for(c, id, lease).steps;
            let out = crate::net::setup::egress_up(c, id);
            &&& out.len() == 6
            &&& steps.len() >= 6
            &&& forall|k: int|
                #![trigger out[k]]
                0 <= k < 6 ==> steps[steps.len() - 6 + k] == out[k]
        }),
{
    let out = crate::net::setup::egress_up(c, id);
    assert(out.len() == 6);
}

proof fn host_rule_words(h: HostEgressView)
    requires
        plain(h.pod_cidr),
    ensures
        ({
            let w = seq!["-w"@, "5"@] + host_egress_rules(h)[0];
            &&& option(w, "-s"@) == Some(h.pod_cidr)
            &&& option(w, "-j"@) == Some("MASQUERADE"@)
            &&& option(w, "-A"@) == Some("POSTROUTING"@)
        }),
{
    rule_words();
    reveal_strlit("-w");
    reveal_strlit("5");
    let w = seq!["-w"@, "5"@] + host_egress_rules(h)[0];
    option_at(w, "-A"@, 4);
    option_at(w, "-s"@, 6);
    option_at(w, "-j"@, 8);
}

/// Where the guest's way out is enabled, the last commands of a plan turn
/// forwarding on and set its rules in the namespace of the sandbox, for its tap
/// device and its block, and for the block of the pods on the host.
#[verifier::spinoff_prover]
#[verifier::rlimit(40)]
pub proof fn plan_lets_the_guest_out(c: ConfigView, id: Seq<char>, lease: IpLeaseView)
    requires
        plan_for(c, id, lease).result is Ok,
        c.net.enable_guest_egress,
        plain(c.net.tap_name),
        plain(guest_network(c.net.tap_gateway, c.net.tap_prefix)),
        plain(c.net.pod_cidr),
    ensures
        ({
            let steps = plan_for(c, id, lease).steps;
            let n = steps.len();
            let ns = "oas-"@ + id;
            let block = guest_network(c.net.tap_gateway, c.net.tap_prefix);
            &&& n >= 6
            &&& steps[n - 6].program() == "ip"@
            &&& steps[n - 6].words() == seq![
                "netns"@,
                "exec"@,
                ns,
                "sysctl"@,
                "-w"@,
                "net.ipv4.ip_forward=1"@,
            ]
            &&& exists|rule: Seq<Seq<char>>| #[trigger]
                rules_in(steps[n - 5], ns, rule) && lets_in_from(rule, c.net.tap_name)
            &&& exists|rule: Seq<Seq<char>>| #[trigger]
                rules_in(steps[n - 4], ns, rule) && lets_answers_to(rule, c.net.tap_name)
            &&& exists|rule: Seq<Seq<char>>| #[trigger]
                rules_in(steps[n - 3], ns, rule) && hides(rule, block) && spares(rule, block)
            &&& steps[n - 2].program() == "iptables"@
            &&& option(steps[n - 2].words(), "-s"@) == Some(c.net.pod_cidr)
            &&& option(steps[n - 2].words(), "-j"@) == Some("MASQUERADE"@)
            &&& option(steps[n - 2].words(), "-A"@) == Some("POSTROUTING"@)
            &&& steps[n - 1].program() == "sysctl"@
            &&& steps[n - 1].words() == seq!["-w"@, "net.ipv4.ip_forward=1"@]
        }),
{
    plan_ends_with_the_way_out(c, id, lease);
    let steps = plan_for(c, id, lease).steps;
    let out = crate::net::setup::egress_up(c, id);
    let n = steps.len();
    let ns = "oas-"@ + id;
    let g = GuestEgressView {
        guest_cidr: guest_network(c.net.tap_gateway, c.net.tap_prefix),
        tap_name: c.net.tap_name,
    };
    let h = HostEgressView { pod_cidr: c.net.pod_cidr };
    egress_lets_the_guest_out(g, h);
    host_rule_words(h);
    assert(steps[n - 6] == out[0]);
    assert(steps[n - 5] == out[1]);
    assert(steps[n - 4] == out[2]);
    assert(steps[n - 3] == out[3]);
    assert(steps[n - 2] == out[4]);
    assert(steps[n - 1] == out[5]);
    assert(out[1].args == guest_egress_rules(g)[0]);
    assert(rules_in(out[1], ns, guest_egress_rules(g)[0]));
    assert(out[2].args == guest_egress_rules(g)[1]);
    assert(rules_in(out[2], ns, guest_egress_rules(g)[1]));
    assert(out[3].args == guest_egress_rules(g)[2]);
    assert(rules_in(out[3], ns, guest_egress_rules(g)[2]));
    assert(out[4].args == host_egress_rules(h)[0]);
}

/// A prefix length that is written behind an address is read back.
pub proof fn prefix_reads_back(ip: Seq<char>, prefix: u8)
    requires
        !ip.contains('/'),
    ensures
        prefix_of(ip + "/"@ + text::dec(prefix as nat)) == Ok::<u8, Seq<char>>(prefix),
{
    let p = text::dec(prefix as nat);
    let s = ip + "/"@ + p;
    reveal_strlit("/");
    text::dec_reads_back(prefix as nat);
    assert(s[ip.len() as int] == '/');
    assert(s.contains('/'));
    s.index_of_first_ensures('/');
    let i = s.index_of_first('/').unwrap();
    if i < ip.len() {
        assert(ip[i] == '/');
    }
    assert(i == ip.len());
    assert(s.skip(i + 1) =~= p);
    assert(text::parse_dec(p, 255) == Some(prefix as nat));
}

/// Of an address in a block of four, the block is written from its first
/// address: it has the first three parts of the address, and its last part is
/// the multiple of four at or below that of the address.
pub proof fn guest_block_holds_the_gateway(a: u8, b: u8, c: u8, d: u8)
    ensures
        guest_network(
            text::dec(a as nat) + "."@ + text::dec(b as nat) + "."@ + text::dec(c as nat) + "."@
                + text::dec(d as nat),
            30,
        ) == text::dec(a as nat) + "."@ + text::dec(b as nat) + "."@ + text::dec(c as nat) + "."@
            + text::dec(((d as nat) / 4) * 4) + "/30"@,
{
    let pa = text::dec(a as nat);
    let pb = text::dec(b as nat);
    let pc = text::dec(c as nat);
    let pd = text::dec(d as nat);
    text::dec_reads_back(a as nat);
    text::dec_reads_back(b as nat);
    text::dec_reads_back(c as nat);
    text::dec_reads_back(d as nat);
    reveal_strlit(".");
    reveal_strlit("/");
    reveal_strlit("/30");
    text::digits_only(pa, '.');
    text::digits_only(pb, '.');
    text::digits_only(pc, '.');
    text::digits_only(pd, '.');
    text::split_whole(pa, '.');
    text::split_tail(pa, pb, '.');
    text::split_tail(pa + seq!['.'] + pb, pc, '.');
    text::split_tail(pa + seq!['.'] + pb + seq!['.'] + pc, pd, '.');
    assert("."@ =~= seq!['.']);
    let g = pa + "."@ + pb + "."@ + pc + "."@ + pd;
    assert(text::split(g, '.') =~= seq![pa, pb, pc, pd]);
    assert(text::parse_dec(pd, 255) == Some(d as nat));
    assert((d as nat) - (d as nat) % 4 == ((d as nat) / 4) * 4);
    reveal_with_fuel(text::dec, 3);
    assert(text::dec(30) =~= seq!['3', '0']);
    assert("/"@ + text::dec(30) =~= "/30"@);
    let head = pa + "."@ + pb + "."@ + pc + "."@ + text::dec(((d as nat) / 4) * 4);
    assert(head + "/"@ + text::dec(30) =~= head + "/30"@);
}

/// The digest that names a link is the 32-bit FNV-1a one: it starts from its
/// offset for no bytes, and each byte is mixed in before the product with its
/// prime. Two texts that differ in their last byte alone have different digests.
pub proof fn links_are_named_by_a_digest(bytes: Seq<u8>, x: u8, y: u8)
    ensures
        fnv1a(seq![]) == 2166136261,
        fnv1a(bytes.push(x)) == ((fnv1a(bytes) ^ (x as u32)) as int * 16777619) % 4294967296,
        x != y ==> fnv1a(bytes.push(x)) != fnv1a(bytes.push(y)),
{
    assert(bytes.push(x).drop_last() =~= bytes);
    assert(bytes.push(y).drop_last() =~= bytes);
    let h = fnv1a(bytes);
    let a = h ^ (x as u32);
    let b = h ^ (y as u32);
    if x != y {
        assert(h ^ (x as u32) != h ^ (y as u32)) by (bit_vector)
            requires
                x != y,
        ;
        products_differ(a as int, b as int);
    }
}

proof fn products_differ(a: int, b: int)
    requires
        0 <= a < 4294967296,
        0 <= b < 4294967296,
        a != b,
    ensures
        (a * 16777619) % 4294967296 != (b * 16777619) % 4294967296,
{
    if (a * 16777619) % 4294967296 == (b * 16777619) % 4294967296 {
        let q = (a * 16777619) / 4294967296 - (b * 16777619) / 4294967296;
        assert((a - b) * 16777619 == q * 4294967296);
        let u = q * 899433627 - (a - b) * 3513497;
        assert(a - b == u * 4294967296);
    }
}

/// The names of the two ends of a link are different, and tell the digest of the
/// sandbox in eight hexadecimal digits; two sandboxes of different digests share
/// no name.
pub proof fn links_tell_their_sandbox(a: Seq<char>, b: Seq<char>)
    ensures
        link_names(a).0 == "oasv"@ + text::hex(
            fnv1a(vstd::utf8::encode_utf8(a)) as nat,
            8,
        ),
        link_names(a).1 == "oasp"@ + text::hex(
            fnv1a(vstd::utf8::encode_utf8(a)) as nat,
            8,
        ),
        fnv1a(vstd::utf8::encode_utf8(a)) != fnv1a(vstd::utf8::encode_utf8(b)) ==> link_names(a).0
            != link_names(b).0 && link_names(a).1 != link_names(b).1,
        link_names(a).0 != link_names(b).1,
{
    let x = fnv1a(vstd::utf8::encode_utf8(a)) as nat;
    let y = fnv1a(vstd::utf8::encode_utf8(b)) as nat;
    text::hex_len(x, 8);
    text::hex_len(y, 8);
    reveal_strlit("oasv");
    reveal_strlit("oasp");
    assert(link_names(a).0[3] == 'v');
    assert(link_names(b).1[3] == 'p');
    assert(link_names(a).0.skip(4) =~= text::hex(x, 8));
    assert(link_names(b).0.skip(4) =~= text::hex(y, 8));
    assert(link_names(a).1.skip(4) =~= text::hex(x, 8));
    assert(link_names(b).1.skip(4) =~= text::hex(y, 8));
    if x != y && text::hex(x, 8) == text::hex(y, 8) {
        assert(vstd::arithmetic::power::pow(16, 8) == 4294967296) by {
            reveal_with_fuel(vstd::arithmetic::power::pow, 9);
        }
        text::hex_injective(x, y, 8);
    }
}

/// Taking down a network that has no link to the host takes down its namespace
/// and nothing else: the host is left as it was.
pub proof fn plan_without_link_is_taken_down(
    s: Set<Fact>,
    c: ConfigView,
    id: Seq<char>,
    lease: IpLeaseView,
)
    requires
        !c.net.enable_host_veth,
        !id.contains('/'),
        forall|f: Fact| #[trigger] s.contains(f) ==> !f.within("oas-"@ + id),
    ensures
        ({
            let plan = plan_for(c, id, lease);
            &&& plan.result is Ok
            &&& steps_on(s, plan.steps) is Some
            &&& steps_on(
                steps_on(s, plan.steps).unwrap(),
                tear_down(plan.result->Ok_0),
            ) == Some(s)
        }),
{
    plan_without_link_makes_a_tap(s, c, id, lease);
    ip_words();
    name_behind(id);
    reveal_strlit("");
    let ns = "oas-"@ + id;
    let plan = plan_for(c, id, lease);
    let u = steps_on(s, plan.steps).unwrap();
    let down = tear_down(plan.result->Ok_0);
    assert(down.len() == 1);
    assert(down[0].words() == seq!["netns"@, "del"@, ns]);
    let v = u.filter(|f: Fact| !f.within(ns));
    assert(down.take(0) =~= seq![]);
    assert(step_on(u, down[0]) == Some(v));
    one_more(u, down, 0, u, v);
    assert(down.take(1) =~= down);
    assert(v =~= s);
}

/// The error of a command that failed ends with what the system or the program
/// said, and so does that of an address that could not be leased.
pub proof fn errors_tell_what_was_said(step: NetStepView, said: Seq<char>, e: StoreErrorView)
    ensures
        text::has_suffix(step.error(RunFailureView::NotRun(said)).text(), said),
        text::has_suffix(step.error(RunFailureView::Exit(said)).text(), said),
        plan_without_lease(e).steps.len() == 0,
        plan_without_lease(e).result matches Err(x) && x.text() == e.text(),
{
    let args = text::join(step.args, " "@);
    tail_of("ip "@ + args + ": "@, said);
    tail_of("ip "@ + args + " failed: "@, said);
    tail_of("netns iptables: "@, said);
    tail_of("netns iptables "@ + crate::net::setup::debug_text(step.args) + " failed: "@, said);
    tail_of("netns sysctl: "@, said);
    tail_of("netns ip_forward failed: "@, said);
    tail_of("iptables: "@, said);
    tail_of("iptables "@ + crate::net::setup::debug_text(step.args) + " failed: "@, said);
    assert(said.skip(0) =~= said);
}

proof fn tail_of(head: Seq<char>, tail: Seq<char>)
    ensures
        text::has_suffix(head + tail, tail),
{
    assert((head + tail).skip(head.len() as int) =~= tail);
}

} // verus!
