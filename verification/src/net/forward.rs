//! Packet rules: the way from a pod's address to its guest, and the guest's
//! way out.

use vstd::prelude::*;

use crate::model::Duplicate;
use crate::text;

verus! {

/// A port of the pod that leads to the guest.
#[derive(Debug, PartialEq, Eq)]
pub struct GuestPortForward {
    pub pod_ip: String,
    pub guest_ip: String,
    pub port: u16,
}

/// The abstract value of [`GuestPortForward`].
#[verifier::ext_equal]
pub struct GuestPortForwardView {
    pub pod_ip: Seq<char>,
    pub guest_ip: Seq<char>,
    pub port: u16,
}

impl DeepView for GuestPortForward {
    type V = GuestPortForwardView;

    open spec fn deep_view(&self) -> GuestPortForwardView {
        GuestPortForwardView {
            pod_ip: self.pod_ip@,
            guest_ip: self.guest_ip@,
            port: self.port,
        }
    }
}

impl View for GuestPortForward {
    type V = GuestPortForwardView;

    open spec fn view(&self) -> GuestPortForwardView {
        self.deep_view()
    }
}

impl Duplicate for GuestPortForward {
    fn duplicate(&self) -> (r: Self) {
        GuestPortForward {
            pod_ip: self.pod_ip.duplicate(),
            guest_ip: self.guest_ip.duplicate(),
            port: self.port,
        }
    }
}

impl Clone for GuestPortForward {
    fn clone(&self) -> (r: Self)
        ensures
            r@ == self@,
    {
        self.duplicate()
    }
}

/// A guest's way out of its namespace.
#[derive(Debug, PartialEq, Eq)]
pub struct GuestEgress {
    pub guest_cidr: String,
    pub tap_name: String,
}

/// The abstract value of [`GuestEgress`].
#[verifier::ext_equal]
pub struct GuestEgressView {
    pub guest_cidr: Seq<char>,
    pub tap_name: Seq<char>,
}

impl DeepView for GuestEgress {
    type V = GuestEgressView;

    open spec fn deep_view(&self) -> GuestEgressView {
        GuestEgressView {
            guest_cidr: self.guest_cidr@,
            tap_name: self.tap_name@,
        }
    }
}

impl View for GuestEgress {
    type V = GuestEgressView;

    open spec fn view(&self) -> GuestEgressView {
        self.deep_view()
    }
}

impl Duplicate for GuestEgress {
    fn duplicate(&self) -> (r: Self) {
        GuestEgress {
            guest_cidr: self.guest_cidr.duplicate(),
            tap_name: self.tap_name.duplicate(),
        }
    }
}

impl Clone for GuestEgress {
    fn clone(&self) -> (r: Self)
        ensures
            r@ == self@,
    {
        self.duplicate()
    }
}

/// The pods' way out of the host.
#[derive(Debug, PartialEq, Eq)]
pub struct HostEgress {
    pub pod_cidr: String,
}

/// The abstract value of [`HostEgress`].
#[verifier::ext_equal]
pub struct HostEgressView {
    pub pod_cidr: Seq<char>,
}

impl DeepView for HostEgress {
    type V = HostEgressView;

    open spec fn deep_view(&self) -> HostEgressView {
        HostEgressView {
            pod_cidr: self.pod_cidr@,
        }
    }
}

impl View for HostEgress {
    type V = HostEgressView;

    open spec fn view(&self) -> HostEgressView {
        self.deep_view()
    }
}

impl Duplicate for HostEgress {
    fn duplicate(&self) -> (r: Self) {
        HostEgress {
            pod_cidr: self.pod_cidr.duplicate(),
        }
    }
}

impl Clone for HostEgress {
    fn clone(&self) -> (r: Self)
        ensures
            r@ == self@,
    {
        self.duplicate()
    }
}

/// The rules that lead a port of the pod to the guest, and answers back.
pub open spec fn port_forward_rules(fwd: GuestPortForwardView) -> Seq<Seq<Seq<char>>> {
    seq![
        seq![
            "-t"@,
            "nat"@,
            "-A"@,
            "PREROUTING"@,
            "-p"@,
            "tcp"@,
            "-d"@,
            fwd.pod_ip,
            "--dport"@,
            text::dec(fwd.port as nat),
            "-j"@,
            "DNAT"@,
            "--to-destination"@,
            fwd.guest_ip + ":"@ + text::dec(fwd.port as nat),
        ],
        seq![
            "-t"@,
            "nat"@,
            "-A"@,
            "POSTROUTING"@,
            "-d"@,
            fwd.guest_ip,
            "-p"@,
            "tcp"@,
            "--dport"@,
            text::dec(fwd.port as nat),
            "-j"@,
            "MASQUERADE"@,
        ],
    ]
}

/// The rules that lead a port of the pod to the guest, and answers back.
pub fn guest_port_forward_cmds(fwd: &GuestPortForward) -> (r: Vec<Vec<String>>)
    ensures
        r.deep_view() == port_forward_rules(fwd@),
{
    let r: Vec<Vec<String>> = vec![
        vec![
            "-t".to_owned(),
            "nat".to_owned(),
            "-A".to_owned(),
            "PREROUTING".to_owned(),
            "-p".to_owned(),
            "tcp".to_owned(),
            "-d".to_owned(),
            fwd.pod_ip.clone(),
            "--dport".to_owned(),
            text::dec_string(fwd.port as u64),
            "-j".to_owned(),
            "DNAT".to_owned(),
            "--to-destination".to_owned(),
            text::cat3(fwd.guest_ip.as_str(), ":", text::dec_string(fwd.port as u64).as_str()),
        ],
        vec![
            "-t".to_owned(),
            "nat".to_owned(),
            "-A".to_owned(),
            "POSTROUTING".to_owned(),
            "-d".to_owned(),
            fwd.guest_ip.clone(),
            "-p".to_owned(),
            "tcp".to_owned(),
            "--dport".to_owned(),
            text::dec_string(fwd.port as u64),
            "-j".to_owned(),
            "MASQUERADE".to_owned(),
        ],
    ];
    assert(r.deep_view() =~~= port_forward_rules(fwd@));
    r
}

/// The rules that let a guest out of its namespace.
pub open spec fn guest_egress_rules(egress: GuestEgressView) -> Seq<Seq<Seq<char>>> {
    seq![
        seq![
            "-A"@,
            "FORWARD"@,
            "-i"@,
            egress.tap_name,
            "-j"@,
            "ACCEPT"@,
        ],
        seq![
            "-A"@,
            "FORWARD"@,
            "-o"@,
            egress.tap_name,
            "-m"@,
            "conntrack"@,
            "--ctstate"@,
            "RELATED,ESTABLISHED"@,
            "-j"@,
            "ACCEPT"@,
        ],
        seq![
            "-t"@,
            "nat"@,
            "-A"@,
            "POSTROUTING"@,
            "-s"@,
            egress.guest_cidr,
            "!"@,
            "-d"@,
            egress.guest_cidr,
            "-j"@,
            "MASQUERADE"@,
        ],
    ]
}

/// The rules that let a guest out of its namespace.
pub fn guest_egress_cmds(egress: &GuestEgress) -> (r: Vec<Vec<String>>)
    ensures
        r.deep_view() == guest_egress_rules(egress@),
{
    let r: Vec<Vec<String>> = vec![
        vec![
            "-A".to_owned(),
            "FORWARD".to_owned(),
            "-i".to_owned(),
            egress.tap_name.clone(),
            "-j".to_owned(),
            "ACCEPT".to_owned(),
        ],
        vec![
            "-A".to_owned(),
            "FORWARD".to_owned(),
            "-o".to_owned(),
            egress.tap_name.clone(),
            "-m".to_owned(),
            "conntrack".to_owned(),
            "--ctstate".to_owned(),
            "RELATED,ESTABLISHED".to_owned(),
            "-j".to_owned(),
            "ACCEPT".to_owned(),
        ],
        vec![
            "-t".to_owned(),
            "nat".to_owned(),
            "-A".to_owned(),
            "POSTROUTING".to_owned(),
            "-s".to_owned(),
            egress.guest_cidr.clone(),
            "!".to_owned(),
            "-d".to_owned(),
            egress.guest_cidr.clone(),
            "-j".to_owned(),
            "MASQUERADE".to_owned(),
        ],
    ];
    assert(r.deep_view() =~~= guest_egress_rules(egress@));
    r
}

/// The rules that let pods out of the host.
pub open spec fn host_egress_rules(egress: HostEgressView) -> Seq<Seq<Seq<char>>> {
    seq![
        seq![
            "-t"@,
            "nat"@,
            "-A"@,
            "POSTROUTING"@,
            "-s"@,
            egress.pod_cidr,
            "-j"@,
            "MASQUERADE"@,
        ],
    ]
}

/// The rules that let pods out of the host.
pub fn host_egress_cmds(egress: &HostEgress) -> (r: Vec<Vec<String>>)
    ensures
        r.deep_view() == host_egress_rules(egress@),
{
    let r: Vec<Vec<String>> = vec![
        vec![
            "-t".to_owned(),
            "nat".to_owned(),
            "-A".to_owned(),
            "POSTROUTING".to_owned(),
            "-s".to_owned(),
            egress.pod_cidr.clone(),
            "-j".to_owned(),
            "MASQUERADE".to_owned(),
        ],
    ];
    assert(r.deep_view() =~~= host_egress_rules(egress@));
    r
}

} // verus!
