//! The network of a sandbox: a namespace with a tap device, a leased address,
//! a link to the host and the packet rules.

use vstd::prelude::*;

use crate::model::Duplicate;
use crate::text;
use crate::types::{IpLease, IpLeaseView};

pub mod cni;
pub mod forward;
pub mod laws;
pub mod setup;

verus! {

/// The network of one sandbox, with what it takes to give it back.
#[derive(Debug, PartialEq)]
pub struct NetConfig {
    pub netns_path: String,
    pub tap_name: String,
    pub mac: String,
    pub pod_ip: String,
    pub gateway: String,
    pub lease: IpLease,
    /// The host's end of the link, empty where there is none.
    pub host_veth: String,
}

/// The abstract value of [`NetConfig`].
#[verifier::ext_equal]
pub struct NetConfigView {
    pub netns_path: Seq<char>,
    pub tap_name: Seq<char>,
    pub mac: Seq<char>,
    pub pod_ip: Seq<char>,
    pub gateway: Seq<char>,
    pub lease: IpLeaseView,
    pub host_veth: Seq<char>,
}

impl DeepView for NetConfig {
    type V = NetConfigView;

    open spec fn deep_view(&self) -> NetConfigView {
        NetConfigView {
            netns_path: self.netns_path@,
            tap_name: self.tap_name@,
            mac: self.mac@,
            pod_ip: self.pod_ip@,
            gateway: self.gateway@,
            lease: self.lease.deep_view(),
            host_veth: self.host_veth@,
        }
    }
}

impl View for NetConfig {
    type V = NetConfigView;

    open spec fn view(&self) -> NetConfigView {
        self.deep_view()
    }
}

impl Duplicate for NetConfig {
    fn duplicate(&self) -> (r: Self) {
        NetConfig {
            netns_path: self.netns_path.duplicate(),
            tap_name: self.tap_name.duplicate(),
            mac: self.mac.duplicate(),
            pod_ip: self.pod_ip.duplicate(),
            gateway: self.gateway.duplicate(),
            lease: self.lease.duplicate(),
            host_veth: self.host_veth.duplicate(),
        }
    }
}

impl Clone for NetConfig {
    fn clone(&self) -> (r: Self)
        ensures
            r@ == self@,
    {
        self.duplicate()
    }
}

/// Why the network could not be built.
#[derive(Debug, PartialEq)]
pub enum NetError {
    Io(String),
    IpamExhausted(String),
    Other(String),
}

/// The abstract value of [`NetError`].
#[verifier::ext_equal]
pub enum NetErrorView {
    Io(Seq<char>),
    IpamExhausted(Seq<char>),
    Other(Seq<char>),
}

impl DeepView for NetError {
    type V = NetErrorView;

    open spec fn deep_view(&self) -> NetErrorView {
        match *self {
            NetError::Io(a) => NetErrorView::Io(a@),
            NetError::IpamExhausted(a) => NetErrorView::IpamExhausted(a@),
            NetError::Other(a) => NetErrorView::Other(a@),
        }
    }
}

impl View for NetError {
    type V = NetErrorView;

    open spec fn view(&self) -> NetErrorView {
        self.deep_view()
    }
}

impl Duplicate for NetError {
    fn duplicate(&self) -> (r: Self) {
        match self {
            NetError::Io(a) => NetError::Io(a.clone()),
            NetError::IpamExhausted(a) => NetError::IpamExhausted(a.clone()),
            NetError::Other(a) => NetError::Other(a.clone()),
        }
    }
}

impl Clone for NetError {
    fn clone(&self) -> (r: Self)
        ensures
            r@ == self@,
    {
        self.duplicate()
    }
}

impl NetErrorView {
    /// The error as text.
    pub open spec fn text(self) -> Seq<char> {
        match self {
            NetErrorView::Io(a) => "io: "@ + a,
            NetErrorView::IpamExhausted(a) => "ipam exhausted: "@ + a,
            NetErrorView::Other(a) => a,
        }
    }
}

impl NetError {
    /// The error as text.
    pub fn message(&self) -> (s: String)
        ensures
            s@ == self@.text(),
    {
        match self {
            NetError::Io(a) => text::cat2("io: ", a.as_str()),
            NetError::IpamExhausted(a) => text::cat2("ipam exhausted: ", a.as_str()),
            NetError::Other(a) => a.clone(),
        }
    }
}

} // verus!
