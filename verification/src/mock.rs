//! Backends that do nothing but keep count of what was asked of them, and that
//! fail when they are told to.

use vstd::prelude::*;

use crate::driver::{DriverError, DriverErrorView, VmId, VmLifecycle, VmSpec, VmStatus, VmStatusView};
use crate::manager::{OasError, OasErrorView};
use crate::model::Duplicate;
use crate::net::{NetConfig, NetConfigView, NetError, NetErrorView};
use crate::storage::{DiskConfig, DiskConfigView, StorageError, StorageErrorView};
use crate::store::Store;
use crate::text;
use crate::types::SandboxId;
#[allow(unused_imports)]
use crate::types::IpLeaseView;

verus! {

/// A driver without microVMs. Their numbers begin at one.
pub struct MockDriver {
    fail_create: bool,
    creates: Vec<(String, u8)>,
    deletes: Vec<u64>,
    gets: Vec<u64>,
    lists: usize,
    statuses: Vec<VmStatus>,
}

/// The abstract value of [`MockDriver`].
#[verifier::ext_equal]
pub struct MockDriverView {
    pub fail_create: bool,
    /// The network namespace and the type of each microVM made.
    pub creates: Seq<(Seq<char>, u8)>,
    pub deletes: Seq<u64>,
    pub gets: Seq<u64>,
    pub lists: nat,
    /// The microVMs made, in the order of their numbers.
    pub statuses: Seq<VmStatusView>,
}

impl View for MockDriver {
    type V = MockDriverView;

    closed spec fn view(&self) -> MockDriverView {
        MockDriverView {
            fail_create: self.fail_create,
            creates: self.creates.deep_view(),
            deletes: self.deletes@,
            gets: self.gets@,
            lists: self.lists as nat,
            statuses: self.statuses.deep_view(),
        }
    }
}

impl MockDriverView {
    /// Whether there is a microVM with this number.
    pub open spec fn known(self, id: VmId) -> bool {
        1 <= id.0 <= self.statuses.len()
    }
}

impl Default for MockDriver {
    fn default() -> (d: Self)
        ensures
            d@ == (MockDriverView {
                fail_create: false,
                creates: seq![],
                deletes: seq![],
                gets: seq![],
                lists: 0,
                statuses: seq![],
            }),
    {
        MockDriver::new()
    }
}

impl MockDriver {
    pub fn new() -> (d: Self)
        ensures
            d@ == (MockDriverView {
                fail_create: false,
                creates: seq![],
                deletes: seq![],
                gets: seq![],
                lists: 0,
                statuses: seq![],
            }),
    {
        let d = MockDriver {
            fail_create: false,
            creates: Vec::new(),
            deletes: Vec::new(),
            gets: Vec::new(),
            lists: 0,
            statuses: Vec::new(),
        };
        assert(d@.creates =~= seq![]);
        assert(d@.statuses =~= seq![]);
        d
    }

    /// Whether to fail to make microVMs.
    pub fn fail_create(&mut self, v: bool)
        ensures
            final(self)@ == (MockDriverView { fail_create: v, ..old(self)@ }),
    {
        self.fail_create = v;
    }

    pub fn create_count(&self) -> (n: usize)
        ensures
            n == self@.creates.len(),
    {
        self.creates.len()
    }

    pub fn delete_count(&self) -> (n: usize)
        ensures
            n == self@.deletes.len(),
    {
        self.deletes.len()
    }

    pub fn get_count(&self) -> (n: usize)
        ensures
            n == self@.gets.len(),
    {
        self.gets.len()
    }

    pub fn list_count(&self) -> (n: usize)
        ensures
            n == self@.lists,
    {
        self.lists
    }

    /// Makes a microVM, which runs at once.
    pub fn create_vm(&mut self, sandbox_id: &str, netns_path: &str, type_id: u8, spec: &VmSpec) -> (r:
        Result<VmId, DriverError>)
        requires
            old(self)@.statuses.len() < u64::MAX,
        ensures
            if old(self)@.fail_create {
                &&& r matches Err(e) && e@ == DriverErrorView::Other(
                    "injected create_vm failure"@,
                )
                &&& final(self)@ == old(self)@
            } else {
                &&& r matches Ok(id) && id.0 == old(self)@.statuses.len() + 1
                &&& final(self)@ == (MockDriverView {
                    creates: old(self)@.creates.push((netns_path@, type_id)),
                    statuses: old(self)@.statuses.push(
                        VmStatusView {
                            id: sandbox_id@,
                            started: true,
                            healthy: true,
                            lifecycle: VmLifecycle::Running,
                        },
                    ),
                    ..old(self)@
                })
            },
    {
        if self.fail_create {
            return Err(DriverError::Other("injected create_vm failure".to_owned()));
        }
        let ghost c = self.creates.deep_view();
        let ghost s = self.statuses.deep_view();
        self.creates.push((netns_path.to_owned(), type_id));
        assert(self.creates.deep_view() =~= c.push((netns_path@, type_id)));
        self.statuses.push(
            VmStatus {
                id: SandboxId(sandbox_id.to_owned()),
                started: true,
                healthy: true,
                lifecycle: VmLifecycle::Running,
            },
        );
        assert(self.statuses.deep_view() =~= s.push(
            VmStatusView {
                id: sandbox_id@,
                started: true,
                healthy: true,
                lifecycle: VmLifecycle::Running,
            },
        ));
        Ok(VmId(self.statuses.len() as u64))
    }

    /// How a microVM is.
    pub fn get_vm(&mut self, id: VmId) -> (r: Result<VmStatus, DriverError>)
        ensures
            final(self)@ == (MockDriverView { gets: old(self)@.gets.push(id.0), ..old(self)@ }),
            match r {
                Ok(s) => old(self)@.known(id) && s@ == old(self)@.statuses[id.0 - 1],
                Err(e) => !old(self)@.known(id) && e@ == DriverErrorView::NotFound(
                    text::dec(id.0 as nat),
                ),
            },
    {
        self.gets.push(id.0);
        if 1 <= id.0 && id.0 <= self.statuses.len() as u64 {
            let i: usize = (id.0 - 1) as usize;
            Ok(self.statuses[i].duplicate())
        } else {
            Err(DriverError::NotFound(text::dec_string(id.0)))
        }
    }

    /// Ends a microVM. One that there is not is ended already.
    pub fn delete_vm(&mut self, id: VmId) -> (r: Result<(), DriverError>)
        ensures
            r is Ok,
            final(self)@ == (MockDriverView {
                deletes: old(self)@.deletes.push(id.0),
                statuses: if old(self)@.known(id) {
                    old(self)@.statuses.update(
                        id.0 - 1,
                        VmStatusView {
                            lifecycle: VmLifecycle::Stopped,
                            ..old(self)@.statuses[id.0 - 1]
                        },
                    )
                } else {
                    old(self)@.statuses
                },
                ..old(self)@
            }),
    {
        self.deletes.push(id.0);
        if 1 <= id.0 && id.0 <= self.statuses.len() as u64 {
            let i: usize = (id.0 - 1) as usize;
            let mut s = self.statuses[i].duplicate();
            let ghost before = self.statuses.deep_view();
            s.lifecycle = VmLifecycle::Stopped;
            self.statuses.set(i, s);
            assert(self.statuses.deep_view() =~= before.update(
                i as int,
                VmStatusView { lifecycle: VmLifecycle::Stopped, ..before[i as int] },
            ));
        }
        Ok(())
    }

    /// How all microVMs are.
    pub fn list_vm(&mut self) -> (r: Result<Vec<VmStatus>, DriverError>)
        requires
            old(self)@.lists < usize::MAX,
        ensures
            r matches Ok(l) && l.deep_view() == old(self)@.statuses,
            final(self)@ == (MockDriverView { lists: old(self)@.lists + 1, ..old(self)@ }),
    {
        self.lists = self.lists + 1;
        Ok(self.statuses.duplicate())
    }
}

/// A network without links. Its addresses are those of a store.
pub struct MockNet {
    cidr: String,
    gateway: String,
    setups: Vec<String>,
    teardowns: Vec<String>,
    fail_setup: bool,
}

/// The abstract value of [`MockNet`].
#[verifier::ext_equal]
pub struct MockNetView {
    pub cidr: Seq<char>,
    pub gateway: Seq<char>,
    /// The sandboxes that were given a network.
    pub setups: Seq<Seq<char>>,
    /// The addresses that were taken back.
    pub teardowns: Seq<Seq<char>>,
    pub fail_setup: bool,
}

impl View for MockNet {
    type V = MockNetView;

    closed spec fn view(&self) -> MockNetView {
        MockNetView {
            cidr: self.cidr@,
            gateway: self.gateway@,
            setups: self.setups.deep_view(),
            teardowns: self.teardowns.deep_view(),
            fail_setup: self.fail_setup,
        }
    }
}

impl MockNetView {
    /// The network of a sandbox with this address.
    pub open spec fn config(self, sandbox_id: Seq<char>, ip: Seq<char>) -> NetConfigView {
        NetConfigView {
            netns_path: "/var/run/netns/oas-"@ + sandbox_id,
            tap_name: "tap0"@,
            mac: "02:oas:"@ + sandbox_id,
            pod_ip: ip,
            gateway: self.gateway,
            lease: IpLeaseView { ip, cidr: self.cidr, sandbox_id },
            host_veth: ""@,
        }
    }
}

impl MockNet {
    pub fn new(cidr: &str, gateway: &str) -> (n: Self)
        ensures
            n@ == (MockNetView {
                cidr: cidr@,
                gateway: gateway@,
                setups: seq![],
                teardowns: seq![],
                fail_setup: false,
            }),
    {
        let n = MockNet {
            cidr: cidr.to_owned(),
            gateway: gateway.to_owned(),
            setups: Vec::new(),
            teardowns: Vec::new(),
            fail_setup: false,
        };
        assert(n@.setups =~= seq![]);
        assert(n@.teardowns =~= seq![]);
        n
    }

    /// Whether to fail to give networks.
    pub fn fail_setup(&mut self, v: bool)
        ensures
            final(self)@ == (MockNetView { fail_setup: v, ..old(self)@ }),
    {
        self.fail_setup = v;
    }

    pub fn setup_count(&self) -> (n: usize)
        ensures
            n == self@.setups.len(),
    {
        self.setups.len()
    }

    pub fn teardown_count(&self) -> (n: usize)
        ensures
            n == self@.teardowns.len(),
    {
        self.teardowns.len()
    }

    /// Gives a sandbox a network: an address of the store, and names.
    pub fn setup<S: Store>(&mut self, store: &mut S, sandbox_id: &str) -> (r: Result<
        NetConfig,
        NetError,
    >)
        ensures
            old(self)@.fail_setup ==> {
                &&& r matches Err(e) && e@ == NetErrorView::Other("injected setup failure"@)
                &&& final(self)@ == old(self)@
                &&& final(store).tables() == old(store).tables()
            },
            !old(self)@.fail_setup ==> match r {
                Ok(c) => {
                    &&& crate::store::lease_done(
                        old(store).tables(),
                        old(self)@.cidr,
                        Ok(
                            IpLeaseView { ip: c@.pod_ip, cidr: old(self)@.cidr, sandbox_id: ""@ },
                        ),
                        final(store).tables(),
                    )
                    &&& c@ == old(self)@.config(sandbox_id@, c@.pod_ip)
                    &&& final(self)@ == (MockNetView {
                        setups: old(self)@.setups.push(sandbox_id@),
                        ..old(self)@
                    })
                },
                Err(e) => {
                    &&& final(self)@ == old(self)@
                    &&& {
                        ||| S::may_fail() && e is Other
                        ||| {
                            &&& crate::store::ipam::lease_answer(
                                old(store).tables().leases.dom(),
                                old(self)@.cidr,
                            ) matches Err(f)
                            &&& e@ == NetErrorView::Other(f.text())
                            &&& final(store).tables() == old(store).tables()
                        }
                    }
                },
            },
    {
        if self.fail_setup {
            return Err(NetError::Other("injected setup failure".to_owned()));
        }
        let mut lease = match store.lease_ip(self.cidr.as_str()) {
            Ok(l) => l,
            Err(e) => {
                return Err(NetError::Other(e.message()));
            },
        };
        lease.sandbox_id = sandbox_id.to_owned();
        let ghost before = self.setups.deep_view();
        self.setups.push(sandbox_id.to_owned());
        assert(self.setups.deep_view() =~= before.push(sandbox_id@));
        Ok(
            NetConfig {
                netns_path: text::cat2("/var/run/netns/oas-", sandbox_id),
                tap_name: "tap0".to_owned(),
                mac: text::cat2("02:oas:", sandbox_id),
                pod_ip: lease.ip.clone(),
                gateway: self.gateway.clone(),
                lease,
                host_veth: "".to_owned(),
            },
        )
    }

    /// Takes a network back.
    pub fn teardown<S: Store>(&mut self, store: &mut S, net: &NetConfig) -> (r: Result<(), NetError>)
        ensures
            final(self)@ == (MockNetView {
                teardowns: old(self)@.teardowns.push(net@.lease.ip),
                ..old(self)@
            }),
            match r {
                Ok(_) => final(store).tables() == old(store).tables().release(net@.lease.ip),
                Err(e) => S::may_fail() && e is Other,
            },
    {
        let ghost before = self.teardowns.deep_view();
        self.teardowns.push(net.lease.ip.clone());
        assert(self.teardowns.deep_view() =~= before.push(net@.lease.ip));
        match store.release_ip(&net.lease) {
            Ok(_) => Ok(()),
            Err(e) => Err(NetError::Other(e.message())),
        }
    }
}

/// Disks that are names only.
pub struct MockStorage {
    fail_provision: bool,
    provisions: Vec<(String, u8)>,
    cleanups: usize,
}

/// The abstract value of [`MockStorage`].
#[verifier::ext_equal]
pub struct MockStorageView {
    pub fail_provision: bool,
    /// The sandbox and the type of each request for disks.
    pub provisions: Seq<(Seq<char>, u8)>,
    pub cleanups: nat,
}

impl View for MockStorage {
    type V = MockStorageView;

    closed spec fn view(&self) -> MockStorageView {
        MockStorageView {
            fail_provision: self.fail_provision,
            provisions: self.provisions.deep_view(),
            cleanups: self.cleanups as nat,
        }
    }
}

impl Default for MockStorage {
    fn default() -> (s: Self)
        ensures
            s@ == (MockStorageView { fail_provision: false, provisions: seq![], cleanups: 0 }),
    {
        MockStorage::new()
    }
}

impl MockStorage {
    pub fn new() -> (s: Self)
        ensures
            s@ == (MockStorageView { fail_provision: false, provisions: seq![], cleanups: 0 }),
    {
        let s = MockStorage { fail_provision: false, provisions: Vec::new(), cleanups: 0 };
        assert(s@.provisions =~= seq![]);
        s
    }

    /// Whether to fail to give disks.
    pub fn fail_provision(&mut self, v: bool)
        ensures
            final(self)@ == (MockStorageView { fail_provision: v, ..old(self)@ }),
    {
        self.fail_provision = v;
    }

    pub fn provision_count(&self) -> (n: usize)
        ensures
            n == self@.provisions.len(),
    {
        self.provisions.len()
    }

    pub fn cleanup_count(&self) -> (n: usize)
        ensures
            n == self@.cleanups,
    {
        self.cleanups
    }

    /// Gives a sandbox its disks. A request that fails is counted too.
    pub fn provision(&mut self, sandbox_id: &str, type_id: u8, cloud_disk_ref: &Option<String>) -> (r:
        Result<DiskConfig, StorageError>)
        ensures
            final(self)@ == (MockStorageView {
                provisions: old(self)@.provisions.push((sandbox_id@, type_id)),
                ..old(self)@
            }),
            match r {
                Ok(d) => !old(self)@.fail_provision && d@ == (DiskConfigView {
                    rw_layer_path: Some("/var/lib/oas/rw/"@ + sandbox_id@ + ".ext4"@),
                    cloud_disk_dev: cloud_disk_ref.deep_view(),
                }),
                Err(e) => old(self)@.fail_provision && e@ == StorageErrorView::Other(
                    "injected provision failure"@,
                ),
            },
    {
        let ghost before = self.provisions.deep_view();
        self.provisions.push((sandbox_id.to_owned(), type_id));
        assert(self.provisions.deep_view() =~= before.push((sandbox_id@, type_id)));
        if self.fail_provision {
            return Err(StorageError::Other("injected provision failure".to_owned()));
        }
        Ok(
            DiskConfig {
                rw_layer_path: Some(text::cat3("/var/lib/oas/rw/", sandbox_id, ".ext4")),
                cloud_disk_dev: cloud_disk_ref.duplicate(),
            },
        )
    }

    /// Takes disks back.
    pub fn cleanup(&mut self, disk: &DiskConfig) -> (r: Result<(), StorageError>)
        requires
            old(self)@.cleanups < usize::MAX,
        ensures
            r is Ok,
            final(self)@ == (MockStorageView { cleanups: old(self)@.cleanups + 1, ..old(self)@ }),
    {
        self.cleanups = self.cleanups + 1;
        Ok(())
    }
}

/// Every microVM is ready at once.
pub struct ImmediateReadiness;

impl ImmediateReadiness {
    pub fn wait_ready(&self, vm_id: VmId) -> (r: Result<(), OasError>)
        ensures
            r is Ok,
    {
        Ok(())
    }
}

/// No microVM is ever ready.
pub struct NeverReadyReadiness;

impl NeverReadyReadiness {
    pub fn wait_ready(&self, vm_id: VmId) -> (r: Result<(), OasError>)
        ensures
            r matches Err(e) && e@ == OasErrorView::Unavailable(
                "vm not ready (never-ready fake)"@,
            ),
    {
        Err(OasError::Unavailable("vm not ready (never-ready fake)".to_owned()))
    }
}

/// An address that was given and taken back is free again, and nothing else in
/// the store has changed.
pub proof fn teardown_undoes_setup(
    before: crate::store::TablesView,
    cidr: Seq<char>,
    ip: Seq<char>,
    after: crate::store::TablesView,
)
    requires
        crate::store::lease_done(
            before,
            cidr,
            Ok(IpLeaseView { ip, cidr, sandbox_id: ""@ }),
            after,
        ),
    ensures
        after.release(ip) == before,
{
    crate::store::ipam::cidr_bounds(cidr);
    let (base, prefix) = crate::store::ipam::cidr_value(cidr).unwrap();
    crate::store::ipam::lease_is_fresh(before.leases.dom(), base, prefix);
    assert(after.release(ip).leases =~= before.leases);
}

} // verus!
