//! A store that lives in memory.

use vstd::prelude::*;

use crate::store::{ipam, matches_container, matches_sandbox, Store, StoreError, Txn};
#[allow(unused_imports)]
use crate::store::{StoreErrorView, TablesView};
use crate::model::Duplicate;
use crate::strmap::StrMap;
use crate::text;
use crate::types::{
    ContainerFilter, ContainerRecord, ContainerRecordView, IpLease, SandboxFilter, SandboxRecord,
    SandboxRecordView,
};

verus! {

/// The tables of the store, each by the id of its records. Every record stands
/// under its own id.
pub struct MemoryTables {
    sandboxes: StrMap<SandboxRecord>,
    containers: StrMap<ContainerRecord>,
    ipam: StrMap<IpLease>,
}

impl View for MemoryTables {
    type V = TablesView;

    closed spec fn view(&self) -> TablesView {
        TablesView {
            sandboxes: self.sandboxes@,
            containers: self.containers@,
            leases: self.ipam@,
        }
    }
}

impl MemoryTables {
    #[verifier::type_invariant]
    spec fn inv(self) -> bool {
        self@.sound()
    }

    fn empty() -> (r: Self)
        ensures
            r@ == TablesView::empty(),
    {
        MemoryTables {
            sandboxes: StrMap::new(),
            containers: StrMap::new(),
            ipam: StrMap::new(),
        }
    }

    fn snapshot(&self) -> (r: Self)
        ensures
            r@ == self@,
    {
        proof {
            use_type_invariant(self);
        }
        MemoryTables {
            sandboxes: self.sandboxes.duplicate(),
            containers: self.containers.duplicate(),
            ipam: self.ipam.duplicate(),
        }
    }

    fn put_sandbox(&mut self, r: &SandboxRecord)
        ensures
            final(self)@ == old(self)@.put_sandbox(r@),
    {
        proof {
            use_type_invariant(&*self);
        }
        let mut rows: StrMap<SandboxRecord> = StrMap::new();
        std::mem::swap(&mut rows, &mut self.sandboxes);
        rows.insert(r.sandbox_id.clone(), r.duplicate());
        self.sandboxes = rows;
    }

    fn put_container(&mut self, r: &ContainerRecord)
        ensures
            final(self)@ == old(self)@.put_container(r@),
    {
        proof {
            use_type_invariant(&*self);
        }
        let mut rows: StrMap<ContainerRecord> = StrMap::new();
        std::mem::swap(&mut rows, &mut self.containers);
        rows.insert(r.container_id.clone(), r.duplicate());
        self.containers = rows;
    }

    fn delete_sandbox(&mut self, id: &str)
        ensures
            final(self)@ == old(self)@.delete_sandbox(id@),
    {
        proof {
            use_type_invariant(&*self);
        }
        let mut rows: StrMap<SandboxRecord> = StrMap::new();
        std::mem::swap(&mut rows, &mut self.sandboxes);
        rows.remove(id);
        self.sandboxes = rows;
    }

    fn delete_container(&mut self, id: &str)
        ensures
            final(self)@ == old(self)@.delete_container(id@),
    {
        proof {
            use_type_invariant(&*self);
        }
        let mut rows: StrMap<ContainerRecord> = StrMap::new();
        std::mem::swap(&mut rows, &mut self.containers);
        rows.remove(id);
        self.containers = rows;
    }

    fn lease_ip(&mut self, cidr: &str) -> (r: Result<IpLease, StoreError>)
        ensures
            crate::store::lease_done(
                old(self)@,
                cidr@,
                crate::model::result_view(r),
                final(self)@,
            ),
    {
        proof {
            use_type_invariant(&*self);
        }
        let mut rows: StrMap<IpLease> = StrMap::new();
        std::mem::swap(&mut rows, &mut self.ipam);
        let r = lease_ip_in(&mut rows, cidr);
        self.ipam = rows;
        r
    }

    fn release_ip(&mut self, ip: &str)
        ensures
            final(self)@ == old(self)@.release(ip@),
    {
        proof {
            use_type_invariant(&*self);
        }
        let mut rows: StrMap<IpLease> = StrMap::new();
        std::mem::swap(&mut rows, &mut self.ipam);
        rows.remove(ip);
        self.ipam = rows;
    }
}

/// The writes of one transaction, on tables of their own.
pub struct MemoryTxn {
    tables: MemoryTables,
}

/// Leases the next address of a block and notes it as in use.
fn lease_ip_in(ipam: &mut StrMap<IpLease>, cidr: &str) -> (r: Result<IpLease, StoreError>)
    ensures
        match ipam::lease_answer(old(ipam)@.dom(), cidr@) {
            Ok(ip) => {
                &&& r matches Ok(l)
                &&& l@ == (crate::types::IpLeaseView { ip, cidr: cidr@, sandbox_id: ""@ })
                &&& final(ipam)@ == old(ipam)@.insert(ip, l@)
            },
            Err(e) => r matches Err(f) && f@ == e && final(ipam)@ == old(ipam)@,
        },
{
    let ip = match ipam::next_free(ipam, cidr) {
        Ok(ip) => ip,
        Err(e) => {
            return Err(e);
        },
    };
    let lease = IpLease { ip: ip.clone(), cidr: cidr.to_owned(), sandbox_id: "".to_owned() };
    ipam.insert(ip, lease.duplicate());
    Ok(lease)
}

impl Txn for MemoryTxn {
    closed spec fn tables(&self) -> TablesView {
        self.tables@
    }

    open spec fn may_fail() -> bool {
        false
    }

    fn put_sandbox(&mut self, r: &SandboxRecord) -> (res: Result<(), StoreError>)
        ensures
            res is Ok,
    {
        self.tables.put_sandbox(r);
        Ok(())
    }

    fn put_container(&mut self, r: &ContainerRecord) -> (res: Result<(), StoreError>)
        ensures
            res is Ok,
    {
        self.tables.put_container(r);
        Ok(())
    }

    fn delete_sandbox(&mut self, id: &str) -> (res: Result<(), StoreError>)
        ensures
            res is Ok,
    {
        self.tables.delete_sandbox(id);
        Ok(())
    }

    fn delete_container(&mut self, id: &str) -> (res: Result<(), StoreError>)
        ensures
            res is Ok,
    {
        self.tables.delete_container(id);
        Ok(())
    }

    fn lease_ip(&mut self, cidr: &str) -> (res: Result<IpLease, StoreError>)
        ensures
            crate::store::lease_done(
                old(self).tables(),
                cidr@,
                crate::model::result_view(res),
                final(self).tables(),
            ),
    {
        self.tables.lease_ip(cidr)
    }

    fn release_ip(&mut self, lease: &IpLease) -> (res: Result<(), StoreError>)
        ensures
            res is Ok,
    {
        self.tables.release_ip(lease.ip.as_str());
        Ok(())
    }
}

/// A store that lives in memory.
pub struct MemoryStore {
    tables: MemoryTables,
}

impl MemoryStore {
    /// A store without content.
    pub fn new() -> (s: Self)
        ensures
            s.tables() == TablesView::empty(),
    {
        MemoryStore { tables: MemoryTables::empty() }
    }
}

impl Default for MemoryStore {
    fn default() -> (s: Self)
        ensures
            s.tables() == TablesView::empty(),
    {
        MemoryStore::new()
    }
}

impl Store for MemoryStore {
    type Tx = MemoryTxn;

    closed spec fn tables(&self) -> TablesView {
        self.tables@
    }

    open spec fn may_fail() -> bool {
        false
    }

    fn get_sandbox(&self, id: &str) -> (r: Result<SandboxRecord, StoreError>)
        ensures
            self.tables().sound(),
            r matches Err(e) ==> e is NotFound,
    {
        proof {
            use_type_invariant(&self.tables);
        }
        match self.tables.sandboxes.get(id) {
            Some(s) => Ok(s.duplicate()),
            None => Err(StoreError::NotFound(text::cat2("sandbox ", id))),
        }
    }

    fn get_sandbox_by_uid(&self, pod_uid: &str) -> (r: Result<Option<SandboxRecord>, StoreError>)
        ensures
            self.tables().sound(),
            r is Ok,
    {
        proof {
            use_type_invariant(&self.tables);
        }
        let t = &self.tables.sandboxes;
        let n: usize = t.len();
        let ghost p = |s: SandboxRecordView| s.pod_uid == pod_uid@;
        let mut i: usize = 0;
        while i < n
            invariant
                i <= n == t.keys().len(),
                crate::strmap::kept(t@, t.keys().take(i as int), p).len() == 0,
                p == (|s: SandboxRecordView| s.pod_uid == pod_uid@),
                t == &self.tables.sandboxes,
                t.keys() == crate::strmap::ordered_keys(t@),
                self.tables@.sound(),
            decreases n - i,
        {
            proof {
                assert(t.keys().take(i + 1).drop_last() =~= t.keys().take(i as int));
            }
            let s = t.value_at(i);
            if text::same(s.pod_uid.as_str(), pod_uid) {
                proof {
                    let head = crate::strmap::kept(t@, t.keys().take(i + 1), p);
                    let all = crate::strmap::kept(t@, t.keys(), p);
                    crate::strmap::kept_prefix(t@, t.keys(), p, i + 1);
                    assert(head[0] == s@);
                    assert(all.subrange(0, head.len() as int)[0] == all[0]);
                }
                return Ok(Some(s.duplicate()));
            }
            i = i + 1;
        }
        assert(t.keys().take(n as int) =~= t.keys());
        Ok(None)
    }

    fn list_sandboxes(&self, filter: &SandboxFilter) -> (r: Result<Vec<SandboxRecord>, StoreError>)
        ensures
            self.tables().sound(),
            r is Ok,
    {
        proof {
            use_type_invariant(&self.tables);
        }
        let t = &self.tables.sandboxes;
        let n: usize = t.len();
        let mut out: Vec<SandboxRecord> = Vec::new();
        let ghost p = |s: SandboxRecordView| crate::store::sandbox_matches(s, filter@);
        let mut i: usize = 0;
        assert(out.deep_view() =~= crate::strmap::kept(t@, t.keys().take(0), p));
        while i < n
            invariant
                i <= n == t.keys().len(),
                out.deep_view() == crate::strmap::kept(t@, t.keys().take(i as int), p),
                p == (|s: SandboxRecordView| crate::store::sandbox_matches(s, filter@)),
            decreases n - i,
        {
            proof {
                assert(t.keys().take(i + 1).drop_last() =~= t.keys().take(i as int));
            }
            let ghost before = out.deep_view();
            let s = t.value_at(i);
            if matches_sandbox(s, filter) {
                out.push(s.duplicate());
                assert(out.deep_view() =~= before.push(s@));
            }
            i = i + 1;
        }
        assert(t.keys().take(n as int) =~= t.keys());
        Ok(out)
    }

    fn get_container(&self, id: &str) -> (r: Result<ContainerRecord, StoreError>)
        ensures
            self.tables().sound(),
            r matches Err(e) ==> e is NotFound,
    {
        proof {
            use_type_invariant(&self.tables);
        }
        match self.tables.containers.get(id) {
            Some(s) => Ok(s.duplicate()),
            None => Err(StoreError::NotFound(text::cat2("container ", id))),
        }
    }

    fn list_containers(&self, filter: &ContainerFilter) -> (r: Result<Vec<ContainerRecord>, StoreError>)
        ensures
            self.tables().sound(),
            r is Ok,
    {
        proof {
            use_type_invariant(&self.tables);
        }
        let t = &self.tables.containers;
        let n: usize = t.len();
        let mut out: Vec<ContainerRecord> = Vec::new();
        let ghost p = |s: ContainerRecordView| crate::store::container_matches(s, filter@);
        let mut i: usize = 0;
        assert(out.deep_view() =~= crate::strmap::kept(t@, t.keys().take(0), p));
        while i < n
            invariant
                i <= n == t.keys().len(),
                out.deep_view() == crate::strmap::kept(t@, t.keys().take(i as int), p),
                p == (|s: ContainerRecordView| crate::store::container_matches(s, filter@)),
            decreases n - i,
        {
            proof {
                assert(t.keys().take(i + 1).drop_last() =~= t.keys().take(i as int));
            }
            let ghost before = out.deep_view();
            let s = t.value_at(i);
            if matches_container(s, filter) {
                out.push(s.duplicate());
                assert(out.deep_view() =~= before.push(s@));
            }
            i = i + 1;
        }
        assert(t.keys().take(n as int) =~= t.keys());
        Ok(out)
    }

    fn lease_ip(&mut self, cidr: &str) -> (r: Result<IpLease, StoreError>)
        ensures
            crate::store::lease_done(
                old(self).tables(),
                cidr@,
                crate::model::result_view(r),
                final(self).tables(),
            ),
    {
        self.tables.lease_ip(cidr)
    }

    fn release_ip(&mut self, lease: &IpLease) -> (r: Result<(), StoreError>)
        ensures
            r is Ok,
    {
        self.tables.release_ip(lease.ip.as_str());
        Ok(())
    }

    fn transaction<F: FnOnce(&mut MemoryTxn) -> Result<(), StoreError>>(&mut self, f: F) -> (r: Result<
        (),
        StoreError,
    >)
        ensures
            exists|t: &mut MemoryTxn|
                (*t).tables() == old(self).tables() && #[trigger] f.ensures((t,), r)
                    && final(self).tables() == (if r is Ok {
                    (*final(t)).tables()
                } else {
                    old(self).tables()
                }),
    {
        let mut txn = MemoryTxn { tables: self.tables.snapshot() };
        let r = f(&mut txn);
        if r.is_ok() {
            self.tables = txn.tables;
        }
        r
    }

    fn put_sandbox(&mut self, r: &SandboxRecord) -> (res: Result<(), StoreError>)
        ensures
            res is Ok,
    {
        self.tables.put_sandbox(r);
        Ok(())
    }

    fn put_container(&mut self, r: &ContainerRecord) -> (res: Result<(), StoreError>)
        ensures
            res is Ok,
    {
        self.tables.put_container(r);
        Ok(())
    }

    fn delete_sandbox(&mut self, id: &str) -> (res: Result<(), StoreError>)
        ensures
            res is Ok,
    {
        self.tables.delete_sandbox(id);
        Ok(())
    }

    fn delete_container(&mut self, id: &str) -> (res: Result<(), StoreError>)
        ensures
            res is Ok,
    {
        self.tables.delete_container(id);
        Ok(())
    }
}

} // verus!
