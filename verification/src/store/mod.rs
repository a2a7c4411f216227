//! The store: sandboxes, containers and address leases.

use vstd::prelude::*;

use crate::model::Duplicate;
use crate::strmap::StrMap;
use crate::text;
use crate::types::{
    ContainerFilter, ContainerFilterView, ContainerRecord, ContainerRecordView, IpLease, IpLeaseView,
    SandboxFilter, SandboxFilterView, SandboxRecord, SandboxRecordView,
};

pub mod image;
pub mod ipam;
pub mod laws;
pub mod memory;
pub mod records;
pub mod redb;
pub mod select;

verus! {

/// Why the store refused.
#[derive(Debug, PartialEq)]
pub enum StoreError {
    /// There is no such record.
    NotFound(String),
    /// The file below the store failed.
    Io(String),
    /// The database failed, or the address pool is used up.
    Db(String),
    Other(String),
}

/// The abstract value of [`StoreError`].
#[verifier::ext_equal]
pub enum StoreErrorView {
    NotFound(Seq<char>),
    Io(Seq<char>),
    Db(Seq<char>),
    Other(Seq<char>),
}

impl DeepView for StoreError {
    type V = StoreErrorView;

    open spec fn deep_view(&self) -> StoreErrorView {
        match *self {
            StoreError::NotFound(a) => StoreErrorView::NotFound(a@),
            StoreError::Io(a) => StoreErrorView::Io(a@),
            StoreError::Db(a) => StoreErrorView::Db(a@),
            StoreError::Other(a) => StoreErrorView::Other(a@),
        }
    }
}

impl View for StoreError {
    type V = StoreErrorView;

    open spec fn view(&self) -> StoreErrorView {
        self.deep_view()
    }
}

impl Duplicate for StoreError {
    fn duplicate(&self) -> (r: Self) {
        match self {
            StoreError::NotFound(a) => StoreError::NotFound(a.clone()),
            StoreError::Io(a) => StoreError::Io(a.clone()),
            StoreError::Db(a) => StoreError::Db(a.clone()),
            StoreError::Other(a) => StoreError::Other(a.clone()),
        }
    }
}

impl Clone for StoreError {
    fn clone(&self) -> (r: Self)
        ensures
            r@ == self@,
    {
        self.duplicate()
    }
}

impl StoreErrorView {
    /// The error as text.
    pub open spec fn text(self) -> Seq<char> {
        match self {
            StoreErrorView::NotFound(a) => "not found: "@ + a,
            StoreErrorView::Io(a) => "io: "@ + a,
            StoreErrorView::Db(a) => "db: "@ + a,
            StoreErrorView::Other(a) => a,
        }
    }
}

impl StoreError {
    /// The error as text.
    pub fn message(&self) -> (s: String)
        ensures
            s@ == self@.text(),
    {
        match self {
            StoreError::NotFound(a) => text::cat2("not found: ", a.as_str()),
            StoreError::Io(a) => text::cat2("io: ", a.as_str()),
            StoreError::Db(a) => text::cat2("db: ", a.as_str()),
            StoreError::Other(a) => a.clone(),
        }
    }
}

/// Whether every label that `want` asks for is there with its value.
pub open spec fn labels_match(
    labels: Map<Seq<char>, Seq<char>>,
    want: Map<Seq<char>, Seq<char>>,
) -> bool {
    forall|k: Seq<char>| #[trigger]
        want.contains_key(k) ==> labels.contains_key(k) && labels[k] == want[k]
}

/// Whether every label that `want` asks for is there with its value.
fn has_labels(labels: &StrMap<String>, want: &StrMap<String>) -> (r: bool)
    ensures
        r == labels_match(labels@, want@),
{
    let n: usize = want.len();
    let mut i: usize = 0;
    while i < n
        invariant
            i <= n == want.keys().len(),
            crate::strmap::in_order(want.keys(), want@),
            forall|j: int|
                0 <= j < i ==> labels@.contains_key(#[trigger] want.keys()[j])
                    && labels@[want.keys()[j]] == want@[want.keys()[j]],
        decreases n - i,
    {
        let k = want.key_at(i);
        let v = want.value_at(i);
        match labels.get(k) {
            Some(w) => {
                if !text::same(w.as_str(), v.as_str()) {
                    assert(want@.contains_key(k@));
                    return false;
                }
            },
            None => {
                assert(want@.contains_key(k@));
                return false;
            },
        }
        i = i + 1;
    }
    proof {
        assert forall|k: Seq<char>| #[trigger] want@.contains_key(k) implies labels@.contains_key(k)
            && labels@[k] == want@[k] by {
            assert(want.keys().contains(k));
        }
    }
    true
}

/// Whether an asked-for text, if any, is the given one.
pub open spec fn admits(want: Option<Seq<char>>, got: Seq<char>) -> bool {
    want matches Some(w) ==> w == got
}

/// Whether an asked-for text, if any, is the given one.
fn admitted(want: &Option<String>, got: &str) -> (r: bool)
    ensures
        r == admits(want.deep_view(), got@),
{
    match want {
        Some(w) => text::same(w.as_str(), got),
        None => true,
    }
}

/// Whether a filter admits a sandbox.
pub open spec fn sandbox_matches(s: SandboxRecordView, f: SandboxFilterView) -> bool {
    &&& admits(f.id, s.sandbox_id)
    &&& admits(f.pod_uid, s.pod_uid)
    &&& (f.state matches Some(st) ==> s.state == st)
    &&& labels_match(s.labels, f.label_selector)
}

/// Whether a filter admits a sandbox.
pub fn matches_sandbox(s: &SandboxRecord, f: &SandboxFilter) -> (r: bool)
    ensures
        r == sandbox_matches(s@, f@),
{
    if !admitted(&f.id, s.sandbox_id.as_str()) || !admitted(&f.pod_uid, s.pod_uid.as_str()) {
        return false;
    }
    if let Some(state) = f.state {
        if s.state != state {
            return false;
        }
    }
    has_labels(&s.labels, &f.label_selector)
}

/// Whether a filter admits a container.
pub open spec fn container_matches(c: ContainerRecordView, f: ContainerFilterView) -> bool {
    &&& admits(f.id, c.container_id)
    &&& admits(f.sandbox_id, c.sandbox_id)
    &&& (f.state matches Some(st) ==> c.state == st)
    &&& labels_match(c.labels, f.label_selector)
}

/// Whether a filter admits a container.
pub fn matches_container(c: &ContainerRecord, f: &ContainerFilter) -> (r: bool)
    ensures
        r == container_matches(c@, f@),
{
    if !admitted(&f.id, c.container_id.as_str()) || !admitted(&f.sandbox_id, c.sandbox_id.as_str()) {
        return false;
    }
    if let Some(state) = f.state {
        if c.state != state {
            return false;
        }
    }
    has_labels(&c.labels, &f.label_selector)
}

/// What the store holds.
#[verifier::ext_equal]
pub struct TablesView {
    pub sandboxes: Map<Seq<char>, SandboxRecordView>,
    pub containers: Map<Seq<char>, ContainerRecordView>,
    /// The leased addresses.
    pub leases: Map<Seq<char>, IpLeaseView>,
}

impl TablesView {
    /// A store without content.
    pub open spec fn empty() -> Self {
        TablesView { sandboxes: Map::empty(), containers: Map::empty(), leases: Map::empty() }
    }

    /// Every record stands under its own id.
    pub open spec fn keyed(self) -> bool {
        &&& forall|k: Seq<char>| #[trigger]
            self.sandboxes.contains_key(k) ==> self.sandboxes[k].sandbox_id == k
        &&& forall|k: Seq<char>| #[trigger]
            self.containers.contains_key(k) ==> self.containers[k].container_id == k
        &&& forall|k: Seq<char>| #[trigger] self.leases.contains_key(k) ==> self.leases[k].ip == k
    }

    /// Every record stands under its own id, and there are finitely many.
    pub open spec fn sound(self) -> bool {
        &&& self.keyed()
        &&& self.sandboxes.dom().finite()
        &&& self.containers.dom().finite()
        &&& self.leases.dom().finite()
    }

    pub open spec fn put_sandbox(self, r: SandboxRecordView) -> Self {
        TablesView { sandboxes: self.sandboxes.insert(r.sandbox_id, r), ..self }
    }

    pub open spec fn put_container(self, r: ContainerRecordView) -> Self {
        TablesView { containers: self.containers.insert(r.container_id, r), ..self }
    }

    pub open spec fn delete_sandbox(self, id: Seq<char>) -> Self {
        TablesView { sandboxes: self.sandboxes.remove(id), ..self }
    }

    pub open spec fn delete_container(self, id: Seq<char>) -> Self {
        TablesView { containers: self.containers.remove(id), ..self }
    }

    pub open spec fn release(self, ip: Seq<char>) -> Self {
        TablesView { leases: self.leases.remove(ip), ..self }
    }

    /// The store after `ip` was leased out of the block `cidr`.
    pub open spec fn leased(self, ip: Seq<char>, cidr: Seq<char>) -> Self {
        TablesView {
            leases: self.leases.insert(ip, (IpLeaseView { ip, cidr, sandbox_id: ""@ })),
            ..self
        }
    }

    /// The sandboxes that a filter admits, in the order of their ids.
    pub open spec fn list_sandboxes(self, f: SandboxFilterView) -> Seq<SandboxRecordView> {
        crate::strmap::listing(self.sandboxes, |s: SandboxRecordView| sandbox_matches(s, f))
    }

    /// The containers that a filter admits, in the order of their ids.
    pub open spec fn list_containers(self, f: ContainerFilterView) -> Seq<ContainerRecordView> {
        crate::strmap::listing(self.containers, |c: ContainerRecordView| container_matches(c, f))
    }

    /// The first sandbox, in the order of the ids, that stands for a pod.
    pub open spec fn sandbox_of_pod(self, uid: Seq<char>) -> Option<SandboxRecordView> {
        let l = crate::strmap::listing(self.sandboxes, |s: SandboxRecordView| s.pod_uid == uid);
        if l.len() > 0 {
            Some(l[0])
        } else {
            None
        }
    }
}

/// What a request for an address does to the store, and what it is answered.
pub open spec fn lease_done(
    before: TablesView,
    cidr: Seq<char>,
    r: Result<IpLeaseView, StoreErrorView>,
    after: TablesView,
) -> bool {
    match ipam::lease_answer(before.leases.dom(), cidr) {
        Ok(ip) => {
            &&& r == Ok::<IpLeaseView, StoreErrorView>(
                IpLeaseView { ip, cidr, sandbox_id: ""@ },
            )
            &&& after == before.leased(ip, cidr)
        },
        Err(e) => r == Err::<IpLeaseView, StoreErrorView>(e) && after == before,
    }
}

/// The writes inside one transaction. One that fails for a reason that lies in
/// the backend says nothing of what the transaction then holds.
pub trait Txn: Sized {
    /// What the transaction sees.
    spec fn tables(&self) -> TablesView;

    /// Whether a write can fail for a reason that lies in the backend, as one
    /// on a database can.
    spec fn may_fail() -> bool;

    fn put_sandbox(&mut self, r: &SandboxRecord) -> (res: Result<(), StoreError>)
        ensures
            match res {
                Ok(_) => final(self).tables() == old(self).tables().put_sandbox(r@),
                Err(_) => Self::may_fail(),
            },
    ;

    fn put_container(&mut self, r: &ContainerRecord) -> (res: Result<(), StoreError>)
        ensures
            match res {
                Ok(_) => final(self).tables() == old(self).tables().put_container(r@),
                Err(_) => Self::may_fail(),
            },
    ;

    fn delete_sandbox(&mut self, id: &str) -> (res: Result<(), StoreError>)
        ensures
            match res {
                Ok(_) => final(self).tables() == old(self).tables().delete_sandbox(id@),
                Err(_) => Self::may_fail(),
            },
    ;

    fn delete_container(&mut self, id: &str) -> (res: Result<(), StoreError>)
        ensures
            match res {
                Ok(_) => final(self).tables() == old(self).tables().delete_container(id@),
                Err(_) => Self::may_fail(),
            },
    ;

    fn lease_ip(&mut self, cidr: &str) -> (res: Result<IpLease, StoreError>)
        ensures
            (Self::may_fail() && res is Err) || lease_done(
                old(self).tables(),
                cidr@,
                crate::model::result_view(res),
                final(self).tables(),
            ),
    ;

    fn release_ip(&mut self, lease: &IpLease) -> (res: Result<(), StoreError>)
        ensures
            match res {
                Ok(_) => final(self).tables() == old(self).tables().release(lease.ip@),
                Err(_) => Self::may_fail(),
            },
    ;
}

/// The store. Where a database lies below, any call may fail with
/// [`StoreError::Db`]; where none does, a call fails only for what it asks.
pub trait Store: Sized {
    /// The writes of a transaction.
    type Tx: Txn;

    /// What the store holds.
    spec fn tables(&self) -> TablesView;

    /// Whether a call can fail for a reason that lies in the backend, as one on
    /// a database can.
    spec fn may_fail() -> bool;

    fn get_sandbox(&self, id: &str) -> (r: Result<SandboxRecord, StoreError>)
        ensures
            match r {
                Ok(s) => self.tables().sandboxes.contains_key(id@) && s@
                    == self.tables().sandboxes[id@],
                Err(e) => (Self::may_fail() && e is Db) || (!self.tables().sandboxes.contains_key(id@) && e@
                    == StoreErrorView::NotFound("sandbox "@ + id@)),
            },
    ;

    fn get_sandbox_by_uid(&self, pod_uid: &str) -> (r: Result<Option<SandboxRecord>, StoreError>)
        ensures
            match r {
                Ok(s) => s.deep_view() == self.tables().sandbox_of_pod(pod_uid@),
                Err(e) => Self::may_fail() && e is Db,
            },
    ;

    fn list_sandboxes(&self, filter: &SandboxFilter) -> (r: Result<Vec<SandboxRecord>, StoreError>)
        ensures
            match r {
                Ok(l) => l.deep_view() == self.tables().list_sandboxes(filter@),
                Err(e) => Self::may_fail() && e is Db,
            },
    ;

    fn get_container(&self, id: &str) -> (r: Result<ContainerRecord, StoreError>)
        ensures
            match r {
                Ok(c) => self.tables().containers.contains_key(id@) && c@
                    == self.tables().containers[id@],
                Err(e) => (Self::may_fail() && e is Db) || (!self.tables().containers.contains_key(id@) && e@
                    == StoreErrorView::NotFound("container "@ + id@)),
            },
    ;

    fn list_containers(&self, filter: &ContainerFilter) -> (r: Result<
        Vec<ContainerRecord>,
        StoreError,
    >)
        ensures
            match r {
                Ok(l) => l.deep_view() == self.tables().list_containers(filter@),
                Err(e) => Self::may_fail() && e is Db,
            },
    ;

    fn lease_ip(&mut self, cidr: &str) -> (r: Result<IpLease, StoreError>)
        ensures
            (r matches Err(e) && e is Db && Self::may_fail()) || lease_done(
                old(self).tables(),
                cidr@,
                crate::model::result_view(r),
                final(self).tables(),
            ),
    ;

    fn release_ip(&mut self, lease: &IpLease) -> (r: Result<(), StoreError>)
        ensures
            match r {
                Ok(_) => final(self).tables() == old(self).tables().release(lease.ip@),
                Err(e) => Self::may_fail() && e is Db,
            },
    ;

    /// Runs `f` on what the store holds. Where `f` returns `Ok`, all that it
    /// wrote is kept; where it returns an error, none of it.
    fn transaction<F: FnOnce(&mut Self::Tx) -> Result<(), StoreError>>(&mut self, f: F) -> (r: Result<
        (),
        StoreError,
    >)
        requires
            forall|t: &mut Self::Tx|
                (*t).tables() == old(self).tables() ==> #[trigger] f.requires((t,)),
        ensures
            (r matches Err(e) && e is Db && Self::may_fail()) || exists|t: &mut Self::Tx|
                (*t).tables() == old(self).tables() && #[trigger] f.ensures((t,), r)
                    && final(self).tables() == (if r is Ok {
                    (*final(t)).tables()
                } else {
                    old(self).tables()
                }),
    ;

    fn put_sandbox(&mut self, r: &SandboxRecord) -> (res: Result<(), StoreError>)
        ensures
            match res {
                Ok(_) => final(self).tables() == old(self).tables().put_sandbox(r@),
                Err(e) => {
                    ||| Self::may_fail() && e is Db
                    ||| Self::Tx::may_fail() && final(self).tables() == old(self).tables()
                },
            },
    {
        let write = |t: &mut Self::Tx| -> (res: Result<(), StoreError>)
            ensures
                match res {
                    Ok(_) => (*final(t)).tables() == (*old(t)).tables().put_sandbox(r@),
                    Err(_) => Self::Tx::may_fail(),
                },
        {
            t.put_sandbox(r)
        };
        self.transaction(write)
    }

    fn put_container(&mut self, r: &ContainerRecord) -> (res: Result<(), StoreError>)
        ensures
            match res {
                Ok(_) => final(self).tables() == old(self).tables().put_container(r@),
                Err(e) => {
                    ||| Self::may_fail() && e is Db
                    ||| Self::Tx::may_fail() && final(self).tables() == old(self).tables()
                },
            },
    {
        let write = |t: &mut Self::Tx| -> (res: Result<(), StoreError>)
            ensures
                match res {
                    Ok(_) => (*final(t)).tables() == (*old(t)).tables().put_container(r@),
                    Err(_) => Self::Tx::may_fail(),
                },
        {
            t.put_container(r)
        };
        self.transaction(write)
    }

    fn delete_sandbox(&mut self, id: &str) -> (res: Result<(), StoreError>)
        ensures
            match res {
                Ok(_) => final(self).tables() == old(self).tables().delete_sandbox(id@),
                Err(e) => {
                    ||| Self::may_fail() && e is Db
                    ||| Self::Tx::may_fail() && final(self).tables() == old(self).tables()
                },
            },
    {
        let write = |t: &mut Self::Tx| -> (res: Result<(), StoreError>)
            ensures
                match res {
                    Ok(_) => (*final(t)).tables() == (*old(t)).tables().delete_sandbox(id@),
                    Err(_) => Self::Tx::may_fail(),
                },
        {
            t.delete_sandbox(id)
        };
        self.transaction(write)
    }

    fn delete_container(&mut self, id: &str) -> (res: Result<(), StoreError>)
        ensures
            match res {
                Ok(_) => final(self).tables() == old(self).tables().delete_container(id@),
                Err(e) => {
                    ||| Self::may_fail() && e is Db
                    ||| Self::Tx::may_fail() && final(self).tables() == old(self).tables()
                },
            },
    {
        let write = |t: &mut Self::Tx| -> (res: Result<(), StoreError>)
            ensures
                match res {
                    Ok(_) => (*final(t)).tables() == (*old(t)).tables().delete_container(id@),
                    Err(_) => Self::Tx::may_fail(),
                },
        {
            t.delete_container(id)
        };
        self.transaction(write)
    }
}

} // verus!
