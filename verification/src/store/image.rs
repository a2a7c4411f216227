//! What a database holds of the store, whatever bytes stand for a record.

use vstd::prelude::*;

#[allow(unused_imports)]
use crate::store::redb::{Cell, CONTAINER, IPAM, SANDBOX};
#[allow(unused_imports)]
use crate::store::{StoreErrorView, TablesView};
#[allow(unused_imports)]
use crate::types::{ContainerRecordView, IpLeaseView, SandboxRecordView};

verus! {

/// The tables in a database, where `es` and `ec` tell the bytes that stand for
/// a record.
pub open spec fn image(
    t: TablesView,
    es: spec_fn(SandboxRecordView) -> Seq<u8>,
    ec: spec_fn(ContainerRecordView) -> Seq<u8>,
) -> Map<(Seq<char>, Seq<char>), Cell> {
    Map::new(
        |k: (Seq<char>, Seq<char>)|
            {
                ||| k.0 == SANDBOX@ && t.sandboxes.contains_key(k.1)
                ||| k.0 == CONTAINER@ && t.containers.contains_key(k.1)
                ||| k.0 == IPAM@ && t.leases.contains_key(k.1)
            },
        |k: (Seq<char>, Seq<char>)|
            if k.0 == SANDBOX@ {
                Cell::Bytes(es(t.sandboxes[k.1]))
            } else if k.0 == CONTAINER@ {
                Cell::Bytes(ec(t.containers[k.1]))
            } else {
                Cell::Text(t.leases[k.1].cidr)
            },
    )
}

proof fn tables_differ()
    ensures
        SANDBOX@ != CONTAINER@,
        SANDBOX@ != IPAM@,
        CONTAINER@ != IPAM@,
{
    reveal_strlit("sandbox");
    reveal_strlit("container");
    reveal_strlit("ipam");
    assert(SANDBOX@.len() == 7);
    assert(CONTAINER@.len() == 9);
    assert(IPAM@.len() == 4);
}

/// An empty store is an empty database, and each write to the store is the
/// write of one row.
pub proof fn writes_are_rows(
    t: TablesView,
    s: SandboxRecordView,
    c: ContainerRecordView,
    id: Seq<char>,
    cidr: Seq<char>,
    es: spec_fn(SandboxRecordView) -> Seq<u8>,
    ec: spec_fn(ContainerRecordView) -> Seq<u8>,
)
    ensures
        image(TablesView::empty(), es, ec) == crate::store::redb::no_cells(),
        image(t.put_sandbox(s), es, ec) == image(t, es, ec).insert(
            (SANDBOX@, s.sandbox_id),
            Cell::Bytes(es(s)),
        ),
        image(t.put_container(c), es, ec) == image(t, es, ec).insert(
            (CONTAINER@, c.container_id),
            Cell::Bytes(ec(c)),
        ),
        image(t.delete_sandbox(id), es, ec) == image(t, es, ec).remove((SANDBOX@, id)),
        image(t.delete_container(id), es, ec) == image(t, es, ec).remove((CONTAINER@, id)),
        image(t.leased(id, cidr), es, ec) == image(t, es, ec).insert(
            (IPAM@, id),
            Cell::Text(cidr),
        ),
        image(t.release(id), es, ec) == image(t, es, ec).remove((IPAM@, id)),
{
    tables_differ();
    assert(image(TablesView::empty(), es, ec) =~= crate::store::redb::no_cells());
    assert(image(t.put_sandbox(s), es, ec) =~= image(t, es, ec).insert(
        (SANDBOX@, s.sandbox_id),
        Cell::Bytes(es(s)),
    ));
    assert(image(t.put_container(c), es, ec) =~= image(t, es, ec).insert(
        (CONTAINER@, c.container_id),
        Cell::Bytes(ec(c)),
    ));
    assert(image(t.delete_sandbox(id), es, ec) =~= image(t, es, ec).remove((SANDBOX@, id)));
    assert(image(t.delete_container(id), es, ec) =~= image(t, es, ec).remove((CONTAINER@, id)));
    assert(image(t.leased(id, cidr), es, ec) =~= image(t, es, ec).insert(
        (IPAM@, id),
        Cell::Text(cidr),
    ));
    assert(image(t.release(id), es, ec) =~= image(t, es, ec).remove((IPAM@, id)));
}

/// What is read from the database is what the store has: a row is there just
/// where the record is, and its bytes are those of the record.
pub proof fn rows_are_records(
    t: TablesView,
    id: Seq<char>,
    es: spec_fn(SandboxRecordView) -> Seq<u8>,
    ec: spec_fn(ContainerRecordView) -> Seq<u8>,
)
    ensures
        image(t, es, ec).contains_key((SANDBOX@, id)) == t.sandboxes.contains_key(id),
        t.sandboxes.contains_key(id) ==> image(t, es, ec)[(SANDBOX@, id)] == Cell::Bytes(
            es(t.sandboxes[id]),
        ),
        image(t, es, ec).contains_key((CONTAINER@, id)) == t.containers.contains_key(id),
        t.containers.contains_key(id) ==> image(t, es, ec)[(CONTAINER@, id)] == Cell::Bytes(
            ec(t.containers[id]),
        ),
{
    tables_differ();
}

/// A request for an address is answered by the database as it is by the store,
/// and changes the one as it changes the other.
pub proof fn leases_are_rows(
    t: TablesView,
    cidr: Seq<char>,
    r: Result<IpLeaseView, StoreErrorView>,
    u: TablesView,
    es: spec_fn(SandboxRecordView) -> Seq<u8>,
    ec: spec_fn(ContainerRecordView) -> Seq<u8>,
)
    requires
        crate::store::lease_done(t, cidr, r, u),
    ensures
        crate::store::redb::lease_cells(image(t, es, ec), cidr, r, image(u, es, ec)),
{
    tables_differ();
    let table = crate::store::redb::table_of(image(t, es, ec), IPAM@);
    assert(table.dom() =~= t.leases.dom());
    match crate::store::ipam::lease_answer(t.leases.dom(), cidr) {
        Ok(ip) => {
            assert(image(u, es, ec) =~= image(t, es, ec).insert((IPAM@, ip), Cell::Text(cidr)));
        },
        Err(_) => {},
    }
}

} // verus!
