//! Records in a database, where whoever asks for them tells how bytes are read.

use vstd::prelude::*;

#[allow(unused_imports)]
use crate::store::image::image;
use crate::store::redb::RedbStore;
#[allow(unused_imports)]
use crate::store::redb::{no_cells, rows_of, table_of, Cell, CONTAINER, SANDBOX};
use crate::store::select::{select_containers, select_sandboxes};
#[allow(unused_imports)]
use crate::store::select::{
    container_key, of_pod_at, rows_by_key, rows_list_as_tables_do, sandbox_key, selected,
};
use crate::store::StoreError;
#[allow(unused_imports)]
use crate::store::TablesView;
use crate::text;
use crate::types::{ContainerFilter, ContainerRecord, SandboxFilter, SandboxRecord};
#[allow(unused_imports)]
use crate::types::{
    ContainerFilterView, ContainerRecordView, SandboxFilterView, SandboxRecordView,
};

verus! {

/// Whether `records` is what `decode` makes of the first rows, one by one.
pub open spec fn decoded<T, F: Fn(&Vec<u8>) -> Result<T, StoreError>>(
    decode: F,
    rows: Seq<(String, Vec<u8>)>,
    records: Seq<T>,
) -> bool {
    &&& records.len() <= rows.len()
    &&& forall|i: int|
        0 <= i < records.len() ==> decode.ensures((&rows[i].1,), Ok(#[trigger] records[i]))
}

/// Whether `decode` makes `records` of the first rows and fails on the next.
pub open spec fn undecoded<T, F: Fn(&Vec<u8>) -> Result<T, StoreError>>(
    decode: F,
    rows: Seq<(String, Vec<u8>)>,
    records: Seq<T>,
    e: StoreError,
) -> bool {
    &&& decoded(decode, rows, records)
    &&& records.len() < rows.len()
    &&& decode.ensures((&rows[records.len() as int].1,), Err(e))
}

/// The abstract values of sandboxes.
pub open spec fn sandbox_views(records: Seq<SandboxRecord>) -> Seq<SandboxRecordView> {
    Seq::new(records.len(), |i: int| records[i]@)
}

/// The abstract values of containers.
pub open spec fn container_views(records: Seq<ContainerRecord>) -> Seq<ContainerRecordView> {
    Seq::new(records.len(), |i: int| records[i]@)
}

/// The records in rows, or the error of the first that cannot be read.
pub fn decode_rows<T, F: Fn(&Vec<u8>) -> Result<T, StoreError>>(
    rows: &Vec<(String, Vec<u8>)>,
    decode: &F,
) -> (r: Result<Vec<T>, StoreError>)
    requires
        forall|b: &Vec<u8>| #[trigger] decode.requires((b,)),
    ensures
        match r {
            Ok(l) => decoded(*decode, rows@, l@) && l@.len() == rows@.len(),
            Err(e) => exists|records: Seq<T>| #[trigger] undecoded(*decode, rows@, records, e),
        },
{
    let mut out: Vec<T> = Vec::new();
    let mut i: usize = 0;
    while i < rows.len()
        invariant
            i <= rows@.len(),
            i == out@.len(),
            decoded(*decode, rows@, out@),
            forall|b: &Vec<u8>| #[trigger] decode.requires((b,)),
        decreases rows@.len() - i,
    {
        match decode(&rows[i].1) {
            Ok(record) => {
                out.push(record);
            },
            Err(e) => {
                assert(undecoded(*decode, rows@, out@, e));
                return Err(e);
            },
        }
        i = i + 1;
    }
    Ok(out)
}

/// The first sandbox of a pod in rows. No row behind it is read, and a row
/// before it that cannot be read is an error.
pub fn find_by_uid<F: Fn(&Vec<u8>) -> Result<SandboxRecord, StoreError>>(
    rows: &Vec<(String, Vec<u8>)>,
    pod_uid: &str,
    decode: &F,
) -> (r: Result<Option<SandboxRecord>, StoreError>)
    requires
        forall|b: &Vec<u8>| #[trigger] decode.requires((b,)),
    ensures
        match r {
            Ok(Some(s)) => exists|records: Seq<SandboxRecord>|
                {
                    &&& #[trigger] decoded(*decode, rows@, records)
                    &&& of_pod_at(sandbox_views(records), pod_uid@, records.len() - 1)
                    &&& s@ == records.last()@
                },
            Ok(None) => exists|records: Seq<SandboxRecord>|
                {
                    &&& #[trigger] decoded(*decode, rows@, records)
                    &&& records.len() == rows@.len()
                    &&& forall|j: int|
                        0 <= j < records.len() ==> (#[trigger] records[j])@.pod_uid != pod_uid@
                },
            Err(e) => exists|records: Seq<SandboxRecord>|
                {
                    &&& #[trigger] undecoded(*decode, rows@, records, e)
                    &&& forall|j: int|
                        0 <= j < records.len() ==> (#[trigger] records[j])@.pod_uid != pod_uid@
                },
        },
{
    let ghost mut records: Seq<SandboxRecord> = seq![];
    let mut i: usize = 0;
    while i < rows.len()
        invariant
            i <= rows@.len(),
            i == records.len(),
            decoded(*decode, rows@, records),
            forall|j: int| 0 <= j < i ==> (#[trigger] records[j])@.pod_uid != pod_uid@,
            forall|b: &Vec<u8>| #[trigger] decode.requires((b,)),
        decreases rows@.len() - i,
    {
        match decode(&rows[i].1) {
            Ok(record) => {
                let ghost more = records.push(record);
                assert(decoded(*decode, rows@, more));
                if text::same(record.pod_uid.as_str(), pod_uid) {
                    assert(of_pod_at(sandbox_views(more), pod_uid@, more.len() - 1));
                    return Ok(Some(record));
                }
                proof {
                    records = more;
                }
            },
            Err(e) => {
                assert(undecoded(*decode, rows@, records, e));
                return Err(e);
            },
        }
        i = i + 1;
    }
    Ok(None)
}

impl RedbStore {
    /// The first sandbox, in the order of the ids, that stands for a pod.
    /// `decode` reads a record.
    pub fn get_sandbox_by_uid<F: Fn(&Vec<u8>) -> Result<SandboxRecord, StoreError>>(
        &self,
        pod_uid: &str,
        decode: &F,
    ) -> (r: Result<Option<SandboxRecord>, StoreError>)
        requires
            forall|b: &Vec<u8>| #[trigger] decode.requires((b,)),
        ensures
            (r matches Err(e) && e is Db) || exists|rows: Seq<(String, Vec<u8>)>, records: Seq<
                SandboxRecord,
            >|
                {
                    &&& rows_of(rows, table_of(self.cells(), SANDBOX@))
                    &&& #[trigger] decoded(*decode, rows, records)
                    &&& match r {
                        Ok(Some(s)) => {
                            &&& of_pod_at(sandbox_views(records), pod_uid@, records.len() - 1)
                            &&& s@ == records.last()@
                        },
                        Ok(None) => {
                            &&& records.len() == rows.len()
                            &&& forall|j: int|
                                0 <= j < records.len() ==> (#[trigger] records[j])@.pod_uid
                                    != pod_uid@
                        },
                        Err(e) => {
                            &&& undecoded(*decode, rows, records, e)
                            &&& forall|j: int|
                                0 <= j < records.len() ==> (#[trigger] records[j])@.pod_uid
                                    != pod_uid@
                        },
                    }
                },
            self.cells() == no_cells() ==> match r {
                Ok(s) => s is None,
                Err(e) => e is Db,
            },
    {
        let rows = self.sandbox_rows()?;
        proof {
            if self.cells() == no_cells() {
                no_rows(rows@, SANDBOX@);
            }
        }
        find_by_uid(&rows, pod_uid, decode)
    }

    /// The sandboxes that a filter admits, in the order of their ids. `decode`
    /// reads a record.
    pub fn list_sandboxes<F: Fn(&Vec<u8>) -> Result<SandboxRecord, StoreError>>(
        &self,
        filter: &SandboxFilter,
        decode: &F,
    ) -> (r: Result<Vec<SandboxRecord>, StoreError>)
        requires
            forall|b: &Vec<u8>| #[trigger] decode.requires((b,)),
        ensures
            (r matches Err(e) && e is Db) || exists|rows: Seq<(String, Vec<u8>)>, records: Seq<
                SandboxRecord,
            >|
                {
                    &&& rows_of(rows, table_of(self.cells(), SANDBOX@))
                    &&& #[trigger] decoded(*decode, rows, records)
                    &&& match r {
                        Ok(l) => {
                            &&& records.len() == rows.len()
                            &&& l.deep_view() == selected(
                                sandbox_views(records),
                                |s: SandboxRecordView| crate::store::sandbox_matches(s, filter@),
                                sandbox_key(),
                            )
                        },
                        Err(e) => undecoded(*decode, rows, records, e),
                    }
                },
            self.cells() == no_cells() ==> match r {
                Ok(l) => l@.len() == 0,
                Err(e) => e is Db,
            },
    {
        let rows = self.sandbox_rows()?;
        proof {
            if self.cells() == no_cells() {
                no_rows(rows@, SANDBOX@);
            }
        }
        let records = decode_rows(&rows, decode)?;
        assert(records.deep_view() =~= sandbox_views(records@));
        let l = select_sandboxes(&records, filter);
        assert(l.deep_view().len() == l@.len());
        Ok(l)
    }

    /// The containers that a filter admits, in the order of their ids. `decode`
    /// reads a record.
    pub fn list_containers<F: Fn(&Vec<u8>) -> Result<ContainerRecord, StoreError>>(
        &self,
        filter: &ContainerFilter,
        decode: &F,
    ) -> (r: Result<Vec<ContainerRecord>, StoreError>)
        requires
            forall|b: &Vec<u8>| #[trigger] decode.requires((b,)),
        ensures
            (r matches Err(e) && e is Db) || exists|rows: Seq<(String, Vec<u8>)>, records: Seq<
                ContainerRecord,
            >|
                {
                    &&& rows_of(rows, table_of(self.cells(), CONTAINER@))
                    &&& #[trigger] decoded(*decode, rows, records)
                    &&& match r {
                        Ok(l) => {
                            &&& records.len() == rows.len()
                            &&& l.deep_view() == selected(
                                container_views(records),
                                |c: ContainerRecordView|
                                    crate::store::container_matches(c, filter@),
                                container_key(),
                            )
                        },
                        Err(e) => undecoded(*decode, rows, records, e),
                    }
                },
            self.cells() == no_cells() ==> match r {
                Ok(l) => l@.len() == 0,
                Err(e) => e is Db,
            },
    {
        let rows = self.container_rows()?;
        proof {
            if self.cells() == no_cells() {
                no_rows(rows@, CONTAINER@);
            }
        }
        let records = decode_rows(&rows, decode)?;
        assert(records.deep_view() =~= container_views(records@));
        let l = select_containers(&records, filter);
        assert(l.deep_view().len() == l@.len());
        Ok(l)
    }
}

/// A table without cells has no rows.
proof fn no_rows(rows: Seq<(String, Vec<u8>)>, table: Seq<char>)
    requires
        rows_of(rows, table_of(no_cells(), table)),
    ensures
        rows.len() == 0,
{
    let keys = Seq::new(rows.len(), |i: int| rows[i].0@);
    if rows.len() > 0 {
        assert(table_of(no_cells(), table).contains_key(keys[0]));
    }
}

/// A database without content, whatever bytes stand for a record and whatever
/// is asked for, lists nothing, has no sandbox for any pod and no record under
/// any id.
pub proof fn an_empty_database_reads_as_empty(
    rows: Seq<(String, Vec<u8>)>,
    records: Seq<SandboxRecordView>,
    container_rows: Seq<(String, Vec<u8>)>,
    containers: Seq<ContainerRecordView>,
    f: SandboxFilterView,
    g: ContainerFilterView,
    id: Seq<char>,
    uid: Seq<char>,
)
    requires
        rows_of(rows, table_of(no_cells(), SANDBOX@)),
        rows_of(container_rows, table_of(no_cells(), CONTAINER@)),
        records.len() <= rows.len(),
        containers.len() <= container_rows.len(),
    ensures
        selected(
            records,
            |s: SandboxRecordView| crate::store::sandbox_matches(s, f),
            sandbox_key(),
        ).len() == 0,
        selected(
            containers,
            |c: ContainerRecordView| crate::store::container_matches(c, g),
            container_key(),
        ).len() == 0,
        forall|i: int| !(#[trigger] of_pod_at(records, uid, i)),
        !no_cells().contains_key((SANDBOX@, id)),
        !no_cells().contains_key((CONTAINER@, id)),
{
    no_rows(rows, SANDBOX@);
    no_rows(container_rows, CONTAINER@);
}

/// Which records a map keeps that is looked through in the order of its keys:
/// the first is the first that is wanted.
proof fn first_is_kept<V>(m: Map<Seq<char>, V>, keys: Seq<Seq<char>>, p: spec_fn(V) -> bool, i: int)
    requires
        0 <= i <= keys.len(),
        forall|j: int| 0 <= j < i ==> !p(m[#[trigger] keys[j]]),
        i < keys.len() ==> p(m[keys[i]]),
    ensures
        i < keys.len() ==> {
            &&& crate::strmap::kept(m, keys, p).len() > 0
            &&& crate::strmap::kept(m, keys, p)[0] == m[keys[i]]
        },
        i == keys.len() ==> crate::strmap::kept(m, keys, p).len() == 0,
    decreases keys.len(),
{
    if keys.len() > 0 {
        let d = keys.drop_last();
        assert(forall|j: int| 0 <= j < d.len() ==> d[j] == keys[j]);
        if i < d.len() {
            first_is_kept(m, d, p, i);
        } else {
            first_is_kept(m, d, p, d.len() as int);
        }
    }
}

/// The place of the first sandbox of a pod, or the end where there is none.
spec fn first_at(s: Seq<SandboxRecordView>, uid: Seq<char>) -> int
    decreases s.len(),
{
    if s.len() == 0 {
        0
    } else if first_at(s.drop_last(), uid) < s.len() - 1 {
        first_at(s.drop_last(), uid)
    } else if s.last().pod_uid == uid {
        s.len() - 1
    } else {
        s.len() as int
    }
}

proof fn first_at_is_first(s: Seq<SandboxRecordView>, uid: Seq<char>)
    ensures
        0 <= first_at(s, uid) <= s.len(),
        first_at(s, uid) < s.len() ==> of_pod_at(s, uid, first_at(s, uid)),
        forall|j: int| 0 <= j < first_at(s, uid) ==> (#[trigger] s[j]).pod_uid != uid,
    decreases s.len(),
{
    if s.len() > 0 {
        let d = s.drop_last();
        first_at_is_first(d, uid);
        assert(forall|j: int| 0 <= j < d.len() ==> d[j] == s[j]);
        assert(s.last() == s[s.len() - 1]);
    }
}

/// What is read from a database is what the store holds. Where `es` tells the
/// bytes that stand for a sandbox, no two sandboxes have the same, and each row
/// is read as the sandbox that its bytes stand for, a listing of the rows and a
/// search for a pod among them give what the tables give.
pub proof fn sandbox_rows_read_as_tables(
    t: TablesView,
    es: spec_fn(SandboxRecordView) -> Seq<u8>,
    ec: spec_fn(ContainerRecordView) -> Seq<u8>,
    rows: Seq<(String, Vec<u8>)>,
    records: Seq<SandboxRecordView>,
    f: SandboxFilterView,
    uid: Seq<char>,
)
    requires
        t.sound(),
        forall|a: SandboxRecordView, b: SandboxRecordView|
            #![trigger es(a), es(b)]
            es(a) == es(b) ==> a == b,
        rows_of(rows, table_of(image(t, es, ec), SANDBOX@)),
        records.len() == rows.len(),
        forall|i: int| 0 <= i < rows.len() ==> es(#[trigger] records[i]) == rows[i].1@,
    ensures
        selected(
            records,
            |s: SandboxRecordView| crate::store::sandbox_matches(s, f),
            sandbox_key(),
        ) == t.list_sandboxes(f),
        match t.sandbox_of_pod(uid) {
            Some(s) => exists|i: int| #[trigger] of_pod_at(records, uid, i) && records[i] == s,
            None => forall|i: int| !(#[trigger] of_pod_at(records, uid, i)),
        },
{
    let table = table_of(image(t, es, ec), SANDBOX@);
    let keys = Seq::new(rows.len(), |i: int| rows[i].0@);
    let m = t.sandboxes;
    assert forall|k: Seq<char>| #[trigger] table.contains_key(k) == m.contains_key(k) by {
        crate::store::image::rows_are_records(t, k, es, ec);
    }
    assert forall|k: Seq<char>| #[trigger] m.contains_key(k) implies keys.contains(k) by {
        assert(table.contains_key(k));
    }
    assert(crate::strmap::in_order(keys, m));
    crate::strmap::has_order(m);
    crate::strmap::in_order_unique(keys, crate::strmap::ordered_keys(m), m);
    assert forall|i: int| 0 <= i < rows.len() implies records[i] == m[#[trigger] keys[i]] by {
        crate::store::image::rows_are_records(t, keys[i], es, ec);
        assert(table[rows[i].0@] == Cell::Bytes(rows[i].1@));
        assert(es(records[i]) == es(m[keys[i]]));
    }
    assert(records =~= rows_by_key(m, keys));
    rows_list_as_tables_do(
        t,
        f,
        (ContainerFilterView {
            id: None,
            sandbox_id: None,
            label_selector: Map::empty(),
            state: None,
        }),
    );
    let p = |s: SandboxRecordView| s.pod_uid == uid;
    let i = first_at(records, uid);
    first_at_is_first(records, uid);
    assert forall|j: int| 0 <= j < i implies !p(m[#[trigger] keys[j]]) by {
        assert(records[j].pod_uid != uid);
    }
    first_is_kept(m, keys, p, i);
}

/// What is read from a database is what the store holds, for containers: a
/// listing of the rows gives what the tables give.
pub proof fn container_rows_read_as_tables(
    t: TablesView,
    es: spec_fn(SandboxRecordView) -> Seq<u8>,
    ec: spec_fn(ContainerRecordView) -> Seq<u8>,
    rows: Seq<(String, Vec<u8>)>,
    records: Seq<ContainerRecordView>,
    g: ContainerFilterView,
)
    requires
        t.sound(),
        forall|a: ContainerRecordView, b: ContainerRecordView|
            #![trigger ec(a), ec(b)]
            ec(a) == ec(b) ==> a == b,
        rows_of(rows, table_of(image(t, es, ec), CONTAINER@)),
        records.len() == rows.len(),
        forall|i: int| 0 <= i < rows.len() ==> ec(#[trigger] records[i]) == rows[i].1@,
    ensures
        selected(
            records,
            |c: ContainerRecordView| crate::store::container_matches(c, g),
            container_key(),
        ) == t.list_containers(g),
{
    let table = table_of(image(t, es, ec), CONTAINER@);
    let keys = Seq::new(rows.len(), |i: int| rows[i].0@);
    let m = t.containers;
    assert forall|k: Seq<char>| #[trigger] table.contains_key(k) == m.contains_key(k) by {
        crate::store::image::rows_are_records(t, k, es, ec);
    }
    assert forall|k: Seq<char>| #[trigger] m.contains_key(k) implies keys.contains(k) by {
        assert(table.contains_key(k));
    }
    assert(crate::strmap::in_order(keys, m));
    crate::strmap::has_order(m);
    crate::strmap::in_order_unique(keys, crate::strmap::ordered_keys(m), m);
    assert forall|i: int| 0 <= i < rows.len() implies records[i] == m[#[trigger] keys[i]] by {
        crate::store::image::rows_are_records(t, keys[i], es, ec);
        assert(table[rows[i].0@] == Cell::Bytes(rows[i].1@));
        assert(ec(records[i]) == ec(m[keys[i]]));
    }
    assert(records =~= rows_by_key(m, keys));
    rows_list_as_tables_do(
        t,
        (SandboxFilterView { id: None, pod_uid: None, label_selector: Map::empty(), state: None }),
        g,
    );
}

} // verus!
