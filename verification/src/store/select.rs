//! Choosing among records that were read one by one.

use vstd::prelude::*;

use crate::model::Duplicate;
use crate::store::{matches_container, matches_sandbox};
#[allow(unused_imports)]
use crate::store::TablesView;
use crate::text;
use crate::types::{
    ContainerFilter, ContainerFilterView, ContainerRecord, ContainerRecordView, SandboxFilter,
    SandboxFilterView, SandboxRecord, SandboxRecordView,
};

verus! {

/// A record among others that are in the order of their ids: behind all whose
/// id is not greater.
pub open spec fn placed<V>(s: Seq<V>, r: V, id: spec_fn(V) -> Seq<char>) -> Seq<V>
    decreases s.len(),
{
    if s.len() == 0 || !text::lt(id(r), id(s.last())) {
        s.push(r)
    } else {
        placed(s.drop_last(), r, id).push(s.last())
    }
}

/// The records that are wanted, in the order of their ids. Those with one id
/// stay in the order they came.
pub open spec fn selected<V>(s: Seq<V>, p: spec_fn(V) -> bool, id: spec_fn(V) -> Seq<char>) -> Seq<V>
    decreases s.len(),
{
    if s.len() == 0 {
        seq![]
    } else {
        let head = selected(s.drop_last(), p, id);
        if p(s.last()) {
            placed(head, s.last(), id)
        } else {
            head
        }
    }
}

/// What comes first stays first when a record is placed behind `n`.
proof fn placed_at<V>(s: Seq<V>, r: V, id: spec_fn(V) -> Seq<char>, n: int)
    requires
        0 <= n <= s.len(),
        n == 0 || !text::lt(id(r), id(s[n - 1])),
        forall|i: int| n <= i < s.len() ==> text::lt(id(r), id(#[trigger] s[i])),
    ensures
        placed(s, r, id) == s.insert(n, r),
    decreases s.len(),
{
    if n == s.len() {
        assert(placed(s, r, id) =~= s.insert(n, r));
    } else {
        assert(text::lt(id(r), id(s[s.len() - 1])));
        placed_at(s.drop_last(), r, id, n);
        assert(s.drop_last().insert(n, r).push(s.last()) =~= s.insert(n, r));
    }
}

/// How a sandbox is called.
pub open spec fn sandbox_key() -> spec_fn(SandboxRecordView) -> Seq<char> {
    |s: SandboxRecordView| s.sandbox_id
}

/// How a container is called.
pub open spec fn container_key() -> spec_fn(ContainerRecordView) -> Seq<char> {
    |c: ContainerRecordView| c.container_id
}

fn place_sandbox(out: &mut Vec<SandboxRecord>, r: SandboxRecord)
    ensures
        final(out).deep_view() == placed(old(out).deep_view(), r@, sandbox_key()),
{
    let ghost s = out.deep_view();
    let ghost v = r@;
    let mut n: usize = out.len();
    while n > 0 && text::before(r.sandbox_id.as_str(), out[n - 1].sandbox_id.as_str())
        invariant
            n <= out@.len(),
            s == out.deep_view(),
            v == r@,
            forall|i: int|
                n <= i < s.len() ==> text::lt(
                    sandbox_key()(v),
                    sandbox_key()(#[trigger] s[i]),
                ),
        decreases n,
    {
        n = n - 1;
    }
    proof {
        placed_at(s, v, sandbox_key(), n as int);
    }
    out.insert(n, r);
    assert(out.deep_view() =~= s.insert(n as int, v));
}

/// The sandboxes that a filter admits, in the order of their ids.
pub fn select_sandboxes(records: &Vec<SandboxRecord>, filter: &SandboxFilter) -> (out: Vec<
    SandboxRecord,
>)
    ensures
        out.deep_view() == selected(
            records.deep_view(),
            |s: SandboxRecordView| crate::store::sandbox_matches(s, filter@),
            sandbox_key(),
        ),
{
    let ghost p = |s: SandboxRecordView| crate::store::sandbox_matches(s, filter@);
    let ghost v = records.deep_view();
    let mut out: Vec<SandboxRecord> = Vec::new();
    assert(out.deep_view() =~= selected(v.take(0), p, sandbox_key()));
    let mut i: usize = 0;
    while i < records.len()
        invariant
            i <= records@.len(),
            v == records.deep_view(),
            p == (|s: SandboxRecordView| crate::store::sandbox_matches(s, filter@)),
            out.deep_view() == selected(v.take(i as int), p, sandbox_key()),
        decreases records@.len() - i,
    {
        assert(v.take(i + 1).drop_last() =~= v.take(i as int));
        if matches_sandbox(&records[i], filter) {
            place_sandbox(&mut out, records[i].duplicate());
        }
        i = i + 1;
    }
    assert(v.take(i as int) =~= v);
    out
}

/// Where the first sandbox of a pod stands.
pub open spec fn of_pod_at(s: Seq<SandboxRecordView>, uid: Seq<char>, i: int) -> bool {
    &&& 0 <= i < s.len()
    &&& s[i].pod_uid == uid
    &&& forall|j: int| 0 <= j < i ==> (#[trigger] s[j]).pod_uid != uid
}

fn place_container(out: &mut Vec<ContainerRecord>, r: ContainerRecord)
    ensures
        final(out).deep_view() == placed(old(out).deep_view(), r@, container_key()),
{
    let ghost s = out.deep_view();
    let ghost v = r@;
    let mut n: usize = out.len();
    while n > 0 && text::before(r.container_id.as_str(), out[n - 1].container_id.as_str())
        invariant
            n <= out@.len(),
            s == out.deep_view(),
            v == r@,
            forall|i: int|
                n <= i < s.len() ==> text::lt(
                    container_key()(v),
                    container_key()(#[trigger] s[i]),
                ),
        decreases n,
    {
        n = n - 1;
    }
    proof {
        placed_at(s, v, container_key(), n as int);
    }
    out.insert(n, r);
    assert(out.deep_view() =~= s.insert(n as int, v));
}

/// The containers that a filter admits, in the order of their ids.
pub fn select_containers(records: &Vec<ContainerRecord>, filter: &ContainerFilter) -> (out: Vec<
    ContainerRecord,
>)
    ensures
        out.deep_view() == selected(
            records.deep_view(),
            |c: ContainerRecordView| crate::store::container_matches(c, filter@),
            container_key(),
        ),
{
    let ghost p = |c: ContainerRecordView| crate::store::container_matches(c, filter@);
    let ghost v = records.deep_view();
    let mut out: Vec<ContainerRecord> = Vec::new();
    assert(out.deep_view() =~= selected(v.take(0), p, container_key()));
    let mut i: usize = 0;
    while i < records.len()
        invariant
            i <= records@.len(),
            v == records.deep_view(),
            p == (|c: ContainerRecordView| crate::store::container_matches(c, filter@)),
            out.deep_view() == selected(v.take(i as int), p, container_key()),
        decreases records@.len() - i,
    {
        assert(v.take(i + 1).drop_last() =~= v.take(i as int));
        if matches_container(&records[i], filter) {
            place_container(&mut out, records[i].duplicate());
        }
        i = i + 1;
    }
    assert(v.take(i as int) =~= v);
    out
}

/// The records of a table in the order of its keys.
pub open spec fn rows_by_key<V>(m: Map<Seq<char>, V>, keys: Seq<Seq<char>>) -> Seq<V> {
    Seq::new(keys.len(), |i: int| m[keys[i]])
}

proof fn selected_is_kept<V>(
    m: Map<Seq<char>, V>,
    keys: Seq<Seq<char>>,
    p: spec_fn(V) -> bool,
    id: spec_fn(V) -> Seq<char>,
)
    requires
        forall|i: int, j: int|
            0 <= i < j < keys.len() ==> text::lt(#[trigger] keys[i], #[trigger] keys[j]),
        forall|i: int| 0 <= i < keys.len() ==> id(m[#[trigger] keys[i]]) == keys[i],
    ensures
        selected(rows_by_key(m, keys), p, id) == crate::strmap::kept(m, keys, p),
        crate::strmap::kept(m, keys, p).len() > 0 ==> keys.contains(
            id(crate::strmap::kept(m, keys, p).last()),
        ),
    decreases keys.len(),
{
    if keys.len() > 0 {
        let d = keys.drop_last();
        selected_is_kept(m, d, p, id);
        assert(rows_by_key(m, keys).drop_last() =~= rows_by_key(m, d));
        let h = crate::strmap::kept(m, d, p);
        assert(keys.last() == keys[keys.len() - 1]);
        if h.len() > 0 {
            let k = choose|k: int| 0 <= k < d.len() && d[k] == id(h.last());
            assert(keys[k] == d[k]);
            assert(text::lt(keys[k], keys[keys.len() - 1]));
            text::lt_irreflexive(keys[k]);
            if text::lt(keys[keys.len() - 1], keys[k]) {
                text::lt_transitive(keys[k], keys[keys.len() - 1], keys[k]);
            }
        }
    }
}

/// Sandboxes that were read in the order of their keys, and chosen among by a
/// filter, are those that a listing of the tables has, in the same order.
pub proof fn rows_list_as_tables_do(t: TablesView, f: SandboxFilterView, g: ContainerFilterView)
    requires
        t.keyed(),
        t.sandboxes.dom().finite(),
        t.containers.dom().finite(),
    ensures
        selected(
            rows_by_key(t.sandboxes, crate::strmap::ordered_keys(t.sandboxes)),
            |s: SandboxRecordView| crate::store::sandbox_matches(s, f),
            sandbox_key(),
        ) == t.list_sandboxes(f),
        selected(
            rows_by_key(t.containers, crate::strmap::ordered_keys(t.containers)),
            |c: ContainerRecordView| crate::store::container_matches(c, g),
            container_key(),
        ) == t.list_containers(g),
{
    crate::strmap::has_order(t.sandboxes);
    crate::strmap::has_order(t.containers);
    selected_is_kept(
        t.sandboxes,
        crate::strmap::ordered_keys(t.sandboxes),
        |s: SandboxRecordView| crate::store::sandbox_matches(s, f),
        sandbox_key(),
    );
    selected_is_kept(
        t.containers,
        crate::strmap::ordered_keys(t.containers),
        |c: ContainerRecordView| crate::store::container_matches(c, g),
        container_key(),
    );
}

} // verus!
