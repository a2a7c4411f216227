//! What holds of the store as a whole.

use vstd::prelude::*;

#[allow(unused_imports)]
use crate::store::TablesView;
#[allow(unused_imports)]
use crate::types::{
    ContainerFilterView, ContainerRecordView, IpLeaseView, SandboxFilterView, SandboxRecordView,
};

verus! {

/// A sandbox that was put is the one that is read, with every field as it was
/// given; the records under other ids, the containers and the leases stay.
pub proof fn put_sandbox_then_get(t: TablesView, r: SandboxRecordView, id: Seq<char>)
    ensures
        t.put_sandbox(r).sandboxes.contains_key(r.sandbox_id),
        t.put_sandbox(r).sandboxes[r.sandbox_id] == r,
        id != r.sandbox_id ==> {
            &&& t.put_sandbox(r).sandboxes.contains_key(id) == t.sandboxes.contains_key(id)
            &&& t.put_sandbox(r).sandboxes[id] == t.sandboxes[id]
        },
        t.put_sandbox(r).containers == t.containers,
        t.put_sandbox(r).leases == t.leases,
{
}

/// A container that was put is the one that is read, with every field as it
/// was given; all else stays.
pub proof fn put_container_then_get(t: TablesView, r: ContainerRecordView, id: Seq<char>)
    ensures
        t.put_container(r).containers.contains_key(r.container_id),
        t.put_container(r).containers[r.container_id] == r,
        id != r.container_id ==> {
            &&& t.put_container(r).containers.contains_key(id) == t.containers.contains_key(id)
            &&& t.put_container(r).containers[id] == t.containers[id]
        },
        t.put_container(r).sandboxes == t.sandboxes,
        t.put_container(r).leases == t.leases,
{
}

/// A deleted record is gone, and to delete it once more, or one that was never
/// there, changes nothing.
pub proof fn delete_is_idempotent(t: TablesView, id: Seq<char>)
    ensures
        !t.delete_sandbox(id).sandboxes.contains_key(id),
        t.delete_sandbox(id).delete_sandbox(id) == t.delete_sandbox(id),
        !t.sandboxes.contains_key(id) ==> t.delete_sandbox(id) == t,
        !t.delete_container(id).containers.contains_key(id),
        t.delete_container(id).delete_container(id) == t.delete_container(id),
        !t.containers.contains_key(id) ==> t.delete_container(id) == t,
{
    assert(t.delete_sandbox(id).delete_sandbox(id) =~= t.delete_sandbox(id));
    assert(t.delete_container(id).delete_container(id) =~= t.delete_container(id));
    if !t.sandboxes.contains_key(id) {
        assert(t.sandboxes.remove(id) =~= t.sandboxes);
    }
    if !t.containers.contains_key(id) {
        assert(t.containers.remove(id) =~= t.containers);
    }
}

/// A released address is free, and to release it once more, or one that was
/// never leased, changes nothing.
pub proof fn release_is_idempotent(t: TablesView, ip: Seq<char>)
    ensures
        !t.release(ip).leases.contains_key(ip),
        t.release(ip).release(ip) == t.release(ip),
        !t.leases.contains_key(ip) ==> t.release(ip) == t,
{
    assert(t.release(ip).release(ip) =~= t.release(ip));
    if !t.leases.contains_key(ip) {
        assert(t.leases.remove(ip) =~= t.leases);
    }
}

/// Every write keeps each record under its own id.
pub proof fn writes_keep_keys(
    t: TablesView,
    s: SandboxRecordView,
    c: ContainerRecordView,
    id: Seq<char>,
    cidr: Seq<char>,
)
    requires
        t.keyed(),
    ensures
        TablesView::empty().keyed(),
        t.put_sandbox(s).keyed(),
        t.put_container(c).keyed(),
        t.delete_sandbox(id).keyed(),
        t.delete_container(id).keyed(),
        t.release(id).keyed(),
        t.leased(id, cidr).keyed(),
{
}

/// A listing of sandboxes holds each one that the filter admits and no other,
/// in the order of the ids.
pub proof fn list_sandboxes_exact(t: TablesView, f: SandboxFilterView)
    requires
        t.keyed(),
        t.sandboxes.dom().finite(),
    ensures
        forall|s: SandboxRecordView|
            #![trigger t.list_sandboxes(f).contains(s)]
            t.list_sandboxes(f).contains(s) <==> crate::store::sandbox_matches(s, f)
                && t.sandboxes.contains_key(s.sandbox_id) && t.sandboxes[s.sandbox_id] == s,
        forall|i: int, j: int|
            0 <= i < j < t.list_sandboxes(f).len() ==> crate::text::lt(
                (#[trigger] t.list_sandboxes(f)[i]).sandbox_id,
                (#[trigger] t.list_sandboxes(f)[j]).sandbox_id,
            ),
{
    let p = |s: SandboxRecordView| crate::store::sandbox_matches(s, f);
    let id = |s: SandboxRecordView| s.sandbox_id;
    crate::strmap::listing_members(t.sandboxes, p);
    crate::strmap::listing_sorted(t.sandboxes, p, id);
    let l = t.list_sandboxes(f);
    assert forall|i: int, j: int| 0 <= i < j < l.len() implies crate::text::lt(
        (#[trigger] l[i]).sandbox_id,
        (#[trigger] l[j]).sandbox_id,
    ) by {
        assert(crate::text::lt(id(l[i]), id(l[j])));
    }
}

/// A listing of containers holds each one that the filter admits and no other,
/// in the order of the ids.
pub proof fn list_containers_exact(t: TablesView, f: ContainerFilterView)
    requires
        t.keyed(),
        t.containers.dom().finite(),
    ensures
        forall|c: ContainerRecordView|
            #![trigger t.list_containers(f).contains(c)]
            t.list_containers(f).contains(c) <==> crate::store::container_matches(c, f)
                && t.containers.contains_key(c.container_id) && t.containers[c.container_id] == c,
        forall|i: int, j: int|
            0 <= i < j < t.list_containers(f).len() ==> crate::text::lt(
                (#[trigger] t.list_containers(f)[i]).container_id,
                (#[trigger] t.list_containers(f)[j]).container_id,
            ),
{
    let p = |c: ContainerRecordView| crate::store::container_matches(c, f);
    let id = |c: ContainerRecordView| c.container_id;
    crate::strmap::listing_members(t.containers, p);
    crate::strmap::listing_sorted(t.containers, p, id);
    let l = t.list_containers(f);
    assert forall|i: int, j: int| 0 <= i < j < l.len() implies crate::text::lt(
        (#[trigger] l[i]).container_id,
        (#[trigger] l[j]).container_id,
    ) by {
        assert(crate::text::lt(id(l[i]), id(l[j])));
    }
}

/// A pod has a sandbox to be found just where one of the sandboxes is its own.
pub proof fn sandbox_of_pod_exact(t: TablesView, uid: Seq<char>)
    requires
        t.sandboxes.dom().finite(),
    ensures
        match t.sandbox_of_pod(uid) {
            Some(s) => s.pod_uid == uid && exists|k: Seq<char>| #[trigger]
                t.sandboxes.contains_key(k) && t.sandboxes[k] == s,
            None => forall|k: Seq<char>| #[trigger]
                t.sandboxes.contains_key(k) ==> t.sandboxes[k].pod_uid != uid,
        },
{
    let p = |s: SandboxRecordView| s.pod_uid == uid;
    crate::strmap::listing_members(t.sandboxes, p);
    let l = crate::strmap::listing(t.sandboxes, p);
    if l.len() > 0 {
        assert(l.contains(l[0]));
    } else {
        assert forall|k: Seq<char>| #[trigger] t.sandboxes.contains_key(k) implies t.sandboxes[k].pod_uid
            != uid by {
            if t.sandboxes[k].pod_uid == uid {
                assert(p(t.sandboxes[k]));
                assert(l.contains(t.sandboxes[k]));
            }
        }
    }
}

/// While an address is leased, no request is answered with it.
pub proof fn no_address_twice(t: TablesView, cidr: Seq<char>, ip: Seq<char>)
    requires
        t.leases.contains_key(ip),
    ensures
        crate::store::ipam::lease_answer(t.leases.dom(), cidr) matches Ok(got) ==> got != ip,
{
    match crate::store::ipam::cidr_value(cidr) {
        Some((base, prefix)) => {
            crate::store::ipam::cidr_bounds(cidr);
            crate::store::ipam::lease_is_fresh(t.leases.dom(), base, prefix);
        },
        None => {},
    }
}

/// Whether an address is free in the block of another: it lies in the block, is
/// neither its first nor its last where the block has four or more, and is not
/// in use.
pub open spec fn free_in(used: Set<Seq<char>>, ip: nat, prefix: nat, a: nat) -> bool {
    let size = vstd::arithmetic::power2::pow2((32 - prefix) as nat);
    &&& a / size == ip / size
    &&& prefix <= 30 ==> a % size != 0 && a % size != size - 1
    &&& !used.contains(crate::store::ipam::ip_text(a))
}

/// Whether an address is the lowest that is free in a block.
pub open spec fn lowest_free_in(used: Set<Seq<char>>, ip: nat, prefix: nat, a: nat) -> bool {
    &&& free_in(used, ip, prefix, a)
    &&& forall|b: nat| #[trigger] free_in(used, ip, prefix, b) ==> a <= b
}

/// The address that is leased from a block is the lowest that is free in it, and
/// a block has none to lease just where none is free; a block of one address
/// leases none.
pub proof fn the_lowest_free_address_is_leased(used: Set<Seq<char>>, ip: nat, prefix: nat)
    requires
        ip < 0x1_0000_0000,
        prefix <= 32,
    ensures
        ({
            let cidr = crate::store::ipam::ip_text(ip) + "/"@ + crate::text::dec(prefix);
            match crate::store::ipam::lease_answer(used, cidr) {
                Ok(got) => prefix < 32 && exists|a: nat|
                    {
                        &&& #[trigger] lowest_free_in(used, ip, prefix, a)
                        &&& got == crate::store::ipam::ip_text(a)
                    },
                Err(e) => e == crate::store::StoreErrorView::Db("ipam exhausted: "@ + cidr) && (
                prefix < 32 ==> forall|b: nat| !#[trigger] free_in(used, ip, prefix, b)),
            }
        }),
{
    crate::store::ipam::cidr_reads_back(ip, prefix);
    match crate::store::ipam::next_address(used, ip, prefix) {
        Some(a) => {
            leased_is_lowest(used, ip, prefix, a);
        },
        None => {
            if prefix < 32 {
                none_is_free(used, ip, prefix);
            }
        },
    }
}

proof fn block_of(ip: nat, prefix: nat, b: nat)
    requires
        prefix < 32,
    ensures
        ({
            let size = vstd::arithmetic::power2::pow2((32 - prefix) as nat);
            let net = crate::store::ipam::network(ip, prefix);
            let (from, to) = crate::store::ipam::usable(prefix);
            &&& size >= 2
            &&& from < to <= size
            &&& net + from <= b < net + to <==> b / size == ip / size && (prefix <= 30 ==> b
                % size != 0 && b % size != size - 1)
        }),
{
    let size = vstd::arithmetic::power2::pow2((32 - prefix) as nat);
    vstd::arithmetic::power2::lemma2_to64();
    vstd::arithmetic::power2::lemma_pow2_pos((32 - prefix) as nat);
    if prefix <= 30 {
        vstd::arithmetic::power2::lemma_pow2_strictly_increases(1, (32 - prefix) as nat);
    }
    in_block(b, ip, size);
    vstd::arithmetic::div_mod::lemma_mod_decreases(ip, size);
    let net = crate::store::ipam::network(ip, prefix);
    assert(net == ip - ip % size);
    if b / size == ip / size {
        assert(b % size == b - net);
    }
}

proof fn leased_is_lowest(used: Set<Seq<char>>, ip: nat, prefix: nat, a: nat)
    requires
        ip < 0x1_0000_0000,
        prefix <= 32,
        crate::store::ipam::next_address(used, ip, prefix) == Some(a),
    ensures
        prefix < 32,
        lowest_free_in(used, ip, prefix, a),
{
    crate::store::ipam::lease_is_fresh(used, ip, prefix);
    let net = crate::store::ipam::network(ip, prefix);
    block_of(ip, prefix, a);
    assert(free_in(used, ip, prefix, a));
    assert forall|b: nat| #[trigger] free_in(used, ip, prefix, b) implies a <= b by {
        block_of(ip, prefix, b);
        if b < a {
            let o = (b - net) as nat;
            assert(used.contains(crate::store::ipam::ip_text(net + o)));
        }
    }
}

proof fn none_is_free(used: Set<Seq<char>>, ip: nat, prefix: nat)
    requires
        prefix < 32,
        crate::store::ipam::next_address(used, ip, prefix) is None,
    ensures
        forall|b: nat| !#[trigger] free_in(used, ip, prefix, b),
{
    crate::store::ipam::exhausted_is_full(used, ip, prefix);
    let net = crate::store::ipam::network(ip, prefix);
    assert forall|b: nat| !#[trigger] free_in(used, ip, prefix, b) by {
        if free_in(used, ip, prefix, b) {
            block_of(ip, prefix, b);
            let o = (b - net) as nat;
            assert(used.contains(crate::store::ipam::ip_text(net + o)));
        }
    }
}

proof fn in_block(a: nat, ip: nat, size: nat)
    requires
        size > 0,
    ensures
        a / size == ip / size <==> ip - ip % size <= a < ip - ip % size + size,
        a / size == ip / size ==> a % size == a - (ip - ip % size),
{
    let i = ip as int;
    let x = a as int;
    let n = size as int;
    vstd::arithmetic::div_mod::lemma_fundamental_div_mod(i, n);
    vstd::arithmetic::div_mod::lemma_fundamental_div_mod(x, n);
    vstd::arithmetic::div_mod::lemma_mod_bound(i, n);
    vstd::arithmetic::div_mod::lemma_mod_bound(x, n);
    let q = i / n;
    if i - i % n <= x < i - i % n + n {
        assert(x == q * n + (x - q * n)) by (nonlinear_arith);
        assert(i - i % n == q * n) by (nonlinear_arith)
            requires
                i == n * q + i % n,
        ;
        vstd::arithmetic::div_mod::lemma_fundamental_div_mod_converse(x, n, q, x - q * n);
    }
    if x / n == q {
        assert(x - x % n == i - i % n);
    }
}

} // verus!
