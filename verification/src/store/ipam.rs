//! The address pool: which address of a block is leased next.

use vstd::prelude::*;

use crate::store::StoreError;
#[allow(unused_imports)]
use crate::store::StoreErrorView;
use crate::strmap::StrMap;
use crate::text;

verus! {

/// An IPv4 address in dotted form.
pub open spec fn ip_text(ip: nat) -> Seq<char> {
    text::dec(ip / 0x1000000) + "."@ + text::dec((ip / 0x10000) % 0x100) + "."@ + text::dec(
        (ip / 0x100) % 0x100,
    ) + "."@ + text::dec(ip % 0x100)
}

/// An IPv4 address in dotted form.
pub fn ip_to_string(ip: u32) -> (s: String)
    ensures
        s@ == ip_text(ip as nat),
{
    let a = text::dec_string((ip / 0x1000000) as u64);
    let b = text::dec_string(((ip / 0x10000) % 0x100) as u64);
    let c = text::dec_string(((ip / 0x100) % 0x100) as u64);
    let d = text::dec_string((ip % 0x100) as u64);
    text::cat7(a.as_str(), ".", b.as_str(), ".", c.as_str(), ".", d.as_str())
}

/// The address that four decimal parts stand for.
pub open spec fn ip_value(parts: Seq<Seq<char>>) -> Option<nat> {
    if parts.len() != 4 {
        None
    } else {
        match (
            text::parse_dec(parts[0], 255),
            text::parse_dec(parts[1], 255),
            text::parse_dec(parts[2], 255),
            text::parse_dec(parts[3], 255),
        ) {
            (Some(a), Some(b), Some(c), Some(d)) => Some(
                a * 0x1000000 + b * 0x10000 + c * 0x100 + d,
            ),
            _ => None,
        }
    }
}

/// The address and the prefix length of a block `a.b.c.d/prefix`.
pub open spec fn cidr_value(s: Seq<char>) -> Option<(nat, nat)> {
    match s.index_of_first('/') {
        Some(i) => match (
            ip_value(text::split(s.take(i), '.')),
            text::parse_dec(s.skip(i + 1), 32),
        ) {
            (Some(ip), Some(prefix)) => Some((ip, prefix)),
            _ => None,
        },
        None => None,
    }
}

/// The refusal of a block that cannot be read.
fn bad_cidr(cidr: &str) -> (e: StoreError)
    ensures
        e@ == StoreErrorView::Other("bad cidr: "@ + cidr@),
{
    StoreError::Other(text::cat2("bad cidr: ", cidr))
}

/// Reads a block `a.b.c.d/prefix`.
pub fn parse_cidr(cidr: &str) -> (r: Result<(u32, u8), StoreError>)
    ensures
        match r {
            Ok((ip, prefix)) => cidr_value(cidr@) == Some((ip as nat, prefix as nat)),
            Err(e) => cidr_value(cidr@) is None && e@ == StoreErrorView::Other(
                "bad cidr: "@ + cidr@,
            ),
        },
{
    let (ip, prefix) = match text::split_once(cidr, '/') {
        Some(p) => p,
        None => {
            return Err(bad_cidr(cidr));
        },
    };
    let parts = text::split_on(ip.as_str(), '.');
    assert(parts.deep_view().len() == parts@.len());
    if parts.len() != 4 {
        return Err(bad_cidr(cidr));
    }
    assert(parts.deep_view()[0] == parts@[0]@);
    assert(parts.deep_view()[1] == parts@[1]@);
    assert(parts.deep_view()[2] == parts@[2]@);
    assert(parts.deep_view()[3] == parts@[3]@);
    let a = text::parse_number(parts[0].as_str(), 255);
    let b = text::parse_number(parts[1].as_str(), 255);
    let c = text::parse_number(parts[2].as_str(), 255);
    let d = text::parse_number(parts[3].as_str(), 255);
    let p = text::parse_number(prefix.as_str(), 32);
    match (a, b, c, d, p) {
        (Some(a), Some(b), Some(c), Some(d), Some(p)) => {
            let ip: u64 = a * 0x1000000 + b * 0x10000 + c * 0x100 + d;
            Ok((ip as u32, p as u8))
        },
        _ => Err(bad_cidr(cidr)),
    }
}

/// How many addresses a block with this prefix length has.
pub open spec fn block_size(prefix: nat) -> nat {
    vstd::arithmetic::power2::pow2((32 - prefix) as nat)
}

/// The first address of the block around `base`.
pub open spec fn network(base: nat, prefix: nat) -> nat {
    (base - base % block_size(prefix)) as nat
}

/// The offsets into a block that are handed out, as a half-open range. Blocks
/// of four addresses and more keep the first and the last to themselves.
pub open spec fn usable(prefix: nat) -> (nat, nat) {
    if prefix <= 30 {
        (1, (block_size(prefix) - 1) as nat)
    } else {
        (0, block_size(prefix))
    }
}

/// The lowest offset from `from` on, below `to`, whose address is not in use.
pub open spec fn first_free(used: Set<Seq<char>>, net: nat, from: nat, to: nat) -> Option<nat>
    decreases to - from,
{
    if from >= to {
        None
    } else if !used.contains(ip_text(net + from)) {
        Some(from)
    } else {
        first_free(used, net, from + 1, to)
    }
}

/// The address that a block gives out next: the lowest usable one that is not
/// in use. A block of one address gives out none.
pub open spec fn next_address(used: Set<Seq<char>>, base: nat, prefix: nat) -> Option<nat> {
    if prefix == 32 {
        None
    } else {
        let (from, to) = usable(prefix);
        match first_free(used, network(base, prefix), from, to) {
            Some(off) => Some(network(base, prefix) + off),
            None => None,
        }
    }
}

/// What a request for an address of the block `cidr` is answered.
pub open spec fn lease_answer(used: Set<Seq<char>>, cidr: Seq<char>) -> Result<
    Seq<char>,
    StoreErrorView,
> {
    match cidr_value(cidr) {
        Some((base, prefix)) => match next_address(used, base, prefix) {
            Some(ip) => Ok(ip_text(ip)),
            None => Err(StoreErrorView::Db("ipam exhausted: "@ + cidr)),
        },
        None => Err(StoreErrorView::Other("bad cidr: "@ + cidr)),
    }
}

/// A block lies within the 32-bit address space.
proof fn block_fits(base: nat, prefix: nat)
    requires
        base < 0x1_0000_0000,
        prefix <= 32,
    ensures
        0 < block_size(prefix) <= 0x1_0000_0000,
        prefix <= 30 ==> block_size(prefix) >= 4,
        network(base, prefix) <= base < network(base, prefix) + block_size(prefix)
            <= 0x1_0000_0000,
        network(base, prefix) % block_size(prefix) == 0,
{
    let h = (32 - prefix) as nat;
    let n = block_size(prefix);
    vstd::arithmetic::power2::lemma2_to64();
    vstd::arithmetic::power2::lemma_pow2_pos(h);
    vstd::arithmetic::power2::lemma_pow2_pos(prefix);
    vstd::arithmetic::power2::lemma_pow2_adds(h, prefix);
    if h >= 2 {
        vstd::arithmetic::power2::lemma_pow2_adds(2, (h - 2) as nat);
        vstd::arithmetic::power2::lemma_pow2_pos((h - 2) as nat);
        let k = vstd::arithmetic::power2::pow2((h - 2) as nat);
        assert(n == 4 * k);
    }
    let p = vstd::arithmetic::power2::pow2(prefix);
    assert(n * p == 0x1_0000_0000);
    let q = base as int / n as int;
    vstd::arithmetic::div_mod::lemma_fundamental_div_mod(base as int, n as int);
    vstd::arithmetic::div_mod::lemma_mod_bound(base as int, n as int);
    assert(network(base, prefix) == n * q);
    assert(n <= n * p) by (nonlinear_arith)
        requires
            p >= 1,
            n >= 1,
    ;
    assert(q < p) by (nonlinear_arith)
        requires
            n * q <= base,
            base < n * p,
            n > 0,
            p > 0,
    ;
    assert(n * q + n <= n * p) by (nonlinear_arith)
        requires
            q < p,
            n > 0,
    ;
    assert((n * q) % (n as int) == 0) by {
        vstd::arithmetic::div_mod::lemma_mod_multiples_basic(q, n as int);
        vstd::arithmetic::mul::lemma_mul_is_commutative(n as int, q);
    }
}

/// The next address of a block.
pub fn next_free<T: DeepView>(used: &StrMap<T>, cidr: &str) -> (r: Result<String, StoreError>)
    ensures
        match r {
            Ok(ip) => lease_answer(used@.dom(), cidr@) == Ok::<Seq<char>, StoreErrorView>(ip@),
            Err(e) => lease_answer(used@.dom(), cidr@) == Err::<Seq<char>, StoreErrorView>(e@),
        },
{
    let (base, prefix) = match parse_cidr(cidr) {
        Ok(v) => v,
        Err(e) => {
            return Err(e);
        },
    };
    if prefix == 32 {
        return Err(StoreError::Db(text::cat2("ipam exhausted: ", cidr)));
    }
    let host_bits: u8 = 32 - prefix;
    proof {
        block_fits(base as nat, prefix as nat);
        vstd::bits::lemma_u64_shl_is_mul(1, host_bits as u64);
    }
    let count: u64 = 1u64 << (host_bits as u64);
    assert(count == block_size(prefix as nat));
    proof {
        vstd::arithmetic::div_mod::lemma_mod_decreases(base as nat, count as nat);
    }
    let net: u64 = base as u64 - (base as u64) % count;
    let mut off: u64 = if host_bits >= 2 {
        1
    } else {
        0
    };
    let end: u64 = if host_bits >= 2 {
        count - 1
    } else {
        count
    };
    let ghost whole = first_free(used@.dom(), net as nat, off as nat, end as nat);
    while off < end
        invariant
            off <= end <= count,
            net + count <= 0x1_0000_0000,
            whole == first_free(used@.dom(), net as nat, off as nat, end as nat),
            cidr_value(cidr@) == Some((base as nat, prefix as nat)),
            prefix < 32,
            net == network(base as nat, prefix as nat),
            whole == first_free(
                used@.dom(),
                net as nat,
                usable(prefix as nat).0,
                usable(prefix as nat).1,
            ),
        decreases end - off,
    {
        let ip = ip_to_string((net + off) as u32);
        if !used.contains_key(ip.as_str()) {
            return Ok(ip);
        }
        off = off + 1;
    }
    Err(StoreError::Db(text::cat2("ipam exhausted: ", cidr)))
}

/// A block that can be read has a 32-bit address and a prefix length up to 32.
pub proof fn cidr_bounds(s: Seq<char>)
    ensures
        cidr_value(s) matches Some((base, prefix)) ==> base < 0x1_0000_0000 && prefix <= 32,
{
}

/// The four parts of an address in dotted form.
proof fn ip_parts(ip: nat)
    ensures
        text::split(ip_text(ip), '.') == seq![
            text::dec(ip / 0x1000000),
            text::dec((ip / 0x10000) % 0x100),
            text::dec((ip / 0x100) % 0x100),
            text::dec(ip % 0x100),
        ],
        !ip_text(ip).contains('/'),
{
    let a = text::dec(ip / 0x1000000);
    let b = text::dec((ip / 0x10000) % 0x100);
    let c = text::dec((ip / 0x100) % 0x100);
    let d = text::dec(ip % 0x100);
    text::dec_reads_back(ip / 0x1000000);
    text::dec_reads_back((ip / 0x10000) % 0x100);
    text::dec_reads_back((ip / 0x100) % 0x100);
    text::dec_reads_back(ip % 0x100);
    text::digits_only(a, '.');
    text::digits_only(b, '.');
    text::digits_only(c, '.');
    text::digits_only(d, '.');
    text::digits_only(a, '/');
    text::digits_only(b, '/');
    text::digits_only(c, '/');
    text::digits_only(d, '/');
    reveal_strlit(".");
    assert("."@ =~= seq!['.']);
    text::split_whole(a, '.');
    text::split_tail(a, b, '.');
    text::split_tail(a + seq!['.'] + b, c, '.');
    text::split_tail(a + seq!['.'] + b + seq!['.'] + c, d, '.');
    assert(seq![a].push(b).push(c).push(d) =~= seq![a, b, c, d]);
    if ip_text(ip).contains('/') {
        let j = choose|j: int| 0 <= j < ip_text(ip).len() && ip_text(ip)[j] == '/';
        let na = a.len() as int;
        let nb = b.len() as int;
        let nc = c.len() as int;
        if j < na {
            assert(a.contains(a[j]));
        } else if j == na {
        } else if j < na + 1 + nb {
            assert(b.contains(b[j - na - 1]));
        } else if j == na + 1 + nb {
        } else if j < na + nb + nc + 2 {
            assert(c.contains(c[j - na - nb - 2]));
        } else if j == na + nb + nc + 2 {
        } else {
            assert(d.contains(d[j - na - nb - nc - 3]));
        }
    }
}

/// An address in dotted form reads back as itself.
pub proof fn ip_reads_back(ip: nat)
    requires
        ip < 0x1_0000_0000,
    ensures
        ip_value(text::split(ip_text(ip), '.')) == Some(ip),
{
    ip_parts(ip);
    text::dec_reads_back(ip / 0x1000000);
    text::dec_reads_back((ip / 0x10000) % 0x100);
    text::dec_reads_back((ip / 0x100) % 0x100);
    text::dec_reads_back(ip % 0x100);
    let p = text::split(ip_text(ip), '.');
    assert(text::parse_dec(p[0], 255) == Some(ip / 0x1000000));
    assert(text::parse_dec(p[1], 255) == Some((ip / 0x10000) % 0x100));
    assert(text::parse_dec(p[2], 255) == Some((ip / 0x100) % 0x100));
    assert(text::parse_dec(p[3], 255) == Some(ip % 0x100));
}

/// Two addresses with the same text are the same.
pub proof fn ip_injective(a: nat, b: nat)
    requires
        a < 0x1_0000_0000,
        b < 0x1_0000_0000,
        ip_text(a) == ip_text(b),
    ensures
        a == b,
{
    ip_reads_back(a);
    ip_reads_back(b);
}

/// A block written as address, slash and prefix length reads back as itself.
pub proof fn cidr_reads_back(ip: nat, prefix: nat)
    requires
        ip < 0x1_0000_0000,
        prefix <= 32,
    ensures
        cidr_value(ip_text(ip) + "/"@ + text::dec(prefix)) == Some((ip, prefix)),
{
    let s = ip_text(ip) + "/"@ + text::dec(prefix);
    let n = ip_text(ip).len() as int;
    reveal_strlit("/");
    ip_parts(ip);
    ip_reads_back(ip);
    text::dec_reads_back(prefix);
    s.index_of_first_ensures('/');
    assert(s[n] == '/');
    let i = s.index_of_first('/').unwrap();
    if i < n {
        assert(ip_text(ip).contains(ip_text(ip)[i]));
    }
    assert(s.take(n) =~= ip_text(ip));
    assert(s.skip(n + 1) =~= text::dec(prefix));
}

proof fn first_free_props(used: Set<Seq<char>>, net: nat, from: nat, to: nat)
    ensures
        match first_free(used, net, from, to) {
            Some(off) => {
                &&& from <= off < to
                &&& !used.contains(ip_text(net + off))
                &&& forall|o: nat| from <= o < off ==> used.contains(#[trigger] ip_text(net + o))
            },
            None => forall|o: nat| from <= o < to ==> used.contains(#[trigger] ip_text(net + o)),
        },
    decreases to - from,
{
    if from < to && used.contains(ip_text(net + from)) {
        first_free_props(used, net, from + 1, to);
    }
}

/// An address that is given out was not in use, lies in the block, and in a
/// block of four addresses and more is neither the first nor the last one.
/// Every lower address that could be given out is in use.
pub proof fn lease_is_fresh(used: Set<Seq<char>>, base: nat, prefix: nat)
    requires
        base < 0x1_0000_0000,
        prefix <= 32,
    ensures
        next_address(used, base, prefix) matches Some(ip) ==> {
            let net = network(base, prefix);
            &&& !used.contains(ip_text(ip))
            &&& net + usable(prefix).0 <= ip < net + usable(prefix).1
            &&& ip < 0x1_0000_0000
            &&& prefix <= 30 ==> net < ip < net + block_size(prefix) - 1
            &&& forall|o: nat|
                usable(prefix).0 <= o < ip - net ==> used.contains(#[trigger] ip_text(net + o))
        },
{
    block_fits(base, prefix);
    let (from, to) = usable(prefix);
    first_free_props(used, network(base, prefix), from, to);
}

/// A request is refused for want of addresses only where every address that
/// the block can give out is in use.
pub proof fn exhausted_is_full(used: Set<Seq<char>>, base: nat, prefix: nat)
    requires
        prefix < 32,
        next_address(used, base, prefix) is None,
    ensures
        forall|o: nat|
            usable(prefix).0 <= o < usable(prefix).1 ==> used.contains(
                #[trigger] ip_text(network(base, prefix) + o),
            ),
{
    let (from, to) = usable(prefix);
    first_free_props(used, network(base, prefix), from, to);
}

/// Where a block is used up, an address of it that is released is the one
/// given out next.
pub proof fn released_is_next(used: Set<Seq<char>>, base: nat, prefix: nat, off: nat)
    requires
        base < 0x1_0000_0000,
        prefix < 32,
        next_address(used, base, prefix) is None,
        usable(prefix).0 <= off < usable(prefix).1,
    ensures
        next_address(used.remove(ip_text(network(base, prefix) + off)), base, prefix) == Some(
            network(base, prefix) + off,
        ),
{
    block_fits(base, prefix);
    let net = network(base, prefix);
    let (from, to) = usable(prefix);
    let less = used.remove(ip_text(net + off));
    first_free_props(used, net, from, to);
    first_free_props(less, net, from, to);
    match first_free(less, net, from, to) {
        Some(o) => {
            assert(used.contains(ip_text(net + o)));
            ip_injective(net + o, net + off);
        },
        None => {
            assert(less.contains(ip_text(net + off)));
        },
    }
}

/// An address that was given out and released at once is given out again.
pub proof fn lease_release_lease(used: Set<Seq<char>>, base: nat, prefix: nat)
    requires
        base < 0x1_0000_0000,
        prefix <= 32,
        next_address(used, base, prefix) is Some,
    ensures
        ({
            let ip = next_address(used, base, prefix).unwrap();
            next_address(used.insert(ip_text(ip)).remove(ip_text(ip)), base, prefix) == Some(ip)
        }),
{
    lease_is_fresh(used, base, prefix);
    let ip = next_address(used, base, prefix).unwrap();
    assert(used.insert(ip_text(ip)).remove(ip_text(ip)) =~= used);
}

} // verus!
