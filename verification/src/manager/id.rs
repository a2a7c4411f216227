//! Names for sandboxes and containers.

use vstd::prelude::*;

use crate::text;
use crate::types::SandboxId;

verus! {

/// The name of the sandbox with a number.
pub open spec fn sandbox_name(n: u64) -> Seq<char> {
    "sb-"@ + text::hex(n as nat, 16)
}

/// The name of the container with a number.
pub open spec fn container_name(n: u64) -> Seq<char> {
    "ct-"@ + text::hex(n as nat, 16)
}

/// The numbers that the next sandbox and the next container get.
pub struct IdGenerator {
    pub sb: u64,
    pub ct: u64,
}

impl Default for IdGenerator {
    fn default() -> (g: Self)
        ensures
            g == (IdGenerator { sb: 1, ct: 1 }),
    {
        IdGenerator { sb: 1, ct: 1 }
    }
}

/// The number behind `n`; behind the last one comes zero.
pub open spec fn next_number(n: u64) -> u64 {
    if n == u64::MAX {
        0
    } else {
        (n + 1) as u64
    }
}

fn bump(n: u64) -> (r: u64)
    ensures
        r == next_number(n),
{
    if n == u64::MAX {
        0
    } else {
        n + 1
    }
}

impl IdGenerator {
    pub fn new() -> (g: Self)
        ensures
            g == (IdGenerator { sb: 1, ct: 1 }),
    {
        IdGenerator::default()
    }

    /// The name of a new sandbox.
    pub fn sandbox_id(&mut self) -> (r: SandboxId)
        ensures
            r@ == sandbox_name(old(self).sb),
            *final(self) == (IdGenerator { sb: next_number(old(self).sb), ct: old(self).ct }),
    {
        let n: u64 = self.sb;
        self.sb = bump(n);
        SandboxId(text::cat2("sb-", text::hex_string(n, 16).as_str()))
    }

    /// The name of a new container.
    pub fn container_id(&mut self) -> (r: String)
        ensures
            r@ == container_name(old(self).ct),
            *final(self) == (IdGenerator { sb: old(self).sb, ct: next_number(old(self).ct) }),
    {
        let n: u64 = self.ct;
        self.ct = bump(n);
        text::cat2("ct-", text::hex_string(n, 16).as_str())
    }
}

/// Two sandboxes with different numbers have different names, and so have two
/// containers; no sandbox has the name of a container.
pub proof fn names_are_unique(a: u64, b: u64)
    ensures
        sandbox_name(a) == sandbox_name(b) ==> a == b,
        container_name(a) == container_name(b) ==> a == b,
        sandbox_name(a) != container_name(b),
        text::has_prefix(sandbox_name(a), "sb-"@),
        text::has_prefix(container_name(a), "ct-"@),
{
    reveal_strlit("sb-");
    reveal_strlit("ct-");
    let x = text::hex(a as nat, 16);
    let y = text::hex(b as nat, 16);
    assert(vstd::arithmetic::power::pow(16, 16) == 0x1_0000_0000_0000_0000) by {
        sixteen_digits();
    }
    text::hex_len(a as nat, 16);
    text::hex_len(b as nat, 16);
    assert(sandbox_name(a).skip(3) =~= x);
    assert(sandbox_name(b).skip(3) =~= y);
    assert(container_name(a).skip(3) =~= x);
    assert(container_name(b).skip(3) =~= y);
    if x == y {
        text::hex_injective(a as nat, b as nat, 16);
    }
    assert(sandbox_name(a)[0] == 's');
    assert(container_name(b)[0] == 'c');
    assert(sandbox_name(a).take(3) =~= "sb-"@);
    assert(container_name(a).take(3) =~= "ct-"@);
}

/// The names of sandboxes are in the order of their numbers, and so are those of
/// containers.
pub proof fn names_are_in_order(a: u64, b: u64)
    requires
        a < b,
    ensures
        text::lt(sandbox_name(a), sandbox_name(b)),
        text::lt(container_name(a), container_name(b)),
{
    reveal_strlit("sb-");
    reveal_strlit("ct-");
    let x = text::hex(a as nat, 16);
    let y = text::hex(b as nat, 16);
    sixteen_digits();
    text::hex_order(a as nat, b as nat, 16);
    text::lt_skip(sandbox_name(a), sandbox_name(b), 3);
    text::lt_skip(container_name(a), container_name(b), 3);
    assert(sandbox_name(a).skip(3) =~= x);
    assert(sandbox_name(b).skip(3) =~= y);
    assert(container_name(a).skip(3) =~= x);
    assert(container_name(b).skip(3) =~= y);
}

proof fn sixteen_digits()
    ensures
        vstd::arithmetic::power::pow(16, 16) == 0x1_0000_0000_0000_0000,
{
    reveal_with_fuel(vstd::arithmetic::power::pow, 17);
}

} // verus!
