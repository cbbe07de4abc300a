//! Socket addresses as plain values, and the choice of one address out of a
//! resolution result.
use vstd::prelude::*;

verus! {

/// An IP socket address: an IPv4 or IPv6 address (as its numeric value)
/// together with a port.
#[derive(Debug, Clone, Copy, PartialEq, Eq, Structural)]
pub enum SocketAddress {
    V4 { ip: u32, port: u16 },
    V6 { ip: u128, port: u16, flowinfo: u32, scope_id: u32 },
}

impl SocketAddress {
    /// The port of the address.
    pub open spec fn port_of(self) -> u16 {
        match self {
            SocketAddress::V4 { port, .. } => port,
            SocketAddress::V6 { port, .. } => port,
        }
    }

    /// The same address with its port replaced.
    pub open spec fn with_port(self, port: u16) -> SocketAddress {
        match self {
            SocketAddress::V4 { ip, .. } => SocketAddress::V4 { ip, port },
            SocketAddress::V6 { ip, flowinfo, scope_id, .. } => SocketAddress::V6 {
                ip,
                port,
                flowinfo,
                scope_id,
            },
        }
    }

    /// Returns the port of the address.
    pub fn port(&self) -> (p: u16)
        ensures
            p == self.port_of(),
    {
        match *self {
            SocketAddress::V4 { port, .. } => port,
            SocketAddress::V6 { port, .. } => port,
        }
    }

    /// Changes the port of the address, keeping everything else.
    pub fn set_port(&mut self, new_port: u16)
        ensures
            *final(self) == old(self).with_port(new_port),
    {
        let updated = match *self {
            SocketAddress::V4 { ip, .. } => SocketAddress::V4 { ip, port: new_port },
            SocketAddress::V6 { ip, flowinfo, scope_id, .. } => SocketAddress::V6 {
                ip,
                port: new_port,
                flowinfo,
                scope_id,
            },
        };
        *self = updated;
    }
}

/// Returns a copy of a list of addresses.
pub fn copy_addrs(addrs: &Vec<SocketAddress>) -> (copy: Vec<SocketAddress>)
    ensures
        copy@ == addrs@,
{
    let mut copy: Vec<SocketAddress> = Vec::new();
    let n = addrs.len();
    for i in 0..n
        invariant
            n == addrs@.len(),
            copy@ == addrs@.subrange(0, i as int),
    {
        copy.push(addrs[i]);
        assert(copy@ =~= addrs@.subrange(0, i + 1));
    }
    assert(copy@ =~= addrs@);
    copy
}

/// The address picked out of `addrs` for the random number `random`.
pub open spec fn spec_pick_addr(addrs: Seq<SocketAddress>, random: usize) -> SocketAddress {
    addrs[(random as int) % (addrs.len() as int)]
}

/// Picks the address at position `random` modulo the number of addresses.
pub fn pick_addr(addrs: &Vec<SocketAddress>, random: usize) -> (addr: SocketAddress)
    requires
        addrs@.len() > 0,
    ensures
        addr == spec_pick_addr(addrs@, random),
        addrs@.contains(addr),
{
    let i = random % addrs.len();
    addrs[i]
}

/// Calls `rand::random::<usize>()`, which draws from the thread-local generator.
///
/// Trusted with no postcondition: any `usize` may come back.
#[verifier::external_body]
fn random_usize() -> usize {
    rand::random::<usize>()
}

/// Picks a random address out of a non-empty list.
pub fn random_addr(addrs: &Vec<SocketAddress>) -> (addr: SocketAddress)
    requires
        addrs@.len() > 0,
    ensures
        addrs@.contains(addr),
        exists|r: usize| addr == spec_pick_addr(addrs@, r),
{
    let r = random_usize();
    pick_addr(addrs, r)
}

/// The address to connect to: a random address of the resolution, with the
/// port that the caller asked for.
pub fn connect_target(addrs: &Vec<SocketAddress>, port: u16) -> (addr: SocketAddress)
    requires
        addrs@.len() > 0,
    ensures
        addr.port_of() == port,
        exists|r: usize| addr == spec_pick_addr(addrs@, r).with_port(port),
        exists|i: int| 0 <= i < addrs@.len() && addr == addrs@[i].with_port(port),
{
    let mut addr = random_addr(addrs);
    addr.set_port(port);
    addr
}

/// Every address of the list is picked for some random number: the one equal
/// to its position.
pub proof fn lemma_every_addr_can_be_picked(addrs: Seq<SocketAddress>, i: int)
    requires
        0 <= i < addrs.len() <= usize::MAX,
    ensures
        spec_pick_addr(addrs, i as usize) == addrs[i],
{
    vstd::arithmetic::div_mod::lemma_small_mod(i as nat, addrs.len());
}

/// Successive random numbers walk through the list in order, wrapping around
/// at its end.
pub proof fn lemma_pick_next(addrs: Seq<SocketAddress>, r: usize)
    requires
        addrs.len() > 0,
        r < usize::MAX,
    ensures
        spec_pick_addr(addrs, (r + 1) as usize) == addrs[((r as int) % (addrs.len() as int) + 1) % (
        addrs.len() as int)],
{
    let n = addrs.len() as int;
    vstd::arithmetic::div_mod::lemma_add_mod_noop(r as int, 1, n);
    vstd::arithmetic::div_mod::lemma_mod_twice(r as int, n);
    if n > 1 {
        vstd::arithmetic::div_mod::lemma_small_mod(1, n as nat);
    } else {
        assert(((r as int) % n + 1) % n == 0);
        assert((r as int + 1) % n == 0);
    }
}

} // verus!
