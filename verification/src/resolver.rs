//! The resolver that the connector uses by default.
use vstd::prelude::*;

verus! {

/// Resolves host names through the system resolver, as
/// `std::net::ToSocketAddrs` does. It holds no state.
#[derive(Debug, Clone, Copy)]
pub struct ToSocketAddrDNSResolver;

impl ToSocketAddrDNSResolver {
    /// Creates the resolver.
    pub fn new() -> (r: Self)
        ensures
            r == ToSocketAddrDNSResolver,
    {
        ToSocketAddrDNSResolver {}
    }
}

} // verus!
