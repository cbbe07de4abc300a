//! TCP connect with DNS caching.
//!
//! The verified core of a connector that caches DNS resolution results for a
//! configured TTL, serves stale results for a bounded grace period while a
//! background refresh runs, hands out a random address of the cached list, and
//! lets only one resolution per host run at a time while other callers wait.
pub mod address;
pub mod dns_cache;
pub mod host_port;
pub mod inner;
pub mod resolver;
pub mod time;
pub mod wait_queue;

use crate::dns_cache::{spec_lookup, CacheResultView, EntryView, InMemoryDNSCache, MissReason};
use crate::address::SocketAddress;
use crate::time::duration_nanos;
use std::time::Duration;
use vstd::prelude::*;

verus! {

/// This builder allows you to configure the connector.
#[derive(Debug, Clone, Copy)]
pub struct TCPConnectBuilder {
    dns_ttl: Duration,
    dns_max_stale_time: Duration,
}

impl TCPConnectBuilder {
    /// The configured DNS TTL.
    pub closed spec fn ttl_setting(self) -> Duration {
        self.dns_ttl
    }

    /// The configured maximum time a stale DNS result may be served.
    pub closed spec fn max_stale_setting(self) -> Duration {
        self.dns_max_stale_time
    }

    /// Set the DNS TTL.
    ///
    /// By default, this is set to 60 seconds.
    pub fn dns_ttl(self, dns_ttl: Duration) -> (b: TCPConnectBuilder)
        ensures
            b.ttl_setting() == dns_ttl,
            b.max_stale_setting() == self.max_stale_setting(),
    {
        let mut b = self;
        b.dns_ttl = dns_ttl;
        b
    }

    /// Set the maximum time for returning a stale DNS resolution result.
    ///
    /// After the DNS TTL expires, new requests can be served stale data
    /// while a new resolution is performed in the background.
    ///
    /// By default, this is set to 1 second.
    pub fn dns_max_stale_time(self, dns_max_stale_time: Duration) -> (b: TCPConnectBuilder)
        ensures
            b.max_stale_setting() == dns_max_stale_time,
            b.ttl_setting() == self.ttl_setting(),
    {
        let mut b = self;
        b.dns_max_stale_time = dns_max_stale_time;
        b
    }

    /// Creates the empty DNS cache that the configuration asks for: its TTL and
    /// its stale grace period are the configured ones.
    pub fn dns_cache(&self) -> (c: InMemoryDNSCache)
        ensures
            c.ttl() == duration_nanos(self.ttl_setting()),
            c.max_stale() == duration_nanos(self.max_stale_setting()),
            c.entries() == Map::<Seq<char>, EntryView>::empty(),
            c.clock_reading() == 0,
    {
        InMemoryDNSCache::new(self.dns_ttl, self.dns_max_stale_time)
    }

    /// The configured DNS TTL.
    pub fn get_dns_ttl(&self) -> (d: Duration)
        ensures
            d == self.ttl_setting(),
    {
        self.dns_ttl
    }

    /// The configured maximum stale time.
    pub fn get_dns_max_stale_time(&self) -> (d: Duration)
        ensures
            d == self.max_stale_setting(),
    {
        self.dns_max_stale_time
    }
}

impl Default for TCPConnectBuilder {
    fn default() -> (b: Self)
        ensures
            duration_nanos(b.ttl_setting()) == 60_000_000_000,
            duration_nanos(b.max_stale_setting()) == 1_000_000_000,
    {
        TCPConnectBuilder {
            dns_ttl: crate::time::duration_from_secs(60),
            dns_max_stale_time: crate::time::duration_from_secs(1),
        }
    }
}

/// The configuration decides how a cached resolution is served: a resolution
/// recorded at `t` in a cache built from the builder is served fresh for the
/// configured TTL, then stale for the configured grace period, and is expired
/// afterwards.
pub proof fn lemma_configured_freshness(
    b: TCPConnectBuilder,
    entries: Map<Seq<char>, EntryView>,
    host: Seq<char>,
    addrs: Seq<SocketAddress>,
    t: u128,
    now: u128,
)
    ensures
        ({
            let ttl = duration_nanos(b.ttl_setting());
            let stale = duration_nanos(b.max_stale_setting());
            let e = entries.insert(host, Some((t, addrs)));
            &&& now < t + ttl ==> spec_lookup(e, ttl, stale, host, now) == CacheResultView::Hit(
                false,
                addrs,
            )
            &&& t + ttl <= now < t + ttl + stale ==> spec_lookup(e, ttl, stale, host, now)
                == CacheResultView::Hit(true, addrs)
            &&& t + ttl + stale <= now ==> spec_lookup(e, ttl, stale, host, now)
                == CacheResultView::Miss(MissReason::TTLExpired)
        }),
{
}

} // verus!
