//! DNS cache implementation.
use crate::address::{copy_addrs, SocketAddress};
use crate::time::{duration_as_nanos, duration_nanos, spec_clock_reading, Clock};
use std::time::Duration;
use vstd::hash_map::StringHashMap;
use vstd::prelude::*;

verus! {

/// Why a lookup in the cache found no usable addresses.
#[derive(Debug, Clone, Copy, PartialEq, Eq, Structural)]
pub enum MissReason {
    /// The last resolution is older than the TTL plus the stale grace period.
    TTLExpired,
    /// There is no resolution for the host yet.
    NotFound,
}

/// Whether a cached resolution is past its TTL but still within the grace period.
pub type Stale = bool;

/// The outcome of a cache lookup.
#[derive(Debug)]
pub enum CacheResult {
    Hit(Stale, Vec<SocketAddress>),
    Miss(MissReason),
}

/// The outcome of a cache lookup, with the addresses as a sequence.
pub enum CacheResultView {
    Hit(bool, Seq<SocketAddress>),
    Miss(MissReason),
}

impl View for CacheResult {
    type V = CacheResultView;

    open spec fn view(&self) -> CacheResultView {
        match self {
            CacheResult::Hit(stale, addrs) => CacheResultView::Hit(*stale, addrs@),
            CacheResult::Miss(reason) => CacheResultView::Miss(*reason),
        }
    }
}

/// What the cache holds for one host: nothing resolved yet, or the time of
/// the last resolution (nanoseconds on the cache's clock) and its addresses.
pub type EntryView = Option<(u128, Seq<SocketAddress>)>;

pub open spec fn entry_view(v: Option<(u128, Vec<SocketAddress>)>) -> EntryView {
    match v {
        Some((t, addrs)) => Some((t, addrs@)),
        None => None,
    }
}

/// The addresses of an entry (none for an entry not resolved yet).
pub open spec fn entry_addrs(e: EntryView) -> Seq<SocketAddress> {
    match e {
        Some((_, addrs)) => addrs,
        None => Seq::empty(),
    }
}

/// What a lookup of `host` at time `now` answers.
///
/// A resolution made at time `t` is fresh while `now < t + ttl`, stale but
/// still served while `now < t + ttl + max_stale`, and expired afterwards.
pub open spec fn spec_lookup(
    entries: Map<Seq<char>, EntryView>,
    ttl: u128,
    max_stale: u128,
    host: Seq<char>,
    now: u128,
) -> CacheResultView {
    if entries.contains_key(host) && entries[host] is Some {
        let (t, addrs) = entries[host]->0;
        if now < t + ttl {
            CacheResultView::Hit(false, addrs)
        } else if now < t + ttl + max_stale {
            CacheResultView::Hit(true, addrs)
        } else {
            CacheResultView::Miss(MissReason::TTLExpired)
        }
    } else {
        CacheResultView::Miss(MissReason::NotFound)
    }
}

/// The entries after a lookup of `host`: a host that the cache did not know
/// gets an empty entry, waiting for its first resolution.
pub open spec fn spec_with_key(entries: Map<Seq<char>, EntryView>, host: Seq<char>) -> Map<
    Seq<char>,
    EntryView,
> {
    if entries.contains_key(host) {
        entries
    } else {
        entries.insert(host, None)
    }
}

/// An in-memory DNS cache with a TTL and a stale grace period.
pub struct InMemoryDNSCache {
    ttl: u128,
    max_stale: u128,
    cache: StringHashMap<Option<(u128, Vec<SocketAddress>)>>,
    clock: Clock,
}

impl InMemoryDNSCache {
    /// The TTL, in nanoseconds.
    pub closed spec fn ttl(self) -> u128 {
        self.ttl
    }

    /// The stale grace period, in nanoseconds.
    pub closed spec fn max_stale(self) -> u128 {
        self.max_stale
    }

    /// The last reading of the cache's clock, in nanoseconds.
    pub closed spec fn clock_reading(self) -> u128 {
        self.clock.last_reading()
    }

    /// The cache's clock.
    pub closed spec fn clock(self) -> Clock {
        self.clock
    }

    /// The cached entries, by host name.
    pub closed spec fn entries(self) -> Map<Seq<char>, EntryView> {
        self.cache@.map_values(|v: Option<(u128, Vec<SocketAddress>)>| entry_view(v))
    }

    /// Creates an empty cache.
    pub fn new(ttl: Duration, max_stale: Duration) -> (c: Self)
        ensures
            c.ttl() == duration_nanos(ttl),
            c.max_stale() == duration_nanos(max_stale),
            c.entries() == Map::<Seq<char>, EntryView>::empty(),
            c.clock_reading() == 0,
    {
        Self::from_nanos(duration_as_nanos(&ttl), duration_as_nanos(&max_stale))
    }

    /// Creates an empty cache with a TTL and a stale grace period given in
    /// nanoseconds.
    pub fn from_nanos(ttl: u128, max_stale: u128) -> (c: Self)
        ensures
            c.ttl() == ttl,
            c.max_stale() == max_stale,
            c.entries() == Map::<Seq<char>, EntryView>::empty(),
            c.clock_reading() == 0,
    {
        let c = InMemoryDNSCache { ttl, max_stale, cache: StringHashMap::new(), clock: Clock::new() };
        assert(c.entries() =~= Map::<Seq<char>, EntryView>::empty());
        c
    }

    /// Whether the cache has an entry, resolved or not, for the host.
    pub fn contains(&self, hostname: &str) -> (b: bool)
        ensures
            b == self.entries().contains_key(hostname@),
    {
        self.cache.contains_key(hostname)
    }

    /// Looks up the host at time `now` (nanoseconds on the cache's clock).
    ///
    /// Answers a fresh or stale hit with the cached addresses, or a miss with
    /// its reason. A host without any entry gets an empty one.
    pub fn get_at(&mut self, hostname: &str, now: u128) -> (r: CacheResult)
        ensures
            r@ == spec_lookup(old(self).entries(), old(self).ttl(), old(self).max_stale(), hostname@, now),
            final(self).entries() == spec_with_key(old(self).entries(), hostname@),
            final(self).ttl() == old(self).ttl(),
            final(self).max_stale() == old(self).max_stale(),
            final(self).clock_reading() == old(self).clock_reading(),
            final(self).clock() == old(self).clock(),
    {
        let ghost before = self.entries();
        match self.cache.get(hostname) {
            Some(Some((inserted, addrs))) => {
                let inserted = *inserted;
                assert(before[hostname@] == Some((inserted, addrs@)));
                if now < inserted || now - inserted < self.ttl {
                    return CacheResult::Hit(false, copy_addrs(addrs));
                } else if now - inserted - self.ttl < self.max_stale {
                    return CacheResult::Hit(true, copy_addrs(addrs));
                }
                return CacheResult::Miss(MissReason::TTLExpired);
            },
            _ => {},
        }
        self.create_key(hostname);
        CacheResult::Miss(MissReason::NotFound)
    }

    /// Records a new resolution of the host, made at time `now`.
    ///
    /// The host must already have an entry (a lookup creates one).
    pub fn update_at(&mut self, hostname: &str, addrs: Vec<SocketAddress>, now: u128)
        requires
            old(self).entries().contains_key(hostname@),
        ensures
            final(self).entries() == old(self).entries().insert(hostname@, Some((now, addrs@))),
            final(self).ttl() == old(self).ttl(),
            final(self).max_stale() == old(self).max_stale(),
            final(self).clock_reading() == old(self).clock_reading(),
            final(self).clock() == old(self).clock(),
    {
        self.cache.insert(hostname.to_owned(), Some((now, addrs)));
        assert(self.entries() =~= old(self).entries().insert(hostname@, Some((now, addrs@))));
    }

    /// Looks up the host at the current time of the cache's clock: the clock
    /// measures the elapsed time once, and the entry is classified at that
    /// measurement (or at the previous reading, if that was later).
    pub fn get(&mut self, hostname: &str) -> (r: CacheResult)
        ensures
            final(self).clock().measurements() == old(self).clock().measurements() + 1,
            final(self).clock_reading() == spec_clock_reading(
                old(self).clock_reading(),
                final(self).clock().last_measurement(),
            ),
            final(self).clock_reading() >= final(self).clock().last_measurement(),
            final(self).clock_reading() >= old(self).clock_reading(),
            r@ == spec_lookup(
                old(self).entries(),
                old(self).ttl(),
                old(self).max_stale(),
                hostname@,
                final(self).clock_reading(),
            ),
            final(self).entries() == spec_with_key(old(self).entries(), hostname@),
            final(self).ttl() == old(self).ttl(),
            final(self).max_stale() == old(self).max_stale(),
    {
        let now = self.clock.now_nanos();
        self.get_at(hostname, now)
    }

    /// Records a new resolution of the host, made at the current time: the
    /// clock measures the elapsed time once, and the resolution is stamped with
    /// that measurement (or with the previous reading, if that was later).
    pub fn update(&mut self, hostname: &str, addrs: Vec<SocketAddress>)
        requires
            old(self).entries().contains_key(hostname@),
        ensures
            final(self).clock().measurements() == old(self).clock().measurements() + 1,
            final(self).clock_reading() == spec_clock_reading(
                old(self).clock_reading(),
                final(self).clock().last_measurement(),
            ),
            final(self).clock_reading() >= final(self).clock().last_measurement(),
            final(self).clock_reading() >= old(self).clock_reading(),
            final(self).entries() == old(self).entries().insert(
                hostname@,
                Some((final(self).clock_reading(), addrs@)),
            ),
            final(self).ttl() == old(self).ttl(),
            final(self).max_stale() == old(self).max_stale(),
    {
        let now = self.clock.now_nanos();
        self.update_at(hostname, addrs, now);
    }

    /// The current time of the cache's clock, in nanoseconds: the elapsed time
    /// it measures in this call, or its previous reading if that was later.
    pub fn now(&mut self) -> (now: u128)
        ensures
            final(self).clock().measurements() == old(self).clock().measurements() + 1,
            final(self).clock_reading() == spec_clock_reading(
                old(self).clock_reading(),
                final(self).clock().last_measurement(),
            ),
            final(self).clock_reading() >= final(self).clock().last_measurement(),
            now >= old(self).clock_reading(),
            final(self).clock_reading() == now,
            final(self).entries() == old(self).entries(),
            final(self).ttl() == old(self).ttl(),
            final(self).max_stale() == old(self).max_stale(),
    {
        self.clock.now_nanos()
    }

    /// Creates an empty entry for the host, unless it has one (see
    /// `lemma_with_key` for what this keeps).
    fn create_key(&mut self, hostname: &str)
        ensures
            final(self).entries() == spec_with_key(old(self).entries(), hostname@),
            final(self).ttl() == old(self).ttl(),
            final(self).max_stale() == old(self).max_stale(),
            final(self).clock_reading() == old(self).clock_reading(),
            final(self).clock() == old(self).clock(),
    {
        if !self.cache.contains_key(hostname) {
            self.cache.insert(hostname.to_owned(), None);
            assert(self.entries() =~= old(self).entries().insert(hostname@, None));
        }
    }
}

/// A resolution recorded at time `t` is served as a fresh hit until `t + ttl`,
/// as a stale hit until `t + ttl + max_stale`, and is expired from then on.
/// The entries of other hosts are untouched.
pub proof fn lemma_lookup_after_update(
    entries: Map<Seq<char>, EntryView>,
    ttl: u128,
    max_stale: u128,
    host: Seq<char>,
    other: Seq<char>,
    addrs: Seq<SocketAddress>,
    t: u128,
    now: u128,
)
    requires
        other != host,
    ensures
        ({
            let updated = entries.insert(host, Some((t, addrs)));
            &&& now < t + ttl ==> spec_lookup(updated, ttl, max_stale, host, now)
                == CacheResultView::Hit(false, addrs)
            &&& t + ttl <= now < t + ttl + max_stale ==> spec_lookup(
                updated,
                ttl,
                max_stale,
                host,
                now,
            ) == CacheResultView::Hit(true, addrs)
            &&& t + ttl + max_stale <= now ==> spec_lookup(updated, ttl, max_stale, host, now)
                == CacheResultView::Miss(MissReason::TTLExpired)
            &&& spec_lookup(updated, ttl, max_stale, other, now) == spec_lookup(
                entries,
                ttl,
                max_stale,
                other,
                now,
            )
        }),
{
}

/// A host that has never been resolved is a miss, and the lookup leaves it an
/// entry, so that the resolution that follows can be recorded; other entries
/// are untouched.
pub proof fn lemma_lookup_creates_entry(
    entries: Map<Seq<char>, EntryView>,
    ttl: u128,
    max_stale: u128,
    host: Seq<char>,
    now: u128,
)
    requires
        !entries.contains_key(host),
    ensures
        spec_lookup(entries, ttl, max_stale, host, now) == CacheResultView::Miss(MissReason::NotFound),
        spec_with_key(entries, host).contains_key(host),
        spec_with_key(entries, host)[host] == None::<(u128, Seq<SocketAddress>)>,
        spec_lookup(spec_with_key(entries, host), ttl, max_stale, host, now)
            == CacheResultView::Miss(MissReason::NotFound),
        forall|k: Seq<char>| k != host ==> #[trigger] spec_with_key(entries, host).contains_key(k)
            == entries.contains_key(k) && spec_with_key(entries, host)[k] == entries[k],
{
}

/// What `create_key` does: creating the entry of a host never overwrites one: a host that had an entry
/// keeps it, one that had none gets an empty one, other hosts are untouched,
/// and doing it twice is doing it once.
pub proof fn lemma_with_key(entries: Map<Seq<char>, EntryView>, host: Seq<char>, other: Seq<char>)
    requires
        other != host,
    ensures
        entries.contains_key(host) ==> spec_with_key(entries, host) == entries,
        !entries.contains_key(host) ==> spec_with_key(entries, host)[host] == None::<(u128, Seq<SocketAddress>)>,
        spec_with_key(entries, host).contains_key(host),
        spec_with_key(entries, host).contains_key(other) == entries.contains_key(other),
        spec_with_key(entries, host)[other] == entries[other],
        spec_with_key(spec_with_key(entries, host), host) == spec_with_key(entries, host),
{
}

/// A lookup never changes what the cache answers: the entries it leaves give
/// the same answer for every host at every time.
pub proof fn lemma_lookup_keeps_answers(
    entries: Map<Seq<char>, EntryView>,
    ttl: u128,
    max_stale: u128,
    host: Seq<char>,
    other: Seq<char>,
    now: u128,
)
    ensures
        spec_lookup(spec_with_key(entries, host), ttl, max_stale, other, now) == spec_lookup(
            entries,
            ttl,
            max_stale,
            other,
            now,
        ),
{
}

/// Without a new resolution, an entry only ages: a fresh hit at a later time
/// was fresh before, and an expired entry stays expired. Successive readings of
/// the cache's clock never decrease (`now`, `get`, `update`), so this holds of
/// successive lookups.
pub proof fn lemma_lookup_ages(
    entries: Map<Seq<char>, EntryView>,
    ttl: u128,
    max_stale: u128,
    host: Seq<char>,
    earlier: u128,
    later: u128,
)
    requires
        earlier <= later,
    ensures
        spec_lookup(entries, ttl, max_stale, host, later) == CacheResultView::Hit(
            false,
            entry_addrs(entries[host]),
        ) ==> spec_lookup(entries, ttl, max_stale, host, earlier) == CacheResultView::Hit(
            false,
            entry_addrs(entries[host]),
        ),
        spec_lookup(entries, ttl, max_stale, host, earlier) == CacheResultView::Miss(
            MissReason::TTLExpired,
        ) ==> spec_lookup(entries, ttl, max_stale, host, later) == CacheResultView::Miss(
            MissReason::TTLExpired,
        ),
        spec_lookup(entries, ttl, max_stale, host, earlier) is Hit ==> spec_lookup(
            entries,
            ttl,
            max_stale,
            host,
            later,
        ) is Hit || spec_lookup(entries, ttl, max_stale, host, later) == CacheResultView::Miss(
            MissReason::TTLExpired,
        ),
{
}

} // verus!
