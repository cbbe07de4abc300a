//! The shared state of a connector: the DNS cache, the resolutions in
//! progress and the hosts whose stale entry is being refreshed, with the
//! decisions taken on them.
use crate::address::SocketAddress;
use crate::dns_cache::{spec_lookup, spec_with_key, CacheResult, CacheResultView, EntryView, InMemoryDNSCache};
use crate::wait_queue::{spec_join, spec_joins_as_leader, Role, WaitQueue};
use crate::time::spec_clock_reading;
use vstd::hash_set::StringHashSet;
use vstd::prelude::*;

verus! {

/// What the cache offers for a host.
#[derive(Debug)]
pub enum CachedAddrs {
    /// Cached addresses, fresh or stale. `refresh` tells the caller to start
    /// a background resolution that refreshes the stale entry.
    Found { addrs: Vec<SocketAddress>, refresh: bool },
    /// Nothing usable: the host must be resolved, or its resolution waited for.
    Missing,
}

/// The addresses of a resolution, as a sequence, if it succeeded.
pub open spec fn resolved_view(resolved: Option<Vec<SocketAddress>>) -> Option<Seq<SocketAddress>> {
    match resolved {
        Some(addrs) => Some(addrs@),
        None => None,
    }
}

/// The cache entries after a resolution of `host` that finished at `now`: a
/// successful one replaces the entry of the host, a failed one changes nothing.
pub open spec fn spec_record(
    entries: Map<Seq<char>, EntryView>,
    host: Seq<char>,
    resolved: Option<Seq<SocketAddress>>,
    now: u128,
) -> Map<Seq<char>, EntryView> {
    match resolved {
        Some(addrs) if entries.contains_key(host) => entries.insert(host, Some((now, addrs))),
        _ => entries,
    }
}

/// Whether a hit on `host` asks the caller to refresh it in the background:
/// the hit is stale and no refresh of the host is running.
pub open spec fn spec_starts_refresh(refreshing: Set<Seq<char>>, host: Seq<char>, stale: bool) -> bool {
    stale && !refreshing.contains(host)
}

/// The hosts being refreshed after a hit on `host`.
pub open spec fn spec_after_hit(refreshing: Set<Seq<char>>, host: Seq<char>, stale: bool) -> Set<
    Seq<char>,
> {
    if stale {
        refreshing.insert(host)
    } else {
        refreshing
    }
}

/// The state shared by all the connections of a connector.
///
/// `H` is the handle on which a resolution publishes its result to the
/// callers waiting for it.
#[verifier::reject_recursive_types(H)]
pub struct TCPConnectShared<H> {
    dns_cache: InMemoryDNSCache,
    wait_queue: WaitQueue<H>,
    stale_refreshing: StringHashSet,
}

impl<H: Clone> TCPConnectShared<H> {
    pub closed spec fn cache(self) -> InMemoryDNSCache {
        self.dns_cache
    }

    /// The hosts whose resolution is in progress, with their handles.
    pub closed spec fn resolving(self) -> Map<Seq<char>, H> {
        self.wait_queue@
    }

    /// The hosts whose stale entry is being refreshed in the background.
    pub closed spec fn refreshing(self) -> Set<Seq<char>> {
        self.stale_refreshing@
    }

    /// Every host being refreshed has an entry in the cache (a refresh starts
    /// from a hit).
    pub open spec fn wf(self) -> bool {
        self.refreshing().subset_of(self.cache().entries().dom())
    }

    /// Creates the shared state around a cache.
    pub fn new(dns_cache: InMemoryDNSCache) -> (s: Self)
        ensures
            s.wf(),
            s.cache() == dns_cache,
            s.resolving() == Map::<Seq<char>, H>::empty(),
            s.refreshing() == Set::<Seq<char>>::empty(),
    {
        TCPConnectShared {
            dns_cache,
            wait_queue: WaitQueue::new(),
            stale_refreshing: StringHashSet::new(),
        }
    }

    /// The current time of the cache's clock, in nanoseconds: the elapsed time
    /// it measures in this call, or its previous reading if that was later.
    pub fn now(&mut self) -> (now: u128)
        requires
            old(self).wf(),
        ensures
            final(self).wf(),
            final(self).cache().clock().measurements() == old(self).cache().clock().measurements()
                + 1,
            now == spec_clock_reading(
                old(self).cache().clock_reading(),
                final(self).cache().clock().last_measurement(),
            ),
            now >= final(self).cache().clock().last_measurement(),
            now >= old(self).cache().clock_reading(),
            final(self).cache().clock_reading() == now,
            final(self).cache().entries() == old(self).cache().entries(),
            final(self).cache().ttl() == old(self).cache().ttl(),
            final(self).cache().max_stale() == old(self).cache().max_stale(),
            final(self).resolving() == old(self).resolving(),
            final(self).refreshing() == old(self).refreshing(),
    {
        self.dns_cache.now()
    }

    /// Whether the cache has an entry, resolved or not, for the host.
    pub fn has_entry(&self, hostname: &str) -> (b: bool)
        ensures
            b == self.cache().entries().contains_key(hostname@),
    {
        self.dns_cache.contains(hostname)
    }

    /// Looks the host up in the cache at time `now`.
    ///
    /// A hit hands out the cached addresses. When they are stale and no
    /// refresh of the host is running, the caller is told to start one, and
    /// the host is marked as being refreshed.
    pub fn cached_addrs(&mut self, hostname: &str, now: u128) -> (r: CachedAddrs)
        requires
            old(self).wf(),
        ensures
            final(self).wf(),
            final(self).cache().entries() == spec_with_key(old(self).cache().entries(), hostname@),
            final(self).cache().ttl() == old(self).cache().ttl(),
            final(self).cache().max_stale() == old(self).cache().max_stale(),
            final(self).cache().clock_reading() == old(self).cache().clock_reading(),
            final(self).cache().clock() == old(self).cache().clock(),
            final(self).resolving() == old(self).resolving(),
            final(self).refreshing().remove(hostname@) == old(self).refreshing().remove(hostname@),
            old(self).refreshing().contains(hostname@) ==> final(self).refreshing() == old(
                self,
            ).refreshing(),
            (r matches CachedAddrs::Found { refresh, .. } && refresh) ==> {
                &&& !old(self).refreshing().contains(hostname@)
                &&& final(self).refreshing() == old(self).refreshing().insert(hostname@)
            },
            !(spec_lookup(
                old(self).cache().entries(),
                old(self).cache().ttl(),
                old(self).cache().max_stale(),
                hostname@,
                now,
            ) matches CacheResultView::Hit(true, _)) ==> final(self).refreshing() == old(
                self,
            ).refreshing(),
            match spec_lookup(
                old(self).cache().entries(),
                old(self).cache().ttl(),
                old(self).cache().max_stale(),
                hostname@,
                now,
            ) {
                CacheResultView::Hit(stale, addrs) => {
                    &&& r matches CachedAddrs::Found { addrs: a, refresh } && a@ == addrs
                        && refresh == spec_starts_refresh(old(self).refreshing(), hostname@, stale)
                    &&& final(self).refreshing() == spec_after_hit(old(self).refreshing(), hostname@, stale)
                },
                CacheResultView::Miss(_) => {
                    &&& r is Missing
                    &&& final(self).refreshing() == old(self).refreshing()
                },
            },
    {
        match self.dns_cache.get_at(hostname, now) {
            CacheResult::Hit(stale, addrs) => {
                let mut refresh = false;
                if stale {
                    refresh = self.stale_refreshing.insert(hostname.to_owned());
                }
                CachedAddrs::Found { addrs, refresh }
            },
            CacheResult::Miss(_) => CachedAddrs::Missing,
        }
    }

    /// Joins the resolution of a host that the cache missed.
    ///
    /// The first caller leads the resolution, with `item` as its handle; the
    /// others wait on the handle of the resolution in progress.
    pub fn resolve_or_wait(&mut self, hostname: &str, item: H) -> (r: Role<H>)
        requires
            old(self).wf(),
        ensures
            final(self).wf(),
            final(self).cache() == old(self).cache(),
            final(self).refreshing() == old(self).refreshing(),
            final(self).resolving() == spec_join(old(self).resolving(), hostname@, item),
            r is Lead <==> spec_joins_as_leader(old(self).resolving(), hostname@),
            r matches Role::Wait(h) ==> cloned(old(self).resolving()[hostname@], h),
            r matches Role::Lead(h) ==> cloned(item, h),
    {
        self.wait_queue.join(hostname, item)
    }

    /// Ends the resolution of a host that its leader finished at time `now`.
    ///
    /// A successful resolution is stored in the cache; either way, later
    /// callers that miss the cache start a new resolution.
    pub fn finish_resolution(
        &mut self,
        hostname: &str,
        resolved: Option<Vec<SocketAddress>>,
        now: u128,
    )
        requires
            old(self).wf(),
        ensures
            final(self).wf(),
            final(self).cache().entries() == spec_record(
                old(self).cache().entries(),
                hostname@,
                resolved_view(resolved),
                now,
            ),
            final(self).cache().ttl() == old(self).cache().ttl(),
            final(self).cache().max_stale() == old(self).cache().max_stale(),
            final(self).cache().clock_reading() == old(self).cache().clock_reading(),
            final(self).cache().clock() == old(self).cache().clock(),
            final(self).resolving() == old(self).resolving().remove(hostname@),
            final(self).refreshing() == old(self).refreshing(),
    {
        if let Some(addrs) = resolved {
            if self.dns_cache.contains(hostname) {
                self.dns_cache.update_at(hostname, addrs, now);
            }
        }
        self.wait_queue.finish(hostname);
    }

    /// Ends the background refresh of a host, finished at time `now`.
    ///
    /// A successful resolution is stored in the cache; a failed one is
    /// dropped. Either way a later stale hit may start a new refresh.
    pub fn finish_background_refresh(
        &mut self,
        hostname: &str,
        resolved: Option<Vec<SocketAddress>>,
        now: u128,
    )
        requires
            old(self).wf(),
        ensures
            final(self).wf(),
            final(self).cache().entries() == spec_record(
                old(self).cache().entries(),
                hostname@,
                resolved_view(resolved),
                now,
            ),
            final(self).cache().ttl() == old(self).cache().ttl(),
            final(self).cache().max_stale() == old(self).cache().max_stale(),
            final(self).cache().clock_reading() == old(self).cache().clock_reading(),
            final(self).cache().clock() == old(self).cache().clock(),
            final(self).resolving() == old(self).resolving(),
            final(self).refreshing() == old(self).refreshing().remove(hostname@),
    {
        if let Some(addrs) = resolved {
            if self.dns_cache.contains(hostname) {
                self.dns_cache.update_at(hostname, addrs, now);
            }
        }
        self.stale_refreshing.remove(hostname);
    }
}

/// A stale entry is refreshed by one background resolution at a time: the hit
/// that starts a refresh marks the host, the stale hits that follow while it
/// runs do not start another, and once it has finished the next stale hit
/// starts a new one. Fresh hits never start a refresh.
pub proof fn lemma_one_refresh_at_a_time(refreshing: Set<Seq<char>>, host: Seq<char>)
    requires
        spec_starts_refresh(refreshing, host, true),
    ensures
        spec_after_hit(refreshing, host, true).contains(host),
        !spec_starts_refresh(spec_after_hit(refreshing, host, true), host, true),
        spec_after_hit(spec_after_hit(refreshing, host, true), host, true) == spec_after_hit(
            refreshing,
            host,
            true,
        ),
        spec_starts_refresh(spec_after_hit(refreshing, host, true).remove(host), host, true),
        !spec_starts_refresh(refreshing, host, false),
{
    assert(spec_after_hit(spec_after_hit(refreshing, host, true), host, true) =~= spec_after_hit(
        refreshing,
        host,
        true,
    ));
}

/// What a resolution finished at time `t` found is what the cache serves for
/// the host: fresh until `t + ttl`, stale until `t + ttl + max_stale`. A failed
/// resolution leaves the cache as it was.
pub proof fn lemma_resolution_is_served(
    entries: Map<Seq<char>, EntryView>,
    ttl: u128,
    max_stale: u128,
    host: Seq<char>,
    addrs: Seq<SocketAddress>,
    t: u128,
    now: u128,
)
    requires
        entries.contains_key(host),
    ensures
        now < t + ttl ==> spec_lookup(spec_record(entries, host, Some(addrs), t), ttl, max_stale, host, now)
            == CacheResultView::Hit(false, addrs),
        t + ttl <= now < t + ttl + max_stale ==> spec_lookup(
            spec_record(entries, host, Some(addrs), t),
            ttl,
            max_stale,
            host,
            now,
        ) == CacheResultView::Hit(true, addrs),
        spec_record(entries, host, None, t) == entries,
{
}

/// A hit touches the set of hosts being refreshed only by marking the host
/// hit, and only when the hit is stale: a fresh hit leaves every mark as it
/// was, and a hit on one host never adds or removes the mark of another.
pub proof fn lemma_hit_marks_only_stale_host(
    refreshing: Set<Seq<char>>,
    host: Seq<char>,
    other: Seq<char>,
    stale: bool,
)
    requires
        other != host,
    ensures
        spec_after_hit(refreshing, host, false) == refreshing,
        spec_after_hit(refreshing, host, stale).contains(other) == refreshing.contains(other),
        spec_after_hit(refreshing, host, true).contains(host),
        refreshing.contains(other) ==> !spec_starts_refresh(
            spec_after_hit(refreshing, host, stale),
            other,
            true,
        ),
{
}

/// A caller that joins the resolution of a host with none in progress leads
/// it; when it finishes with addresses, they are what the cache holds for the
/// host, stamped with the finishing time, the other entries are untouched, and
/// the resolutions in progress are back to what they were.
pub proof fn lemma_leader_result_recorded<H>(
    entries: Map<Seq<char>, EntryView>,
    resolving: Map<Seq<char>, H>,
    host: Seq<char>,
    other: Seq<char>,
    item: H,
    addrs: Seq<SocketAddress>,
    t: u128,
)
    requires
        entries.contains_key(host),
        !resolving.contains_key(host),
        other != host,
    ensures
        spec_joins_as_leader(resolving, host),
        spec_join(resolving, host, item).remove(host) == resolving,
        spec_record(entries, host, Some(addrs), t)[host] == Some((t, addrs)),
        spec_record(entries, host, Some(addrs), t).contains_key(other) == entries.contains_key(other),
        spec_record(entries, host, Some(addrs), t)[other] == entries[other],
{
    assert(spec_join(resolving, host, item).remove(host) =~= resolving);
}

/// Resolutions of different hosts do not touch each other: joining, finishing
/// or recording the resolution of one host leaves the role of a caller for the
/// other host, the handle it waits on and its cache entry as they were.
pub proof fn lemma_hosts_independent<H>(
    entries: Map<Seq<char>, EntryView>,
    resolving: Map<Seq<char>, H>,
    h1: Seq<char>,
    h2: Seq<char>,
    item: H,
    resolved: Option<Seq<SocketAddress>>,
    t: u128,
)
    requires
        h1 != h2,
    ensures
        spec_joins_as_leader(spec_join(resolving, h1, item), h2) == spec_joins_as_leader(resolving, h2),
        spec_joins_as_leader(resolving.remove(h1), h2) == spec_joins_as_leader(resolving, h2),
        resolving.contains_key(h2) ==> spec_join(resolving, h1, item)[h2] == resolving[h2],
        resolving.contains_key(h2) ==> resolving.remove(h1)[h2] == resolving[h2],
        spec_record(entries, h1, resolved, t).contains_key(h2) == entries.contains_key(h2),
        spec_record(entries, h1, resolved, t)[h2] == entries[h2],
{
}

/// A background refresh ends with its result in the cache: the host being
/// refreshed has an entry, a successful refresh replaces it with the new
/// addresses stamped with the finishing time, and the next stale hit may start
/// a new refresh.
pub proof fn lemma_refresh_result_recorded(
    entries: Map<Seq<char>, EntryView>,
    refreshing: Set<Seq<char>>,
    host: Seq<char>,
    addrs: Seq<SocketAddress>,
    t: u128,
)
    requires
        refreshing.subset_of(entries.dom()),
        refreshing.contains(host),
    ensures
        spec_record(entries, host, Some(addrs), t)[host] == Some((t, addrs)),
        refreshing.remove(host).subset_of(spec_record(entries, host, Some(addrs), t).dom()),
        spec_starts_refresh(refreshing.remove(host), host, true),
{
}

/// A host that missed the cache has an entry afterwards, so its resolution can
/// be joined, and what the resolution finds can be recorded.
pub proof fn lemma_miss_then_resolve(
    entries: Map<Seq<char>, EntryView>,
    ttl: u128,
    max_stale: u128,
    host: Seq<char>,
    now: u128,
)
    requires
        spec_lookup(entries, ttl, max_stale, host, now) is Miss,
    ensures
        spec_with_key(entries, host).contains_key(host),
{
}

} // verus!
