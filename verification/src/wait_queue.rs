//! The queue of callers waiting for an ongoing resolution of a host.
use vstd::hash_map::StringHashMap;
use vstd::prelude::*;

verus! {

/// The part a caller plays in the resolution of a host.
pub enum Role<H> {
    /// No resolution of the host was in progress: the caller resolves it, and
    /// the handle through which it publishes the result is returned.
    Lead(H),
    /// A resolution of the host is in progress: the caller waits for its
    /// result on the returned handle.
    Wait(H),
}

/// Whether a caller that joins the resolution of `host` leads it: no
/// resolution of the host is in progress.
pub open spec fn spec_joins_as_leader<H>(queues: Map<Seq<char>, H>, host: Seq<char>) -> bool {
    !queues.contains_key(host)
}

/// The resolutions in progress after a caller joined that of `host` with the
/// handle `item`.
pub open spec fn spec_join<H>(queues: Map<Seq<char>, H>, host: Seq<char>, item: H) -> Map<
    Seq<char>,
    H,
> {
    if queues.contains_key(host) {
        queues
    } else {
        queues.insert(host, item)
    }
}

/// For each host whose resolution is in progress, the handle on which its
/// result is published.
#[verifier::reject_recursive_types(H)]
pub struct WaitQueue<H> {
    queues: StringHashMap<H>,
}

impl<H> View for WaitQueue<H> {
    type V = Map<Seq<char>, H>;

    closed spec fn view(&self) -> Map<Seq<char>, H> {
        self.queues@
    }
}

impl<H: Clone> WaitQueue<H> {
    /// Creates a queue with no resolution in progress.
    pub fn new() -> (q: Self)
        ensures
            q@ == Map::<Seq<char>, H>::empty(),
    {
        WaitQueue { queues: StringHashMap::new() }
    }

    /// Whether a resolution of the host is in progress.
    pub fn is_resolving(&self, hostname: &str) -> (b: bool)
        ensures
            b == self@.contains_key(hostname@),
    {
        self.queues.contains_key(hostname)
    }

    /// Joins the resolution of a host.
    ///
    /// If one is in progress the caller waits on its handle, and the queue is
    /// unchanged. Otherwise the caller leads a new resolution, whose handle is
    /// `item`.
    pub fn join(&mut self, hostname: &str, item: H) -> (r: Role<H>)
        ensures
            final(self)@ == spec_join(old(self)@, hostname@, item),
            r is Lead <==> spec_joins_as_leader(old(self)@, hostname@),
            r matches Role::Wait(h) ==> cloned(old(self)@[hostname@], h),
            r matches Role::Lead(h) ==> cloned(item, h),
    {
        match self.queues.get(hostname) {
            Some(existing) => Role::Wait(existing.clone()),
            None => {
                let leader = item.clone();
                self.queues.insert(hostname.to_owned(), item);
                Role::Lead(leader)
            },
        }
    }

    /// Ends the resolution of a host: later callers will start a new one.
    pub fn finish(&mut self, hostname: &str)
        ensures
            final(self)@ == old(self)@.remove(hostname@),
    {
        self.queues.remove(hostname);
    }
}

/// Single flight: once a caller leads the resolution of a host, every caller
/// that joins it before it finishes waits for its result, and the handle they
/// wait on is the leader's.
pub proof fn lemma_single_leader<H>(queues: Map<Seq<char>, H>, host: Seq<char>, first: H, second: H)
    requires
        spec_joins_as_leader(queues, host),
    ensures
        !spec_joins_as_leader(spec_join(queues, host, first), host),
        spec_join(spec_join(queues, host, first), host, second) == spec_join(queues, host, first),
        spec_join(queues, host, first)[host] == first,
{
}

/// Once the resolution of a host is finished, the next caller leads a new one;
/// the resolutions of other hosts are untouched.
pub proof fn lemma_finish_allows_new_leader<H>(queues: Map<Seq<char>, H>, host: Seq<char>, other: Seq<char>)
    requires
        other != host,
    ensures
        spec_joins_as_leader(queues.remove(host), host),
        spec_joins_as_leader(queues.remove(host), other) == spec_joins_as_leader(queues, other),
{
}

} // verus!
