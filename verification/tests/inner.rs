use std::time::Duration;
use tcp_connect::address::{connect_target, pick_addr, random_addr, SocketAddress};
use tcp_connect::dns_cache::InMemoryDNSCache;
use tcp_connect::inner::{CachedAddrs, TCPConnectShared};
use tcp_connect::wait_queue::Role;

fn addr(a: u8, b: u8, c: u8, d: u8, port: u16) -> SocketAddress {
    SocketAddress::V4 { ip: u32::from_be_bytes([a, b, c, d]), port }
}

const SEC: u128 = 1_000_000_000;

fn shared(ttl: u64, stale: u64) -> TCPConnectShared<u32> {
    TCPConnectShared::new(InMemoryDNSCache::new(
        Duration::from_secs(ttl),
        Duration::from_secs(stale),
    ))
}

fn resolved(s: &mut TCPConnectShared<u32>, host: &str, addrs: Vec<SocketAddress>, now: u128) {
    assert!(matches!(s.cached_addrs(host, now), CachedAddrs::Missing));
    assert!(s.has_entry(host));
    match s.resolve_or_wait(host, 1) {
        Role::Lead(1) => {}
        _ => panic!("expected to lead"),
    }
    s.finish_resolution(host, Some(addrs), now);
}

#[test]
fn tcp_connect_shared_get_addr_return_random_addr() {
    let addr1 = addr(192, 168, 0, 1, 80);
    let addr2 = addr(192, 168, 0, 2, 80);
    let mut s = shared(60, 1);
    resolved(&mut s, "hostname", vec![addr1, addr2], 0);

    // the values a step generator starting at 0 with increment 1 yields
    let mut picks = Vec::new();
    for random in 0usize..3 {
        match s.cached_addrs("hostname", 0) {
            CachedAddrs::Found { addrs, refresh: false } => picks.push(pick_addr(&addrs, random)),
            _ => panic!("expected a fresh hit"),
        }
    }
    assert_eq!(picks, vec![addr1, addr2, addr1]);
}

#[test]
fn tcp_connect_shared_get_addr_stale() {
    let a = addr(192, 168, 0, 1, 80);
    let mut s = shared(1, 10);
    resolved(&mut s, "hostname", vec![a], 0);
    let mut refreshes = 0;
    for _ in 0..4 {
        match s.cached_addrs("hostname", 2 * SEC) {
            CachedAddrs::Found { addrs, refresh } => {
                assert_eq!(pick_addr(&addrs, 0), a);
                if refresh {
                    refreshes += 1;
                }
            }
            CachedAddrs::Missing => panic!("expected a stale hit"),
        }
    }
    assert_eq!(refreshes, 1);
}

#[test]
fn stale_refresh_can_start_again_after_finishing() {
    let a = addr(1, 1, 1, 1, 1);
    let b = addr(2, 2, 2, 2, 2);
    let mut s = shared(1, 10);
    resolved(&mut s, "h", vec![a], 0);
    assert!(matches!(s.cached_addrs("h", 2 * SEC), CachedAddrs::Found { refresh: true, .. }));
    // a failed refresh keeps the stale entry
    s.finish_background_refresh("h", None, 2 * SEC);
    assert!(matches!(s.cached_addrs("h", 3 * SEC), CachedAddrs::Found { refresh: true, .. }));
    s.finish_background_refresh("h", Some(vec![b]), 3 * SEC);
    match s.cached_addrs("h", 3 * SEC) {
        CachedAddrs::Found { addrs, refresh: false } => assert_eq!(addrs, vec![b]),
        _ => panic!("expected a fresh hit after the refresh"),
    }
}

#[test]
fn only_one_resolution_per_host_at_a_time() {
    let mut s = shared(60, 1);
    assert!(matches!(s.cached_addrs("h", 0), CachedAddrs::Missing));
    assert!(matches!(s.resolve_or_wait("h", 7), Role::Lead(7)));
    assert!(matches!(s.cached_addrs("h", 0), CachedAddrs::Missing));
    assert!(matches!(s.resolve_or_wait("h", 8), Role::Wait(7)));
    assert!(matches!(s.resolve_or_wait("h", 9), Role::Wait(7)));
    // another host is resolved on its own
    assert!(matches!(s.cached_addrs("other", 0), CachedAddrs::Missing));
    assert!(matches!(s.resolve_or_wait("other", 10), Role::Lead(10)));
    // a failed resolution leaves nothing in the cache and a new caller leads again
    s.finish_resolution("h", None, 0);
    assert!(matches!(s.cached_addrs("h", 0), CachedAddrs::Missing));
    assert!(matches!(s.resolve_or_wait("h", 11), Role::Lead(11)));
    s.finish_resolution("h", Some(vec![addr(3, 3, 3, 3, 3)]), 0);
    match s.cached_addrs("h", 0) {
        CachedAddrs::Found { addrs, refresh: false } => assert_eq!(addrs, vec![addr(3, 3, 3, 3, 3)]),
        _ => panic!("expected the resolution to be cached"),
    }
}

#[test]
fn expired_entry_is_resolved_again() {
    let mut s = shared(1, 1);
    resolved(&mut s, "h", vec![addr(1, 1, 1, 1, 1)], 0);
    assert!(matches!(s.cached_addrs("h", 5 * SEC), CachedAddrs::Missing));
    assert!(matches!(s.resolve_or_wait("h", 2), Role::Lead(2)));
}

#[test]
fn connect_target_keeps_address_and_sets_port() {
    let addrs = vec![addr(10, 0, 0, 1, 0), addr(10, 0, 0, 2, 0)];
    for _ in 0..20 {
        let t = connect_target(&addrs, 8080);
        assert_eq!(t.port(), 8080);
        assert!(t == addr(10, 0, 0, 1, 8080) || t == addr(10, 0, 0, 2, 8080));
        assert!(addrs.contains(&random_addr(&addrs)));
    }
}

#[test]
fn resolution_of_a_host_without_entry_is_not_recorded() {
    let mut s = shared(60, 1);
    assert!(!s.has_entry("h"));
    assert!(matches!(s.resolve_or_wait("h", 1), Role::Lead(1)));
    s.finish_resolution("h", Some(vec![addr(1, 1, 1, 1, 1)]), 0);
    assert!(!s.has_entry("h"));
    assert!(matches!(s.cached_addrs("h", 0), CachedAddrs::Missing));
}
