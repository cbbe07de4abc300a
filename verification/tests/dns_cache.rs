use std::time::Duration;
use tcp_connect::address::SocketAddress;
use tcp_connect::dns_cache::{CacheResult, InMemoryDNSCache, MissReason};

fn addr(a: u8, b: u8, c: u8, d: u8, port: u16) -> SocketAddress {
    SocketAddress::V4 { ip: u32::from_be_bytes([a, b, c, d]), port }
}

const MS: u128 = 1_000_000;

#[test]
fn dns_cache_miss_and_hit() {
    let mut cache = InMemoryDNSCache::new(Duration::from_secs(10), Duration::from_secs(10));

    let result = cache.get("foo");
    assert!(
        matches!(result, CacheResult::Miss(MissReason::NotFound)),
        "Not a miss"
    );

    cache.update("foo", vec![addr(192, 168, 0, 1, 80)]);
    let result = cache.get("foo");
    match result {
        CacheResult::Hit(false, addrs) => {
            assert_eq!(addrs, vec![addr(192, 168, 0, 1, 80)])
        }
        _ => {
            panic!(
                "Test failed: Expected CacheResult::Hit(false, addrs), but got something else."
            );
        }
    }
}

#[test]
fn dns_cache_ttl() {
    let mut cache = InMemoryDNSCache::new(Duration::from_millis(1), Duration::from_millis(1));
    cache.get_at("foo", 0);
    cache.update_at("foo", vec![addr(192, 168, 0, 1, 80)], 0);

    // 100 ms later the value is expired
    let result = cache.get_at("foo", 100 * MS);
    assert!(
        matches!(result, CacheResult::Miss(MissReason::TTLExpired)),
        "Not TTLExpired"
    );
}

#[test]
fn dns_cache_fresh_then_stale_then_expired() {
    let mut cache = InMemoryDNSCache::new(Duration::from_secs(60), Duration::from_secs(1));
    assert!(matches!(cache.get_at("host", 0), CacheResult::Miss(MissReason::NotFound)));
    let start = 5_000 * MS;
    cache.update_at("host", vec![addr(10, 0, 0, 1, 0), addr(10, 0, 0, 2, 0)], start);

    match cache.get_at("host", start) {
        CacheResult::Hit(false, addrs) => {
            assert_eq!(addrs, vec![addr(10, 0, 0, 1, 0), addr(10, 0, 0, 2, 0)])
        }
        _ => panic!("expected a fresh hit"),
    }
    // one nanosecond before the TTL ends the entry is still fresh
    assert!(matches!(cache.get_at("host", start + 60_000 * MS - 1), CacheResult::Hit(false, _)));
    // at the TTL it is stale
    match cache.get_at("host", start + 60_000 * MS) {
        CacheResult::Hit(true, addrs) => assert_eq!(addrs.len(), 2),
        _ => panic!("expected a stale hit"),
    }
    assert!(matches!(cache.get_at("host", start + 61_000 * MS - 1), CacheResult::Hit(true, _)));
    // after the grace period it is expired
    assert!(matches!(
        cache.get_at("host", start + 61_000 * MS),
        CacheResult::Miss(MissReason::TTLExpired)
    ));
}

#[test]
fn dns_cache_time_before_insertion_counts_as_fresh() {
    let mut cache = InMemoryDNSCache::new(Duration::from_secs(1), Duration::from_secs(1));
    cache.get_at("h", 0);
    cache.update_at("h", vec![addr(1, 2, 3, 4, 5)], 10 * MS);
    assert!(matches!(cache.get_at("h", 0), CacheResult::Hit(false, _)));
}

#[test]
fn dns_cache_unresolved_entry_stays_a_miss() {
    let mut cache = InMemoryDNSCache::new(Duration::from_secs(10), Duration::from_secs(10));
    assert!(!cache.contains("foo"));
    assert!(matches!(cache.get_at("foo", 0), CacheResult::Miss(MissReason::NotFound)));
    assert!(cache.contains("foo"));
    assert!(matches!(cache.get_at("foo", 1), CacheResult::Miss(MissReason::NotFound)));
}

#[test]
fn dns_cache_hosts_are_independent() {
    let mut cache = InMemoryDNSCache::new(Duration::from_secs(10), Duration::from_secs(10));
    cache.get_at("a", 0);
    cache.get_at("b", 0);
    cache.update_at("a", vec![addr(1, 1, 1, 1, 0)], 0);
    assert!(matches!(cache.get_at("b", 0), CacheResult::Miss(MissReason::NotFound)));
    cache.update_at("b", vec![addr(2, 2, 2, 2, 0)], 0);
    match cache.get_at("a", 0) {
        CacheResult::Hit(false, addrs) => assert_eq!(addrs, vec![addr(1, 1, 1, 1, 0)]),
        _ => panic!("expected a hit on a"),
    }
}

#[test]
fn dns_cache_update_replaces_previous_resolution() {
    let mut cache = InMemoryDNSCache::new(Duration::from_secs(1), Duration::from_secs(1));
    cache.get_at("h", 0);
    cache.update_at("h", vec![addr(1, 1, 1, 1, 0)], 0);
    assert!(matches!(cache.get_at("h", 5_000 * MS), CacheResult::Miss(MissReason::TTLExpired)));
    cache.update_at("h", vec![addr(2, 2, 2, 2, 0)], 5_000 * MS);
    match cache.get_at("h", 5_000 * MS) {
        CacheResult::Hit(false, addrs) => assert_eq!(addrs, vec![addr(2, 2, 2, 2, 0)]),
        _ => panic!("expected a fresh hit"),
    }
}

#[test]
fn clock_readings_never_decrease() {
    let mut clock = tcp_connect::time::Clock::new();
    let mut last = clock.now_nanos();
    for _ in 0..100 {
        let now = clock.now_nanos();
        assert!(now >= last);
        last = now;
    }
    let mut cache = InMemoryDNSCache::new(Duration::from_secs(10), Duration::from_secs(10));
    let first = cache.now();
    assert!(cache.now() >= first);
}
