# tcp_connect

A TCP connector with DNS caching. Resolution results are cached for a TTL,
served stale for a short grace period while a background refresh runs, and a
random address of the cached list is used for each connection. When the cache
misses, only one resolution per host runs at a time; other callers for the
same host wait for its result.

Layout:

- `src/` — the verified library (Verus):
  - `host_port.rs` splits `host:port` addresses;
  - `address.rs` holds socket addresses as plain values and picks one;
  - `dns_cache.rs` is the cache with its TTL and stale grace period;
  - `wait_queue.rs` decides who resolves a host and who waits;
  - `inner.rs` combines them into the state shared by all connections;
  - `time.rs` reads the clock; `resolver.rs` names the system resolver;
  - `lib.rs` holds the builder of the configuration.
- `app/` — the connector around it: locks, condition variables, threads,
  the system resolver and the sockets.
- `tests/` — tests of the library.
