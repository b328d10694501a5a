# n_observer

Cached publishers and transforming observers.

- `src/` is the verified core (Verus): `publisher.rs` (a publisher that caches
  its last value and builds one input vector per subscriber on notify),
  `observer.rs` (an observer that keeps the latest value of each input, asks
  for its transform only once every input has a value, and republishes what
  the transform produced), `inputs.rs` (the input-vector model and the loops
  over it), `laws.rs` (properties proved over that model), `shared.rs` (the
  one trusted item: another handle to an `Arc`).
- `app/` is the async API (`Observer<T>`, `CachedPublisher`, the
  `Publisher`, `InnerObserverReceiver` and `Observable` traits) on tokio locks
  and futures, which performs what the core returns.
- `tests/` drives the core synchronously through the library's scenarios.
