//! A TTL cache for slow-changing remote lists.
//!
//! The backing store and the fetch call live outside this crate; the
//! library decides, from the stored entry and the clock, whether a fetch
//! is needed, and records what a fetch returned. Staleness is evaluated
//! lazily on read, never by a background timer. A stored entry that could
//! not be decoded is a miss: the driver holds no entry then, and a fresh
//! fetch is never blocked.

use vstd::prelude::*;

verus! {

/// How long a cached certificate list stays fresh, in seconds.
pub const CERTIFICATE_CACHE_TTL_SECS: u64 = 300;

/// A cached value and the time it was captured.
pub struct CacheEntry<V> {
    pub value: V,
    pub captured_at: u64,
}

/// The cache: at most one entry per instance; the driver keys instances
/// by whatever it caches.
pub struct TtlCache<V> {
    pub entry: Option<CacheEntry<V>>,
}

/// The age of an entry captured at `captured_at`, read at `now`. A
/// capture time in the future counts as age zero.
pub open spec fn entry_age(now: u64, captured_at: u64) -> nat {
    if captured_at <= now {
        (now - captured_at) as nat
    } else {
        0
    }
}

/// An entry is fresh while its age is strictly under the TTL.
pub open spec fn entry_is_fresh(now: u64, captured_at: u64, ttl: u64) -> bool {
    entry_age(now, captured_at) < ttl
}

/// What a read of the cache yields: the cached value while the entry is
/// fresh, nothing on a miss or a stale entry.
pub open spec fn lookup_result<V>(c: TtlCache<V>, now: u64, ttl: u64) -> Option<V> {
    match c.entry {
        Some(e) => if entry_is_fresh(now, e.captured_at, ttl) {
            Some(e.value)
        } else {
            None
        },
        None => None,
    }
}

/// The cache after a successful fetch: the fetched value, captured now.
pub open spec fn store_result<V>(c: TtlCache<V>, value: V, now: u64) -> TtlCache<V> {
    TtlCache { entry: Some(CacheEntry { value, captured_at: now }) }
}

impl<V> TtlCache<V> {
    /// An empty cache.
    pub fn new() -> (r: TtlCache<V>)
        ensures
            r.entry is None,
    {
        TtlCache { entry: None }
    }

    /// The cached value if the entry is fresh at `now` under `ttl`.
    pub fn lookup(&self, now: u64, ttl: u64) -> (r: Option<&V>)
        ensures
            match lookup_result(*self, now, ttl) {
                Some(v) => r matches Some(rv) && *rv == v,
                None => r is None,
            },
    {
        match &self.entry {
            Some(e) => {
                let age = if e.captured_at <= now {
                    now - e.captured_at
                } else {
                    0
                };
                if age < ttl {
                    Some(&e.value)
                } else {
                    None
                }
            },
            None => None,
        }
    }

    /// Whether a read at `now` must fetch: the entry is missing or stale.
    pub fn needs_fetch(&self, now: u64, ttl: u64) -> (r: bool)
        ensures
            r == (lookup_result(*self, now, ttl) is None),
    {
        match &self.entry {
            Some(e) => {
                let age = if e.captured_at <= now {
                    now - e.captured_at
                } else {
                    0
                };
                age >= ttl
            },
            None => true,
        }
    }

    /// Records the outcome of a fetch made at `now`: a fetched value is
    /// stored with a capture time of `now` (overwriting any entry, stale
    /// or not) and returned; on a fetch failure nothing is cached and the
    /// error propagates unchanged.
    pub fn commit_fetch<E>(&mut self, outcome: Result<V, E>, now: u64) -> (r: Result<(), E>)
        ensures
            match outcome {
                Ok(v) => {
                    &&& *final(self) == store_result(*old(self), v, now)
                    &&& r is Ok
                },
                Err(e) => {
                    &&& *final(self) == *old(self)
                    &&& r == Err::<(), E>(e)
                },
            },
    {
        match outcome {
            Ok(v) => {
                self.entry = Some(CacheEntry { value: v, captured_at: now });
                Ok(())
            },
            Err(e) => Err(e),
        }
    }
}

/// Law: a driver that fetches exactly when `needs_fetch` says so never
/// fetches on a fresh entry; on a stale entry it always fetches, and
/// committing the fetch overwrites the stored capture time with the fetch
/// time.
pub proof fn lemma_ttl_cache<V>(c: TtlCache<V>, now: u64, ttl: u64, fetched: V, fetch_time: u64)
    ensures
        (c.entry matches Some(e) && entry_is_fresh(now, e.captured_at, ttl)) ==> lookup_result(
            c,
            now,
            ttl,
        ) == Some(c.entry->0.value),
        (c.entry matches Some(e) && !entry_is_fresh(now, e.captured_at, ttl)) ==> lookup_result(
            c,
            now,
            ttl,
        ) is None,
        store_result(c, fetched, fetch_time).entry == Some(
            CacheEntry { value: fetched, captured_at: fetch_time },
        ),
{
}

} // verus!
