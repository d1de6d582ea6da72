//! The cache of served assets, kept in a `mini_moka` cache keyed by the
//! file's canonical path.

use vstd::prelude::*;

use crate::assets::{Asset, AssetError};
use crate::config::Duration;

verus! {

#[verifier::external_type_specification]
#[verifier::external_body]
#[verifier::reject_recursive_types(K)]
#[verifier::reject_recursive_types(V)]
#[verifier::reject_recursive_types(S)]
pub struct ExMokaCache<K, V, S>(mini_moka::sync::Cache<K, V, S>);

/// The longest lifetime `mini_moka` accepts for an entry: 1000 years of
/// 365 days, in seconds.
pub const MAX_LIFETIME_SECS: u64 = 31_536_000_000;

/// Whether `mini_moka` accepts `lifetime` as the time an entry lives.
pub open spec fn lifetime_accepted(lifetime: Duration) -> bool {
    lifetime.spec_secs() < MAX_LIFETIME_SECS
        || (lifetime.spec_secs() == MAX_LIFETIME_SECS && lifetime.spec_subsec_nanos() == 0)
}

/// The most entries a cache was built to hold: what `policy().max_capacity()`
/// reads back (`None` for a cache without a bound).
pub uninterp spec fn moka_max_capacity(cache: mini_moka::sync::Cache<Vec<u8>, Asset>) -> Option<u64>;

/// How long, in nanoseconds, an entry of a cache lives after it was
/// inserted: what `policy().time_to_live()` reads back (`None` when entries
/// do not expire).
pub uninterp spec fn moka_time_to_live(cache: mini_moka::sync::Cache<Vec<u8>, Asset>) -> Option<int>;

/// Trusted: `Cache::builder().max_capacity(capacity).time_to_live(lifetime)
/// .build()`. The builder keeps both values and the cache's policy reads
/// them back unchanged; they are fixed once the cache is built. `build`
/// panics on a lifetime over 1000 years, which the `requires` leaves out.
#[verifier::external_body]
fn build_cache(capacity: u64, lifetime: Duration) -> (r: mini_moka::sync::Cache<Vec<u8>, Asset>)
    requires
        lifetime_accepted(lifetime),
    ensures
        moka_max_capacity(r) == Some(capacity),
        moka_time_to_live(r) == Some(lifetime@),
{
    mini_moka::sync::Cache::builder()
        .max_capacity(capacity)
        .time_to_live(std::time::Duration::new(lifetime.as_secs(), lifetime.subsec_nanos()))
        .build()
}

/// Trusted: `policy().max_capacity()`, the bound the cache was built with.
#[verifier::external_body]
fn cache_max_capacity(cache: &mini_moka::sync::Cache<Vec<u8>, Asset>) -> (r: Option<u64>)
    ensures
        r == moka_max_capacity(*cache),
{
    cache.policy().max_capacity()
}

/// Trusted: `policy().time_to_live()`, the lifetime the cache was built
/// with, as whole seconds and the nanoseconds beyond them (below one second,
/// as `std::time::Duration` keeps them).
#[verifier::external_body]
fn cache_time_to_live(cache: &mini_moka::sync::Cache<Vec<u8>, Asset>) -> (r: Option<(u64, u32)>)
    ensures
        match r {
            Some((secs, nanos)) => nanos < 1_000_000_000 && moka_time_to_live(*cache) == Some(
                secs * 1_000_000_000 + nanos,
            ),
            None => moka_time_to_live(*cache) is None,
        },
{
    match cache.policy().time_to_live() {
        Some(d) => Some((d.as_secs(), d.subsec_nanos())),
        None => None,
    }
}

/// Trusted: `Cache::get`, a clone of the entry for `key`. Nothing is stated
/// of the result: entries expire with time and are evicted by the cache's
/// own policy, and the cache changes behind a shared reference.
#[verifier::external_body]
fn cache_get(cache: &mini_moka::sync::Cache<Vec<u8>, Asset>, key: &Vec<u8>) -> (r: Option<Asset>) {
    cache.get(key)
}

/// Trusted: `Cache::insert` of `value` under `key`. Nothing is stated: the
/// cache changes behind a shared reference.
#[verifier::external_body]
fn cache_insert(cache: &mini_moka::sync::Cache<Vec<u8>, Asset>, key: Vec<u8>, value: Asset) {
    cache.insert(key, value)
}

/// Served assets, by the bytes of their canonical path.
pub struct AssetCache {
    cache: mini_moka::sync::Cache<Vec<u8>, Asset>,
}

impl AssetCache {
    /// The most assets the cache holds.
    pub closed spec fn spec_capacity(&self) -> Option<u64> {
        moka_max_capacity(self.cache)
    }

    /// How long, in nanoseconds, a cached asset is kept.
    pub closed spec fn spec_lifetime(&self) -> Option<int> {
        moka_time_to_live(self.cache)
    }

    /// A cache of at most `capacity` assets, each kept for `lifetime`.
    pub fn new(capacity: u64, lifetime: Duration) -> (r: AssetCache)
        requires
            lifetime_accepted(lifetime),
        ensures
            r.spec_capacity() == Some(capacity),
            r.spec_lifetime() == Some(lifetime@),
    {
        AssetCache { cache: build_cache(capacity, lifetime) }
    }

    /// The most assets the cache holds.
    pub fn capacity(&self) -> (r: Option<u64>)
        ensures
            r == self.spec_capacity(),
    {
        cache_max_capacity(&self.cache)
    }

    /// How long a cached asset is kept, as whole seconds and the
    /// nanoseconds beyond them.
    pub fn lifetime(&self) -> (r: Option<(u64, u32)>)
        ensures
            match r {
                Some((secs, nanos)) => nanos < 1_000_000_000 && self.spec_lifetime() == Some(
                    secs * 1_000_000_000 + nanos,
                ),
                None => self.spec_lifetime() is None,
            },
    {
        cache_time_to_live(&self.cache)
    }

    /// The asset cached for `path`, if the cache still holds one.
    pub fn lookup(&self, path: &Vec<u8>) -> (r: Option<Asset>) {
        cache_get(&self.cache, path)
    }

    /// Hands back what was built for `path` unchanged, and caches it when
    /// caching is on and the build succeeded; says whether it was cached.
    pub fn remember(&self, path: Vec<u8>, built: Result<Asset, AssetError>, caching: bool) -> (r: (
        Result<Asset, AssetError>,
        bool,
    ))
        ensures
            r.0 == built,
            r.1 == (caching && built is Ok),
    {
        match built {
            Ok(asset) => {
                if caching {
                    cache_insert(&self.cache, path, asset.clone());
                    (Ok(asset), true)
                } else {
                    (Ok(asset), false)
                }
            },
            Err(e) => (Err(e), false),
        }
    }
}

} // verus!
