//! Freshness of the cached collection.
use vstd::prelude::*;
use crate::config::{join_path, join_spec};

verus! {

/// The file of the cached collection, in the cache directory.
pub fn cache_file(cache_dir: &str) -> (r: String)
    ensures
        r@ == join_spec(cache_dir@, "collection.json"@),
{
    join_path(cache_dir, "collection.json")
}

/// How long a cached collection stays fresh, in seconds (one day).
pub const DEFAULT_TTL_SECS: u64 = 86400;

/// Whether a cache written at `cached_timestamp` is still fresh at `now`:
/// at most `DEFAULT_TTL_SECS` seconds have passed (a timestamp in the future
/// counts as no time passed).
pub open spec fn fresh_spec(cached_timestamp: nat, now: nat) -> bool {
    now <= cached_timestamp + DEFAULT_TTL_SECS
}

/// Checks whether a cache timestamp is still valid at the given time.
pub fn is_cache_fresh(cached_timestamp: u64, now: u64) -> (r: bool)
    ensures
        r == fresh_spec(cached_timestamp as nat, now as nat),
{
    let elapsed = if now >= cached_timestamp { now - cached_timestamp } else { 0 };
    elapsed <= DEFAULT_TTL_SECS
}

/// A cache that is fresh stays fresh at any earlier time, and a cache is
/// fresh at the moment it is written.
pub proof fn law_freshness_is_monotone(cached_timestamp: nat, now: nat, earlier: nat)
    requires
        earlier <= now,
    ensures
        fresh_spec(cached_timestamp, now) ==> fresh_spec(cached_timestamp, earlier),
        fresh_spec(cached_timestamp, cached_timestamp),
{
}

} // verus!

