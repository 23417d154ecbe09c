//! The cache gate: whether the stored snapshot is fresh enough to serve.
use vstd::prelude::*;
use crate::store::ConfigStore;
use crate::timestamp::{parse_timestamp, parsed_i64, now_utc_seconds};

verus! {

/// Largest age, in seconds, at which a cached snapshot is still served.
pub const FRESHNESS_WINDOW_SECS: i64 = 10;

pub open spec fn spec_is_fresh(now: i64, captured_at: i64) -> bool {
    now - captured_at <= FRESHNESS_WINDOW_SECS
}

/// The cached value of `store` when, at time `now`, both cache entries are
/// present, the capture time reads as an integer and its age is within the
/// freshness window; otherwise none.
pub open spec fn spec_cached(store: ConfigStore, now: i64) -> Option<String> {
    match (store.cache_timestamp, store.cache_value) {
        (Some(t), Some(v)) => match parsed_i64(t@) {
            Some(captured_at) => if spec_is_fresh(now, captured_at) {
                Some(v)
            } else {
                None
            },
            None => None,
        },
        _ => None,
    }
}

/// Whether a snapshot captured at `captured_at` may still be served at `now`.
pub fn is_fresh(now: i64, captured_at: i64) -> (r: bool)
    ensures
        r == spec_is_fresh(now, captured_at),
{
    (now as i128) - (captured_at as i128) <= FRESHNESS_WINDOW_SECS as i128
}

/// The cached serialized snapshot, if it is fresh at time `now`.
pub fn try_get_cached_at(store: &ConfigStore, now: i64) -> (r: Option<String>)
    ensures
        r == spec_cached(*store, now),
{
    match (&store.cache_timestamp, &store.cache_value) {
        (Some(t), Some(v)) => match parse_timestamp(t.as_str()) {
            Some(captured_at) => if is_fresh(now, captured_at) {
                Some(v.clone())
            } else {
                None
            },
            None => None,
        },
        _ => None,
    }
}

/// The cached serialized snapshot, if it is fresh now; the store is only read.
pub fn get_current_playing_from_cache(store: &ConfigStore) -> (r: Option<String>)
    ensures
        exists|now: i64| r == #[trigger] spec_cached(*store, now),
{
    let now = now_utc_seconds();
    try_get_cached_at(store, now)
}

} // verus!
