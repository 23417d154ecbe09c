//! The process-wide state that one user's lookups share: the credential pair
//! and the single cache slot.
use vstd::prelude::*;
use crate::timestamp::{format_timestamp, decimal_text};

verus! {

/// Credentials and cache, each entry as text or absent.
///
/// `cache_value` holds a serialized snapshot-or-absence and `cache_timestamp`
/// the decimal Unix second at which it was captured; the two are only ever
/// written together.
#[derive(Clone, Debug, PartialEq, Eq)]
pub struct ConfigStore {
    pub access_token: Option<String>,
    pub refresh_token: Option<String>,
    pub cache_value: Option<String>,
    pub cache_timestamp: Option<String>,
}

impl ConfigStore {
    pub fn new(
        access_token: Option<String>,
        refresh_token: Option<String>,
        cache_value: Option<String>,
        cache_timestamp: Option<String>,
    ) -> (r: ConfigStore)
        ensures
            r.access_token == access_token,
            r.refresh_token == refresh_token,
            r.cache_value == cache_value,
            r.cache_timestamp == cache_timestamp,
    {
        ConfigStore { access_token, refresh_token, cache_value, cache_timestamp }
    }

    /// Replaces the access token, and nothing else.
    pub fn set_access_token(&mut self, token: String)
        ensures
            *final(self) == (ConfigStore { access_token: Some(token), ..*old(self) }),
    {
        self.access_token = Some(token);
    }

    /// Stores a serialized snapshot with its capture time, both at once.
    pub fn write_cache(&mut self, value: String, captured_at: i64)
        ensures
            final(self).access_token == old(self).access_token,
            final(self).refresh_token == old(self).refresh_token,
            final(self).cache_value == Some(value),
            final(self).cache_timestamp matches Some(t) && t@ == decimal_text(captured_at as int),
    {
        let stamp = format_timestamp(captured_at);
        self.cache_value = Some(value);
        self.cache_timestamp = Some(stamp);
    }
}

} // verus!
