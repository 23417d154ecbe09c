//! Currently-playing lookup for a single user: a short-lived cache in front of
//! the streaming service, and a fetch that refreshes an expired access token
//! once and retries.
pub mod timestamp;
pub mod store;
pub mod cache;
pub mod snapshot;
pub mod fetcher;
pub mod laws;
