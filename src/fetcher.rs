//! The playback fetcher: query the service with the stored credentials, and on
//! an authorization failure refresh the access token once and retry once.
//!
//! The fetch is a state machine driven from outside: the caller performs each
//! [`FetchAction`] (a network call) and hands its result back as a
//! [`FetchEvent`] to [`step`], until the action is `Finish` or `Abort`.
use vstd::prelude::*;
use crate::snapshot::{PlaybackReport, SpotifyCurrentPlaying, build_response, spec_build_response};
use crate::store::ConfigStore;
use crate::timestamp::now_utc_seconds;

verus! {

/// Nominal lifetime given to a bearer token built from stored credentials.
pub const TOKEN_LIFETIME_SECS: i64 = 60;

/// The permission a bearer token is limited to.
#[derive(Clone, Copy, Debug, PartialEq, Eq)]
pub enum TokenScope {
    /// Reading the user's currently playing item.
    UserReadCurrentlyPlaying,
}

impl TokenScope {
    /// The service's name for the scope.
    pub fn name(&self) -> (r: &'static str)
        ensures
            r@ == seq!['u', 's', 'e', 'r', '-', 'r', 'e', 'a', 'd', '-', 'c', 'u', 'r', 'r', 'e', 'n', 't', 'l', 'y', '-', 'p', 'l', 'a', 'y', 'i', 'n', 'g'],
    {
        proof {
            reveal_strlit("user-read-currently-playing");
        }
        "user-read-currently-playing"
    }
}

/// A short-lived bearer token for the playback query.
#[derive(Clone, Debug, PartialEq, Eq)]
pub struct BearerToken {
    pub access_token: String,
    pub refresh_token: String,
    pub scope: TokenScope,
    pub expires_in_secs: i64,
}

pub open spec fn spec_token(access_token: String, refresh_token: String) -> BearerToken {
    BearerToken {
        access_token,
        refresh_token,
        scope: TokenScope::UserReadCurrentlyPlaying,
        expires_in_secs: TOKEN_LIFETIME_SECS,
    }
}

/// The bearer token for a stored access and refresh token pair.
pub fn build_token(access_token: &String, refresh_token: &String) -> (r: BearerToken)
    ensures
        r == spec_token(*access_token, *refresh_token),
{
    BearerToken {
        access_token: access_token.clone(),
        refresh_token: refresh_token.clone(),
        scope: TokenScope::UserReadCurrentlyPlaying,
        expires_in_secs: TOKEN_LIFETIME_SECS,
    }
}

/// Where one fetch stands.
#[derive(Clone, Debug, PartialEq, Eq)]
pub enum FetchPhase {
    /// Nothing done yet.
    Start,
    /// The first playback query, made with `token`, is under way.
    FirstAttempt { token: BearerToken },
    /// The first query was refused as unauthorized; the refresh of `token`
    /// is under way.
    Refreshing { token: BearerToken },
    /// The one retry after a refresh is under way.
    Retrying,
    /// The fetch is over.
    Done,
}

/// How a playback query ended.
#[derive(Clone, Debug, PartialEq, Eq)]
pub enum PlaybackOutcome {
    /// The service answered.
    Report(PlaybackReport),
    /// The service answered that nothing is playing.
    Nothing,
    /// The call failed; the text describes the failure.
    Failed(String),
}

/// How a token refresh ended.
#[derive(Clone, Debug, PartialEq, Eq)]
pub enum RefreshOutcome {
    /// A new access token was issued.
    Issued(String),
    /// No token was issued.
    Failed,
}

/// What the caller hands back to [`step`].
#[derive(Clone, Debug, PartialEq, Eq)]
pub enum FetchEvent {
    /// The fetch starts.
    Begin,
    /// A playback query ended.
    Playback(PlaybackOutcome),
    /// A token refresh ended.
    Refresh(RefreshOutcome),
}

/// Why a fetch cannot go on without an operator.
#[derive(Clone, Debug, PartialEq, Eq)]
pub enum FetchError {
    /// The access or the refresh token is missing from the store.
    MissingCredentials,
    /// The refresh token was refused.
    RefreshFailed,
}

/// What the caller is to do next.
#[derive(Clone, Debug, PartialEq, Eq)]
pub enum FetchAction {
    /// Query current playback with this token.
    CallPlayback(BearerToken),
    /// Exchange the refresh token of this token for a new access token.
    CallRefresh(BearerToken),
    /// The fetch is over with this result. A snapshot is to be serialized and
    /// written to the cache with its own timestamp.
    Finish(Option<SpotifyCurrentPlaying>),
    /// The fetch is over and the credentials need an operator.
    Abort(FetchError),
}

pub open spec fn contains_seq(haystack: Seq<char>, needle: Seq<char>) -> bool {
    exists|i: int|
        0 <= i && i + needle.len() <= haystack.len() && #[trigger] haystack.subrange(
            i,
            i + needle.len(),
        ) == needle
}

/// An error text that marks an authorization failure: it holds "401".
pub open spec fn is_unauthorized(text: Seq<char>) -> bool {
    contains_seq(text, seq!['4', '0', '1'])
}

/// Relies on `str::contains` with a string pattern: whether `needle` occurs in
/// `haystack`.
#[verifier::external_body]
fn text_contains(haystack: &str, needle: &str) -> (r: bool)
    ensures
        r == contains_seq(haystack@, needle@),
{
    haystack.contains(needle)
}

/// Whether an error text marks an authorization failure.
pub fn is_unauthorized_error(text: &str) -> (r: bool)
    ensures
        r == is_unauthorized(text@),
{
    let marker = "401";
    proof {
        reveal_strlit("401");
        assert(marker@ =~= seq!['4', '0', '1']);
    }
    text_contains(text, marker)
}

/// The phase, action and store after `event` in `phase`, with `now` as the
/// capture time of a snapshot. An event that does not belong to the phase
/// ends the fetch with no data.
///
/// "Nothing is playing" ends the fetch like a failure: no data, and nothing
/// for the cache, so the next lookup asks the service again.
pub open spec fn next(phase: FetchPhase, event: FetchEvent, store: ConfigStore, now: i64) -> (
    FetchPhase,
    FetchAction,
    ConfigStore,
) {
    match (phase, event) {
        (FetchPhase::Start, FetchEvent::Begin) => match (store.access_token, store.refresh_token) {
            (Some(a), Some(r)) => {
                let token = spec_token(a, r);
                (FetchPhase::FirstAttempt { token }, FetchAction::CallPlayback(token), store)
            },
            _ => (FetchPhase::Done, FetchAction::Abort(FetchError::MissingCredentials), store),
        },
        (FetchPhase::FirstAttempt { token }, FetchEvent::Playback(outcome)) => match outcome {
            PlaybackOutcome::Report(report) => (
                FetchPhase::Done,
                FetchAction::Finish(spec_build_response(report, now)),
                store,
            ),
            PlaybackOutcome::Failed(text) => if is_unauthorized(text@) {
                (
                    FetchPhase::Refreshing { token },
                    FetchAction::CallRefresh(spec_token(token.access_token, token.refresh_token)),
                    store,
                )
            } else {
                (FetchPhase::Done, FetchAction::Finish(None), store)
            },
            PlaybackOutcome::Nothing => (FetchPhase::Done, FetchAction::Finish(None), store),
        },
        (FetchPhase::Refreshing { token }, FetchEvent::Refresh(outcome)) => match outcome {
            RefreshOutcome::Issued(a) => (
                FetchPhase::Retrying,
                FetchAction::CallPlayback(spec_token(a, token.refresh_token)),
                ConfigStore { access_token: Some(a), ..store },
            ),
            RefreshOutcome::Failed => (
                FetchPhase::Done,
                FetchAction::Abort(FetchError::RefreshFailed),
                store,
            ),
        },
        (FetchPhase::Retrying, FetchEvent::Playback(outcome)) => match outcome {
            PlaybackOutcome::Report(report) => (
                FetchPhase::Done,
                FetchAction::Finish(spec_build_response(report, now)),
                store,
            ),
            _ => (FetchPhase::Done, FetchAction::Finish(None), store),
        },
        _ => (FetchPhase::Done, FetchAction::Finish(None), store),
    }
}

/// Advances the fetch by one event; a snapshot built here is captured at `now`.
pub fn step_at(phase: FetchPhase, event: FetchEvent, store: &mut ConfigStore, now: i64) -> (r: (
    FetchPhase,
    FetchAction,
))
    ensures
        (r.0, r.1, *final(store)) == next(phase, event, *old(store), now),
{
    match (phase, event) {
        (FetchPhase::Start, FetchEvent::Begin) => match (&store.access_token, &store.refresh_token) {
            (Some(a), Some(r)) => {
                // The phase keeps one copy of the token; the action hands out another.
                let token = build_token(a, r);
                let request_token = build_token(a, r);
                (FetchPhase::FirstAttempt { token }, FetchAction::CallPlayback(request_token))
            },
            _ => (FetchPhase::Done, FetchAction::Abort(FetchError::MissingCredentials)),
        },
        (FetchPhase::FirstAttempt { token }, FetchEvent::Playback(outcome)) => match outcome {
            PlaybackOutcome::Report(report) => (
                FetchPhase::Done,
                FetchAction::Finish(build_response(report, now)),
            ),
            PlaybackOutcome::Failed(text) => if is_unauthorized_error(text.as_str()) {
                let request_token = build_token(&token.access_token, &token.refresh_token);
                (FetchPhase::Refreshing { token }, FetchAction::CallRefresh(request_token))
            } else {
                (FetchPhase::Done, FetchAction::Finish(None))
            },
            PlaybackOutcome::Nothing => (FetchPhase::Done, FetchAction::Finish(None)),
        },
        (FetchPhase::Refreshing { token }, FetchEvent::Refresh(outcome)) => match outcome {
            RefreshOutcome::Issued(a) => {
                let retry = build_token(&a, &token.refresh_token);
                store.set_access_token(a);
                (FetchPhase::Retrying, FetchAction::CallPlayback(retry))
            },
            RefreshOutcome::Failed => (
                FetchPhase::Done,
                FetchAction::Abort(FetchError::RefreshFailed),
            ),
        },
        (FetchPhase::Retrying, FetchEvent::Playback(outcome)) => match outcome {
            PlaybackOutcome::Report(report) => (
                FetchPhase::Done,
                FetchAction::Finish(build_response(report, now)),
            ),
            _ => (FetchPhase::Done, FetchAction::Finish(None)),
        },
        _ => (FetchPhase::Done, FetchAction::Finish(None)),
    }
}

/// Advances the fetch by one event, capturing a snapshot at the current time.
pub fn step(phase: FetchPhase, event: FetchEvent, store: &mut ConfigStore) -> (r: (
    FetchPhase,
    FetchAction,
))
    ensures
        exists|now: i64| (r.0, r.1, *final(store)) == #[trigger] next(phase, event, *old(store), now),
{
    let now = now_utc_seconds();
    step_at(phase, event, store, now)
}

} // verus!
