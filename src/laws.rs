//! Properties of the cache gate and of the fetch, proved over the
//! specifications that the executable functions meet.
use vstd::prelude::*;
use crate::cache::{spec_cached, FRESHNESS_WINDOW_SECS};
use crate::fetcher::{
    next, spec_token, is_unauthorized, FetchPhase, FetchEvent, FetchAction, FetchError,
    PlaybackOutcome, RefreshOutcome,
};
use crate::snapshot::{PlaybackReport, PlayableReport, spec_build_response};
use crate::store::ConfigStore;
use crate::timestamp::{decimal_text, parsed_i64, lemma_decimal_round_trip};

verus! {

/// A cache entry captured at `captured_at` is served verbatim while its age is
/// at most the freshness window, and is a miss once it is older.
pub proof fn lemma_freshness_window(store: ConfigStore, captured_at: i64, now: i64)
    requires
        store.cache_value is Some,
        store.cache_timestamp matches Some(t) && parsed_i64(t@) == Some(captured_at),
    ensures
        now - captured_at <= FRESHNESS_WINDOW_SECS ==> spec_cached(store, now) == store.cache_value,
        now - captured_at > FRESHNESS_WINDOW_SECS ==> spec_cached(store, now) is None,
{
}

/// After a cache write at `captured_at`, every lookup within the freshness
/// window gives back exactly the text written, however often it is made.
pub proof fn lemma_fresh_reads_agree(
    store: ConfigStore,
    value: String,
    captured_at: i64,
    first: i64,
    second: i64,
)
    requires
        store.cache_value == Some(value),
        store.cache_timestamp matches Some(t) && t@ == decimal_text(captured_at as int),
        first - captured_at <= FRESHNESS_WINDOW_SECS,
        second - captured_at <= FRESHNESS_WINDOW_SECS,
    ensures
        spec_cached(store, first) == Some(value),
        spec_cached(store, second) == Some(value),
{
    lemma_decimal_round_trip(captured_at);
}

/// Without both stored tokens the fetch aborts at once, before any call.
pub proof fn lemma_missing_credentials_abort(store: ConfigStore, now: i64)
    requires
        store.access_token is None || store.refresh_token is None,
    ensures
        next(FetchPhase::Start, FetchEvent::Begin, store, now) == (
            FetchPhase::Done,
            FetchAction::Abort(FetchError::MissingCredentials),
            store,
        ),
{
}

/// An unauthorized first query, a successful refresh and a successful retry
/// give the retry's snapshot, and the store then holds the new access token
/// and nothing else changed.
pub proof fn lemma_refresh_then_retry(
    store: ConfigStore,
    error_text: String,
    new_access_token: String,
    report: PlaybackReport,
    now: i64,
)
    requires
        store.access_token is Some,
        store.refresh_token is Some,
        is_unauthorized(error_text@),
        report.item matches Some(PlayableReport::Track(_)),
    ensures
        ({
            let s1 = next(FetchPhase::Start, FetchEvent::Begin, store, now);
            let s2 = next(s1.0, FetchEvent::Playback(PlaybackOutcome::Failed(error_text)), s1.2, now);
            let s3 = next(s2.0, FetchEvent::Refresh(RefreshOutcome::Issued(new_access_token)), s2.2, now);
            let s4 = next(s3.0, FetchEvent::Playback(PlaybackOutcome::Report(report)), s3.2, now);
            &&& s1.1 == FetchAction::CallPlayback(
                spec_token(store.access_token.unwrap(), store.refresh_token.unwrap()),
            )
            &&& s2.1 == FetchAction::CallRefresh(
                spec_token(store.access_token.unwrap(), store.refresh_token.unwrap()),
            )
            &&& s3.1 == FetchAction::CallPlayback(
                spec_token(new_access_token, store.refresh_token.unwrap()),
            )
            &&& s4.0 == FetchPhase::Done
            &&& s4.1 == FetchAction::Finish(spec_build_response(report, now))
            &&& spec_build_response(report, now) is Some
            &&& s4.2 == (ConfigStore { access_token: Some(new_access_token), ..store })
        }),
{
}

/// An unauthorized first query followed by a refused refresh aborts the fetch
/// with a credential error, leaving the store as it was.
pub proof fn lemma_refresh_failure_aborts(store: ConfigStore, error_text: String, now: i64)
    requires
        store.access_token is Some,
        store.refresh_token is Some,
        is_unauthorized(error_text@),
    ensures
        ({
            let s1 = next(FetchPhase::Start, FetchEvent::Begin, store, now);
            let s2 = next(s1.0, FetchEvent::Playback(PlaybackOutcome::Failed(error_text)), s1.2, now);
            let s3 = next(s2.0, FetchEvent::Refresh(RefreshOutcome::Failed), s2.2, now);
            s3 == (FetchPhase::Done, FetchAction::Abort(FetchError::RefreshFailed), store)
        }),
{
}

/// An episode, on the first query or on the retry, ends the fetch with no
/// data and leaves the store, cache included, as it was.
pub proof fn lemma_episode_gives_no_data(
    phase: FetchPhase,
    is_playing: bool,
    progress_ms: Option<i64>,
    store: ConfigStore,
    now: i64,
)
    requires
        phase is FirstAttempt || phase is Retrying,
    ensures
        next(
            phase,
            FetchEvent::Playback(
                PlaybackOutcome::Report(
                    PlaybackReport { item: Some(PlayableReport::Episode), is_playing, progress_ms },
                ),
            ),
            store,
            now,
        ) == (FetchPhase::Done, FetchAction::Finish(None), store),
{
}

/// The retry is the last query: whatever it yields, the fetch is over, so a
/// token is refreshed at most once per fetch.
pub proof fn lemma_retry_is_final(event: FetchEvent, store: ConfigStore, now: i64)
    ensures
        next(FetchPhase::Retrying, event, store, now).0 == FetchPhase::Done,
        next(FetchPhase::Retrying, event, store, now).1 is Finish,
        next(FetchPhase::Retrying, event, store, now).2 == store,
{
}

} // verus!
