use now_playing::fetcher::{
    build_token, is_unauthorized_error, step, step_at, BearerToken, FetchAction, FetchError,
    FetchEvent, FetchPhase, PlaybackOutcome, RefreshOutcome, TokenScope,
};
use now_playing::snapshot::{build_response, PlayableReport, PlaybackReport, TrackReport};
use now_playing::store::ConfigStore;

fn credentials() -> ConfigStore {
    ConfigStore::new(Some("access".to_string()), Some("refresh".to_string()), None, None)
}

fn token(access: &str, refresh: &str) -> BearerToken {
    build_token(&access.to_string(), &refresh.to_string())
}

fn track_report(name: &str) -> PlaybackReport {
    PlaybackReport {
        item: Some(PlayableReport::Track(TrackReport {
            name: name.to_string(),
            artists: vec!["Artist".to_string()],
            album: "Album".to_string(),
            album_images: vec![],
            duration_ms: 180_000,
        })),
        is_playing: true,
        progress_ms: Some(30_500),
    }
}

fn episode_report() -> PlaybackReport {
    PlaybackReport { item: Some(PlayableReport::Episode), is_playing: true, progress_ms: Some(10) }
}

fn unauthorized() -> PlaybackOutcome {
    PlaybackOutcome::Failed("http error: status code 401 Unauthorized".to_string())
}

#[test]
fn token_has_fixed_scope_and_lifetime() {
    let t = token("a", "r");
    assert_eq!(t.access_token, "a");
    assert_eq!(t.refresh_token, "r");
    assert_eq!(t.scope, TokenScope::UserReadCurrentlyPlaying);
    assert_eq!(t.scope.name(), "user-read-currently-playing");
    assert_eq!(t.expires_in_secs, 60);
}

#[test]
fn unauthorized_is_recognised_by_its_status() {
    assert!(is_unauthorized_error("status code 401"));
    assert!(is_unauthorized_error("401"));
    assert!(!is_unauthorized_error("status code 500"));
    assert!(!is_unauthorized_error("40 1"));
    assert!(!is_unauthorized_error(""));
}

#[test]
fn begin_queries_with_stored_tokens() {
    let mut store = credentials();
    let (phase, action) = step_at(FetchPhase::Start, FetchEvent::Begin, &mut store, 0);
    assert_eq!(phase, FetchPhase::FirstAttempt { token: token("access", "refresh") });
    assert_eq!(action, FetchAction::CallPlayback(token("access", "refresh")));
    assert_eq!(store, credentials());
}

#[test]
fn missing_credentials_abort_before_any_call() {
    for (a, r) in [(None, Some("r")), (Some("a"), None), (None, None)] {
        let mut store = ConfigStore::new(a.map(String::from), r.map(String::from), None, None);
        let before = store.clone();
        let (phase, action) = step(FetchPhase::Start, FetchEvent::Begin, &mut store);
        assert_eq!(phase, FetchPhase::Done);
        assert_eq!(action, FetchAction::Abort(FetchError::MissingCredentials));
        assert_eq!(store, before);
    }
}

#[test]
fn first_query_success_finishes_with_snapshot() {
    let mut store = credentials();
    let (phase, _) = step_at(FetchPhase::Start, FetchEvent::Begin, &mut store, 0);
    let event = FetchEvent::Playback(PlaybackOutcome::Report(track_report("One")));
    let (phase, action) = step_at(phase, event, &mut store, 77);
    assert_eq!(phase, FetchPhase::Done);
    let snapshot = build_response(track_report("One"), 77).unwrap();
    assert_eq!(snapshot.progress, Some(30));
    assert_eq!(snapshot.song_duration, 180);
    assert_eq!(action, FetchAction::Finish(Some(snapshot)));
}

#[test]
fn unauthorized_then_refresh_then_retry_returns_retry_snapshot() {
    let mut store = credentials();
    let (phase, _) = step_at(FetchPhase::Start, FetchEvent::Begin, &mut store, 0);
    let (phase, action) = step_at(phase, FetchEvent::Playback(unauthorized()), &mut store, 0);
    assert_eq!(action, FetchAction::CallRefresh(token("access", "refresh")));
    let refreshed = FetchEvent::Refresh(RefreshOutcome::Issued("fresh".to_string()));
    let (phase, action) = step_at(phase, refreshed, &mut store, 0);
    assert_eq!(phase, FetchPhase::Retrying);
    assert_eq!(action, FetchAction::CallPlayback(token("fresh", "refresh")));
    assert_eq!(store.access_token, Some("fresh".to_string()));
    assert_eq!(store.refresh_token, Some("refresh".to_string()));
    let retried = FetchEvent::Playback(PlaybackOutcome::Report(track_report("Retried")));
    let (phase, action) = step_at(phase, retried, &mut store, 9);
    assert_eq!(phase, FetchPhase::Done);
    assert_eq!(action, FetchAction::Finish(build_response(track_report("Retried"), 9)));
    match action {
        FetchAction::Finish(Some(s)) => assert_eq!(s.name, "Retried"),
        other => panic!("unexpected action {:?}", other),
    }
}

#[test]
fn unauthorized_then_failed_refresh_aborts() {
    let mut store = credentials();
    let (phase, _) = step_at(FetchPhase::Start, FetchEvent::Begin, &mut store, 0);
    let (phase, _) = step_at(phase, FetchEvent::Playback(unauthorized()), &mut store, 0);
    let (phase, action) = step_at(phase, FetchEvent::Refresh(RefreshOutcome::Failed), &mut store, 0);
    assert_eq!(phase, FetchPhase::Done);
    assert_eq!(action, FetchAction::Abort(FetchError::RefreshFailed));
    assert_eq!(store, credentials());
}

#[test]
fn episode_gives_no_data_and_no_cache_write() {
    let mut store = credentials();
    let (phase, _) = step_at(FetchPhase::Start, FetchEvent::Begin, &mut store, 0);
    let event = FetchEvent::Playback(PlaybackOutcome::Report(episode_report()));
    let (phase, action) = step_at(phase, event, &mut store, 0);
    assert_eq!(phase, FetchPhase::Done);
    assert_eq!(action, FetchAction::Finish(None));
    assert_eq!(store, credentials());
}

#[test]
fn other_failure_is_not_retried() {
    let mut store = credentials();
    let (phase, _) = step_at(FetchPhase::Start, FetchEvent::Begin, &mut store, 0);
    let failed = PlaybackOutcome::Failed("status code 503".to_string());
    let (phase, action) = step_at(phase, FetchEvent::Playback(failed), &mut store, 0);
    assert_eq!(phase, FetchPhase::Done);
    assert_eq!(action, FetchAction::Finish(None));
}

#[test]
fn nothing_playing_gives_no_data() {
    let mut store = credentials();
    let (phase, _) = step_at(FetchPhase::Start, FetchEvent::Begin, &mut store, 0);
    let (phase, action) = step_at(phase, FetchEvent::Playback(PlaybackOutcome::Nothing), &mut store, 0);
    assert_eq!(phase, FetchPhase::Done);
    assert_eq!(action, FetchAction::Finish(None));
    assert_eq!(store, credentials());
}

#[test]
fn unauthorized_retry_is_not_refreshed_again() {
    let mut store = credentials();
    let (phase, action) = step_at(FetchPhase::Retrying, FetchEvent::Playback(unauthorized()), &mut store, 0);
    assert_eq!(phase, FetchPhase::Done);
    assert_eq!(action, FetchAction::Finish(None));
    let episode = FetchEvent::Playback(PlaybackOutcome::Report(episode_report()));
    let (_, action) = step_at(FetchPhase::Retrying, episode, &mut store, 0);
    assert_eq!(action, FetchAction::Finish(None));
}

#[test]
fn out_of_place_event_ends_the_fetch() {
    let mut store = credentials();
    let refresh = FetchEvent::Refresh(RefreshOutcome::Issued("x".to_string()));
    let (phase, action) = step_at(FetchPhase::Start, refresh, &mut store, 0);
    assert_eq!(phase, FetchPhase::Done);
    assert_eq!(action, FetchAction::Finish(None));
    assert_eq!(store, credentials());
}
