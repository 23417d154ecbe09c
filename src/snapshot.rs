//! The playback snapshot and the plain form of what the service reports.
use vstd::prelude::*;

verus! {

/// One album artwork reference; the service may leave out either size.
#[derive(Clone, Debug, PartialEq, Eq)]
pub struct AlbumImage {
    pub url: String,
    pub width: Option<u32>,
    pub height: Option<u32>,
}

/// The track currently (or most recently) playing, as observed at `timestamp`.
///
/// Durations are whole seconds; `progress` is absent when the service reports
/// none. That `progress` stays within `song_duration` is not checked.
#[derive(Clone, Debug, PartialEq, Eq)]
pub struct SpotifyCurrentPlaying {
    pub name: String,
    pub artists: Vec<String>,
    pub album: String,
    pub album_images: Vec<AlbumImage>,
    pub is_playing: bool,
    pub progress: Option<u64>,
    pub song_duration: u64,
    pub timestamp: i64,
}

/// A track as the service reports it; `duration_ms` in milliseconds.
#[derive(Clone, Debug, PartialEq, Eq)]
pub struct TrackReport {
    pub name: String,
    pub artists: Vec<String>,
    pub album: String,
    pub album_images: Vec<AlbumImage>,
    pub duration_ms: i64,
}

/// The item being played: a music track, or a podcast episode, which is not
/// supported.
#[derive(Clone, Debug, PartialEq, Eq)]
pub enum PlayableReport {
    Track(TrackReport),
    Episode,
}

/// A successful answer to "what is playing": possibly no item at all.
#[derive(Clone, Debug, PartialEq, Eq)]
pub struct PlaybackReport {
    pub item: Option<PlayableReport>,
    pub is_playing: bool,
    pub progress_ms: Option<i64>,
}

/// Milliseconds truncated to whole seconds; a negative duration counts as zero.
pub open spec fn spec_whole_seconds(ms: i64) -> u64 {
    if ms <= 0 {
        0
    } else {
        (ms / 1000) as u64
    }
}

/// The snapshot that `report` yields at capture time `now`: one exactly when a
/// track is playing, with the track's fields as reported.
pub open spec fn spec_build_response(report: PlaybackReport, now: i64) -> Option<
    SpotifyCurrentPlaying,
> {
    match report.item {
        Some(PlayableReport::Track(t)) => Some(
            SpotifyCurrentPlaying {
                name: t.name,
                artists: t.artists,
                album: t.album,
                album_images: t.album_images,
                is_playing: report.is_playing,
                progress: match report.progress_ms {
                    Some(p) => Some(spec_whole_seconds(p)),
                    None => None,
                },
                song_duration: spec_whole_seconds(t.duration_ms),
                timestamp: now,
            },
        ),
        _ => None,
    }
}

pub fn whole_seconds(ms: i64) -> (r: u64)
    ensures
        r == spec_whole_seconds(ms),
{
    if ms <= 0 {
        0
    } else {
        (ms / 1000) as u64
    }
}

/// Builds the snapshot of a report taken at `now`; an episode or a report
/// without an item gives none.
pub fn build_response(report: PlaybackReport, now: i64) -> (r: Option<SpotifyCurrentPlaying>)
    ensures
        r == spec_build_response(report, now),
{
    let PlaybackReport { item, is_playing, progress_ms } = report;
    match item {
        Some(PlayableReport::Track(track)) => {
            let progress = match progress_ms {
                Some(p) => Some(whole_seconds(p)),
                None => None,
            };
            let TrackReport { name, artists, album, album_images, duration_ms } = track;
            Some(
                SpotifyCurrentPlaying {
                    name,
                    artists,
                    album,
                    album_images,
                    is_playing,
                    progress,
                    song_duration: whole_seconds(duration_ms),
                    timestamp: now,
                },
            )
        },
        _ => None,
    }
}

} // verus!
