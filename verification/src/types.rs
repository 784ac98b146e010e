//! The value types that subscribers and queries receive.

use vstd::prelude::*;

verus! {

/// Number of provider ticks (100 ns each) in one second.
pub const TICKS_PER_SECOND: i64 = 10_000_000;

/// A span of time as whole seconds plus a rest in ticks of 100 ns.
///
/// The rest has the sign of the span and is smaller than one second, so
/// `seconds * 10_000_000 + ticks` is the span in ticks.
#[derive(Clone, Copy, Debug, PartialEq, Eq)]
pub struct Seconds {
    pub seconds: i64,
    pub ticks: i64,
}

impl Seconds {
    /// The span in ticks of 100 ns.
    pub open spec fn total_ticks(self) -> int {
        self.seconds * TICKS_PER_SECOND + self.ticks
    }
}

/// Position and end of a session's timeline.
#[derive(Clone, Copy, Debug, PartialEq, Eq)]
pub struct TimelineProps {
    pub position: Seconds,
    pub duration: Seconds,
}

/// Playback status and content type as small codes.
///
/// Status: 0 closed, 1 opened, 2 changing, 3 stopped, 4 playing, 5 paused.
/// Type: 0 unknown, 1 music, 2 video, 3 image.
#[derive(Clone, Copy, Debug, PartialEq, Eq)]
pub struct PlaybackInfo {
    pub playback_status: u8,
    pub playback_type: u8,
}

/// Metadata of what a session plays, as captured by one read.
#[derive(Clone, Debug, PartialEq, Eq)]
pub struct MediaProps {
    pub title: String,
    pub artist: String,
    pub album_title: String,
    pub album_artist: String,
    pub genres: Vec<String>,
    pub album_track_count: u32,
    pub track_number: u32,
    pub thumbnail: Option<Vec<u8>>,
}

/// One session's full snapshot.
#[derive(Clone, Debug, PartialEq, Eq)]
pub struct MediaInfo {
    pub source_app_id: String,
    pub media: MediaProps,
    pub playback: PlaybackInfo,
    pub timeline: TimelineProps,
    /// Milliseconds since the epoch at which the snapshot was assembled.
    pub last_updated_time: u64,
}

} // verus!
