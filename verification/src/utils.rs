//! Assembling snapshots from what single reads of a session returned.

use vstd::prelude::*;
use crate::types::{
    MediaInfo,
    MediaProps,
    PlaybackInfo,
    Seconds,
    TimelineProps,
    TICKS_PER_SECOND,
};

verus! {

/// What a failed provider call reports.
#[derive(Clone, Debug, PartialEq, Eq)]
pub struct ProviderError {
    pub code: i32,
    pub message: String,
}

/// The failures that reach the caller of the monitor.
#[derive(Clone, Debug, PartialEq, Eq)]
pub enum MonitorError {
    /// The provider's session manager could not be had; holds the provider's message.
    ProviderUnavailable(String),
    /// A query was made while the monitor was not initialized.
    NotInitialized,
}

/// Outcome of reading a session's genre list.
#[derive(Clone, Debug, PartialEq, Eq)]
pub enum RawGenres {
    /// The list itself could not be had.
    Unavailable,
    /// The list was there but would not tell its size.
    SizeUnknown,
    /// One entry per position; `None` where that position could not be read.
    Items(Vec<Option<String>>),
}

/// Outcome of reading a session's metadata, field by field. `None` marks a
/// field whose read failed.
#[derive(Clone, Debug, PartialEq, Eq)]
pub struct RawMediaProps {
    pub title: Option<String>,
    pub artist: Option<String>,
    pub album_title: Option<String>,
    pub album_artist: Option<String>,
    pub genres: RawGenres,
    pub album_track_count: Option<i32>,
    pub track_number: Option<i32>,
    /// The bytes that the single read of the thumbnail stream left in its
    /// buffer; `None` where any step on the way failed.
    pub thumbnail: Option<Vec<u8>>,
}

/// Outcome of reading a session's playback state: the provider's own codes.
#[derive(Clone, Copy, Debug, PartialEq, Eq)]
pub struct RawPlaybackInfo {
    pub status: Option<i32>,
    pub playback_type: Option<i32>,
}

/// Outcome of reading a session's timeline, in ticks of 100 ns.
#[derive(Clone, Copy, Debug, PartialEq, Eq)]
pub struct RawTimeline {
    pub position: Option<i64>,
    pub end_time: Option<i64>,
}

/// Size in bytes of the buffer that takes a thumbnail. The thumbnail stream is
/// read once into a buffer of this size, so a larger image arrives cut short.
pub const THUMBNAIL_BUFFER_CAPACITY: u32 = 1_048_576;

/// The values that are present in `items`, in their order.
pub open spec fn present<T>(items: Seq<Option<T>>) -> Seq<T>
    decreases items.len(),
{
    if items.len() == 0 {
        Seq::empty()
    } else {
        match items.last() {
            Some(v) => present(items.drop_last()).push(v),
            None => present(items.drop_last()),
        }
    }
}

/// The externally shown playback status for a provider status code.
pub open spec fn status_code(raw: i32) -> u8 {
    if 0 <= raw <= 5 {
        raw as u8
    } else {
        0
    }
}

/// The externally shown content type for a provider type code.
pub open spec fn type_code(raw: i32) -> u8 {
    if 0 <= raw <= 3 {
        raw as u8
    } else {
        0
    }
}

/// A provider count in the externally shown width: negative counts become 0.
pub open spec fn count_value(raw: i32) -> u32 {
    if raw >= 0 {
        raw as u32
    } else {
        0
    }
}

/// Whether a metadata read yields a snapshot: every scalar field was read and
/// the genre list, where there is one, told its size.
pub open spec fn media_props_readable(raw: RawMediaProps) -> bool {
    &&& raw.title is Some
    &&& raw.artist is Some
    &&& raw.album_title is Some
    &&& raw.album_artist is Some
    &&& raw.genres != RawGenres::SizeUnknown
    &&& raw.album_track_count is Some
    &&& raw.track_number is Some
}

/// The genres that a read yields.
pub open spec fn genres_of(raw: RawGenres) -> Seq<String> {
    match raw {
        RawGenres::Items(items) => present(items@),
        _ => Seq::empty(),
    }
}

/// The bytes of an optional buffer.
pub open spec fn bytes_of(buffer: Option<Vec<u8>>) -> Option<Seq<u8>> {
    match buffer {
        Some(bytes) => Some(bytes@),
        None => None,
    }
}

/// What is kept of a buffer's bytes under a capacity: the bytes up to the
/// capacity, and nothing at all where that is no byte.
pub open spec fn capped(bytes: Seq<u8>, capacity: u32) -> Option<Seq<u8>> {
    if bytes.len() == 0 || capacity == 0 {
        None
    } else if bytes.len() <= capacity {
        Some(bytes)
    } else {
        Some(bytes.take(capacity as int))
    }
}

/// The thumbnail that a read yields: what is kept of the bytes read under
/// the thumbnail buffer's capacity.
pub open spec fn thumbnail_of(raw: Option<Vec<u8>>) -> Option<Seq<u8>> {
    match raw {
        Some(bytes) => capped(bytes@, THUMBNAIL_BUFFER_CAPACITY),
        None => None,
    }
}

/// Whether a span is split the way `timespan_to_seconds` splits it: the rest
/// is smaller than a second and has the sign of the whole.
pub open spec fn seconds_normal(s: Seconds) -> bool {
    &&& -TICKS_PER_SECOND < s.ticks < TICKS_PER_SECOND
    &&& s.total_ticks() >= 0 ==> s.ticks >= 0 && s.seconds >= 0
    &&& s.total_ticks() <= 0 ==> s.ticks <= 0 && s.seconds <= 0
}

/// The snapshot made of an id and three groups, if all four are there.
pub open spec fn media_info_of(
    source_app_id: Option<String>,
    media: Option<MediaProps>,
    playback: Option<PlaybackInfo>,
    timeline: Option<TimelineProps>,
    now_ms: u64,
) -> Option<MediaInfo> {
    if source_app_id is Some && media is Some && playback is Some && timeline is Some {
        Some(
            MediaInfo {
                source_app_id: source_app_id->0,
                media: media->0,
                playback: playback->0,
                timeline: timeline->0,
                last_updated_time: now_ms,
            },
        )
    } else {
        None
    }
}

/// Turns a failed provider call into the monitor's error, keeping the message.
pub fn win_to_napi_err<T>(result: Result<T, ProviderError>) -> (r: Result<T, MonitorError>)
    ensures
        match result {
            Ok(v) => r == Ok::<T, MonitorError>(v),
            Err(e) => r == Err::<T, MonitorError>(MonitorError::ProviderUnavailable(e.message)),
        },
{
    match result {
        Ok(v) => Ok(v),
        Err(e) => Err(MonitorError::ProviderUnavailable(e.message)),
    }
}

/// Splits a span given in ticks of 100 ns into whole seconds and a rest,
/// rounding towards zero.
pub fn timespan_to_seconds(ticks: i64) -> (r: Seconds)
    ensures
        r.total_ticks() == ticks,
        seconds_normal(r),
{
    Seconds { seconds: ticks / TICKS_PER_SECOND, ticks: ticks % TICKS_PER_SECOND }
}

/// Keeps of a buffer's bytes what fits the capacity: bytes beyond it are cut
/// off, and a buffer of which no byte is left counts as none.
pub fn buffer_with_capacity(bytes: Vec<u8>, capacity: u32) -> (r: Option<Vec<u8>>)
    ensures
        bytes_of(r) == capped(bytes@, capacity),
{
    let mut bytes = bytes;
    if bytes.len() == 0 || capacity == 0 {
        return None;
    }
    if bytes.len() > capacity as usize {
        bytes.truncate(capacity as usize);
    }
    Some(bytes)
}

/// Keeps of a thumbnail buffer's bytes what fits `THUMBNAIL_BUFFER_CAPACITY`;
/// an empty buffer counts as none.
pub fn buffer_to_napi_buffer(bytes: Vec<u8>) -> (r: Option<Vec<u8>>)
    ensures
        bytes_of(r) == thumbnail_of(Some(bytes)),
{
    buffer_with_capacity(bytes, THUMBNAIL_BUFFER_CAPACITY)
}

/// Runs a fallible operation and forgets why it failed.
pub fn try_win_api<T, E, F: FnOnce() -> Result<T, E>>(op: F) -> (r: Option<T>)
    requires
        op.requires(()),
    ensures
        match r {
            Some(v) => op.ensures((), Ok(v)),
            None => exists|e: E| op.ensures((), Err(e)),
        },
{
    match op() {
        Ok(v) => Some(v),
        Err(_) => None,
    }
}

/// Collects the values that are present, in their order.
pub fn collect_present<T>(items: Vec<Option<T>>) -> (r: Vec<T>)
    ensures
        r@ == present(items@),
{
    let mut out: Vec<T> = Vec::new();
    let ghost all = items@;
    for item in it: items
        invariant
            it.seq() == all,
            out@ == present(all.take(it.index() as int)),
    {
        proof {
            assert(all.take(it.index() + 1).drop_last() == all.take(it.index() as int));
        }
        match item {
            Some(v) => out.push(v),
            None => {},
        }
    }
    proof {
        assert(all.take(all.len() as int) == all);
    }
    out
}

/// Assembles a session's metadata from one read of it.
///
/// There is a result exactly when the read itself succeeded and
/// `media_props_readable` holds of it. Genre positions that could not be read
/// are left out, a missing genre list counts as empty, negative counts become
/// 0, and of the thumbnail what fits `THUMBNAIL_BUFFER_CAPACITY` is kept, an
/// empty one counting as none.
pub fn get_media_props_for_session(raw: Option<RawMediaProps>) -> (r: Option<MediaProps>)
    ensures
        r is Some <==> (raw is Some && media_props_readable(raw->0)),
        r is Some ==> {
            &&& Some(r->0.title) == raw->0.title
            &&& Some(r->0.artist) == raw->0.artist
            &&& Some(r->0.album_title) == raw->0.album_title
            &&& Some(r->0.album_artist) == raw->0.album_artist
            &&& r->0.genres@ == genres_of(raw->0.genres)
            &&& r->0.album_track_count == count_value(raw->0.album_track_count->0)
            &&& r->0.track_number == count_value(raw->0.track_number->0)
            &&& bytes_of(r->0.thumbnail) == thumbnail_of(raw->0.thumbnail)
        },
{
    let raw = match raw {
        Some(raw) => raw,
        None => return None,
    };
    let RawMediaProps {
        title,
        artist,
        album_title,
        album_artist,
        genres,
        album_track_count,
        track_number,
        thumbnail,
    } = raw;
    let title = match title {
        Some(v) => v,
        None => return None,
    };
    let artist = match artist {
        Some(v) => v,
        None => return None,
    };
    let album_title = match album_title {
        Some(v) => v,
        None => return None,
    };
    let album_artist = match album_artist {
        Some(v) => v,
        None => return None,
    };
    let genres = match genres {
        RawGenres::Items(items) => collect_present(items),
        RawGenres::Unavailable => Vec::new(),
        RawGenres::SizeUnknown => return None,
    };
    let album_track_count = match album_track_count {
        Some(v) => coerce_count(v),
        None => return None,
    };
    let track_number = match track_number {
        Some(v) => coerce_count(v),
        None => return None,
    };
    let thumbnail = match thumbnail {
        Some(bytes) => buffer_to_napi_buffer(bytes),
        None => None,
    };
    Some(
        MediaProps {
            title,
            artist,
            album_title,
            album_artist,
            genres,
            album_track_count,
            track_number,
            thumbnail,
        },
    )
}

/// A provider count in the externally shown width.
pub fn coerce_count(raw: i32) -> (r: u32)
    ensures
        r == count_value(raw),
{
    if raw >= 0 {
        raw as u32
    } else {
        0
    }
}

/// Assembles a session's playback state from one read of it.
///
/// There is a result exactly when the read succeeded and gave a status. Codes
/// that the provider does not define fold to 0, and so does a content type
/// that could not be read.
pub fn get_playback_info_for_session(raw: Option<RawPlaybackInfo>) -> (r: Option<PlaybackInfo>)
    ensures
        r is Some <==> (raw is Some && raw->0.status is Some),
        r is Some ==> {
            &&& r->0.playback_status == status_code(raw->0.status->0)
            &&& r->0.playback_type == match raw->0.playback_type {
                Some(t) => type_code(t),
                None => 0u8,
            }
        },
{
    let raw = match raw {
        Some(raw) => raw,
        None => return None,
    };
    let status = match raw.status {
        Some(s) => s,
        None => return None,
    };
    let playback_status: u8 = if 0 <= status && status <= 5 {
        status as u8
    } else {
        0
    };
    let playback_type: u8 = match raw.playback_type {
        Some(t) => if 0 <= t && t <= 3 {
            t as u8
        } else {
            0
        },
        None => 0,
    };
    Some(PlaybackInfo { playback_status, playback_type })
}

/// Assembles a session's timeline from one read of it.
///
/// There is a result exactly when the read succeeded and gave both the
/// position and the end; each is the provider's tick count split into seconds.
pub fn get_timeline_props_for_session(raw: Option<RawTimeline>) -> (r: Option<TimelineProps>)
    ensures
        r is Some <==> (raw is Some && raw->0.position is Some && raw->0.end_time is Some),
        r is Some ==> {
            &&& r->0.position.total_ticks() == raw->0.position->0
            &&& r->0.duration.total_ticks() == raw->0.end_time->0
            &&& seconds_normal(r->0.position)
            &&& seconds_normal(r->0.duration)
        },
{
    let raw = match raw {
        Some(raw) => raw,
        None => return None,
    };
    let position = match raw.position {
        Some(p) => timespan_to_seconds(p),
        None => return None,
    };
    let duration = match raw.end_time {
        Some(d) => timespan_to_seconds(d),
        None => return None,
    };
    Some(TimelineProps { position, duration })
}

/// Assembles a session's full snapshot, stamped with `now_ms`.
///
/// There is a result exactly when the id and all three groups were read.
pub fn get_media_info_for_session(
    source_app_id: Option<String>,
    media: Option<MediaProps>,
    playback: Option<PlaybackInfo>,
    timeline: Option<TimelineProps>,
    now_ms: u64,
) -> (r: Option<MediaInfo>)
    ensures
        r == media_info_of(source_app_id, media, playback, timeline, now_ms),
{
    let source_app_id = match source_app_id {
        Some(v) => v,
        None => return None,
    };
    let media = match media {
        Some(v) => v,
        None => return None,
    };
    let playback = match playback {
        Some(v) => v,
        None => return None,
    };
    let timeline = match timeline {
        Some(v) => v,
        None => return None,
    };
    Some(MediaInfo { source_app_id, media, playback, timeline, last_updated_time: now_ms })
}

} // verus!
