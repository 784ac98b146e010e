use smtc_monitor::types::{MediaInfo, MediaProps, PlaybackInfo, Seconds, TimelineProps};
use smtc_monitor::utils::{
    buffer_to_napi_buffer, buffer_with_capacity, coerce_count, collect_present, get_media_info_for_session,
    get_media_props_for_session, get_playback_info_for_session, get_timeline_props_for_session,
    timespan_to_seconds, try_win_api, win_to_napi_err, MonitorError, ProviderError, RawGenres,
    RawMediaProps, RawPlaybackInfo, RawTimeline, THUMBNAIL_BUFFER_CAPACITY,
};

fn raw_props() -> RawMediaProps {
    RawMediaProps {
        title: Some("Song".to_string()),
        artist: Some("Band".to_string()),
        album_title: Some("Album".to_string()),
        album_artist: Some("Various".to_string()),
        genres: RawGenres::Items(vec![Some("rock".to_string()), None, Some("pop".to_string())]),
        album_track_count: Some(12),
        track_number: Some(3),
        thumbnail: Some(vec![1, 2, 3]),
    }
}

fn props() -> MediaProps {
    MediaProps {
        title: "Song".to_string(),
        artist: "Band".to_string(),
        album_title: "Album".to_string(),
        album_artist: "Various".to_string(),
        genres: vec!["rock".to_string(), "pop".to_string()],
        album_track_count: 12,
        track_number: 3,
        thumbnail: Some(vec![1, 2, 3]),
    }
}

#[test]
fn one_second_of_ticks_is_one_second() {
    assert_eq!(timespan_to_seconds(10_000_000), Seconds { seconds: 1, ticks: 0 });
}

#[test]
fn zero_ticks_is_zero_seconds() {
    assert_eq!(timespan_to_seconds(0), Seconds { seconds: 0, ticks: 0 });
}

#[test]
fn ticks_split_into_seconds_and_rest() {
    assert_eq!(timespan_to_seconds(12_345_678), Seconds { seconds: 1, ticks: 2_345_678 });
    assert_eq!(timespan_to_seconds(9_999_999), Seconds { seconds: 0, ticks: 9_999_999 });
    assert_eq!(timespan_to_seconds(2_150_000_000), Seconds { seconds: 215, ticks: 0 });
}

#[test]
fn negative_ticks_round_towards_zero() {
    assert_eq!(timespan_to_seconds(-15_000_000), Seconds { seconds: -1, ticks: -5_000_000 });
    assert_eq!(timespan_to_seconds(-1), Seconds { seconds: 0, ticks: -1 });
    assert_eq!(
        timespan_to_seconds(i64::MIN),
        Seconds { seconds: -922_337_203_685, ticks: -4_775_808 }
    );
    assert_eq!(
        timespan_to_seconds(i64::MAX),
        Seconds { seconds: 922_337_203_685, ticks: 4_775_807 }
    );
}

#[test]
fn ticks_as_float_seconds() {
    let s = timespan_to_seconds(10_000_000);
    let seconds = (s.seconds * 10_000_000 + s.ticks) as f64 / 10_000_000.0;
    assert_eq!(seconds, 1.0);
    let z = timespan_to_seconds(0);
    assert_eq!((z.seconds * 10_000_000 + z.ticks) as f64 / 10_000_000.0, 0.0);
}

#[test]
fn media_props_from_a_complete_read() {
    assert_eq!(get_media_props_for_session(Some(raw_props())), Some(props()));
}

#[test]
fn media_props_without_a_read() {
    assert_eq!(get_media_props_for_session(None), None);
}

#[test]
fn media_props_need_every_scalar_field() {
    let mut raw = raw_props();
    raw.title = None;
    assert_eq!(get_media_props_for_session(Some(raw)), None);
    let mut raw = raw_props();
    raw.artist = None;
    assert_eq!(get_media_props_for_session(Some(raw)), None);
    let mut raw = raw_props();
    raw.album_title = None;
    assert_eq!(get_media_props_for_session(Some(raw)), None);
    let mut raw = raw_props();
    raw.album_artist = None;
    assert_eq!(get_media_props_for_session(Some(raw)), None);
    let mut raw = raw_props();
    raw.album_track_count = None;
    assert_eq!(get_media_props_for_session(Some(raw)), None);
    let mut raw = raw_props();
    raw.track_number = None;
    assert_eq!(get_media_props_for_session(Some(raw)), None);
}

#[test]
fn media_props_genre_list_outcomes() {
    let mut raw = raw_props();
    raw.genres = RawGenres::Unavailable;
    let got = get_media_props_for_session(Some(raw)).unwrap();
    assert_eq!(got.genres, Vec::<String>::new());
    assert_eq!(got.title, "Song");

    let mut raw = raw_props();
    raw.genres = RawGenres::SizeUnknown;
    assert_eq!(get_media_props_for_session(Some(raw)), None);

    let mut raw = raw_props();
    raw.genres = RawGenres::Items(vec![None, None]);
    assert_eq!(get_media_props_for_session(Some(raw)).unwrap().genres, Vec::<String>::new());
}

#[test]
fn media_props_negative_counts_become_zero() {
    let mut raw = raw_props();
    raw.album_track_count = Some(-1);
    raw.track_number = Some(i32::MIN);
    let got = get_media_props_for_session(Some(raw)).unwrap();
    assert_eq!(got.album_track_count, 0);
    assert_eq!(got.track_number, 0);
    assert_eq!(coerce_count(i32::MAX), 2_147_483_647);
    assert_eq!(coerce_count(0), 0);
    assert_eq!(coerce_count(-7), 0);
}

#[test]
fn media_props_thumbnail_outcomes() {
    let mut raw = raw_props();
    raw.thumbnail = None;
    assert_eq!(get_media_props_for_session(Some(raw)).unwrap().thumbnail, None);
    let mut raw = raw_props();
    raw.thumbnail = Some(Vec::new());
    assert_eq!(get_media_props_for_session(Some(raw)).unwrap().thumbnail, None);
    let big = vec![7u8; 1024 * 1024];
    let mut raw = raw_props();
    raw.thumbnail = Some(big.clone());
    assert_eq!(get_media_props_for_session(Some(raw)).unwrap().thumbnail, Some(big));
}

#[test]
fn thumbnail_is_cut_at_the_buffer_capacity() {
    assert_eq!(THUMBNAIL_BUFFER_CAPACITY, 1024 * 1024);
    let mut long: Vec<u8> = (0..(1024 * 1024 + 5)).map(|i| (i % 251) as u8).collect();
    let mut raw = raw_props();
    raw.thumbnail = Some(long.clone());
    let got = get_media_props_for_session(Some(raw)).unwrap().thumbnail.unwrap();
    long.truncate(1024 * 1024);
    assert_eq!(got.len(), 1024 * 1024);
    assert_eq!(got, long);
}

#[test]
fn buffer_capacity_can_be_chosen() {
    assert_eq!(buffer_with_capacity(vec![1, 2, 3, 4], 2), Some(vec![1, 2]));
    assert_eq!(buffer_with_capacity(vec![1, 2, 3, 4], 4), Some(vec![1, 2, 3, 4]));
    assert_eq!(buffer_with_capacity(vec![1, 2, 3, 4], 9), Some(vec![1, 2, 3, 4]));
    assert_eq!(buffer_with_capacity(vec![1, 2, 3, 4], 0), None);
    assert_eq!(buffer_with_capacity(Vec::new(), 4), None);
}

#[test]
fn buffer_is_kept_unless_empty() {
    assert_eq!(buffer_to_napi_buffer(Vec::new()), None);
    assert_eq!(buffer_to_napi_buffer(vec![0]), Some(vec![0]));
    assert_eq!(buffer_to_napi_buffer(vec![9, 8, 7]), Some(vec![9, 8, 7]));
}

#[test]
fn playback_codes_are_kept_or_folded() {
    for status in 0..=5 {
        let got = get_playback_info_for_session(Some(RawPlaybackInfo {
            status: Some(status),
            playback_type: Some(1),
        }));
        assert_eq!(got, Some(PlaybackInfo { playback_status: status as u8, playback_type: 1 }));
    }
    for kind in 0..=3 {
        let got = get_playback_info_for_session(Some(RawPlaybackInfo {
            status: Some(4),
            playback_type: Some(kind),
        }));
        assert_eq!(got, Some(PlaybackInfo { playback_status: 4, playback_type: kind as u8 }));
    }
    let folded = PlaybackInfo { playback_status: 0, playback_type: 0 };
    assert_eq!(
        get_playback_info_for_session(Some(RawPlaybackInfo {
            status: Some(6),
            playback_type: Some(4)
        })),
        Some(folded)
    );
    assert_eq!(
        get_playback_info_for_session(Some(RawPlaybackInfo {
            status: Some(-1),
            playback_type: Some(-1)
        })),
        Some(folded)
    );
    assert_eq!(
        get_playback_info_for_session(Some(RawPlaybackInfo {
            status: Some(261),
            playback_type: Some(257)
        })),
        Some(folded)
    );
}

#[test]
fn playback_type_may_be_missing_but_status_may_not() {
    assert_eq!(
        get_playback_info_for_session(Some(RawPlaybackInfo {
            status: Some(5),
            playback_type: None
        })),
        Some(PlaybackInfo { playback_status: 5, playback_type: 0 })
    );
    assert_eq!(
        get_playback_info_for_session(Some(RawPlaybackInfo {
            status: None,
            playback_type: Some(2)
        })),
        None
    );
    assert_eq!(get_playback_info_for_session(None), None);
}

#[test]
fn timeline_needs_position_and_end() {
    assert_eq!(
        get_timeline_props_for_session(Some(RawTimeline {
            position: Some(25_000_000),
            end_time: Some(1_800_000_000)
        })),
        Some(TimelineProps {
            position: Seconds { seconds: 2, ticks: 5_000_000 },
            duration: Seconds { seconds: 180, ticks: 0 },
        })
    );
    assert_eq!(
        get_timeline_props_for_session(Some(RawTimeline { position: None, end_time: Some(1) })),
        None
    );
    assert_eq!(
        get_timeline_props_for_session(Some(RawTimeline { position: Some(1), end_time: None })),
        None
    );
    assert_eq!(get_timeline_props_for_session(None), None);
}

#[test]
fn media_info_needs_all_four_reads() {
    let playback = PlaybackInfo { playback_status: 4, playback_type: 1 };
    let timeline = TimelineProps {
        position: Seconds { seconds: 1, ticks: 0 },
        duration: Seconds { seconds: 9, ticks: 5 },
    };
    let id = "player.exe".to_string();
    assert_eq!(
        get_media_info_for_session(
            Some(id.clone()),
            Some(props()),
            Some(playback),
            Some(timeline),
            1_700_000_000_123
        ),
        Some(MediaInfo {
            source_app_id: id.clone(),
            media: props(),
            playback,
            timeline,
            last_updated_time: 1_700_000_000_123,
        })
    );
    assert_eq!(
        get_media_info_for_session(None, Some(props()), Some(playback), Some(timeline), 5),
        None
    );
    assert_eq!(
        get_media_info_for_session(Some(id.clone()), None, Some(playback), Some(timeline), 5),
        None
    );
    assert_eq!(
        get_media_info_for_session(Some(id.clone()), Some(props()), None, Some(timeline), 5),
        None
    );
    assert_eq!(
        get_media_info_for_session(Some(id), Some(props()), Some(playback), None, 5),
        None
    );
}

#[test]
fn groups_are_read_independently() {
    // a failed metadata read does not keep the playback state from being read
    assert_eq!(get_media_props_for_session(None), None);
    assert_eq!(
        get_playback_info_for_session(Some(RawPlaybackInfo {
            status: Some(3),
            playback_type: Some(2)
        })),
        Some(PlaybackInfo { playback_status: 3, playback_type: 2 })
    );
}

#[test]
fn present_values_keep_their_order() {
    assert_eq!(collect_present(vec![Some(3), None, Some(1), Some(2), None]), vec![3, 1, 2]);
    assert_eq!(collect_present(Vec::<Option<u8>>::new()), Vec::<u8>::new());
    assert_eq!(collect_present(vec![None::<u8>, None]), Vec::<u8>::new());
}

#[test]
fn try_win_api_forgets_the_error() {
    assert_eq!(try_win_api(|| Ok::<u32, String>(7)), Some(7));
    assert_eq!(try_win_api(|| Err::<u32, String>("gone".to_string())), None);
}

#[test]
fn provider_failure_keeps_its_message() {
    assert_eq!(win_to_napi_err::<u8>(Ok(4)), Ok(4));
    assert_eq!(
        win_to_napi_err::<u8>(Err(ProviderError { code: -2147023728, message: "Element not found.".to_string() })),
        Err(MonitorError::ProviderUnavailable("Element not found.".to_string()))
    );
}
