use diwa::api_integration::spotify::{
    classify_fetch_error, collect_album_tracks, collect_playlist_tracks, PlayableEntry,
    SpotifyError, SpotifyTrackData,
};
use diwa::api_integration::youtube::{
    join_video_ids, playlist_video_ids, video_to_metadata, videos_to_metadata, PlaylistItem,
    PlaylistItemDetails, VideoContentDetails, VideoRecord, VideoSnippet, YouTubeError,
};
use diwa::convert_query::{
    convert_live_playlist, convert_live_video, convert_pending_playlist, track_search_query,
    ConvertedQuery,
};
use diwa::lazy_queued::{LazyQueued, RestartPlan};
use diwa::metadata::{AudioSource, UserMetadata, VideoMetadata};

fn user() -> UserMetadata {
    UserMetadata { id: 9, name: "u".to_string(), avatar_url: Some("http://a".to_string()) }
}

fn track(title: &str, artists: &[&str]) -> SpotifyTrackData {
    SpotifyTrackData {
        title: title.to_string(),
        artists: artists.iter().map(|a| a.to_string()).collect(),
    }
}

fn video(title: &str, id: &str) -> VideoMetadata {
    VideoMetadata {
        title: title.to_string(),
        duration: 100,
        audio_source: AudioSource::YouTube { video_id: id.to_string() },
    }
}

fn record(id: &str, title: &str, duration: &str) -> VideoRecord {
    VideoRecord {
        id: Some(id.to_string()),
        snippet: Some(VideoSnippet { title: Some(title.to_string()) }),
        content_details: Some(VideoContentDetails { duration: Some(duration.to_string()) }),
    }
}

#[test]
fn search_text_is_title_by_artists() {
    assert_eq!(track_search_query(&track("T", &["A", "B"])), "T by A, B");
    assert_eq!(track_search_query(&track("T", &["A"])), "T by A");
    assert_eq!(track_search_query(&track("T", &[])), "T by ");
}

#[test]
fn playlist_episodes_are_rejected() {
    let items = vec![
        Some(PlayableEntry::Track(track("a", &[]))),
        Some(PlayableEntry::Episode),
    ];
    assert_eq!(collect_playlist_tracks(items), Err(SpotifyError::EpisodesUnsupported));
}

#[test]
fn playlist_tracks_are_collected_in_order() {
    let items = vec![
        None,
        Some(PlayableEntry::Track(track("a", &["x"]))),
        None,
        Some(PlayableEntry::Track(track("b", &["y"]))),
    ];
    let tracks = collect_playlist_tracks(items).unwrap();
    assert_eq!(tracks, vec![track("a", &["x"]), track("b", &["y"])]);
}

#[test]
fn playlist_without_tracks_is_empty() {
    assert_eq!(collect_playlist_tracks(vec![None, None]), Err(SpotifyError::EmptyPlaylist));
    assert_eq!(collect_playlist_tracks(vec![]), Err(SpotifyError::EmptyPlaylist));
}

#[test]
fn empty_album_is_rejected() {
    assert_eq!(collect_album_tracks(vec![]), Err(SpotifyError::EmptyPlaylist));
    let ts = vec![track("a", &[])];
    assert_eq!(collect_album_tracks(ts.clone()), Ok(ts));
}

#[test]
fn not_found_collections_look_private() {
    assert_eq!(classify_fetch_error(Some(404)), SpotifyError::PlaylistPrivate);
    assert_eq!(classify_fetch_error(Some(500)), SpotifyError::Api);
    assert_eq!(classify_fetch_error(None), SpotifyError::Api);
}

#[test]
fn complete_video_records_convert() {
    let m = video_to_metadata(&record("id1", "Title", "PT3M25S")).unwrap();
    assert_eq!(m.title, "Title");
    assert_eq!(m.duration, 205);
    assert_eq!(m.audio_source, AudioSource::YouTube { video_id: "id1".to_string() });
}

#[test]
fn incomplete_video_records_name_the_missing_field() {
    let mut r = record("i", "t", "PT1S");
    r.snippet = None;
    match video_to_metadata(&r) {
        Err(YouTubeError::MissingValue { value }) => assert_eq!(value, "snippet"),
        other => panic!("unexpected: {:?}", other),
    }
    let mut r = record("i", "t", "PT1S");
    r.content_details = None;
    match video_to_metadata(&r) {
        Err(YouTubeError::MissingValue { value }) => assert_eq!(value, "content_details"),
        other => panic!("unexpected: {:?}", other),
    }
    let mut r = record("i", "t", "PT1S");
    r.id = None;
    match video_to_metadata(&r) {
        Err(YouTubeError::MissingValue { value }) => assert_eq!(value, "id"),
        other => panic!("unexpected: {:?}", other),
    }
}

#[test]
fn unreadable_iso_durations_are_carried_in_the_error() {
    match video_to_metadata(&record("i", "t", "not a duration")) {
        Err(YouTubeError::DurationString { duration_string }) => {
            assert_eq!(duration_string, "not a duration")
        },
        other => panic!("unexpected: {:?}", other),
    }
}

#[test]
fn listings_convert_video_by_video() {
    let vs = vec![record("a", "A", "PT1S"), record("b", "B", "PT2S")];
    let ms = videos_to_metadata(&vs).unwrap();
    assert_eq!(ms.len(), 2);
    assert_eq!(ms[0].duration, 1);
    assert_eq!(ms[1].duration, 2);
    let bad = vec![record("a", "A", "PT1S"), VideoRecord { id: None, snippet: None, content_details: None }];
    assert!(videos_to_metadata(&bad).is_err());
}

#[test]
fn playlist_ids_are_extracted_and_joined() {
    let items = vec![
        PlaylistItem { content_details: Some(PlaylistItemDetails { video_id: Some("a".to_string()) }) },
        PlaylistItem { content_details: Some(PlaylistItemDetails { video_id: Some("b".to_string()) }) },
    ];
    let ids = playlist_video_ids(&items).unwrap();
    assert_eq!(ids, vec!["a".to_string(), "b".to_string()]);
    assert_eq!(join_video_ids(&ids), "a,b");
}

#[test]
fn empty_or_incomplete_playlists_are_rejected() {
    assert_eq!(playlist_video_ids(&vec![]), Err(YouTubeError::EmptyPlaylist));
    let items = vec![PlaylistItem { content_details: None }];
    match playlist_video_ids(&items) {
        Err(YouTubeError::MissingValue { value }) => assert_eq!(value, "item.content_details"),
        other => panic!("unexpected: {:?}", other),
    }
    let items = vec![PlaylistItem {
        content_details: Some(PlaylistItemDetails { video_id: None }),
    }];
    match playlist_video_ids(&items) {
        Err(YouTubeError::MissingValue { value }) => {
            assert_eq!(value, "content_details.video_id")
        },
        other => panic!("unexpected: {:?}", other),
    }
}

#[test]
fn one_video_converts_to_a_live_entry() {
    let v = video("T", "id1");
    match convert_live_video(v.clone(), user()) {
        ConvertedQuery::LiveVideo(mi) => {
            assert_eq!(mi.queued, LazyQueued::Metadata { metadata: v.clone() });
            assert_eq!(mi.track_metadata.video_metadata, v);
            assert_eq!(mi.track_metadata.added_by, user());
        },
        other => panic!("unexpected: {:?}", other),
    }
}

#[test]
fn playlists_convert_to_live_entries() {
    let vs = vec![video("A", "a"), video("B", "b")];
    match convert_live_playlist(&vs, &user()) {
        ConvertedQuery::LivePlaylist(mis) => {
            assert_eq!(mis.len(), 2);
            assert_eq!(mis[0].queued, LazyQueued::Metadata { metadata: vs[0].clone() });
            assert_eq!(mis[1].track_metadata.video_metadata, vs[1]);
        },
        other => panic!("unexpected: {:?}", other),
    }
}

#[test]
fn catalog_collections_convert_to_deferred_entries() {
    let ts = vec![track("T1", &["A"]), track("T2", &["B", "C"])];
    match convert_pending_playlist(&ts, &user()) {
        ConvertedQuery::PendingPlaylist(ps) => {
            assert_eq!(ps.len(), 2);
            assert_eq!(ps[0].query, "T1 by A");
            assert_eq!(ps[1].query, "T2 by B, C");
            assert_eq!(ps[0].queued, LazyQueued::Query { query: "T1 by A".to_string() });
            assert_eq!(ps[1].added_by, user());
        },
        other => panic!("unexpected: {:?}", other),
    }
}

#[test]
fn restart_plans_follow_the_source() {
    let q = LazyQueued::Query { query: "find me".to_string() };
    assert_eq!(q.restart_plan(), RestartPlan::SearchThenStream { query: "find me".to_string() });
    let m = LazyQueued::Metadata { metadata: video("T", "vid") };
    assert_eq!(m.restart_plan(), RestartPlan::Stream { video_id: "vid".to_string() });
    let f = LazyQueued::Metadata {
        metadata: VideoMetadata {
            title: "F".to_string(),
            duration: 1,
            audio_source: AudioSource::File { path: "/tmp/f".to_string() },
        },
    };
    assert_eq!(f.restart_plan(), RestartPlan::PlayFile { path: "/tmp/f".to_string() });
    let j = LazyQueued::Metadata {
        metadata: VideoMetadata {
            title: "J".to_string(),
            duration: 0,
            audio_source: AudioSource::Jeja { filename: "9.mp3".to_string() },
        },
    };
    assert_eq!(j.restart_plan(), RestartPlan::GenerateThenPlay { filename: "9.mp3".to_string() });
}

#[test]
fn descriptions_mark_deferred_entries_lazy() {
    let q = LazyQueued::Query { query: "find me".to_string() };
    let d = q.lazy_init();
    assert_eq!((d.channels, d.sample_rate), (2, 48000));
    assert_eq!(d.title, "find me");
    assert!(d.lazy);

    let m = LazyQueued::Metadata { metadata: video("T", "vid") };
    let d = m.lazy_init();
    assert_eq!((d.channels, d.sample_rate), (2, 48000));
    assert_eq!(d.title, "T");
    assert!(!d.lazy);

    let j = LazyQueued::Metadata {
        metadata: VideoMetadata {
            title: "J".to_string(),
            duration: 0,
            audio_source: AudioSource::Jeja { filename: "9.mp3".to_string() },
        },
    };
    let d = j.lazy_init();
    assert_eq!((d.channels, d.sample_rate), (1, 24000));
    assert!(!d.lazy);
}
