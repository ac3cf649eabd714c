use diwa::stream_media_source::{
    audio_quality_rank, find_highest_quality_video, StreamError, VideoFormat,
};

fn fmt(url: &str, quality: Option<&str>, has_audio: bool, has_video: bool) -> VideoFormat {
    VideoFormat {
        url: url.to_string(),
        audio_quality: quality.map(|q| q.to_string()),
        has_audio,
        has_video,
    }
}

#[test]
fn picks_high_over_medium_and_min() {
    let formats = vec![
        fmt("u-min", Some("AUDIO_QUALITY_MIN"), true, false),
        fmt("u-high", Some("AUDIO_QUALITY_HIGH"), true, false),
        fmt("u-medium", Some("AUDIO_QUALITY_MEDIUM"), true, false),
    ];
    assert_eq!(find_highest_quality_video(&formats), Ok("u-high".to_string()));
}

#[test]
fn only_unknown_quality_fails() {
    let formats = vec![fmt("u", Some("AUDIO_QUALITY_ULTRA"), true, false)];
    assert_eq!(find_highest_quality_video(&formats), Err(StreamError::NoVideoFormats));
}

#[test]
fn empty_format_list_fails() {
    let formats: Vec<VideoFormat> = vec![];
    assert_eq!(find_highest_quality_video(&formats), Err(StreamError::NoVideoFormats));
}

#[test]
fn format_with_video_track_is_not_audio_only() {
    let formats = vec![
        fmt("u-av", Some("AUDIO_QUALITY_HIGH"), true, true),
        fmt("u-a", Some("AUDIO_QUALITY_MIN"), true, false),
    ];
    assert_eq!(find_highest_quality_video(&formats), Ok("u-a".to_string()));
}

#[test]
fn tie_keeps_the_first_seen() {
    let formats = vec![
        fmt("first", Some("AUDIO_QUALITY_MEDIUM"), true, false),
        fmt("second", Some("AUDIO_QUALITY_MEDIUM"), true, false),
    ];
    assert_eq!(find_highest_quality_video(&formats), Ok("first".to_string()));
}

#[test]
fn format_without_quality_label_is_skipped() {
    let formats = vec![
        fmt("u-none", None, true, false),
        fmt("u-min", Some("AUDIO_QUALITY_MIN"), true, false),
    ];
    assert_eq!(find_highest_quality_video(&formats), Ok("u-min".to_string()));
}

#[test]
fn quality_ranks_are_ordered() {
    assert_eq!(audio_quality_rank("AUDIO_QUALITY_HIGH"), 3);
    assert_eq!(audio_quality_rank("AUDIO_QUALITY_MEDIUM"), 2);
    assert_eq!(audio_quality_rank("AUDIO_QUALITY_MIN"), 1);
    assert_eq!(audio_quality_rank("whatever"), 0);
}
