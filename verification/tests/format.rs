use diwa::metadata::{AudioSource, TrackMetadata, VideoMetadata};
use diwa::utils::{
    afk_timeout_action, format_duration, queue_entry_limit, queue_last_page, queue_lines,
    same_voice_channel_decision, should_move_channels_decision, sort_delays, wait_increments,
    AfkAction,
};

#[test]
fn durations_trim_leading_zero_groups() {
    assert_eq!(format_duration(0, None), "0:00");
    assert_eq!(format_duration(5, None), "0:05");
    assert_eq!(format_duration(205, None), "3:25");
    assert_eq!(format_duration(754, None), "12:34");
    assert_eq!(format_duration(3725, None), "01:02:05");
    assert_eq!(format_duration(90000, None), "01:01:00:00");
    assert_eq!(format_duration(200 * 86400, None), "200:00:00:00");
}

#[test]
fn durations_cut_to_a_requested_width() {
    assert_eq!(format_duration(65, Some(4)), "1:05");
    assert_eq!(format_duration(65, Some(11)), "00:00:01:05");
    assert_eq!(format_duration(65, Some(0)), "");
}

#[test]
fn queue_string_links_remote_videos() {
    let m = VideoMetadata {
        title: "Song".to_string(),
        duration: 205,
        audio_source: AudioSource::YouTube { video_id: "abc".to_string() },
    };
    assert_eq!(m.to_queue_string(None, None), "[Song](https://youtu.be/abc) | 3:25");
    assert_eq!(m.to_queue_string(Some(65), None), "[Song](https://youtu.be/abc) | 1:05 / 3:25");
}

#[test]
fn queue_string_truncates_long_titles_to_the_limit() {
    let m = VideoMetadata {
        title: "Abcdefghijklmnop".to_string(),
        duration: 205,
        audio_source: AudioSource::YouTube { video_id: "abc".to_string() },
    };
    let full = m.to_queue_string(None, None);
    assert_eq!(full.len(), 47);
    assert_eq!(m.to_queue_string(None, Some(47)), full);
    assert_eq!(m.to_queue_string(None, Some(40)), "[Abcdef...](https://youtu.be/abc) | 3:25");
}

#[test]
fn queue_string_for_files_and_clips() {
    let f = VideoMetadata {
        title: "Local".to_string(),
        duration: 65,
        audio_source: AudioSource::File { path: "/tmp/x.mp3".to_string() },
    };
    assert_eq!(f.to_queue_string(None, None), "Local | 1:05");
    let j = VideoMetadata {
        title: "Dowcip".to_string(),
        duration: 0,
        audio_source: AudioSource::Jeja { filename: "1.mp3".to_string() },
    };
    assert_eq!(j.to_queue_string(None, None), "Dowcip");
}

#[test]
fn placeholder_record_is_the_error_record() {
    let d = TrackMetadata::default();
    assert_eq!(d.video_metadata.title, "!Error!");
    assert_eq!(d.video_metadata.duration, 0);
    assert_eq!(d.added_by.id, 0);
}

#[test]
fn joke_records_name_their_clip_after_the_guild() {
    let meta = diwa::metadata::joke_track_metadata(
        123,
        diwa::metadata::UserMetadata { id: 1, name: "n".to_string(), avatar_url: None },
    );
    assert_eq!(meta.video_metadata.title, "Dowcip");
    match meta.video_metadata.audio_source {
        AudioSource::Jeja { filename } => assert_eq!(filename, "123.mp3"),
        other => panic!("unexpected: {:?}", other),
    }
}

#[test]
fn last_page_rounds_the_queued_tracks_up() {
    assert_eq!(queue_last_page(0), 0);
    assert_eq!(queue_last_page(1), 0);
    assert_eq!(queue_last_page(8), 1);
    assert_eq!(queue_last_page(15), 2);
    assert_eq!(queue_last_page(22), 3);
}

#[test]
fn entry_limit_leaves_room_for_the_number() {
    assert_eq!(queue_entry_limit(0), 142);
    assert_eq!(queue_entry_limit(14), 141);
}

#[test]
fn queue_lines_number_entries_from_their_page() {
    let entries =
        vec!["current".to_string(), "first".to_string(), "second".to_string()];
    assert_eq!(queue_lines(&entries, 0), "1. first\n2. second\n");
    assert_eq!(queue_lines(&entries, 2), "15. first\n16. second\n");
    assert_eq!(queue_lines(&vec!["current".to_string()], 0), "*Nothing*");
}

#[test]
fn cleanup_delays_sort_ascending() {
    assert_eq!(sort_delays(&vec![5, 1, 3]), vec![1, 3, 5]);
    assert_eq!(sort_delays(&vec![2, 2, 1]), vec![1, 2, 2]);
    assert_eq!(sort_delays(&vec![]), Vec::<u64>::new());
}

#[test]
fn cleanup_waits_are_the_gaps_between_delays() {
    assert_eq!(wait_increments(&vec![1, 3, 5]), vec![1, 2, 2]);
    assert_eq!(wait_increments(&vec![10]), vec![10]);
    assert_eq!(wait_increments(&vec![]), Vec::<u64>::new());
}

#[test]
fn idle_timeouts_follow_the_player_channel() {
    // Leaving the player's channel with nobody left schedules a disconnect.
    assert_eq!(
        afk_timeout_action(false, Some(4), None, Some(4), Some(0)),
        AfkAction::ScheduleDisconnect
    );
    // Listeners remain: nothing happens.
    assert_eq!(afk_timeout_action(false, Some(4), None, Some(4), Some(2)), AfkAction::Nothing);
    // Leaving a different channel: nothing happens.
    assert_eq!(afk_timeout_action(false, Some(3), None, Some(4), Some(0)), AfkAction::Nothing);
    // Joining the player's channel cancels a pending disconnect.
    assert_eq!(afk_timeout_action(false, None, Some(4), Some(4), None), AfkAction::CancelTimeout);
    // The player's own updates are ignored.
    assert_eq!(
        afk_timeout_action(true, Some(4), None, Some(4), Some(0)),
        AfkAction::Nothing
    );
}

#[test]
fn voice_channel_decisions() {
    assert!(same_voice_channel_decision(Some(5), Some(5)));
    assert!(!same_voice_channel_decision(Some(5), Some(6)));
    assert!(!same_voice_channel_decision(None, Some(6)));
    assert!(!same_voice_channel_decision(Some(5), None));

    assert!(!should_move_channels_decision(None, Some(1), Some(0)));
    assert!(should_move_channels_decision(Some(1), None, None));
    assert!(!should_move_channels_decision(Some(1), Some(2), None));
    assert!(should_move_channels_decision(Some(1), Some(2), Some(0)));
    assert!(!should_move_channels_decision(Some(1), Some(2), Some(3)));
    assert!(should_move_channels_decision(Some(2), Some(2), Some(3)));
}
