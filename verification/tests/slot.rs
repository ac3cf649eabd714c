use diwa::lazy_queued::{stream_target, LazyQueued, RestartPlan};
use diwa::metadata::{
    AudioSource, AwakeStep, LazyMetadata, MetadataError, ResolveStep, TrackMetadataSlot,
    UserMetadata, VideoMetadata,
};
use diwa::scrapers::youtube::scrape_search_result;

fn user() -> UserMetadata {
    UserMetadata { id: 7, name: "someone".to_string(), avatar_url: None }
}

fn found_video(title: &str) -> VideoMetadata {
    VideoMetadata {
        title: title.to_string(),
        duration: 205,
        audio_source: AudioSource::YouTube { video_id: "vid42".to_string() },
    }
}

fn pending_slot(query: &str) -> TrackMetadataSlot {
    let mut slot = TrackMetadataSlot::new();
    slot.write_added_by(user());
    slot.write_query(query.to_string());
    slot
}

#[test]
fn redundant_wakeups_leave_one_consistent_state() {
    // Two racing wake-up passes: both resolve, both apply; the slot must
    // end resolved with metadata, never pending with a stale record.
    let mut slot = pending_slot("test song");
    let q1 = match slot.awake_step().unwrap() {
        AwakeStep::Search(q) => q,
        AwakeStep::AlreadyAwake => panic!("slot should be pending"),
    };
    let q2 = match slot.awake_step().unwrap() {
        AwakeStep::Search(q) => q,
        AwakeStep::AlreadyAwake => panic!("slot should still be pending"),
    };
    assert_eq!(q1, "test song");
    assert_eq!(q2, "test song");
    slot.apply_resolution(found_video("first")).unwrap();
    slot.apply_resolution(found_video("second")).unwrap();
    assert!(slot.is_awake());
    assert_eq!(slot.read_query(), None);
    let meta = slot.read_lazy_metadata().expect("resolved slot must hold metadata");
    assert_eq!(meta.video_metadata.title, "second");
    // A further wake-up pass finds nothing to do.
    assert_eq!(slot.awake_step().unwrap(), AwakeStep::AlreadyAwake);
}

#[test]
fn wakeup_without_attribution_fails_and_changes_nothing() {
    let mut slot = TrackMetadataSlot::new();
    slot.write_query("q".to_string());
    assert_eq!(slot.awake_step(), Err(MetadataError::MissingAddedBy));
    assert_eq!(slot.apply_resolution(found_video("t")), Err(MetadataError::MissingAddedBy));
    assert!(!slot.is_awake());
    assert_eq!(slot.read_lazy_metadata(), None);
}

#[test]
fn generation_without_query_reports_missing_query() {
    let slot = TrackMetadataSlot::new();
    assert_eq!(slot.generate_request(), Err(MetadataError::MissingQuery));
    assert_eq!(slot.read_or_generate_step(), Err(MetadataError::MissingQuery));
}

#[test]
fn read_through_resolves_exactly_once() {
    // A fake resolver counts its invocations: the first read-through pass
    // asks for one search, the second returns the cached record.
    let mut slot = pending_slot("test song");
    let mut resolutions: usize = 0;
    let first = match slot.read_or_generate_step().unwrap() {
        ResolveStep::NeedSearch(q) => {
            resolutions += 1;
            let video = found_video(&format!("resolved {}", q));
            slot.store_generated(video).unwrap()
        },
        ResolveStep::Ready(_) => panic!("nothing is cached yet"),
    };
    let second = match slot.read_or_generate_step().unwrap() {
        ResolveStep::Ready(meta) => meta,
        ResolveStep::NeedSearch(_) => {
            resolutions += 1;
            panic!("second pass must not resolve again")
        },
    };
    assert_eq!(resolutions, 1);
    assert_eq!(first, second);
    assert_eq!(second.video_metadata.title, "resolved test song");
}

#[test]
fn deferred_track_end_to_end() {
    // A deferred search-text entry: pending before playback; the restart
    // resolves it to a remote video, the slot becomes resolved with a
    // nonempty title, and the next restart streams that video id.
    let mut slot = pending_slot("test song");
    assert!(!slot.is_awake());

    let entry = LazyQueued::Query { query: slot.read_query().unwrap() };
    let plan = entry.restart_plan();
    let query = match plan {
        RestartPlan::SearchThenStream { query } => query,
        other => panic!("unexpected plan: {:?}", other),
    };
    assert_eq!(query, "test song");

    // The search collaborator answers with a results document.
    let doc = r#"{"videoId":"vid42","title":{"runs":[{"text":"Test Song (Official)"}]},"lengthText":{"simpleText":"3:25"}}"#;
    let found = scrape_search_result(doc).unwrap();
    let video_id = stream_target(&found);
    assert_eq!(video_id, "vid42");

    slot.apply_resolution(found).unwrap();
    assert!(slot.is_awake());
    let meta = slot.read_lazy_metadata().unwrap();
    assert!(!meta.video_metadata.title.is_empty());
    assert!(matches!(meta.video_metadata.audio_source, AudioSource::YouTube { .. }));

    // A later restart of the now-resolved entry opens a stream session for
    // exactly that video.
    let resolved_entry = LazyQueued::Metadata { metadata: meta.video_metadata };
    assert_eq!(
        resolved_entry.restart_plan(),
        RestartPlan::Stream { video_id: "vid42".to_string() }
    );
}

#[test]
fn slot_reads_and_writes_are_snapshots() {
    let mut slot = TrackMetadataSlot::new();
    assert_eq!(slot.read_added_by(), None);
    assert_eq!(slot.read_query(), None);
    assert!(slot.is_awake());
    slot.write_added_by(user());
    assert_eq!(slot.read_added_by().unwrap().name, "someone");
    slot.write_lazy_metadata(diwa::metadata::TrackMetadata {
        video_metadata: found_video("t"),
        added_by: user(),
    });
    assert_eq!(slot.read_lazy_metadata().unwrap().video_metadata.title, "t");
}
