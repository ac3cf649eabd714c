use vstd::prelude::*;

use crate::metadata::{AudioSource, VideoMetadata};
use crate::text::{join_with, spec_join};

verus! {

/// Why a video lookup failed: a field the API left out, an unreadable
/// duration, an empty playlist, an API failure, or missing credentials.
#[derive(Debug, PartialEq, Eq)]
pub enum YouTubeError {
    MissingValue { value: String },
    DurationString { duration_string: String },
    EmptyPlaylist,
    Api,
    EnvVarsMissing { vars: Vec<String> },
    OAuth,
}

/// The slice of a listed video's snippet this player reads.
#[derive(Debug, PartialEq, Eq)]
pub struct VideoSnippet {
    pub title: Option<String>,
}

/// The slice of a listed video's content details this player reads.
#[derive(Debug, PartialEq, Eq)]
pub struct VideoContentDetails {
    pub duration: Option<String>,
}

/// A listed video as the API reports it: every field may be absent.
#[derive(Debug, PartialEq, Eq)]
pub struct VideoRecord {
    pub id: Option<String>,
    pub snippet: Option<VideoSnippet>,
    pub content_details: Option<VideoContentDetails>,
}

/// The number of whole seconds an ISO 8601 duration text names, or nothing
/// where the text is no such duration.
pub uninterp spec fn spec_iso8601_secs(s: Seq<char>) -> Option<u64>;

/// Relies on iso8601::Duration's FromStr parse and its conversion to a core
/// duration: the seconds an ISO 8601 duration text names, a function of the
/// text alone.
#[verifier::external_body]
fn parse_iso8601_secs(s: &str) -> (r: Option<u64>)
    ensures
        r == spec_iso8601_secs(s@),
{
    match <iso8601::Duration as core::str::FromStr>::from_str(s) {
        Ok(d) => Some(core::time::Duration::from(d).as_secs()),
        Err(_) => None,
    }
}

/// True when a listed video carries everything a metadata record needs.
pub open spec fn video_ok(v: VideoRecord) -> bool {
    &&& v.content_details matches Some(cd) && cd.duration matches Some(d) && spec_iso8601_secs(d@)
        is Some
    &&& v.snippet matches Some(s) && s.title is Some
    &&& v.id is Some
}

/// The metadata record a complete listed video yields.
pub open spec fn video_meta_matches(v: VideoRecord, m: VideoMetadata) -> bool {
    &&& (match v.snippet {
        Some(s) => s.title matches Some(t) && m.title == t,
        None => false,
    })
    &&& (match v.content_details {
        Some(cd) => cd.duration matches Some(d) && spec_iso8601_secs(d@) == Some(m.duration),
        None => false,
    })
    &&& (match v.id {
        Some(id) => m.audio_source == (AudioSource::YouTube { video_id: id }),
        None => false,
    })
}

/// The error an incomplete listed video is reported with: the first absent
/// field in reading order, or the unreadable duration text itself.
pub open spec fn video_error_matches(v: VideoRecord, e: YouTubeError) -> bool {
    match e {
        YouTubeError::MissingValue { value } => {
            ||| (value@ == "content_details"@ && v.content_details is None)
            ||| (value@ == "snippet"@ && v.content_details is Some && v.snippet is None)
            ||| (value@ == "title"@ && v.content_details is Some && (v.snippet matches Some(s)
                && s.title is None))
            ||| (value@ == "id"@ && v.content_details is Some && (v.snippet matches Some(s)
                && s.title is Some) && v.id is None)
            ||| (value@ == "duration"@ && (v.content_details matches Some(cd) && cd.duration
                is None) && (v.snippet matches Some(s) && s.title is Some) && v.id is Some)
        },
        YouTubeError::DurationString { duration_string } => (v.content_details matches Some(cd)
            && cd.duration matches Some(d) && duration_string@ == d@ && spec_iso8601_secs(d@)
            is None) && (v.snippet matches Some(s) && s.title is Some) && v.id is Some,
        _ => false,
    }
}

/// Turns one listed video into a metadata record, naming the first field
/// the API left out, or carrying an unreadable duration text.
pub fn video_to_metadata(video: &VideoRecord) -> (r: Result<VideoMetadata, YouTubeError>)
    ensures
        r matches Ok(m) ==> video_ok(*video) && video_meta_matches(*video, m),
        r is Err ==> !video_ok(*video),
        r matches Err(e) ==> video_error_matches(*video, e),
{
    let content_details = match &video.content_details {
        Some(cd) => cd,
        None => {
            return Err(YouTubeError::MissingValue { value: String::from_str("content_details") });
        },
    };
    let snippet = match &video.snippet {
        Some(s) => s,
        None => {
            return Err(YouTubeError::MissingValue { value: String::from_str("snippet") });
        },
    };
    let title = match &snippet.title {
        Some(t) => t.clone(),
        None => {
            return Err(YouTubeError::MissingValue { value: String::from_str("title") });
        },
    };
    let video_id = match &video.id {
        Some(id) => id.clone(),
        None => {
            return Err(YouTubeError::MissingValue { value: String::from_str("id") });
        },
    };
    let duration_string = match &content_details.duration {
        Some(d) => d.clone(),
        None => {
            return Err(YouTubeError::MissingValue { value: String::from_str("duration") });
        },
    };
    let duration = match parse_iso8601_secs(duration_string.as_str()) {
        Some(d) => d,
        None => {
            return Err(YouTubeError::DurationString { duration_string });
        },
    };
    Ok(VideoMetadata { title, duration, audio_source: AudioSource::YouTube { video_id } })
}

/// The position of the first listed video that cannot be converted.
pub open spec fn spec_first_bad_video(vs: Seq<VideoRecord>, i: int) -> Option<int>
    decreases vs.len() - i,
{
    if i < 0 || i >= vs.len() {
        None
    } else if !video_ok(vs[i]) {
        Some(i)
    } else {
        spec_first_bad_video(vs, i + 1)
    }
}

/// Turns a whole listing into metadata records, stopping at the first video
/// that cannot be converted and reporting that video's own error.
pub fn videos_to_metadata(videos: &Vec<VideoRecord>) -> (r: Result<Vec<VideoMetadata>, YouTubeError>)
    ensures
        r matches Ok(ms) ==> ms@.len() == videos@.len() && (forall|i: int|
            0 <= i < videos@.len() ==> video_meta_matches(#[trigger] videos@[i], ms@[i])),
        r matches Err(e) ==> (spec_first_bad_video(videos@, 0) matches Some(i)
        && video_error_matches(videos@[i], e)),
        (forall|i: int| 0 <= i < videos@.len() ==> video_ok(#[trigger] videos@[i])) ==> r is Ok,
{
    let mut ms: Vec<VideoMetadata> = Vec::new();
    let mut i: usize = 0;
    while i < videos.len()
        invariant
            i <= videos@.len(),
            ms@.len() == i,
            spec_first_bad_video(videos@, 0) == spec_first_bad_video(videos@, i as int),
            forall|k: int| 0 <= k < i ==> video_meta_matches(#[trigger] videos@[k], ms@[k]),
            forall|k: int| 0 <= k < i ==> video_ok(#[trigger] videos@[k]),
        decreases videos@.len() - i,
    {
        match video_to_metadata(&videos[i]) {
            Ok(m) => {
                ms.push(m);
            },
            Err(e) => {
                return Err(e);
            },
        }
        i = i + 1;
    }
    Ok(ms)
}

/// One entry of a listed playlist: the content details may be absent, and
/// so may the video id inside them.
#[derive(Debug, PartialEq, Eq)]
pub struct PlaylistItemDetails {
    pub video_id: Option<String>,
}

/// One entry of a listed playlist as the API reports it.
#[derive(Debug, PartialEq, Eq)]
pub struct PlaylistItem {
    pub content_details: Option<PlaylistItemDetails>,
}

/// True when a playlist entry names its video.
pub open spec fn playlist_item_ok(it: PlaylistItem) -> bool {
    it.content_details matches Some(cd) && cd.video_id is Some
}

/// The video id a complete playlist entry names.
pub open spec fn playlist_item_id(it: PlaylistItem) -> Seq<char> {
    match it.content_details {
        Some(cd) => match cd.video_id {
            Some(v) => v@,
            None => Seq::empty(),
        },
        None => Seq::empty(),
    }
}

/// The position of the first playlist entry without a video id.
pub open spec fn spec_first_bad_item(its: Seq<PlaylistItem>, i: int) -> Option<int>
    decreases its.len() - i,
{
    if i < 0 || i >= its.len() {
        None
    } else if !playlist_item_ok(its[i]) {
        Some(i)
    } else {
        spec_first_bad_item(its, i + 1)
    }
}

/// The error an incomplete playlist entry is reported with: the layer that
/// was absent, in reading order.
pub open spec fn playlist_item_error_matches(it: PlaylistItem, e: YouTubeError) -> bool {
    match e {
        YouTubeError::MissingValue { value } => {
            ||| (value@ == "item.content_details"@ && it.content_details is None)
            ||| (value@ == "content_details.video_id"@ && (it.content_details matches Some(cd)
                && cd.video_id is None))
        },
        _ => false,
    }
}

/// Pulls the video ids out of a listed playlist: an empty listing is
/// rejected, and the first entry without an id names the missing field.
pub fn playlist_video_ids(items: &Vec<PlaylistItem>) -> (r: Result<Vec<String>, YouTubeError>)
    ensures
        r == Err::<Vec<String>, YouTubeError>(YouTubeError::EmptyPlaylist) <==> items@.len() == 0,
        r matches Ok(ids) ==> ids@.len() == items@.len() && (forall|i: int|
            0 <= i < items@.len() ==> playlist_item_ok(#[trigger] items@[i]) && ids@[i]@
                == playlist_item_id(items@[i])),
        items@.len() > 0 && (forall|i: int|
            0 <= i < items@.len() ==> playlist_item_ok(#[trigger] items@[i])) ==> r is Ok,
        r matches Err(e) ==> (e matches YouTubeError::EmptyPlaylist || (spec_first_bad_item(
            items@,
            0,
        ) matches Some(i) && playlist_item_error_matches(items@[i], e))),
{
    if items.len() == 0 {
        return Err(YouTubeError::EmptyPlaylist);
    }
    let mut ids: Vec<String> = Vec::new();
    let mut i: usize = 0;
    while i < items.len()
        invariant
            i <= items@.len(),
            items@.len() > 0,
            ids@.len() == i,
            spec_first_bad_item(items@, 0) == spec_first_bad_item(items@, i as int),
            forall|k: int| 0 <= k < i ==> playlist_item_ok(#[trigger] items@[k]) && ids@[k]@
                == playlist_item_id(items@[k]),
        decreases items@.len() - i,
    {
        let cd = match &items[i].content_details {
            Some(cd) => cd,
            None => {
                return Err(YouTubeError::MissingValue {
                    value: String::from_str("item.content_details"),
                });
            },
        };
        match &cd.video_id {
            Some(v) => {
                ids.push(v.clone());
            },
            None => {
                return Err(YouTubeError::MissingValue {
                    value: String::from_str("content_details.video_id"),
                });
            },
        }
        i = i + 1;
    }
    Ok(ids)
}

/// Joins video ids into the comma-separated list a batched lookup takes.
pub fn join_video_ids(ids: &Vec<String>) -> (r: String)
    ensures
        r@ == spec_join(ids.deep_view(), ","@),
{
    join_with(ids, ",")
}

} // verus!
