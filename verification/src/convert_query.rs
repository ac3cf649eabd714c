use vstd::prelude::*;

use crate::api_integration::spotify::SpotifyTrackData;
use crate::api_integration::youtube::YouTubeError;
use crate::api_integration::spotify::SpotifyError;
use crate::lazy_queued::LazyQueued;
use crate::metadata::{TrackMetadata, UserMetadata, VideoMetadata};
use crate::scrapers::youtube::YoutubeScrapeError;
use crate::text::{
    chars_eq, chars_of, find_sub, join_with, lemma_spec_find_bounds, spec_find, spec_join,
    spec_split_char, split_char, string_of, sub_chars,
};

verus! {

/// What a user's query names once a link is taken apart: a video, one of
/// three collection kinds, or plain search text.
#[derive(Debug, PartialEq, Eq)]
pub enum MediaType {
    YouTubeVideo { video_id: String },
    YouTubePlaylist { playlist_id: String },
    SpotifyTrack { track_id: String },
    SpotifyPlaylist { playlist_id: String },
    SpotifyAlbum { album_id: String },
    Search { query: String },
}

/// Why a link could not be taken apart: which part was missing or invalid.
#[derive(Debug, PartialEq, Eq)]
pub enum MediaTypeError {
    UnsupportedDomain { domain: String },
    UrlYouTubeLongInvalid { url: String },
    UrlYouTubeShortInvalid { url: String },
    UrlSpotifyArgumentsInvalid { url: String },
    UrlSpotifyContentTypeMissing { url: String },
    UrlSpotifyIdMissing { url: String },
    UrlSpotifyContentTypeInvalid { url: String },
    EpisodesUnsupported,
    DomainMissing,
}

/// The pieces of a parsed absolute URL that link dispatch reads, and the
/// URL's own normalized text, which error reports carry.
#[derive(Debug, PartialEq, Eq)]
pub struct UrlParts {
    pub domain: Option<String>,
    pub path: String,
    pub query: Option<String>,
    pub serialized: String,
}

/// Whether the text is a syntactically valid absolute URL.
pub uninterp spec fn url_parses(s: Seq<char>) -> bool;

/// The domain name of a valid URL, where its host is a domain at all.
pub uninterp spec fn url_domain_of(s: Seq<char>) -> Option<Seq<char>>;

/// The path of a valid URL.
pub uninterp spec fn url_path_of(s: Seq<char>) -> Seq<char>;

/// The raw query text of a valid URL, without its question mark.
pub uninterp spec fn url_query_of(s: Seq<char>) -> Option<Seq<char>>;

/// The normalized text a valid URL serializes back to.
pub uninterp spec fn url_serialized_of(s: Seq<char>) -> Seq<char>;

/// Relies on url::Url::parse, its domain, path and query accessors, and
/// its serialization (Url::as_str): a syntactically valid absolute URL is
/// taken apart into those pieces, each a function of the input text alone.
#[verifier::external_body]
fn parse_url(s: &str) -> (r: Option<UrlParts>)
    ensures
        r is Some <==> url_parses(s@),
        r matches Some(p) ==> p.domain.deep_view() == url_domain_of(s@) && p.path@ == url_path_of(
            s@,
        ) && p.query.deep_view() == url_query_of(s@) && p.serialized@ == url_serialized_of(s@),
{
    match url::Url::parse(s) {
        Ok(u) => {
            let domain = match u.domain() {
                Some(d) => Some(d.to_string()),
                None => None,
            };
            let query = match u.query() {
                Some(q) => Some(q.to_string()),
                None => None,
            };
            let serialized = u.as_str().to_string();
            Some(UrlParts { domain, path: u.path().to_string(), query, serialized })
        },
        Err(_) => None,
    }
}

/// A raw query pair: the key before the first equals sign, the value after
/// it — the whole text and an empty value where there is none.
pub open spec fn spec_pair_of(p: Seq<char>) -> (Seq<char>, Seq<char>) {
    match spec_find(p, "="@, 0) {
        None => (p, Seq::<char>::empty()),
        Some(i) => (p.subrange(0, i), p.subrange(i + 1, p.len() as int)),
    }
}

/// The value of the first pair with the given key.
pub open spec fn spec_find_param(pairs: Seq<Seq<char>>, key: Seq<char>) -> Option<Seq<char>>
    decreases pairs.len(),
{
    if pairs.len() == 0 {
        None
    } else if spec_pair_of(pairs[0]).0 == key {
        Some(spec_pair_of(pairs[0]).1)
    } else {
        spec_find_param(pairs.subrange(1, pairs.len() as int), key)
    }
}

/// The value of the first query pair with the given key, if the URL has a
/// query at all.
pub open spec fn spec_query_param(q: Option<Seq<char>>, key: Seq<char>) -> Option<Seq<char>> {
    match q {
        None => None,
        Some(qs) => spec_find_param(spec_split_char(qs, '&'), key),
    }
}

fn pair_of(p: &Vec<char>) -> (r: (Vec<char>, Vec<char>))
    ensures
        r.0@ == spec_pair_of(p@).0,
        r.1@ == spec_pair_of(p@).1,
{
    let eq_pat = chars_of("=");
    match find_sub(p, &eq_pat, 0) {
        None => (sub_chars(p, 0, p.len()), Vec::new()),
        Some(i) => {
            proof {
                lemma_spec_find_bounds(p@, eq_pat@, 0);
                reveal_strlit("=");
                assert(eq_pat@.len() == 1);
                assert(p@.len() <= usize::MAX) by {
                    assert(p.len() == p@.len());
                }
            }
            (sub_chars(p, 0, i), sub_chars(p, i + 1, p.len()))
        },
    }
}

/// Looks up the first query pair with the given key.
fn query_param(q: &Option<String>, key: &Vec<char>) -> (r: Option<String>)
    ensures
        r is Some <==> spec_query_param(q.deep_view(), key@) is Some,
        r matches Some(v) ==> spec_query_param(q.deep_view(), key@) == Some(v@),
{
    let qs = match q {
        None => {
            return None;
        },
        Some(qs) => qs,
    };
    let cs = chars_of(qs.as_str());
    let pairs = split_char(&cs, '&');
    let ghost ps = pairs.deep_view();
    let mut k: usize = 0;
    proof {
        assert(ps.subrange(0, ps.len() as int) =~~= ps);
    }
    while k < pairs.len()
        invariant
            k <= pairs@.len(),
            ps == pairs.deep_view(),
            ps == spec_split_char(qs@, '&'),
            q.deep_view() == Some(qs@),
            spec_find_param(ps, key@) == spec_find_param(ps.subrange(k as int, ps.len() as int), key@),
        decreases pairs@.len() - k,
    {
        let ghost suffix = ps.subrange(k as int, ps.len() as int);
        proof {
            assert(suffix[0] == ps[k as int]);
            assert(ps[k as int] == pairs@[k as int]@);
        }
        let (pk, pv) = pair_of(&pairs[k]);
        if chars_eq(&pk, key) {
            return Some(string_of(&pv));
        }
        proof {
            assert(suffix.subrange(1, suffix.len() as int) =~~= ps.subrange(
                k + 1,
                ps.len() as int,
            ));
        }
        k = k + 1;
    }
    proof {
        assert(ps.subrange(ps.len() as int, ps.len() as int) =~~= Seq::<Seq<char>>::empty());
    }
    None
}

/// The path split into segments, where the path marks a hierarchical URL
/// by its leading slash.
pub open spec fn spec_segments(path: Seq<char>) -> Option<Seq<Seq<char>>> {
    if path.len() >= 1 && path[0] == '/' {
        Some(spec_split_char(path.subrange(1, path.len() as int), '/'))
    } else {
        None
    }
}

// Spec shapes of `extract_media_type` results, one per outcome.
pub open spec fn is_search_result(r: Result<MediaType, MediaTypeError>, q: Seq<char>) -> bool {
    r matches Ok(m) && (m matches MediaType::Search { query } && query@ == q)
}

pub open spec fn is_video_result(r: Result<MediaType, MediaTypeError>, v: Seq<char>) -> bool {
    r matches Ok(m) && (m matches MediaType::YouTubeVideo { video_id } && video_id@ == v)
}

pub open spec fn is_yt_playlist_result(r: Result<MediaType, MediaTypeError>, l: Seq<char>) -> bool {
    r matches Ok(m) && (m matches MediaType::YouTubePlaylist { playlist_id } && playlist_id@ == l)
}

pub open spec fn is_sp_track_result(r: Result<MediaType, MediaTypeError>, id: Seq<char>) -> bool {
    r matches Ok(m) && (m matches MediaType::SpotifyTrack { track_id } && track_id@ == id)
}

pub open spec fn is_sp_playlist_result(r: Result<MediaType, MediaTypeError>, id: Seq<char>) -> bool {
    r matches Ok(m) && (m matches MediaType::SpotifyPlaylist { playlist_id } && playlist_id@ == id)
}

pub open spec fn is_sp_album_result(r: Result<MediaType, MediaTypeError>, id: Seq<char>) -> bool {
    r matches Ok(m) && (m matches MediaType::SpotifyAlbum { album_id } && album_id@ == id)
}

pub open spec fn is_err_unsupported_domain(
    r: Result<MediaType, MediaTypeError>,
    d: Seq<char>,
) -> bool {
    r matches Err(e) && (e matches MediaTypeError::UnsupportedDomain { domain } && domain@ == d)
}

pub open spec fn is_err_yt_long(r: Result<MediaType, MediaTypeError>, u: Seq<char>) -> bool {
    r matches Err(e) && (e matches MediaTypeError::UrlYouTubeLongInvalid { url } && url@ == u)
}

pub open spec fn is_err_yt_short(r: Result<MediaType, MediaTypeError>, u: Seq<char>) -> bool {
    r matches Err(e) && (e matches MediaTypeError::UrlYouTubeShortInvalid { url } && url@ == u)
}

pub open spec fn is_err_sp_args(r: Result<MediaType, MediaTypeError>, u: Seq<char>) -> bool {
    r matches Err(e) && (e matches MediaTypeError::UrlSpotifyArgumentsInvalid { url } && url@ == u)
}

pub open spec fn is_err_sp_ct_missing(r: Result<MediaType, MediaTypeError>, u: Seq<char>) -> bool {
    r matches Err(e) && (e matches MediaTypeError::UrlSpotifyContentTypeMissing { url } && url@
        == u)
}

pub open spec fn is_err_sp_id_missing(r: Result<MediaType, MediaTypeError>, u: Seq<char>) -> bool {
    r matches Err(e) && (e matches MediaTypeError::UrlSpotifyIdMissing { url } && url@ == u)
}

pub open spec fn is_err_sp_ct_invalid(r: Result<MediaType, MediaTypeError>, u: Seq<char>) -> bool {
    r matches Err(e) && (e matches MediaTypeError::UrlSpotifyContentTypeInvalid { url } && url@
        == u)
}

/// The long and short video-site domains, and the catalog domain.
pub open spec fn is_yt_long_domain(d: Seq<char>) -> bool {
    d == "www.youtube.com"@ || d == "youtube.com"@
}

pub open spec fn is_yt_short_domain(d: Seq<char>) -> bool {
    d == "www.youtu.be"@ || d == "youtu.be"@
}

pub open spec fn is_spotify_domain(d: Seq<char>) -> bool {
    d == "open.spotify.com"@ || d == "www.open.spotify.com"@
}

/// What dispatching a query must yield, given how the URL names break it
/// apart. Text that is no URL is search text; a recognized domain is read
/// for a video, playlist, track or album id; anything else is rejected
/// with the part that was missing or invalid. Error values carry the URL's
/// normalized text.
pub open spec fn extract_media_type_post(
    r: Result<MediaType, MediaTypeError>,
    q: Seq<char>,
) -> bool {
    if !url_parses(q) {
        is_search_result(r, q)
    } else {
        match url_domain_of(q) {
            None => r == Err::<MediaType, MediaTypeError>(MediaTypeError::DomainMissing),
            Some(d) => if is_yt_long_domain(d) {
                match spec_query_param(url_query_of(q), "v"@) {
                    Some(v) => is_video_result(r, v),
                    None => match spec_query_param(url_query_of(q), "list"@) {
                        Some(l) => is_yt_playlist_result(r, l),
                        None => is_err_yt_long(r, url_serialized_of(q)),
                    },
                }
            } else if is_yt_short_domain(d) {
                ({
                    let path = url_path_of(q);
                    if path.len() >= 1 && path[0] == '/' {
                        is_video_result(r, path.subrange(1, path.len() as int))
                    } else {
                        is_err_yt_short(r, url_serialized_of(q))
                    }
                })
            } else if is_spotify_domain(d) {
                match spec_segments(url_path_of(q)) {
                    None => is_err_sp_args(r, url_serialized_of(q)),
                    Some(segs) => if segs.len() == 0 {
                        is_err_sp_ct_missing(r, url_serialized_of(q))
                    } else if segs.len() < 2 {
                        is_err_sp_id_missing(r, url_serialized_of(q))
                    } else if segs[0] == "track"@ {
                        is_sp_track_result(r, segs[1])
                    } else if segs[0] == "playlist"@ {
                        is_sp_playlist_result(r, segs[1])
                    } else if segs[0] == "album"@ {
                        is_sp_album_result(r, segs[1])
                    } else if segs[0] == "episode"@ {
                        r == Err::<MediaType, MediaTypeError>(MediaTypeError::EpisodesUnsupported)
                    } else {
                        is_err_sp_ct_invalid(r, url_serialized_of(q))
                    },
                }
            } else {
                is_err_unsupported_domain(r, d)
            },
        }
    }
}

/// Breaks a user's query apart: a recognized link names a video, playlist,
/// track or album; unrecognizable text is treated as search text, never as
/// an error.
pub fn extract_media_type(query: &str) -> (r: Result<MediaType, MediaTypeError>)
    ensures
        extract_media_type_post(r, query@),
{
    let parts = match parse_url(query) {
        None => {
            return Ok(MediaType::Search { query: query.to_owned() });
        },
        Some(parts) => parts,
    };
    let domain = match &parts.domain {
        None => {
            return Err(MediaTypeError::DomainMissing);
        },
        Some(d) => d,
    };
    if crate::text::str_eq(domain.as_str(), "www.youtube.com") || crate::text::str_eq(
        domain.as_str(),
        "youtube.com",
    ) {
        let v_key = chars_of("v");
        if let Some(video_id) = query_param(&parts.query, &v_key) {
            return Ok(MediaType::YouTubeVideo { video_id });
        }
        let list_key = chars_of("list");
        if let Some(playlist_id) = query_param(&parts.query, &list_key) {
            return Ok(MediaType::YouTubePlaylist { playlist_id });
        }
        return Err(MediaTypeError::UrlYouTubeLongInvalid { url: parts.serialized.clone() });
    }
    if crate::text::str_eq(domain.as_str(), "www.youtu.be") || crate::text::str_eq(
        domain.as_str(),
        "youtu.be",
    ) {
        let path = chars_of(parts.path.as_str());
        if path.len() >= 1 && path[0] == '/' {
            let id = sub_chars(&path, 1, path.len());
            return Ok(MediaType::YouTubeVideo { video_id: string_of(&id) });
        }
        return Err(MediaTypeError::UrlYouTubeShortInvalid { url: parts.serialized.clone() });
    }
    if crate::text::str_eq(domain.as_str(), "open.spotify.com") || crate::text::str_eq(
        domain.as_str(),
        "www.open.spotify.com",
    ) {
        let path = chars_of(parts.path.as_str());
        if !(path.len() >= 1 && path[0] == '/') {
            return Err(MediaTypeError::UrlSpotifyArgumentsInvalid { url: parts.serialized.clone() });
        }
        let tail = sub_chars(&path, 1, path.len());
        let segments = split_char(&tail, '/');
        if segments.len() == 0 {
            return Err(MediaTypeError::UrlSpotifyContentTypeMissing { url: parts.serialized.clone() });
        }
        if segments.len() < 2 {
            return Err(MediaTypeError::UrlSpotifyIdMissing { url: parts.serialized.clone() });
        }
        let content_type = &segments[0];
        let id = string_of(&segments[1]);
        proof {
            let segs = spec_segments(url_path_of(query@))->Some_0;
            assert(segs == segments.deep_view());
            assert(segments.deep_view()[0] == segments@[0]@);
            assert(segments.deep_view()[1] == segments@[1]@);
        }
        if chars_eq(content_type, &chars_of("track")) {
            return Ok(MediaType::SpotifyTrack { track_id: id });
        }
        if chars_eq(content_type, &chars_of("playlist")) {
            return Ok(MediaType::SpotifyPlaylist { playlist_id: id });
        }
        if chars_eq(content_type, &chars_of("album")) {
            return Ok(MediaType::SpotifyAlbum { album_id: id });
        }
        if chars_eq(content_type, &chars_of("episode")) {
            return Err(MediaTypeError::EpisodesUnsupported);
        }
        return Err(MediaTypeError::UrlSpotifyContentTypeInvalid { url: parts.serialized.clone() });
    }
    Err(MediaTypeError::UnsupportedDomain { domain: domain.clone() })
}

/// A failure anywhere along query conversion: the stage that failed.
#[derive(Debug, PartialEq, Eq)]
pub enum ConversionError {
    Youtube(YouTubeError),
    Spotify(SpotifyError),
    MediaType(MediaTypeError),
    YoutubeScrape(YoutubeScrapeError),
    RustyYtdl,
    NoVideoFormat,
}

/// A ready-to-enqueue entry: the lazily restartable input and its resolved
/// display record.
#[derive(Debug, PartialEq, Eq)]
pub struct MetaInput {
    pub queued: LazyQueued,
    pub track_metadata: TrackMetadata,
}

/// A deferred entry: the lazily restartable input, the search text it will
/// be resolved from, and who asked for it.
#[derive(Debug, PartialEq, Eq)]
pub struct PendingMetaInput {
    pub queued: LazyQueued,
    pub query: String,
    pub added_by: UserMetadata,
}

/// What a converted query yields: one live video, a list of live entries,
/// or a list of deferred entries resolved later one by one.
#[derive(Debug, PartialEq, Eq)]
pub enum ConvertedQuery {
    LiveVideo(MetaInput),
    LivePlaylist(Vec<MetaInput>),
    PendingPlaylist(Vec<PendingMetaInput>),
}

/// The search text a catalog track is found under: its title and artists.
pub open spec fn spec_track_query(t: SpotifyTrackData) -> Seq<char> {
    t.title@ + " by "@ + spec_join(t.artists.deep_view(), ", "@)
}

/// Composes the search text a catalog track is looked up by.
pub fn track_search_query(t: &SpotifyTrackData) -> (r: String)
    ensures
        r@ == spec_track_query(*t),
{
    let mut q = t.title.clone();
    q.append(" by ");
    let artists = join_with(&t.artists, ", ");
    q.append(artists.as_str());
    proof {
        assert(q@ =~= spec_track_query(*t));
    }
    q
}

/// Wraps one resolved video for the queue: the entry restarts from its
/// metadata, and the display record pairs it with its requester.
pub fn convert_live_video(video_metadata: VideoMetadata, added_by: UserMetadata) -> (r:
    ConvertedQuery)
    ensures
        r matches ConvertedQuery::LiveVideo(mi) && mi.queued == (LazyQueued::Metadata {
            metadata: video_metadata,
        }) && mi.track_metadata == (TrackMetadata { video_metadata, added_by }),
{
    let queued = LazyQueued::Metadata { metadata: video_metadata.clone() };
    ConvertedQuery::LiveVideo(MetaInput {
        queued,
        track_metadata: TrackMetadata { video_metadata, added_by },
    })
}

/// Holds of one assembled live playlist entry.
pub open spec fn live_entry_ok(mi: MetaInput, v: VideoMetadata, u: UserMetadata) -> bool {
    mi.queued == (LazyQueued::Metadata { metadata: v }) && mi.track_metadata == (TrackMetadata {
        video_metadata: v,
        added_by: u,
    })
}

/// Wraps a resolved playlist for the queue, entry by entry, every one
/// attributed to the same requester.
pub fn convert_live_playlist(videos: &Vec<VideoMetadata>, added_by: &UserMetadata) -> (r:
    ConvertedQuery)
    ensures
        r matches ConvertedQuery::LivePlaylist(mis) && mis@.len() == videos@.len() && (forall|
            i: int,
        |
            0 <= i < videos@.len() ==> live_entry_ok(#[trigger] mis@[i], videos@[i], *added_by)),
{
    let mut mis: Vec<MetaInput> = Vec::new();
    let mut i: usize = 0;
    while i < videos.len()
        invariant
            i <= videos@.len(),
            mis@.len() == i,
            forall|k: int| 0 <= k < i ==> live_entry_ok(#[trigger] mis@[k], videos@[k], *added_by),
        decreases videos@.len() - i,
    {
        let video_metadata = videos[i].clone();
        let queued = LazyQueued::Metadata { metadata: video_metadata.clone() };
        mis.push(MetaInput {
            queued,
            track_metadata: TrackMetadata { video_metadata, added_by: added_by.clone() },
        });
        i = i + 1;
    }
    ConvertedQuery::LivePlaylist(mis)
}

/// Holds of one assembled deferred playlist entry.
pub open spec fn pending_entry_ok(p: PendingMetaInput, t: SpotifyTrackData, u: UserMetadata) -> bool {
    &&& p.queued matches LazyQueued::Query { query } && query@ == spec_track_query(t)
    &&& p.query@ == spec_track_query(t)
    &&& p.added_by == u
}

/// Wraps a catalog collection for the queue as deferred entries: each track
/// becomes a search text to be resolved on demand, so one command costs one
/// batch lookup instead of one lookup per track.
pub fn convert_pending_playlist(tracks: &Vec<SpotifyTrackData>, added_by: &UserMetadata) -> (r:
    ConvertedQuery)
    ensures
        r matches ConvertedQuery::PendingPlaylist(ps) && ps@.len() == tracks@.len() && (forall|
            i: int,
        |
            0 <= i < tracks@.len() ==> pending_entry_ok(#[trigger] ps@[i], tracks@[i], *added_by)),
{
    let mut ps: Vec<PendingMetaInput> = Vec::new();
    let mut i: usize = 0;
    while i < tracks.len()
        invariant
            i <= tracks@.len(),
            ps@.len() == i,
            forall|k: int|
                0 <= k < i ==> pending_entry_ok(#[trigger] ps@[k], tracks@[k], *added_by),
        decreases tracks@.len() - i,
    {
        let query = track_search_query(&tracks[i]);
        let queued = LazyQueued::Query { query: query.clone() };
        ps.push(PendingMetaInput { queued, query, added_by: added_by.clone() });
        i = i + 1;
    }
    ConvertedQuery::PendingPlaylist(ps)
}

} // verus!
