use vstd::prelude::*;

verus! {

/// What a catalog track contributes to a search: its title and artists.
#[derive(Debug, Clone, PartialEq, Eq)]
pub struct SpotifyTrackData {
    pub title: String,
    pub artists: Vec<String>,
}

/// Why a catalog lookup failed: an API or id error, an empty or private
/// collection, an unsupported episode entry, or missing credentials.
#[derive(Debug, PartialEq, Eq)]
pub enum SpotifyError {
    EmptyPlaylist,
    Api,
    Id,
    EnvVarsMissing { vars: Vec<String> },
    EpisodesUnsupported,
    PlaylistPrivate,
}

/// One entry of a playlist as the catalog reports it: a track, or an
/// episode this player does not support.
#[derive(Debug, PartialEq, Eq)]
pub enum PlayableEntry {
    Track(SpotifyTrackData),
    Episode,
}

/// The tracks of a playlist's present entries, in order.
pub open spec fn spec_playlist_tracks(items: Seq<Option<PlayableEntry>>) -> Seq<SpotifyTrackData>
    decreases items.len(),
{
    if items.len() == 0 {
        Seq::empty()
    } else {
        spec_playlist_tracks(items.drop_last()) + (match items.last() {
            Some(PlayableEntry::Track(t)) => seq![t],
            _ => Seq::empty(),
        })
    }
}

/// True when some entry of the playlist is an episode.
pub open spec fn spec_has_episode(items: Seq<Option<PlayableEntry>>) -> bool {
    exists|i: int|
        0 <= i < items.len() && (#[trigger] items[i]) matches Some(PlayableEntry::Episode)
}

/// Collects the track data of a fetched playlist: entries without a track
/// are skipped, any episode rejects the whole playlist, and a playlist
/// without a single track is rejected as empty.
pub fn collect_playlist_tracks(items: Vec<Option<PlayableEntry>>) -> (r: Result<
    Vec<SpotifyTrackData>,
    SpotifyError,
>)
    ensures
        spec_has_episode(items@) ==> r == Err::<Vec<SpotifyTrackData>, SpotifyError>(
            SpotifyError::EpisodesUnsupported,
        ),
        !spec_has_episode(items@) && spec_playlist_tracks(items@).len() == 0 ==> r == Err::<
            Vec<SpotifyTrackData>,
            SpotifyError,
        >(SpotifyError::EmptyPlaylist),
        !spec_has_episode(items@) && spec_playlist_tracks(items@).len() > 0 ==> (r matches Ok(ts)
        && ts@ == spec_playlist_tracks(items@)),
{
    let ghost orig = items@;
    let mut rest = items;
    let mut tracks: Vec<SpotifyTrackData> = Vec::new();
    let ghost mut k: int = 0;
    while rest.len() > 0
        invariant
            orig == items@,
            0 <= k <= orig.len(),
            rest@ == orig.subrange(k, orig.len() as int),
            tracks@ == spec_playlist_tracks(orig.subrange(0, k)),
            !spec_has_episode(orig.subrange(0, k)),
        decreases rest@.len(),
    {
        let it = rest.remove(0);
        proof {
            assert(it == orig[k]);
            assert(rest@ =~= orig.subrange(k + 1, orig.len() as int));
        }
        match it {
            Some(PlayableEntry::Track(t)) => {
                tracks.push(t);
            },
            Some(PlayableEntry::Episode) => {
                proof {
                    assert(0 <= k < orig.len());
                    assert((#[trigger] orig[k]) matches Some(PlayableEntry::Episode));
                    assert(spec_has_episode(orig));
                }
                return Err(SpotifyError::EpisodesUnsupported);
            },
            None => {},
        }
        proof {
            k = k + 1;
            assert(orig.subrange(0, k).drop_last() =~= orig.subrange(0, k - 1));
            assert(tracks@ =~= spec_playlist_tracks(orig.subrange(0, k)));
            assert forall|j: int| 0 <= j < k implies !((#[trigger] orig.subrange(0, k)[j])
                matches Some(PlayableEntry::Episode)) by {
                assert(orig.subrange(0, k)[j] == orig[j]);
            }
        }
    }
    proof {
        assert(orig.subrange(0, orig.len() as int) =~= orig);
    }
    if tracks.len() == 0 {
        return Err(SpotifyError::EmptyPlaylist);
    }
    Ok(tracks)
}

/// Passes a fetched album's tracks through, rejecting an empty album.
pub fn collect_album_tracks(items: Vec<SpotifyTrackData>) -> (r: Result<
    Vec<SpotifyTrackData>,
    SpotifyError,
>)
    ensures
        items@.len() == 0 ==> r == Err::<Vec<SpotifyTrackData>, SpotifyError>(
            SpotifyError::EmptyPlaylist,
        ),
        items@.len() > 0 ==> (r matches Ok(ts) && ts == items),
{
    if items.len() == 0 {
        return Err(SpotifyError::EmptyPlaylist);
    }
    Ok(items)
}

/// How a failed collection fetch is reported: a not-found status means the
/// collection is private, anything else is an API failure.
pub fn classify_fetch_error(status: Option<u16>) -> (r: SpotifyError)
    ensures
        status == Some(404u16) ==> r == SpotifyError::PlaylistPrivate,
        status != Some(404u16) ==> r == SpotifyError::Api,
{
    match status {
        Some(s) => if s == 404 {
            SpotifyError::PlaylistPrivate
        } else {
            SpotifyError::Api
        },
        None => SpotifyError::Api,
    }
}

} // verus!
