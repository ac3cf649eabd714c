use vstd::prelude::*;

use crate::scrapers::youtube::YoutubeScrapeError;
use crate::text::{push_dec, spec_dec, string_of};
use crate::utils::{format_duration, spec_duration_base, spec_format_duration};

verus! {

/// Where the bytes of a track come from: a remote video, a local file, or a
/// clip generated on demand.
#[derive(Debug, PartialEq, Eq)]
pub enum AudioSource {
    YouTube { video_id: String },
    File { path: String },
    Jeja { filename: String },
}

impl Clone for AudioSource {
    fn clone(&self) -> (r: Self)
        ensures
            r == *self,
    {
        match self {
            AudioSource::YouTube { video_id } => {
                AudioSource::YouTube { video_id: video_id.clone() }
            },
            AudioSource::File { path } => AudioSource::File { path: path.clone() },
            AudioSource::Jeja { filename } => AudioSource::Jeja { filename: filename.clone() },
        }
    }
}

/// Display metadata of one playable item: a title, a duration in whole
/// seconds, and the source its bytes come from.
#[derive(Debug, PartialEq, Eq)]
pub struct VideoMetadata {
    pub title: String,
    pub duration: u64,
    pub audio_source: AudioSource,
}

impl Clone for VideoMetadata {
    fn clone(&self) -> (r: Self)
        ensures
            r == *self,
    {
        VideoMetadata {
            title: self.title.clone(),
            duration: self.duration,
            audio_source: self.audio_source.clone(),
        }
    }
}

/// One entry's duration column: the playtime cut to the width of the full
/// duration and joined with a slash when a playtime is shown.
pub open spec fn spec_queue_duration(duration: nat, playtime: Option<u64>) -> Seq<char> {
    let fd = spec_format_duration(duration, None);
    match playtime {
        Some(p) => {
            let base = spec_duration_base(p as nat);
            base.subrange(base.len() - fd.len(), base.len() as int) + " / "@ + fd
        },
        None => fd,
    }
}

/// A linked queue line for a remote video.
pub open spec fn spec_yt_line(title: Seq<char>, id: Seq<char>, dur: Seq<char>) -> Seq<char> {
    "["@ + title + "](https://youtu.be/"@ + id + ") | "@ + dur
}

/// A plain queue line for a local file.
pub open spec fn spec_file_line(title: Seq<char>, dur: Seq<char>) -> Seq<char> {
    title + " | "@ + dur
}

impl VideoMetadata {
    /// What `to_queue_string` returns: the formatted line, with the title of
    /// an over-long linked line truncated and ellipsized to fit the limit.
    pub open spec fn spec_to_queue_string(
        self,
        playtime: Option<u64>,
        limit: Option<usize>,
    ) -> Seq<char> {
        let dur = spec_queue_duration(self.duration as nat, playtime);
        match self.audio_source {
            AudioSource::YouTube { video_id } => {
                let qs = spec_yt_line(self.title@, video_id@, dur);
                match limit {
                    Some(l) => if qs.len() <= l {
                        qs
                    } else {
                        let cut = self.title@.len() - (qs.len() - l) - 3;
                        spec_yt_line(self.title@.subrange(0, cut) + "..."@, video_id@, dur)
                    },
                    None => qs,
                }
            },
            AudioSource::File { .. } => spec_file_line(self.title@, dur),
            AudioSource::Jeja { .. } => self.title@,
        }
    }

    /// The inputs on which the line can be built: the playtime column must be
    /// at least as wide as the full duration, and a limited linked line must
    /// leave room for the ellipsis.
    pub open spec fn queue_string_safe(self, playtime: Option<u64>, limit: Option<usize>) -> bool {
        &&& (playtime matches Some(p) ==> spec_format_duration(self.duration as nat, None).len()
            <= spec_duration_base(p as nat).len())
        &&& (match (self.audio_source, limit) {
            (AudioSource::YouTube { video_id }, Some(l)) => {
                let qs = spec_yt_line(
                    self.title@,
                    video_id@,
                    spec_queue_duration(self.duration as nat, playtime),
                );
                qs.len() > l ==> self.title@.len() + l >= qs.len() + 3
            },
            _ => true,
        })
    }

    /// Renders one queue-listing line: title, link for remote videos, and the
    /// duration column, truncated to the given character limit.
    pub fn to_queue_string(&self, playtime: Option<u64>, limit: Option<usize>) -> (r: String)
        requires
            self.queue_string_safe(playtime, limit),
        ensures
            r@ == self.spec_to_queue_string(playtime, limit),
    {
        let fd = format_duration(self.duration, None);
        let dur: String = match playtime {
            Some(p) => {
                let mut d = format_duration(p, Some(fd.unicode_len()));
                d.append(" / ");
                d.append(fd.as_str());
                d
            },
            None => fd,
        };
        proof {
            assert(dur@ =~= spec_queue_duration(self.duration as nat, playtime));
        }
        match &self.audio_source {
            AudioSource::YouTube { video_id } => {
                let mut qs = String::from_str("[");
                qs.append(self.title.as_str());
                qs.append("](https://youtu.be/");
                qs.append(video_id.as_str());
                qs.append(") | ");
                qs.append(dur.as_str());
                proof {
                    assert(qs@ =~= spec_yt_line(self.title@, video_id@, dur@));
                }
                match limit {
                    Some(l) => {
                        let qlen = qs.unicode_len();
                        if qlen <= l {
                            qs
                        } else {
                            let tlen = self.title.unicode_len();
                            let cut = tlen - (qlen - l) - 3;
                            let tt = self.title.as_str().substring_char(0, cut);
                            let mut q2 = String::from_str("[");
                            q2.append(tt);
                            q2.append("...");
                            q2.append("](https://youtu.be/");
                            q2.append(video_id.as_str());
                            q2.append(") | ");
                            q2.append(dur.as_str());
                            proof {
                                assert(q2@ =~= spec_yt_line(
                                    self.title@.subrange(0, cut as int) + "..."@,
                                    video_id@,
                                    dur@,
                                ));
                            }
                            q2
                        }
                    },
                    None => qs,
                }
            },
            AudioSource::File { .. } => {
                let mut qs = self.title.clone();
                qs.append(" | ");
                qs.append(dur.as_str());
                proof {
                    assert(qs@ =~= spec_file_line(self.title@, dur@));
                }
                qs
            },
            AudioSource::Jeja { .. } => self.title.clone(),
        }
    }
}

/// Who asked for a track: set once at enqueue time, read-only afterwards.
#[derive(Debug, PartialEq, Eq)]
pub struct UserMetadata {
    pub id: u64,
    pub name: String,
    pub avatar_url: Option<String>,
}

impl Clone for UserMetadata {
    fn clone(&self) -> (r: Self)
        ensures
            r == *self,
    {
        UserMetadata {
            id: self.id,
            name: self.name.clone(),
            avatar_url: match &self.avatar_url {
                Some(u) => Some(u.clone()),
                None => None,
            },
        }
    }
}

/// The full display record of a track: what it is and who added it.
#[derive(Debug, PartialEq, Eq)]
pub struct TrackMetadata {
    pub video_metadata: VideoMetadata,
    pub added_by: UserMetadata,
}

impl Clone for TrackMetadata {
    fn clone(&self) -> (r: Self)
        ensures
            r == *self,
    {
        TrackMetadata {
            video_metadata: self.video_metadata.clone(),
            added_by: self.added_by.clone(),
        }
    }
}

impl Default for TrackMetadata {
    /// The placeholder record shown when a track carries no metadata at all.
    fn default() -> (r: Self)
        ensures
            r.video_metadata.title@ == "!Error!"@,
            r.video_metadata.duration == 0,
            r.video_metadata.audio_source matches AudioSource::YouTube { video_id }
                && video_id@ == Seq::<char>::empty(),
            r.added_by.id == 0,
            r.added_by.name@ == Seq::<char>::empty(),
            r.added_by.avatar_url is None,
    {
        TrackMetadata {
            video_metadata: VideoMetadata {
                title: String::from_str("!Error!"),
                duration: 0,
                audio_source: AudioSource::YouTube { video_id: String::new() },
            },
            added_by: UserMetadata { id: 0, name: String::new(), avatar_url: None },
        }
    }
}

/// A deferred search request: the text a pending track will be resolved from.
#[derive(Debug, PartialEq, Eq)]
pub struct Query(pub String);

impl Clone for Query {
    fn clone(&self) -> (r: Self)
        ensures
            r == *self,
    {
        Query(self.0.clone())
    }
}

/// Why a resolution attempt could not even be started, or failed remotely.
#[derive(Debug, PartialEq, Eq)]
pub enum MetadataError {
    MissingQuery,
    MissingAddedBy,
    YoutubeScrape(YoutubeScrapeError),
}

impl Clone for MetadataError {
    fn clone(&self) -> (r: Self)
        ensures
            r == *self,
    {
        match self {
            MetadataError::MissingQuery => MetadataError::MissingQuery,
            MetadataError::MissingAddedBy => MetadataError::MissingAddedBy,
            MetadataError::YoutubeScrape(e) => MetadataError::YoutubeScrape(e.clone()),
        }
    }
}

/// The per-track slot of mutable shared state: resolved metadata if known,
/// the pending search text if not, and the attribution. The owning track
/// handle guards the whole slot behind one mutual-exclusion region, so each
/// operation below is one atomic transition of the slot.
#[derive(Debug, PartialEq, Eq)]
pub struct TrackMetadataSlot {
    pub metadata: Option<TrackMetadata>,
    pub added_by: Option<UserMetadata>,
    pub query: Option<Query>,
}

/// The read-through step of a resolution: either the cached record, or the
/// search text that still has to be resolved remotely.
#[derive(Debug, PartialEq, Eq)]
pub enum ResolveStep {
    Ready(TrackMetadata),
    NeedSearch(String),
}

/// The wake-up step: either nothing is pending, or the given search text has
/// to be resolved remotely.
#[derive(Debug, PartialEq, Eq)]
pub enum AwakeStep {
    AlreadyAwake,
    Search(String),
}

/// The interface a track handle offers over its metadata slot: snapshot
/// reads and unconditional writes of the three stored pieces.
pub trait LazyMetadata: Sized {
    spec fn lazy_metadata(&self) -> Option<TrackMetadata>;

    spec fn lazy_added_by(&self) -> Option<UserMetadata>;

    spec fn lazy_query(&self) -> Option<Query>;

    fn read_lazy_metadata(&self) -> (r: Option<TrackMetadata>)
        ensures
            r == self.lazy_metadata(),
    ;

    fn write_lazy_metadata(&mut self, metadata: TrackMetadata)
        ensures
            final(self).lazy_metadata() == Some(metadata),
            final(self).lazy_added_by() == old(self).lazy_added_by(),
            final(self).lazy_query() == old(self).lazy_query(),
    ;

    fn read_added_by(&self) -> (r: Option<UserMetadata>)
        ensures
            r == self.lazy_added_by(),
    ;

    fn write_added_by(&mut self, user_metadata: UserMetadata)
        ensures
            final(self).lazy_added_by() == Some(user_metadata),
            final(self).lazy_metadata() == old(self).lazy_metadata(),
            final(self).lazy_query() == old(self).lazy_query(),
    ;

    /// A slot is awake exactly when no search text is pending.
    fn is_awake(&self) -> (r: bool)
        ensures
            r == (self.lazy_query() is None),
    ;

    fn read_query(&self) -> (r: Option<String>)
        ensures
            r is Some <==> self.lazy_query() is Some,
            r matches Some(q) ==> self.lazy_query() matches Some(p) && q@ == p.0@,
    ;

    fn write_query(&mut self, query: String)
        ensures
            final(self).lazy_query() matches Some(p) && p.0 == query,
            final(self).lazy_metadata() == old(self).lazy_metadata(),
            final(self).lazy_added_by() == old(self).lazy_added_by(),
    ;
}

impl LazyMetadata for TrackMetadataSlot {
    open spec fn lazy_metadata(&self) -> Option<TrackMetadata> {
        self.metadata
    }

    open spec fn lazy_added_by(&self) -> Option<UserMetadata> {
        self.added_by
    }

    open spec fn lazy_query(&self) -> Option<Query> {
        self.query
    }

    fn read_lazy_metadata(&self) -> (r: Option<TrackMetadata>) {
        match &self.metadata {
            Some(m) => Some(m.clone()),
            None => None,
        }
    }

    fn write_lazy_metadata(&mut self, metadata: TrackMetadata) {
        self.metadata = Some(metadata);
    }

    fn read_added_by(&self) -> (r: Option<UserMetadata>) {
        match &self.added_by {
            Some(u) => Some(u.clone()),
            None => None,
        }
    }

    fn write_added_by(&mut self, user_metadata: UserMetadata) {
        self.added_by = Some(user_metadata);
    }

    fn is_awake(&self) -> (r: bool) {
        match &self.query {
            Some(_) => false,
            None => true,
        }
    }

    fn read_query(&self) -> (r: Option<String>) {
        match &self.query {
            Some(q) => Some(q.0.clone()),
            None => None,
        }
    }

    fn write_query(&mut self, query: String) {
        self.query = Some(Query(query));
    }
}

impl TrackMetadataSlot {
    /// A slot with nothing stored yet.
    pub fn new() -> (r: Self)
        ensures
            r.metadata is None,
            r.added_by is None,
            r.query is None,
    {
        TrackMetadataSlot { metadata: None, added_by: None, query: None }
    }

    /// A slot is resolved exactly when no search text is pending.
    pub open spec fn resolved(self) -> bool {
        self.query is None
    }

    /// The slot after a generated record is stored, pending text untouched.
    pub open spec fn with_metadata(self, tm: TrackMetadata) -> Self {
        TrackMetadataSlot { metadata: Some(tm), ..self }
    }

    /// The slot after a full resolution: record stored, pending text cleared.
    pub open spec fn after_resolution(self, tm: TrackMetadata) -> Self {
        TrackMetadataSlot { metadata: Some(tm), query: None, ..self }
    }

    /// What generating metadata for this slot requires: fails when no search
    /// text or no attribution is stored, else yields the search text.
    pub open spec fn spec_generate_request(self) -> Result<Query, MetadataError> {
        match self.query {
            None => Err(MetadataError::MissingQuery),
            Some(q) => match self.added_by {
                None => Err(MetadataError::MissingAddedBy),
                Some(_) => Ok(q),
            },
        }
    }

    /// The read-through step: the cached record if present, else the search
    /// text, else the error that generation would report.
    pub open spec fn spec_read_or_generate(self) -> Result<ResolveStep, MetadataError> {
        match self.metadata {
            Some(m) => Ok(ResolveStep::Ready(m)),
            None => match self.spec_generate_request() {
                Ok(q) => Ok(ResolveStep::NeedSearch(q.0)),
                Err(e) => Err(e),
            },
        }
    }

    /// The wake-up step: nothing to do when already resolved, else the search
    /// text, else the error that generation would report.
    pub open spec fn spec_awake_step(self) -> Result<AwakeStep, MetadataError> {
        if self.query is None {
            Ok(AwakeStep::AlreadyAwake)
        } else {
            match self.spec_generate_request() {
                Ok(q) => Ok(AwakeStep::Search(q.0)),
                Err(e) => Err(e),
            }
        }
    }

    /// First half of generating metadata: reads the stored search text and
    /// checks the attribution, mutating nothing. The caller resolves the
    /// returned text remotely and hands the outcome to `generate_complete`.
    pub fn generate_request(&self) -> (r: Result<String, MetadataError>)
        ensures
            r matches Ok(q) ==> self.spec_generate_request() matches Ok(p) && q == p.0,
            r matches Err(e) ==> self.spec_generate_request() == Err::<Query, MetadataError>(e),
    {
        match &self.query {
            None => Err(MetadataError::MissingQuery),
            Some(q) => match &self.added_by {
                None => Err(MetadataError::MissingAddedBy),
                Some(_) => Ok(q.0.clone()),
            },
        }
    }

    /// Second half of generating metadata: pairs the remotely resolved record
    /// with the stored attribution, mutating nothing. The caller must write
    /// the result explicitly if it is to be kept.
    pub fn generate_complete(&self, video: VideoMetadata) -> (r: Result<
        TrackMetadata,
        MetadataError,
    >)
        ensures
            self.added_by matches Some(u) ==> r == Ok::<TrackMetadata, MetadataError>(
                TrackMetadata { video_metadata: video, added_by: u },
            ),
            self.added_by is None ==> r == Err::<TrackMetadata, MetadataError>(
                MetadataError::MissingAddedBy,
            ),
    {
        match &self.added_by {
            Some(u) => Ok(TrackMetadata { video_metadata: video, added_by: u.clone() }),
            None => Err(MetadataError::MissingAddedBy),
        }
    }

    /// The read-through read: either the cached record, or the search text to
    /// resolve before calling `store_generated`.
    pub fn read_or_generate_step(&self) -> (r: Result<ResolveStep, MetadataError>)
        ensures
            r == self.spec_read_or_generate(),
    {
        match &self.metadata {
            Some(m) => Ok(ResolveStep::Ready(m.clone())),
            None => match self.generate_request() {
                Ok(q) => Ok(ResolveStep::NeedSearch(q)),
                Err(e) => Err(e),
            },
        }
    }

    /// Stores a record generated for the read-through path: the pending text
    /// is kept, so a later wake-up still clears it.
    pub fn store_generated(&mut self, video: VideoMetadata) -> (r: Result<
        TrackMetadata,
        MetadataError,
    >)
        ensures
            old(self).added_by matches Some(u) ==> {
                let tm = TrackMetadata { video_metadata: video, added_by: u };
                r == Ok::<TrackMetadata, MetadataError>(tm) && *final(self) == old(
                    self,
                ).with_metadata(tm)
            },
            old(self).added_by is None ==> r == Err::<TrackMetadata, MetadataError>(
                MetadataError::MissingAddedBy,
            ) && *final(self) == *old(self),
    {
        match self.generate_complete(video) {
            Ok(tm) => {
                self.metadata = Some(tm.clone());
                Ok(tm)
            },
            Err(e) => Err(e),
        }
    }

    /// The wake-up read: nothing to do when already resolved, else the search
    /// text to resolve before calling `apply_resolution`.
    pub fn awake_step(&self) -> (r: Result<AwakeStep, MetadataError>)
        ensures
            r == self.spec_awake_step(),
    {
        match &self.query {
            None => Ok(AwakeStep::AlreadyAwake),
            Some(_) => match self.generate_request() {
                Ok(q) => Ok(AwakeStep::Search(q)),
                Err(e) => Err(e),
            },
        }
    }

    /// Completes a wake-up: stores the resolved record and clears the pending
    /// text, so the slot is never left both pending and resolved.
    pub fn apply_resolution(&mut self, video: VideoMetadata) -> (r: Result<(), MetadataError>)
        ensures
            old(self).added_by matches Some(u) ==> r == Ok::<(), MetadataError>(()) && *final(self)
                == old(self).after_resolution(
                TrackMetadata { video_metadata: video, added_by: u },
            ),
            old(self).added_by is None ==> r == Err::<(), MetadataError>(
                MetadataError::MissingAddedBy,
            ) && *final(self) == *old(self),
            r is Ok ==> final(self).resolved() && final(self).metadata is Some,
    {
        match self.generate_complete(video) {
            Ok(tm) => {
                self.metadata = Some(tm);
                self.query = None;
                Ok(())
            },
            Err(e) => Err(e),
        }
    }
}

/// The display record of a freshly told joke for the given guild: the clip
/// is saved under a file named after the guild.
pub fn joke_track_metadata(guild_id: u64, added_by: UserMetadata) -> (r: TrackMetadata)
    ensures
        r.video_metadata.title@ == "Dowcip"@,
        r.video_metadata.duration == 0,
        r.video_metadata.audio_source matches AudioSource::Jeja { filename } && filename@
            == spec_dec(guild_id as nat) + ".mp3"@,
        r.added_by == added_by,
{
    let mut name: Vec<char> = Vec::new();
    push_dec(guild_id, &mut name);
    let mut filename = string_of(&name);
    filename.append(".mp3");
    TrackMetadata {
        video_metadata: VideoMetadata {
            title: String::from_str("Dowcip"),
            duration: 0,
            audio_source: AudioSource::Jeja { filename },
        },
        added_by,
    }
}

/// Waking a slot is idempotent and consistent: one applied resolution leaves
/// the slot resolved and holding a record — never pending while marked
/// resolved — a second redundant resolution is the same as having applied
/// only the later one, and a further wake-up pass finds nothing to do.
pub proof fn law_resolution_idempotent(
    s: TrackMetadataSlot,
    tm1: TrackMetadata,
    tm2: TrackMetadata,
)
    ensures
        s.after_resolution(tm1).resolved(),
        s.after_resolution(tm1).metadata == Some(tm1),
        s.after_resolution(tm1).spec_awake_step() == Ok::<AwakeStep, MetadataError>(
            AwakeStep::AlreadyAwake,
        ),
        s.after_resolution(tm1).after_resolution(tm2) == s.after_resolution(tm2),
{
}

/// The read-through path resolves at most once: after a generated record is
/// stored, a second read-through pass returns the stored record and asks for
/// no further search.
pub proof fn law_read_through_caches(s: TrackMetadataSlot, tm: TrackMetadata)
    ensures
        s.with_metadata(tm).spec_read_or_generate() == Ok::<ResolveStep, MetadataError>(
            ResolveStep::Ready(tm),
        ),
{
}

} // verus!
