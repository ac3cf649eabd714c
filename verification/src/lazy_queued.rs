use vstd::prelude::*;

use crate::metadata::{AudioSource, VideoMetadata};

verus! {

/// A queued entry as the playback engine sees it: either fully resolved
/// display metadata, or a deferred search text that is resolved on the first
/// restart.
#[derive(Debug, PartialEq, Eq)]
pub enum LazyQueued {
    Metadata { metadata: VideoMetadata },
    Query { query: String },
}

/// What one restart of a queued entry must do to produce bytes. Every
/// restart discards the previous stream session and follows one of these
/// plans from scratch.
#[derive(Debug, PartialEq, Eq)]
pub enum RestartPlan {
    /// Resolve the deferred text first, then stream the found video.
    SearchThenStream { query: String },
    /// Open a fresh stream session for the known remote video.
    Stream { video_id: String },
    /// Hand the local file straight to the transcoder.
    PlayFile { path: String },
    /// Synthesize the clip into the named file, then play that file.
    GenerateThenPlay { filename: String },
}

/// The static description handed to the playback engine before the first
/// start: channel count, sample rate, a display title, and whether the
/// title is only a placeholder for a still-deferred entry.
#[derive(Debug, PartialEq, Eq)]
pub struct StreamDescription {
    pub channels: u32,
    pub sample_rate: u32,
    pub title: String,
    pub lazy: bool,
}

impl LazyQueued {
    /// The plan a restart must follow: deferred entries search first; known
    /// entries stream, play or generate according to their source.
    pub fn restart_plan(&self) -> (r: RestartPlan)
        ensures
            r == (match *self {
                LazyQueued::Query { query } => RestartPlan::SearchThenStream { query },
                LazyQueued::Metadata { metadata } => match metadata.audio_source {
                    AudioSource::YouTube { video_id } => RestartPlan::Stream { video_id },
                    AudioSource::File { path } => RestartPlan::PlayFile { path },
                    AudioSource::Jeja { filename } => RestartPlan::GenerateThenPlay { filename },
                },
            }),
    {
        match self {
            LazyQueued::Query { query } => RestartPlan::SearchThenStream { query: query.clone() },
            LazyQueued::Metadata { metadata } => match &metadata.audio_source {
                AudioSource::YouTube { video_id } => RestartPlan::Stream {
                    video_id: video_id.clone(),
                },
                AudioSource::File { path } => RestartPlan::PlayFile { path: path.clone() },
                AudioSource::Jeja { filename } => RestartPlan::GenerateThenPlay {
                    filename: filename.clone(),
                },
            },
        }
    }

    /// Describes the stream without starting it: generated clips are mono at
    /// 24 kHz, everything else stereo at 48 kHz; a deferred entry shows its
    /// search text as the title and is marked lazy, so displays can tell a
    /// placeholder from a resolved title.
    pub fn lazy_init(&self) -> (r: StreamDescription)
        ensures
            match *self {
                LazyQueued::Metadata { metadata } => {
                    &&& r.title == metadata.title
                    &&& !r.lazy
                    &&& (metadata.audio_source is Jeja ==> r.channels == 1 && r.sample_rate
                        == 24000)
                    &&& (!(metadata.audio_source is Jeja) ==> r.channels == 2 && r.sample_rate
                        == 48000)
                },
                LazyQueued::Query { query } => {
                    &&& r.title == query
                    &&& r.lazy
                    &&& r.channels == 2
                    &&& r.sample_rate == 48000
                },
            },
    {
        match self {
            LazyQueued::Metadata { metadata } => match &metadata.audio_source {
                AudioSource::Jeja { .. } => StreamDescription {
                    channels: 1,
                    sample_rate: 24000,
                    title: metadata.title.clone(),
                    lazy: false,
                },
                _ => StreamDescription {
                    channels: 2,
                    sample_rate: 48000,
                    title: metadata.title.clone(),
                    lazy: false,
                },
            },
            LazyQueued::Query { query } => StreamDescription {
                channels: 2,
                sample_rate: 48000,
                title: query.clone(),
                lazy: true,
            },
        }
    }
}

/// The remote video a successful search must be streamed from. A search
/// result always carries a remote video source; anything else cannot be
/// streamed and is rejected by this function's precondition.
pub fn stream_target(metadata: &VideoMetadata) -> (r: String)
    requires
        metadata.audio_source is YouTube,
    ensures
        metadata.audio_source matches AudioSource::YouTube { video_id } && r == video_id,
{
    match &metadata.audio_source {
        AudioSource::YouTube { video_id } => video_id.clone(),
        _ => unreached(),
    }
}

} // verus!
