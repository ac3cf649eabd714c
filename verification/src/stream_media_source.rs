use vstd::prelude::*;

use crate::text::str_eq;

verus! {

/// One advertised encoding of a remote video: its fetchable URL, its audio
/// quality label if any, and whether it carries audio or video at all.
#[derive(Debug, PartialEq, Eq)]
pub struct VideoFormat {
    pub url: String,
    pub audio_quality: Option<String>,
    pub has_audio: bool,
    pub has_video: bool,
}

/// The stream opener's failure: the format list held no playable encoding.
#[derive(Debug, Clone, Copy, PartialEq, Eq)]
pub enum StreamError {
    NoVideoFormats,
}

/// The rank of an audio quality label: high over medium over low; an
/// unrecognized label ranks zero and is never selected.
pub open spec fn spec_quality_rank(label: Seq<char>) -> nat {
    if label == "AUDIO_QUALITY_HIGH"@ {
        3
    } else if label == "AUDIO_QUALITY_MEDIUM"@ {
        2
    } else if label == "AUDIO_QUALITY_MIN"@ {
        1
    } else {
        0
    }
}

/// The rank of a whole format: only audio-only encodings with a recognized
/// quality label are playable.
pub open spec fn spec_format_rank(f: VideoFormat) -> nat {
    if f.has_audio && !f.has_video {
        match f.audio_quality {
            Some(q) => spec_quality_rank(q@),
            None => 0,
        }
    } else {
        0
    }
}

/// Ranks an audio quality label: higher is better, zero is unrecognized.
pub fn audio_quality_rank(label: &str) -> (r: u8)
    ensures
        r == spec_quality_rank(label@),
{
    if str_eq(label, "AUDIO_QUALITY_HIGH") {
        3
    } else if str_eq(label, "AUDIO_QUALITY_MEDIUM") {
        2
    } else if str_eq(label, "AUDIO_QUALITY_MIN") {
        1
    } else {
        0
    }
}

fn format_rank(f: &VideoFormat) -> (r: u8)
    ensures
        r == spec_format_rank(*f),
        r <= 3,
{
    if f.has_audio && !f.has_video {
        match &f.audio_quality {
            Some(q) => audio_quality_rank(q.as_str()),
            None => 0,
        }
    } else {
        0
    }
}

/// Position `i` holds the selected format: playable, of maximal rank, and
/// first among the formats of that rank.
pub open spec fn is_first_best(fs: Seq<VideoFormat>, i: int) -> bool {
    &&& 0 <= i < fs.len()
    &&& spec_format_rank(fs[i]) >= 1
    &&& forall|j: int| 0 <= j < fs.len() ==> spec_format_rank(#[trigger] fs[j]) <= spec_format_rank(
        fs[i],
    )
    &&& forall|j: int| 0 <= j < i ==> spec_format_rank(#[trigger] fs[j]) < spec_format_rank(fs[i])
}

/// Selects the fetchable URL of the best audio-only encoding: the first
/// format of maximal recognized quality. Fails exactly when no audio-only
/// format carries a recognized quality label.
pub fn find_highest_quality_video(formats: &Vec<VideoFormat>) -> (r: Result<String, StreamError>)
    ensures
        r is Err <==> (forall|i: int|
            0 <= i < formats@.len() ==> spec_format_rank(#[trigger] formats@[i]) == 0),
        r matches Err(e) ==> e == StreamError::NoVideoFormats,
        r matches Ok(u) ==> exists|i: int|
            is_first_best(formats@, i) && u@ == #[trigger] formats@[i].url@,
{
    let mut best_url: Option<String> = None;
    let mut best_rank: u8 = 0;
    let ghost mut best_k: int = 0;
    let mut i: usize = 0;
    while i < formats.len()
        invariant
            i <= formats@.len(),
            best_rank <= 3,
            best_rank == 0 <==> best_url is None,
            best_url matches Some(u) ==> 0 <= best_k < i && spec_format_rank(formats@[best_k])
                == best_rank && u@ == formats@[best_k].url@ && (forall|j: int|
                0 <= j < best_k ==> spec_format_rank(#[trigger] formats@[j]) < best_rank),
            forall|j: int| 0 <= j < i ==> spec_format_rank(#[trigger] formats@[j]) <= best_rank,
        decreases formats@.len() - i,
    {
        let rank = format_rank(&formats[i]);
        if rank != 0 && rank > best_rank {
            best_url = Some(formats[i].url.clone());
            best_rank = rank;
            proof {
                best_k = i as int;
            }
        }
        i = i + 1;
    }
    match best_url {
        Some(u) => Ok(u),
        None => Err(StreamError::NoVideoFormats),
    }
}

/// One chunk pulled from the transcoder's output pipe: a fixed buffer and
/// the count of bytes that are meaningful in it.
#[derive(Debug, PartialEq, Eq)]
pub struct PipedStreamData {
    pub bytes: [u8; 4096],
    pub bytes_read: usize,
}

impl PipedStreamData {
    /// A chunk never reports more bytes than its buffer holds.
    pub open spec fn wf(self) -> bool {
        self.bytes_read <= 4096
    }

    /// The meaningful bytes of the chunk.
    pub open spec fn chunk(self) -> Seq<u8> {
        self.bytes@.subrange(0, self.bytes_read as int)
    }
}

/// What the drain worker saw on one blocking read of the pipe.
pub enum WorkerEvent {
    Chunk(PipedStreamData),
    ReadFailed,
}

/// What the drain worker must do next: pass the chunk on and keep reading,
/// stop silently at end of stream, or publish the failure and stop.
#[derive(Debug, PartialEq, Eq)]
pub enum WorkerAction {
    Publish(PipedStreamData),
    Terminate,
    FailTerminate,
}

/// The drain worker's decision for one read outcome: a zero-length read is
/// the end of the stream, a non-empty chunk is published, and a read error
/// is published and ends the worker.
pub fn worker_step(event: WorkerEvent) -> (r: WorkerAction)
    ensures
        r == (match event {
            WorkerEvent::Chunk(d) => if d.bytes_read == 0 {
                WorkerAction::Terminate
            } else {
                WorkerAction::Publish(d)
            },
            WorkerEvent::ReadFailed => WorkerAction::FailTerminate,
        }),
{
    match event {
        WorkerEvent::Chunk(d) => {
            if d.bytes_read == 0 {
                WorkerAction::Terminate
            } else {
                WorkerAction::Publish(d)
            }
        },
        WorkerEvent::ReadFailed => WorkerAction::FailTerminate,
    }
}

/// What the consumer pulled from the worker's channel: a chunk, or the
/// published read failure.
pub enum PipedMessage {
    Data(PipedStreamData),
    Failed,
}

/// Up to `max` bytes of `buf` starting at `pos`: empty once `pos` is at or
/// past the end.
pub open spec fn spec_read_window(buf: Seq<u8>, pos: nat, max: usize) -> Seq<u8> {
    if pos >= buf.len() {
        Seq::empty()
    } else if pos + max <= buf.len() {
        buf.subrange(pos as int, pos + max)
    } else {
        buf.subrange(pos as int, buf.len() as int)
    }
}

/// A target of a cursor move, relative to the start, the end, or the
/// current position of the buffered bytes.
#[derive(Debug, Clone, Copy, PartialEq, Eq)]
pub enum SeekTarget {
    Start(usize),
    End(i64),
    Current(i64),
}

/// The grow-only buffer and read cursor behind one playback attempt: chunks
/// pulled from the drain worker are appended at the end, reads are served
/// from the cursor, and seeking works only within what is already buffered.
#[derive(Debug, PartialEq, Eq)]
pub struct StreamMediaSource {
    pub buffer: Vec<u8>,
    pub position: usize,
}

impl StreamMediaSource {
    /// A fresh source with nothing buffered.
    pub fn new() -> (r: Self)
        ensures
            r.buffer@ == Seq::<u8>::empty(),
            r.position == 0,
    {
        StreamMediaSource { buffer: Vec::new(), position: 0 }
    }

    /// What one buffered read returns: up to `max` bytes from the cursor,
    /// empty once the cursor is at or past the end.
    pub open spec fn spec_available(self, max: usize) -> Seq<u8> {
        spec_read_window(self.buffer@, self.position as nat, max)
    }

    /// Appends the meaningful bytes of a chunk to the buffer; the cursor
    /// stays where it was.
    pub fn accept_chunk(&mut self, data: &PipedStreamData)
        requires
            data.wf(),
        ensures
            final(self).buffer@ == old(self).buffer@ + data.chunk(),
            final(self).position == old(self).position,
    {
        let mut i: usize = 0;
        while i < data.bytes_read
            invariant
                i <= data.bytes_read <= 4096,
                self.buffer@ == old(self).buffer@ + data.bytes@.subrange(0, i as int),
                self.position == old(self).position,
            decreases data.bytes_read - i,
        {
            self.buffer.push(data.bytes[i]);
            i = i + 1;
            proof {
                assert(self.buffer@ =~= old(self).buffer@ + data.bytes@.subrange(0, i as int));
            }
        }
    }

    /// Serves up to `max` bytes from the cursor out of the buffer and moves
    /// the cursor past them.
    pub fn read_from_buffer(&mut self, max: usize) -> (r: Vec<u8>)
        ensures
            r@ == old(self).spec_available(max),
            final(self).buffer == old(self).buffer,
            final(self).position == old(self).position + r@.len(),
    {
        let len = self.buffer.len();
        if self.position >= len {
            return Vec::new();
        }
        let end: usize = if max <= len - self.position {
            self.position + max
        } else {
            len
        };
        let mut r: Vec<u8> = Vec::new();
        let mut i: usize = self.position;
        while i < end
            invariant
                old(self).position <= i <= end <= self.buffer@.len(),
                self == old(self),
                r@ == self.buffer@.subrange(old(self).position as int, i as int),
            decreases end - i,
        {
            r.push(self.buffer[i]);
            i = i + 1;
            proof {
                assert(r@ =~= self.buffer@.subrange(old(self).position as int, i as int));
            }
        }
        self.position = end;
        r
    }

    /// One consumer read: an arriving chunk is appended first, a published
    /// failure or closed channel adds nothing, then up to `max` bytes are
    /// served from the cursor.
    pub fn read_step(&mut self, incoming: Option<PipedMessage>, max: usize) -> (r: Vec<u8>)
        requires
            incoming matches Some(PipedMessage::Data(d)) ==> d.wf(),
        ensures
            ({
                let grown_buf = match incoming {
                    Some(PipedMessage::Data(d)) => old(self).buffer@ + d.chunk(),
                    _ => old(self).buffer@,
                };
                &&& final(self).buffer@ == grown_buf
                &&& r@ == spec_read_window(grown_buf, old(self).position as nat, max)
                &&& final(self).position == old(self).position + r@.len()
            }),
    {
        match incoming {
            Some(PipedMessage::Data(d)) => {
                self.accept_chunk(&d);
            },
            _ => {},
        }
        self.read_from_buffer(max)
    }

    /// Moves the cursor. A target before the start of the buffer, or past
    /// what a cursor can address, is rejected and changes nothing.
    pub fn seek(&mut self, target: SeekTarget) -> (r: Result<usize, ()>)
        ensures
            ({
                let dest: int = match target {
                    SeekTarget::Start(n) => n as int,
                    SeekTarget::End(d) => old(self).buffer@.len() + d,
                    SeekTarget::Current(d) => old(self).position + d,
                };
                if 0 <= dest <= usize::MAX {
                    &&& r == Ok::<usize, ()>(dest as usize)
                    &&& final(self).position == dest
                    &&& final(self).buffer == old(self).buffer
                } else {
                    &&& r is Err
                    &&& *final(self) == *old(self)
                }
            }),
    {
        let base: i128 = match target {
            SeekTarget::Start(n) => {
                self.position = n;
                return Ok(n);
            },
            SeekTarget::End(d) => self.buffer.len() as i128 + d as i128,
            SeekTarget::Current(d) => self.position as i128 + d as i128,
        };
        if base < 0 || base > usize::MAX as i128 {
            return Err(());
        }
        let dest = base as usize;
        self.position = dest;
        Ok(dest)
    }

    /// The total stream length is unknown to consumers.
    pub fn byte_len(&self) -> (r: Option<u64>)
        ensures
            r is None,
    {
        None
    }

    /// The underlying pipe cannot seek; only the buffer can.
    pub fn is_seekable(&self) -> (r: bool)
        ensures
            r == false,
    {
        false
    }
}

} // verus!
