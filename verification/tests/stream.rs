use diwa::stream_media_source::{
    worker_step, PipedMessage, PipedStreamData, SeekTarget, StreamMediaSource, WorkerAction,
    WorkerEvent,
};

fn chunk(data: &[u8]) -> PipedStreamData {
    let mut bytes = [0u8; 4096];
    bytes[..data.len()].copy_from_slice(data);
    PipedStreamData { bytes, bytes_read: data.len() }
}

#[test]
fn worker_publishes_nonempty_chunk() {
    let d = chunk(b"abcd");
    match worker_step(WorkerEvent::Chunk(d)) {
        WorkerAction::Publish(p) => {
            assert_eq!(p.bytes_read, 4);
            assert_eq!(&p.bytes[..4], b"abcd");
        },
        other => panic!("unexpected: {:?}", other),
    }
}

#[test]
fn worker_terminates_on_empty_read() {
    let d = chunk(b"");
    assert_eq!(worker_step(WorkerEvent::Chunk(d)), WorkerAction::Terminate);
}

#[test]
fn worker_publishes_failure_and_stops() {
    assert_eq!(worker_step(WorkerEvent::ReadFailed), WorkerAction::FailTerminate);
}

#[test]
fn piped_reader_single_chunk_then_eof() {
    // The blocking source yields four bytes and then end of stream: exactly
    // one chunk is published and the consumer's further reads return empty
    // without any crash.
    let mut sms = StreamMediaSource::new();
    let first = sms.read_step(Some(PipedMessage::Data(chunk(b"abcd"))), 4096);
    assert_eq!(first, b"abcd".to_vec());
    let second = sms.read_step(None, 4096);
    assert_eq!(second, Vec::<u8>::new());
    let third = sms.read_step(None, 4096);
    assert_eq!(third, Vec::<u8>::new());
}

#[test]
fn reads_are_served_from_the_cursor() {
    let mut sms = StreamMediaSource::new();
    let a = sms.read_step(Some(PipedMessage::Data(chunk(b"abcd"))), 2);
    assert_eq!(a, b"ab".to_vec());
    let b = sms.read_step(None, 2);
    assert_eq!(b, b"cd".to_vec());
}

#[test]
fn published_failure_adds_no_bytes() {
    let mut sms = StreamMediaSource::new();
    let r = sms.read_step(Some(PipedMessage::Failed), 4096);
    assert_eq!(r, Vec::<u8>::new());
}

#[test]
fn seek_moves_only_within_the_buffer() {
    let mut sms = StreamMediaSource::new();
    sms.accept_chunk(&chunk(b"abcd"));
    assert_eq!(sms.seek(SeekTarget::Start(2)), Ok(2));
    assert_eq!(sms.read_from_buffer(10), b"cd".to_vec());
    assert_eq!(sms.seek(SeekTarget::End(-3)), Ok(1));
    assert_eq!(sms.seek(SeekTarget::Current(1)), Ok(2));
    assert_eq!(sms.seek(SeekTarget::Current(-5)), Err(()));
    assert_eq!(sms.read_from_buffer(10), b"cd".to_vec());
}

#[test]
fn source_reports_no_length_and_no_seeking() {
    let sms = StreamMediaSource::new();
    assert_eq!(sms.byte_len(), None);
    assert!(!sms.is_seekable());
}
