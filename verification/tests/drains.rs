use std::io::Read;
use stream_pacer::drain::{
    Drain, DrainAction, ReadEvent, ReadStrategy, BLOCKING_FRAME_LEN, CONSUMER_FRAME_LEN,
};
use stream_pacer::frame::frame_buffer;

/// Drains `source` with blocking reads until the drain stops. Returns the
/// number of reads that filled their buffer and the kind of the error that
/// ended the drain.
fn drain_blocking(mut source: &[u8]) -> (usize, std::io::ErrorKind) {
    let mut drain = Drain::new(ReadStrategy::Blocking);
    let mut frames = 0usize;
    let mut failure = None;
    while let DrainAction::ReadFrame(len) = drain.pending() {
        let mut buffer = frame_buffer(len, 0);
        match source.read_exact(&mut buffer) {
            Ok(()) => {
                frames += 1;
                drain.step(ReadEvent::FrameRead);
            }
            Err(error) => {
                failure = Some(error.kind());
                drain.step(ReadEvent::ReadFailed);
            }
        }
    }
    (frames, failure.unwrap())
}

#[test]
fn frame_lengths() {
    assert_eq!(CONSUMER_FRAME_LEN, 188);
    assert_eq!(BLOCKING_FRAME_LEN, 188 * 8);
    assert_eq!(ReadStrategy::Cooperative.frame_len(), 188);
    assert_eq!(ReadStrategy::Blocking.frame_len(), 1_504);
}

#[test]
fn new_drain_asks_for_one_frame() {
    let drain = Drain::new(ReadStrategy::Cooperative);
    assert_eq!(drain, Drain { strategy: ReadStrategy::Cooperative, stopped: false });
    assert_eq!(drain.pending(), DrainAction::ReadFrame(188));
    let drain = Drain::new(ReadStrategy::Blocking);
    assert_eq!(drain, Drain { strategy: ReadStrategy::Blocking, stopped: false });
    assert_eq!(drain.pending(), DrainAction::ReadFrame(1_504));
}

#[test]
fn drain_goes_on_reading_frame_after_frame() {
    let mut drain = Drain::new(ReadStrategy::Cooperative);
    for _ in 0..1_000 {
        assert_eq!(drain.step(ReadEvent::FrameRead), DrainAction::ReadFrame(188));
        assert!(!drain.stopped);
    }
}

#[test]
fn failed_read_stops_the_drain() {
    let mut drain = Drain::new(ReadStrategy::Blocking);
    assert_eq!(drain.step(ReadEvent::FrameRead), DrainAction::ReadFrame(1_504));
    assert_eq!(drain.step(ReadEvent::ReadFailed), DrainAction::Stop);
    assert_eq!(drain, Drain { strategy: ReadStrategy::Blocking, stopped: true });
    assert_eq!(drain.pending(), DrainAction::Stop);
}

#[test]
fn stopped_drain_stays_stopped() {
    let mut drain = Drain::new(ReadStrategy::Cooperative);
    drain.step(ReadEvent::ReadFailed);
    assert_eq!(drain.step(ReadEvent::FrameRead), DrainAction::Stop);
    assert_eq!(drain.step(ReadEvent::ReadFailed), DrainAction::Stop);
    assert_eq!(drain.step(ReadEvent::FrameRead), DrainAction::Stop);
    assert!(drain.stopped);
    assert_eq!(drain.strategy, ReadStrategy::Cooperative);
}

#[test]
fn blocking_consumer_fails_on_a_stream_shorter_than_one_frame() {
    let stream = vec![0x47u8; 1_000];
    assert_eq!(drain_blocking(&stream), (0, std::io::ErrorKind::UnexpectedEof));
    let stream = vec![0x47u8; 1_503];
    assert_eq!(drain_blocking(&stream), (0, std::io::ErrorKind::UnexpectedEof));
}

#[test]
fn blocking_consumer_fails_on_an_empty_stream() {
    assert_eq!(drain_blocking(&[]), (0, std::io::ErrorKind::UnexpectedEof));
}

#[test]
fn blocking_consumer_reads_whole_frames_until_the_stream_ends() {
    let stream = vec![0x47u8; 3 * 1_504];
    assert_eq!(drain_blocking(&stream), (3, std::io::ErrorKind::UnexpectedEof));
    let stream = vec![0x47u8; 3 * 1_504 + 1_503];
    assert_eq!(drain_blocking(&stream), (3, std::io::ErrorKind::UnexpectedEof));
}

#[test]
fn blocking_consumer_drains_one_producer_frame() {
    // 188,000 bytes are 125 reads of 1,504 bytes.
    let stream = frame_buffer(188_000, 0x47);
    assert_eq!(drain_blocking(&stream), (125, std::io::ErrorKind::UnexpectedEof));
}
