use std::future::Future;
use stream_pacer::drain::{Drain, DrainAction, ReadEvent, ReadStrategy};
use stream_pacer::frame::frame_buffer;
use tokio::io::{AsyncReadExt, AsyncWriteExt};

fn block_on<F: Future>(future: F) -> F::Output {
    tokio::runtime::Builder::new_current_thread().build().unwrap().block_on(future)
}

/// Drains `source` with reads that yield while they wait, until the drain
/// stops. Returns the number of reads that filled their buffer and the kind
/// of the error that ended the drain.
async fn drain_cooperative(mut source: &[u8]) -> (usize, std::io::ErrorKind) {
    let mut drain = Drain::new(ReadStrategy::Cooperative);
    let mut frames = 0usize;
    let mut failure = None;
    while let DrainAction::ReadFrame(len) = drain.pending() {
        let mut buffer = frame_buffer(len, 0);
        match source.read_exact(&mut buffer).await {
            Ok(_) => {
                frames += 1;
                drain.step(ReadEvent::FrameRead);
            }
            Err(error) => {
                failure = Some(error.kind());
                drain.step(ReadEvent::ReadFailed);
            }
        }
    }
    (frames, failure.unwrap())
}

#[test]
fn cooperative_consumer_completes_one_read_per_frame() {
    let stream = vec![0x47u8; 188];
    assert_eq!(block_on(drain_cooperative(&stream)), (1, std::io::ErrorKind::UnexpectedEof));
    let stream = vec![0x47u8; 5 * 188];
    assert_eq!(block_on(drain_cooperative(&stream)), (5, std::io::ErrorKind::UnexpectedEof));
    let stream = vec![0x47u8; 5 * 188 + 187];
    assert_eq!(block_on(drain_cooperative(&stream)), (5, std::io::ErrorKind::UnexpectedEof));
}

#[test]
fn cooperative_consumer_fails_on_a_stream_shorter_than_one_frame() {
    let stream = vec![0x47u8; 187];
    assert_eq!(block_on(drain_cooperative(&stream)), (0, std::io::ErrorKind::UnexpectedEof));
}

#[test]
fn cooperative_consumer_suspends_until_a_whole_frame_is_there() {
    block_on(async {
        let (mut sender, mut receiver) = tokio::io::duplex(4_096);
        let drain = Drain::new(ReadStrategy::Cooperative);
        let len = match drain.pending() {
            DrainAction::ReadFrame(len) => len,
            DrainAction::Stop => unreachable!(),
        };
        let mut buffer = frame_buffer(len, 0);
        sender.write_all(&[0x47u8; 100]).await.unwrap();
        {
            let mut read = Box::pin(receiver.read_exact(&mut buffer));
            // 100 of 188 bytes are there: the read is pending.
            let pending = std::future::poll_fn(|context| {
                std::task::Poll::Ready(read.as_mut().poll(context).is_pending())
            })
            .await;
            assert!(pending);
            // 187 bytes: still pending.
            sender.write_all(&[0x47u8; 87]).await.unwrap();
            let pending = std::future::poll_fn(|context| {
                std::task::Poll::Ready(read.as_mut().poll(context).is_pending())
            })
            .await;
            assert!(pending);
            // The last byte completes it.
            sender.write_all(&[0x47u8; 1]).await.unwrap();
            assert_eq!(read.await.unwrap(), 188);
        }
        assert_eq!(buffer, vec![0x47u8; 188]);
    });
}

#[test]
fn cooperative_consumer_fails_when_the_stream_closes_inside_a_frame() {
    block_on(async {
        let (mut sender, mut receiver) = tokio::io::duplex(4_096);
        let mut drain = Drain::new(ReadStrategy::Cooperative);
        sender.write_all(&[0x47u8; 188 + 50]).await.unwrap();
        drop(sender);
        let mut frames = 0usize;
        while let DrainAction::ReadFrame(len) = drain.pending() {
            let mut buffer = frame_buffer(len, 0);
            match receiver.read_exact(&mut buffer).await {
                Ok(_) => {
                    frames += 1;
                    drain.step(ReadEvent::FrameRead);
                }
                Err(error) => {
                    assert_eq!(error.kind(), std::io::ErrorKind::UnexpectedEof);
                    drain.step(ReadEvent::ReadFailed);
                }
            }
        }
        assert_eq!(frames, 1);
        assert!(drain.stopped);
    });
}
