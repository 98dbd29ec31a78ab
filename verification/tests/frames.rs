use stream_pacer::config::{FILL_BYTE, PRODUCER_FRAME_LEN};
use stream_pacer::frame::frame_buffer;

#[test]
fn producer_frame_is_188000_bytes_of_filler() {
    let frame = frame_buffer(PRODUCER_FRAME_LEN, FILL_BYTE);
    assert_eq!(frame.len(), 188_000);
    assert!(frame.iter().all(|byte| *byte == b'G'));
}

#[test]
fn frame_buffer_of_given_length_and_fill() {
    assert_eq!(frame_buffer(3, 0xAB), vec![0xAB, 0xAB, 0xAB]);
    assert_eq!(frame_buffer(188, 0), vec![0u8; 188]);
}

#[test]
fn frame_buffer_of_no_bytes_is_empty() {
    assert_eq!(frame_buffer(0, 0x47), Vec::<u8>::new());
}
