use ascii_video::format::{frame_byte_length, header_length};
use ascii_video::source::{ByteStream, FrameSource};

// One 2x1 frame on the wire: an 11-byte header ("P6\n2 1\n255\n")
// followed by 6 pixel bytes.
fn frame_2x1(header_fill: u8, pixels: [u8; 6]) -> Vec<u8> {
    let mut frame = vec![header_fill; 11];
    frame.extend_from_slice(&pixels);
    frame
}

#[test]
fn empty_stream_yields_no_frame() {
    let mut source = FrameSource::new(2, 1);
    let mut stream = ByteStream::new(Vec::new());
    assert!(source.next_frame(&mut stream).is_none());
}

#[test]
fn truncated_stream_yields_no_frame() {
    let mut source = FrameSource::new(2, 1);
    // One byte short of a full frame.
    let mut bytes = frame_2x1(0, [1, 2, 3, 4, 5, 6]);
    bytes.pop();
    let mut stream = ByteStream::new(bytes);
    assert!(source.next_frame(&mut stream).is_none());
    assert_eq!(stream.remaining_len(), 0);
}

#[test]
fn one_full_frame_yields_its_pixel_bytes() {
    let mut source = FrameSource::new(2, 1);
    let mut stream = ByteStream::new(frame_2x1(b'P', [10, 20, 30, 40, 50, 60]));
    let pixels = source.next_frame(&mut stream).expect("one full frame is in the stream");
    assert_eq!(pixels.len(), frame_byte_length(2, 1) - header_length(2, 1));
    assert_eq!(pixels, vec![10, 20, 30, 40, 50, 60]);
    assert!(source.next_frame(&mut stream).is_none());
}

#[test]
fn three_frames_come_out_one_by_one_without_mixing() {
    let mut bytes = frame_2x1(b'P', [1, 1, 1, 1, 1, 1]);
    bytes.extend(frame_2x1(b'Q', [2, 2, 2, 2, 2, 2]));
    bytes.extend(frame_2x1(b'R', [3, 3, 3, 3, 3, 3]));
    let mut source = FrameSource::new(2, 1);
    let mut stream = ByteStream::new(bytes);
    for expected in 1..=3u8 {
        let pixels = source.next_frame(&mut stream).expect("a full frame remains");
        assert_eq!(pixels, vec![expected; 6]);
    }
    assert!(source.next_frame(&mut stream).is_none());
}

#[test]
fn a_clean_frame_never_carries_stale_bytes() {
    // First frame all 0xAA; second frame all zero. The reused buffer must
    // hand out only the second frame's bytes on the second call.
    let mut bytes = frame_2x1(0xAA, [0xAA; 6]);
    bytes.extend(frame_2x1(0, [0; 6]));
    let mut source = FrameSource::new(2, 1);
    let mut stream = ByteStream::new(bytes);
    assert_eq!(source.next_frame(&mut stream).unwrap(), vec![0xAA; 6]);
    assert_eq!(source.next_frame(&mut stream).unwrap(), vec![0; 6]);
}

#[test]
fn chunked_accumulation_completes_a_frame() {
    // Feed the 17 frame bytes in uneven chunks, as a pipe would hand them out.
    let frame = frame_2x1(b'P', [9, 8, 7, 6, 5, 4]);
    let mut source = FrameSource::new(2, 1);
    source.begin_frame();
    assert_eq!(source.missing(), 17);
    source.push_chunk(&frame[..5].to_vec());
    assert!(!source.frame_complete());
    assert_eq!(source.missing(), 12);
    source.push_chunk(&frame[5..16].to_vec());
    assert!(!source.frame_complete());
    source.push_chunk(&frame[16..].to_vec());
    assert!(source.frame_complete());
    assert_eq!(source.pixel_bytes(), vec![9, 8, 7, 6, 5, 4]);
}

#[test]
fn read_up_to_returns_short_chunk_at_stream_end() {
    let mut stream = ByteStream::new(vec![1, 2, 3]);
    assert_eq!(stream.read_up_to(2), vec![1, 2]);
    assert_eq!(stream.remaining_len(), 1);
    assert_eq!(stream.read_up_to(5), vec![3]);
    assert_eq!(stream.read_up_to(5), Vec::<u8>::new());
}

#[test]
fn frame_lengths_are_cached_from_the_dimensions() {
    let source = FrameSource::new(10, 5);
    assert_eq!(source.frame_length(), 162);
    assert_eq!(source.header_len(), 12);
}
