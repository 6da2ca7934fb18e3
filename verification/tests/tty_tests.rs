use async_docker::errors::DecodeError;
use async_docker::tty::{decode_chunks, encode_frame, TtyDecoder, TtyFrame};

fn frames_of(chunks: Vec<Vec<u8>>) -> Vec<(u8, Vec<u8>)> {
    let frames = decode_chunks(&chunks).expect("expected a clean decode");
    frames.into_iter().map(|f: TtyFrame| (f.stream_id, f.payload)).collect()
}

#[test]
fn encode_frame_exact_bytes() {
    let encoded = encode_frame(1, &[97, 98]);
    assert_eq!(encoded, vec![1, 0, 0, 0, 0, 0, 0, 2, 97, 98]);
}

#[test]
fn encode_frame_big_endian_length() {
    let payload = vec![0u8; 65536];
    let encoded = encode_frame(2, &payload);
    assert_eq!(&encoded[..8], &[2, 0, 0, 0, 0, 1, 0, 0]);
    assert_eq!(encoded.len(), 8 + 65536);
}

#[test]
fn frame_round_trip_all_lengths() {
    for &stream_id in &[0u8, 1, 2, 255] {
        for &n in &[0usize, 1, 255, 65536] {
            let payload: Vec<u8> = (0..n).map(|i| (i % 251) as u8).collect();
            let encoded = encode_frame(stream_id, payload.as_slice());
            let decoded = frames_of(vec![encoded]);
            assert_eq!(decoded.len(), 1);
            assert_eq!(decoded[0].0, stream_id);
            assert_eq!(decoded[0].1, payload);
        }
    }
}

#[test]
fn chunk_boundary_independence() {
    let mut bytes = encode_frame(1, &[10, 20, 30, 40, 50]);
    bytes.extend_from_slice(&encode_frame(2, b"xyz"));
    bytes.extend_from_slice(&encode_frame(0, &[]));
    let whole = frames_of(vec![bytes.clone()]);
    for cut in 0..=bytes.len() {
        let split = vec![bytes[..cut].to_vec(), bytes[cut..].to_vec()];
        assert_eq!(frames_of(split), whole, "split at {} differs", cut);
    }
    let byte_at_a_time: Vec<Vec<u8>> = bytes.iter().map(|b| vec![*b]).collect();
    assert_eq!(frames_of(byte_at_a_time), whole);
}

#[test]
fn multi_frame_per_chunk_yields_all_before_next_chunk() {
    let mut chunk = encode_frame(1, b"first");
    chunk.extend_from_slice(&encode_frame(2, b"second"));
    let mut dec = TtyDecoder::new();
    dec.push_chunk(chunk.as_slice());
    let f1 = dec.next_frame().expect("first frame should be ready");
    assert_eq!((f1.stream_id, f1.payload.as_slice()), (1, b"first".as_slice()));
    let f2 = dec.next_frame().expect("second frame should be ready");
    assert_eq!((f2.stream_id, f2.payload.as_slice()), (2, b"second".as_slice()));
    assert!(dec.next_frame().is_none());
    assert!(dec.finish().is_ok());
}

#[test]
fn truncated_header_is_an_error() {
    let chunks = vec![vec![1u8, 0, 0, 0, 0]];
    assert_eq!(decode_chunks(&chunks).unwrap_err(), DecodeError::UnexpectedEof);
}

#[test]
fn truncated_body_is_an_error() {
    let encoded = encode_frame(1, &[9, 9, 9, 9, 9, 9, 9, 9]);
    let chunks = vec![encoded[..11].to_vec()];
    assert_eq!(decode_chunks(&chunks).unwrap_err(), DecodeError::UnexpectedEof);
}

#[test]
fn truncation_yields_no_spurious_frame() {
    let mut dec = TtyDecoder::new();
    let encoded = encode_frame(1, b"abcdef");
    dec.push_chunk(&encoded[..10]);
    assert!(dec.next_frame().is_none());
    assert_eq!(dec.finish().unwrap_err(), DecodeError::UnexpectedEof);
}

#[test]
fn empty_body_frame_is_immediate() {
    let mut dec = TtyDecoder::new();
    dec.push_chunk(&[7, 0, 0, 0, 0, 0, 0, 0]);
    let f = dec.next_frame().expect("zero-length frame should be ready at once");
    assert_eq!(f.stream_id, 7);
    assert!(f.payload.is_empty());
    assert!(dec.finish().is_ok());
}

#[test]
fn reserved_bytes_are_ignored() {
    let chunks = vec![vec![1, 0xde, 0xad, 0xbe, 0, 0, 0, 2, 42, 43]];
    let decoded = frames_of(chunks);
    assert_eq!(decoded, vec![(1, vec![42, 43])]);
}

#[test]
fn example_end_to_end() {
    let mut chunk1 = vec![0x01, 0, 0, 0, 0, 0, 0, 5];
    chunk1.extend_from_slice(b"hel");
    let mut chunk2 = b"lo".to_vec();
    chunk2.extend_from_slice(&[0x02, 0, 0, 0, 0, 0, 0, 0]);
    let decoded = frames_of(vec![chunk1, chunk2]);
    assert_eq!(decoded, vec![(1, b"hello".to_vec()), (2, Vec::new())]);
}

#[test]
fn empty_stream_ends_cleanly() {
    assert_eq!(frames_of(Vec::new()), Vec::new());
    assert_eq!(frames_of(vec![Vec::new()]), Vec::new());
}

#[test]
fn buffered_len_reports_pending_bytes() {
    let mut dec = TtyDecoder::new();
    dec.push_chunk(&[1, 2, 3]);
    assert_eq!(dec.buffered_len(), 3);
    assert!(dec.next_frame().is_none());
    assert_eq!(dec.buffered_len(), 3);
}
