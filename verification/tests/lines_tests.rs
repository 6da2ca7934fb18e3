use async_docker::errors::DecodeError;
use async_docker::lines::{decode_records, decode_text, record_to_string, Lines};

fn records_of(chunks: Vec<Vec<u8>>) -> Vec<Vec<u8>> {
    decode_records(&chunks)
}

#[test]
fn line_splitting_terminated() {
    let records = records_of(vec![b"abc\ndef\n".to_vec()]);
    assert_eq!(records, vec![b"abc".to_vec(), b"def".to_vec()]);
}

#[test]
fn line_splitting_flush_on_eof() {
    let mut dec = Lines::new();
    dec.push_chunk(b"abc\ndef");
    assert_eq!(dec.next_line().unwrap(), b"abc".to_vec());
    assert!(dec.next_line().is_none());
    assert_eq!(dec.flush().unwrap(), b"def".to_vec());
    assert!(dec.flush().is_none());
}

#[test]
fn trailing_newline_flushes_nothing() {
    let mut dec = Lines::new();
    dec.push_chunk(b"abc\n");
    assert_eq!(dec.next_line().unwrap(), b"abc".to_vec());
    assert!(dec.next_line().is_none());
    assert!(dec.flush().is_none());
}

#[test]
fn empty_line_is_a_record() {
    let records = records_of(vec![b"a\n\nb\n".to_vec()]);
    assert_eq!(records, vec![b"a".to_vec(), Vec::new(), b"b".to_vec()]);
}

#[test]
fn record_split_across_chunks() {
    let records = records_of(vec![b"hel".to_vec(), b"lo\nwor".to_vec(), b"ld\n".to_vec()]);
    assert_eq!(records, vec![b"hello".to_vec(), b"world".to_vec()]);
}

#[test]
fn many_records_in_one_chunk() {
    let mut dec = Lines::new();
    dec.push_chunk(b"one\ntwo\nthree\n");
    assert_eq!(dec.next_line().unwrap(), b"one".to_vec());
    assert_eq!(dec.next_line().unwrap(), b"two".to_vec());
    assert_eq!(dec.next_line().unwrap(), b"three".to_vec());
    assert!(dec.next_line().is_none());
}

#[test]
fn chunking_does_not_change_records() {
    let bytes = b"alpha\nbeta\rgamma\n\ndelta".to_vec();
    let whole = records_of(vec![bytes.clone()]);
    for cut in 0..=bytes.len() {
        let split = records_of(vec![bytes[..cut].to_vec(), bytes[cut..].to_vec()]);
        assert_eq!(split, whole, "split at {} differs", cut);
    }
}

#[test]
fn record_to_string_valid_utf8() {
    let text = record_to_string(&b"status: ok".to_vec()).unwrap();
    assert_eq!(text, "status: ok");
}

#[test]
fn record_to_string_invalid_utf8() {
    let err = record_to_string(&vec![0xff, 0xfe]).unwrap_err();
    assert_eq!(err, DecodeError::InvalidEncoding);
}

#[test]
fn multibyte_code_point_split_across_chunks() {
    let bytes = "caf\u{e9}\nth\u{e9}".as_bytes().to_vec();
    for cut in 0..=bytes.len() {
        let chunks = vec![bytes[..cut].to_vec(), bytes[cut..].to_vec()];
        let texts = decode_text(&chunks).unwrap();
        assert_eq!(texts, vec!["caf\u{e9}".to_string(), "th\u{e9}".to_string()]);
    }
}

#[test]
fn decode_text_reports_invalid_record() {
    let chunks = vec![b"good\n".to_vec(), vec![0xc3, 0x28], b"\nalso good\n".to_vec()];
    assert_eq!(decode_text(&chunks).unwrap_err(), DecodeError::InvalidEncoding);
}

#[test]
fn decode_text_event_stream_shape() {
    let chunks = vec![
        b"{\"status\":\"start\",\"id\":\"abc\"}\n{\"status\":\"die\",".to_vec(),
        b"\"id\":\"abc\"}\n".to_vec(),
    ];
    let texts = decode_text(&chunks).unwrap();
    assert_eq!(
        texts,
        vec![
            "{\"status\":\"start\",\"id\":\"abc\"}".to_string(),
            "{\"status\":\"die\",\"id\":\"abc\"}".to_string(),
        ]
    );
}

#[test]
fn empty_input_has_no_records() {
    assert_eq!(records_of(Vec::new()), Vec::<Vec<u8>>::new());
    assert_eq!(records_of(vec![Vec::new()]), Vec::<Vec<u8>>::new());
}

#[test]
fn error_messages_name_the_failure() {
    assert_eq!(DecodeError::Transport.message(), "transport failure");
    assert_eq!(DecodeError::UnexpectedEof.message(), "stream ended mid-frame");
    assert_eq!(DecodeError::InvalidEncoding.message(), "record is not valid utf-8");
    assert_eq!(
        DecodeError::Deserialization.message(),
        "record failed structured parsing"
    );
}
