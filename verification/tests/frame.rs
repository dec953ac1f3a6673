use ipc_bridge::frame::{
    decode_frame, encode_frame, is_frame_payload, FrameError, DELIMITER, MAX_FRAME_LEN,
    RECEIVE_LIMIT,
};

#[test]
fn limits_are_sixteen_mebibytes() {
    assert_eq!(MAX_FRAME_LEN, 16 * 1024 * 1024);
    assert_eq!(RECEIVE_LIMIT, MAX_FRAME_LEN + 1);
    assert_eq!(DELIMITER, b'\n');
}

#[test]
fn encode_appends_one_delimiter() {
    assert_eq!(encode_frame("hello"), b"hello\n".to_vec());
    assert_eq!(encode_frame(""), b"\n".to_vec());
}

#[test]
fn encode_writes_text_as_utf8() {
    assert_eq!(encode_frame("caf\u{e9}"), vec![b'c', b'a', b'f', 0xc3, 0xa9, b'\n']);
    assert_eq!(encode_frame("\u{20ac}"), vec![0xe2, 0x82, 0xac, b'\n']);
    assert_eq!(encode_frame("\u{1f600}"), vec![0xf0, 0x9f, 0x98, 0x80, b'\n']);
}

#[test]
fn decode_strips_the_delimiter() {
    assert_eq!(decode_frame(b"hello\n"), Ok(String::from("hello")));
    assert_eq!(decode_frame(b"\n"), Ok(String::new()));
}

#[test]
fn decode_stops_at_the_first_delimiter() {
    assert_eq!(decode_frame(b"one\ntwo\n"), Ok(String::from("one")));
    assert_eq!(decode_frame(b"one\n\xff\xfe"), Ok(String::from("one")));
}

#[test]
fn decode_keeps_carriage_returns_and_blanks() {
    assert_eq!(decode_frame(b" a b \r\n"), Ok(String::from(" a b \r")));
}

#[test]
fn frame_round_trip() {
    let payloads = [
        "",
        "hello",
        "response:hello",
        "0x0000000000000000000000000000000000000000000000000000000000000001",
        "caf\u{e9} \u{20ac} \u{1f600}",
        "tab\tand\rreturn",
    ];
    for payload in payloads {
        assert_eq!(decode_frame(&encode_frame(payload)), Ok(String::from(payload)));
    }
}

#[test]
fn frame_round_trip_at_full_size() {
    let payload = "a".repeat(MAX_FRAME_LEN);
    let wire = encode_frame(&payload);
    assert_eq!(wire.len(), RECEIVE_LIMIT);
    assert_eq!(decode_frame(&wire), Ok(payload));
}

#[test]
fn closed_before_a_delimiter_is_unterminated() {
    assert_eq!(decode_frame(b""), Err(FrameError::Unterminated));
    assert_eq!(decode_frame(b"hello"), Err(FrameError::Unterminated));
    let most = vec![b'a'; MAX_FRAME_LEN];
    assert_eq!(decode_frame(&most), Err(FrameError::Unterminated));
}

#[test]
fn oversized_payload_is_rejected() {
    let payload = "a".repeat(MAX_FRAME_LEN + 1);
    let wire = encode_frame(&payload);
    assert_eq!(decode_frame(&wire), Err(FrameError::Oversized));
    assert_eq!(decode_frame(&wire[..RECEIVE_LIMIT]), Err(FrameError::Oversized));
}

#[test]
fn oversized_line_is_rejected_whatever_follows() {
    let mut line = vec![b'a'; MAX_FRAME_LEN + 5];
    assert_eq!(decode_frame(&line), Err(FrameError::Oversized));
    line.push(b'\n');
    assert_eq!(decode_frame(&line), Err(FrameError::Oversized));
}

#[test]
fn oversized_comes_before_text_is_looked_at() {
    let line = vec![0xffu8; MAX_FRAME_LEN + 1];
    assert_eq!(decode_frame(&line), Err(FrameError::Oversized));
}

#[test]
fn bytes_that_are_no_utf8_are_rejected() {
    assert_eq!(decode_frame(b"\xff\n"), Err(FrameError::NotText));
    assert_eq!(decode_frame(b"ab\xc3\n"), Err(FrameError::NotText));
    assert_eq!(decode_frame(b"\xed\xa0\x80\n"), Err(FrameError::NotText));
    assert_eq!(decode_frame(b"\xc0\xaf\n"), Err(FrameError::NotText));
}

#[test]
fn payload_without_line_feed_is_valid() {
    assert!(is_frame_payload(""));
    assert!(is_frame_payload("hello"));
    assert!(is_frame_payload("caf\u{e9} \u{20ac} \u{1f600}"));
    assert!(is_frame_payload("carriage\rreturn"));
    assert!(is_frame_payload("\u{10a}\u{a0a}"));
}

#[test]
fn payload_with_line_feed_is_not_valid() {
    assert!(!is_frame_payload("\n"));
    assert!(!is_frame_payload("hello\n"));
    assert!(!is_frame_payload("two\nlines"));
    assert!(!is_frame_payload("\u{1f600}\n\u{1f600}"));
}

#[test]
fn payload_is_valid_up_to_the_limit() {
    assert!(is_frame_payload(&"a".repeat(MAX_FRAME_LEN)));
    assert!(!is_frame_payload(&"a".repeat(MAX_FRAME_LEN + 1)));
    assert!(!is_frame_payload(&"\u{e9}".repeat(MAX_FRAME_LEN / 2 + 1)));
}

#[test]
fn text_with_line_feed_is_cut_at_it_by_the_receiver() {
    let wire = encode_frame("two\nlines");
    assert_eq!(wire, b"two\nlines\n".to_vec());
    assert_eq!(decode_frame(&wire), Ok(String::from("two")));
}
