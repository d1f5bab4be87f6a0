use dawn::codec::{encode, parse_frame, BadFrame, DebugAdapterCodec, DecodeState, Parsed, Taken};
use dawn::decimal::{format_decimal, parse_decimal};

fn frame(header: &str, body: &[u8]) -> Vec<u8> {
    let mut out = header.as_bytes().to_vec();
    out.extend_from_slice(body);
    out
}

#[test]
fn format_decimal_exact_values() {
    assert_eq!(format_decimal(0), b"0".to_vec());
    assert_eq!(format_decimal(7), b"7".to_vec());
    assert_eq!(format_decimal(10), b"10".to_vec());
    assert_eq!(format_decimal(119), b"119".to_vec());
    assert_eq!(format_decimal(1_000_000), b"1000000".to_vec());
    assert_eq!(format_decimal(usize::MAX), usize::MAX.to_string().into_bytes());
}

#[test]
fn parse_decimal_exact_values() {
    assert_eq!(parse_decimal(b"0", 0, 1), Some(0));
    assert_eq!(parse_decimal(b"42", 0, 2), Some(42));
    assert_eq!(parse_decimal(b"007", 0, 3), Some(7));
    assert_eq!(parse_decimal(b"xx123yy", 2, 5), Some(123));
    let max = usize::MAX.to_string();
    assert_eq!(parse_decimal(max.as_bytes(), 0, max.len()), Some(usize::MAX));
}

#[test]
fn parse_decimal_rejects_what_is_no_number() {
    assert_eq!(parse_decimal(b"", 0, 0), None);
    assert_eq!(parse_decimal(b"12", 1, 1), None);
    assert_eq!(parse_decimal(b"1a", 0, 2), None);
    assert_eq!(parse_decimal(b"-1", 0, 2), None);
    assert_eq!(parse_decimal(b"+1", 0, 2), None);
    assert_eq!(parse_decimal(b" 1", 0, 2), None);
    assert_eq!(parse_decimal(b"1 ", 0, 2), None);
}

#[test]
fn parse_decimal_rejects_overflow() {
    let over = format!("{}0", usize::MAX);
    assert_eq!(parse_decimal(over.as_bytes(), 0, over.len()), None);
    let just_over = "18446744073709551616";
    if usize::MAX as u128 == u64::MAX as u128 {
        assert_eq!(parse_decimal(just_over.as_bytes(), 0, just_over.len()), None);
    }
    let long = "9".repeat(40);
    assert_eq!(parse_decimal(long.as_bytes(), 0, long.len()), None);
}

#[test]
fn decimal_round_trip() {
    for n in [0usize, 1, 9, 10, 11, 99, 100, 101, 65535, 65536, 4_294_967_295, usize::MAX] {
        let text = format_decimal(n);
        assert_eq!(parse_decimal(&text, 0, text.len()), Some(n));
    }
}

#[test]
fn encode_prepends_the_length_header() {
    assert_eq!(encode(b"{}"), b"Content-Length: 2\r\n\r\n{}".to_vec());
    assert_eq!(encode(b""), b"Content-Length: 0\r\n\r\n".to_vec());
    let body = br#"{"seq":1,"type":"request","command":"initialize"}"#;
    let expected = frame(&format!("Content-Length: {}\r\n\r\n", body.len()), body);
    assert_eq!(encode(body), expected);
}

#[test]
fn encode_counts_bytes_not_characters() {
    let text = "{\"name\":\"λ\"}";
    let body = text.as_bytes();
    assert_eq!(text.chars().count(), 12);
    assert_eq!(body.len(), 13);
    assert_eq!(encode(body), frame("Content-Length: 13\r\n\r\n", body));
}

#[test]
fn parse_frame_finds_the_body() {
    let buf = b"Content-Length: 2\r\n\r\n{}";
    assert_eq!(parse_frame(buf), Parsed::Frame { start: 21, end: 23 });
    let buf = b"Content-Length: 2\r\n\r\n{}Content-Length: 5";
    assert_eq!(parse_frame(buf), Parsed::Frame { start: 21, end: 23 });
    let buf = b"Content-Length: 0\r\n\r\n";
    assert_eq!(parse_frame(buf), Parsed::Frame { start: 21, end: 21 });
}

#[test]
fn parse_frame_waits_for_more() {
    assert_eq!(parse_frame(b""), Parsed::Incomplete);
    assert_eq!(parse_frame(b"Content-Le"), Parsed::Incomplete);
    assert_eq!(parse_frame(b"Content-Length: 12"), Parsed::Incomplete);
    assert_eq!(parse_frame(b"Content-Length: 12\r\n"), Parsed::Incomplete);
    assert_eq!(parse_frame(b"Content-Length: 12\r\n\r"), Parsed::Incomplete);
    assert_eq!(parse_frame(b"Content-Length: 12\r\n\r\n"), Parsed::Incomplete);
    assert_eq!(parse_frame(b"Content-Length: 12\r\n\r\n{\"seq\":1,\"a"), Parsed::Incomplete);
}

#[test]
fn parse_frame_passes_over_other_header_lines() {
    let buf = b"Content-Type: json\r\nContent-Length: 3\r\nX: y\r\n\r\nabc";
    assert_eq!(parse_frame(buf), Parsed::Frame { start: 47, end: 50 });
    assert_eq!(&buf[47..50], b"abc");
}

#[test]
fn parse_frame_first_length_line_decides() {
    let buf = b"Content-Length: 1\r\nContent-Length: 3\r\n\r\nabc";
    assert_eq!(parse_frame(buf), Parsed::Frame { start: 40, end: 41 });
    let buf = b"Content-Length: x\r\nContent-Length: 3\r\n\r\nabc";
    assert_eq!(parse_frame(buf), Parsed::BadFrame { skip: 40 });
}

#[test]
fn parse_frame_reports_bad_headers() {
    assert_eq!(parse_frame(b"\r\n\r\n{}"), Parsed::BadFrame { skip: 4 });
    assert_eq!(parse_frame(b"Hello: 1\r\n\r\n{}"), Parsed::BadFrame { skip: 12 });
    assert_eq!(parse_frame(b"Content-Length: \r\n\r\n{}"), Parsed::BadFrame { skip: 20 });
    assert_eq!(parse_frame(b"Content-Length: two\r\n\r\n{}"), Parsed::BadFrame { skip: 23 });
    assert_eq!(parse_frame(b"Content-Length: -2\r\n\r\n{}"), Parsed::BadFrame { skip: 22 });
    assert_eq!(parse_frame(b"Content-Length:2\r\n\r\n{}"), Parsed::BadFrame { skip: 20 });
    assert_eq!(parse_frame(b"content-length: 2\r\n\r\n{}"), Parsed::BadFrame { skip: 21 });
    assert_eq!(parse_frame(b" Content-Length: 2\r\n\r\n{}"), Parsed::BadFrame { skip: 22 });
    assert_eq!(parse_frame(b"Content-Length: 2 \r\n\r\n{}"), Parsed::BadFrame { skip: 22 });
}

#[test]
fn parse_frame_reports_a_length_that_cannot_be_met() {
    let header = format!("Content-Length: {}\r\n\r\n", usize::MAX);
    assert_eq!(parse_frame(header.as_bytes()), Parsed::BadFrame { skip: header.len() });
    let header = format!("Content-Length: {}0\r\n\r\n", usize::MAX);
    assert_eq!(parse_frame(header.as_bytes()), Parsed::BadFrame { skip: header.len() });
}

#[test]
fn decode_inverts_encode() {
    let bodies: Vec<Vec<u8>> = vec![
        b"".to_vec(),
        b"{}".to_vec(),
        b"\r\n\r\n".to_vec(),
        b"Content-Length: 5\r\n\r\nhello".to_vec(),
        (0u8..=255).collect(),
        vec![b'x'; 1000],
    ];
    for body in bodies {
        let mut codec = DebugAdapterCodec::new();
        codec.feed(&encode(&body));
        assert_eq!(codec.decode(), Some(Ok(body.clone())));
        assert_eq!(codec.buffered(), 0);
        assert_eq!(codec.decode(), None);
    }
}

#[test]
fn decode_leaves_what_follows_the_frame() {
    let mut codec = DebugAdapterCodec::new();
    let mut stream = encode(b"first");
    stream.extend_from_slice(&encode(b"second"));
    stream.extend_from_slice(b"Content-Len");
    codec.feed(&stream);
    assert_eq!(codec.decode(), Some(Ok(b"first".to_vec())));
    assert_eq!(codec.decode(), Some(Ok(b"second".to_vec())));
    assert_eq!(codec.decode(), None);
    assert_eq!(codec.buffered(), 11);
}

#[test]
fn decode_is_reentrant_against_partial_input() {
    let body = br#"{"seq":1,"type":"request","command":"launch"}"#;
    let stream = encode(body);
    for cut in 0..stream.len() {
        let mut codec = DebugAdapterCodec::new();
        codec.feed(&stream[..cut]);
        assert_eq!(codec.decode(), None, "cut at {}", cut);
        assert_eq!(codec.buffered(), cut);
        codec.feed(&stream[cut..]);
        assert_eq!(codec.decode(), Some(Ok(body.to_vec())), "cut at {}", cut);
        assert_eq!(codec.buffered(), 0);
    }
    let mut codec = DebugAdapterCodec::new();
    for byte in &stream {
        assert_eq!(codec.decode(), None);
        codec.feed(&[*byte]);
    }
    assert_eq!(codec.decode(), Some(Ok(body.to_vec())));
}

#[test]
fn state_follows_the_stream() {
    let mut codec = DebugAdapterCodec::new();
    assert_eq!(codec.state(), DecodeState::ReadingHeader);
    codec.feed(b"Content-Length: 5");
    assert_eq!(codec.state(), DecodeState::ReadingHeader);
    codec.feed(b"\r\n\r\n");
    assert_eq!(codec.state(), DecodeState::ReadingBody { length: 5, consumed: 0 });
    codec.feed(b"he");
    assert_eq!(codec.state(), DecodeState::ReadingBody { length: 5, consumed: 2 });
    codec.feed(b"llo");
    assert_eq!(codec.state(), DecodeState::ReadingBody { length: 5, consumed: 5 });
    codec.feed(b"Content");
    assert_eq!(codec.state(), DecodeState::ReadingBody { length: 5, consumed: 5 });
    assert_eq!(codec.decode(), Some(Ok(b"hello".to_vec())));
    assert_eq!(codec.state(), DecodeState::ReadingHeader);
    assert_eq!(codec.buffered(), 7);
}

#[test]
fn decode_drops_a_bad_header_and_resumes() {
    let mut codec = DebugAdapterCodec::new();
    let mut stream = b"Content-Length: oops\r\n\r\n".to_vec();
    stream.extend_from_slice(&encode(b"good"));
    codec.feed(&stream);
    assert_eq!(codec.decode(), Some(Err(BadFrame { discarded: 24 })));
    assert_eq!(codec.decode(), Some(Ok(b"good".to_vec())));
    assert_eq!(codec.decode(), None);
}

#[test]
fn next_body_skips_bad_headers() {
    let mut codec = DebugAdapterCodec::new();
    let mut stream = b"Bad: 1\r\n\r\n".to_vec();
    stream.extend_from_slice(b"\r\n\r\n");
    stream.extend_from_slice(b"Content-Length: 1x\r\n\r\n");
    stream.extend_from_slice(&encode(b"payload"));
    stream.extend_from_slice(&encode(b"next"));
    codec.feed(&stream);
    assert_eq!(codec.next_body(), Taken { body: Some(b"payload".to_vec()), dropped: 3 });
    assert_eq!(codec.next_body(), Taken { body: Some(b"next".to_vec()), dropped: 0 });
    assert_eq!(codec.next_body(), Taken { body: None, dropped: 0 });
    assert_eq!(codec.buffered(), 0);
}

#[test]
fn next_body_keeps_an_incomplete_frame() {
    let mut codec = DebugAdapterCodec::new();
    codec.feed(b"junk\r\n\r\nContent-Length: 4\r\n\r\nab");
    assert_eq!(codec.next_body(), Taken { body: None, dropped: 1 });
    assert_eq!(codec.buffered(), 23);
    assert_eq!(codec.state(), DecodeState::ReadingBody { length: 4, consumed: 2 });
    codec.feed(b"cd");
    assert_eq!(codec.next_body(), Taken { body: Some(b"abcd".to_vec()), dropped: 0 });
}
