use ehttpd::bytes::Source;
use ehttpd::http::Request;
use ehttpd_range::RangeError;
use ehttpd_range::anyrange::AnyInclusiveRange;
use ehttpd_range::requestext::{parse_range_value, range};

#[test]
fn parse_bounded_forms() {
    assert_eq!(
        parse_range_value(b"bytes=2-5"),
        Ok(AnyInclusiveRange::FromTo { start: 2, end: 5 })
    );
    assert_eq!(parse_range_value(b"bytes=8-"), Ok(AnyInclusiveRange::From { start: 8 }));
    assert_eq!(parse_range_value(b"bytes=-3"), Ok(AnyInclusiveRange::To { end: 3 }));
    assert_eq!(parse_range_value(b"bytes=0-0"), Ok(AnyInclusiveRange::FromTo { start: 0, end: 0 }));
}

#[test]
fn parse_empty_bounds_is_full() {
    assert_eq!(parse_range_value(b"bytes=-"), Ok(AnyInclusiveRange::Full));
}

#[test]
fn parse_rejects_non_decimal_start() {
    assert_eq!(parse_range_value(b"bytes=abc-5"), Err(RangeError::InvalidRangeNumber));
}

#[test]
fn parse_rejects_wrong_unit() {
    assert_eq!(parse_range_value(b"byte=0-5"), Err(RangeError::MalformedRangeHeader));
    assert_eq!(parse_range_value(b"Bytes=0-5"), Err(RangeError::MalformedRangeHeader));
}

#[test]
fn parse_rejects_missing_dash() {
    assert_eq!(parse_range_value(b"bytes=5"), Err(RangeError::MalformedRangeHeader));
}

#[test]
fn parse_rejects_missing_eq() {
    assert_eq!(parse_range_value(b"bytes 0-5"), Err(RangeError::MalformedRangeHeader));
}

#[test]
fn parse_rejects_signs_and_whitespace() {
    assert_eq!(parse_range_value(b"bytes=+5-9"), Err(RangeError::InvalidRangeNumber));
    assert_eq!(parse_range_value(b"bytes= 5-9"), Err(RangeError::InvalidRangeNumber));
    assert_eq!(parse_range_value(b"bytes=5-9 "), Err(RangeError::InvalidRangeNumber));
}

#[test]
fn parse_handles_64_bit_edge() {
    assert_eq!(
        parse_range_value(b"bytes=18446744073709551615-"),
        Ok(AnyInclusiveRange::From { start: u64::MAX })
    );
    assert_eq!(
        parse_range_value(b"bytes=18446744073709551616-"),
        Err(RangeError::InvalidRangeNumber)
    );
}

#[test]
fn parse_then_resolve_round_trip() {
    // Parsing `bytes=<start>-<end>` and resolving against the resource
    // length reproduces the interval exactly
    for (start, end, total) in [(2u64, 5u64, 10u64), (0, 0, 1), (123, 456, 1000)] {
        let header = format!("bytes={start}-{end}");
        let parsed = parse_range_value(header.as_bytes()).expect("failed to parse header");
        assert_eq!(parsed, AnyInclusiveRange::FromTo { start, end });
        let resolved = parsed.to_inclusive(0, total - 1).expect("failed to resolve range");
        assert_eq!(resolved, start..=end);
    }
}

#[test]
fn request_range_field_is_parsed() {
    let mut source = Source::from(b"GET / HTTP/1.1\r\nRange: bytes=2-5\r\n\r\n".to_vec());
    let request: Request = Request::from_stream(&mut source)
        .expect("failed to parse request")
        .expect("unexpected empty request");
    assert_eq!(range(&request), Ok(Some(AnyInclusiveRange::FromTo { start: 2, end: 5 })));
}

#[test]
fn request_without_range_field() {
    let mut source = Source::from(b"GET / HTTP/1.1\r\nHost: localhost\r\n\r\n".to_vec());
    let request: Request = Request::from_stream(&mut source)
        .expect("failed to parse request")
        .expect("unexpected empty request");
    assert_eq!(range(&request), Ok(None));
}

#[test]
fn request_with_malformed_range_field() {
    let mut source = Source::from(b"GET / HTTP/1.1\r\nRange: bytes 0-5\r\n\r\n".to_vec());
    let request: Request = Request::from_stream(&mut source)
        .expect("failed to parse request")
        .expect("unexpected empty request");
    assert_eq!(range(&request), Err(RangeError::MalformedRangeHeader));
}
