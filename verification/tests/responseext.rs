use ehttpd::bytes::Data;
use ehttpd::http::Response;
use ehttpd_range::RangeError;
use ehttpd_range::anyrange::AnyInclusiveRange;
use ehttpd_range::requestext::parse_range_value;
use ehttpd_range::responseext::{
    new_206_partial_content, set_accept_ranges_bytes, set_accept_ranges_none, set_body_data_range,
    set_content_range, set_file_range_headers,
};

fn serialize(resp: &mut Response) -> Vec<u8> {
    let mut out = Vec::new();
    resp.to_stream(&mut out).expect("failed to serialize response");
    out
}

fn parsed_data_range(header: &[u8]) -> AnyInclusiveRange<usize> {
    parse_range_value(header)
        .expect("failed to parse header")
        .convert()
        .expect("failed to convert range")
}

#[test]
fn data_range_bounded() {
    // `bytes=2-5` on ten bytes of data: bytes 2 through 5, inclusive
    let data = Data::from(b"0123456789".to_vec());
    let mut resp = new_206_partial_content();
    set_accept_ranges_bytes(&mut resp);
    set_body_data_range(&mut resp, data, parsed_data_range(b"bytes=2-5"))
        .expect("failed to set range body");
    let expected = b"HTTP/1.1 206 Partial Content\r\n\
                     Accept-Ranges: bytes\r\n\
                     Content-Range: bytes 2-5/10\r\n\
                     Content-Length: 4\r\n\
                     \r\n\
                     2345";
    assert_eq!(serialize(&mut resp), expected.to_vec());
}

#[test]
fn data_range_open_end() {
    // `bytes=8-` on ten bytes of data: everything from byte 8 on
    let data = Data::from(b"0123456789".to_vec());
    let mut resp = new_206_partial_content();
    set_accept_ranges_bytes(&mut resp);
    set_body_data_range(&mut resp, data, parsed_data_range(b"bytes=8-"))
        .expect("failed to set range body");
    let expected = b"HTTP/1.1 206 Partial Content\r\n\
                     Accept-Ranges: bytes\r\n\
                     Content-Range: bytes 8-9/10\r\n\
                     Content-Length: 2\r\n\
                     \r\n\
                     89";
    assert_eq!(serialize(&mut resp), expected.to_vec());
}

#[test]
fn data_range_open_start() {
    // `bytes=-3` carries an upper boundary only; the missing start is
    // substituted with the domain edge `0`, so bytes 0 through 3 are served
    let data = Data::from(b"0123456789".to_vec());
    let mut resp = new_206_partial_content();
    set_accept_ranges_bytes(&mut resp);
    set_body_data_range(&mut resp, data, parsed_data_range(b"bytes=-3"))
        .expect("failed to set range body");
    let expected = b"HTTP/1.1 206 Partial Content\r\n\
                     Accept-Ranges: bytes\r\n\
                     Content-Range: bytes 0-3/10\r\n\
                     Content-Length: 4\r\n\
                     \r\n\
                     0123";
    assert_eq!(serialize(&mut resp), expected.to_vec());
}

#[test]
fn data_range_out_of_bounds() {
    // `bytes=5-20` on ten bytes of data: the end exceeds the data length
    let data = Data::from(b"0123456789".to_vec());
    let mut resp = new_206_partial_content();
    let result = set_body_data_range(&mut resp, data, parsed_data_range(b"bytes=5-20"));
    assert_eq!(result, Err(RangeError::RangeOutOfBounds));

    // The failed setter left the response untouched
    let expected = b"HTTP/1.1 206 Partial Content\r\n\
                     Content-Length: 0\r\n\
                     \r\n";
    assert_eq!(serialize(&mut resp), expected.to_vec());
}

#[test]
fn data_range_needs_206_status() {
    // A response that was not built as `206 Partial Content` takes no
    // range body
    let data = Data::from(b"0123456789".to_vec());
    let mut resp = Response::new_status_reason(200, "OK");
    let result = set_body_data_range(&mut resp, data, parsed_data_range(b"bytes=2-5"));
    assert_eq!(result, Err(RangeError::WrongResponseStatus));
}

#[test]
fn data_range_empty_resource() {
    // A zero-length resource admits no range at all
    let empty = Data::from(Vec::<u8>::new());
    let mut resp = new_206_partial_content();
    let result = set_body_data_range(&mut resp, empty.clone(), AnyInclusiveRange::Full);
    assert_eq!(result, Err(RangeError::RangeInvalid));
    let result = set_body_data_range(&mut resp, empty, AnyInclusiveRange::From { start: 1 });
    assert_eq!(result, Err(RangeError::RangeOutOfBounds));
}

#[test]
fn content_range_header_forms() {
    let mut resp = new_206_partial_content();
    set_content_range(&mut resp, AnyInclusiveRange::FromTo { start: 2, end: 5 }, 10)
        .expect("failed to set content range");
    set_accept_ranges_none(&mut resp);
    let expected = b"HTTP/1.1 206 Partial Content\r\n\
                     Content-Length: 0\r\n\
                     Content-Range: bytes 2-5/10\r\n\
                     Accept-Ranges: none\r\n\
                     \r\n";
    assert_eq!(serialize(&mut resp), expected.to_vec());

    let mut resp = new_206_partial_content();
    set_content_range(&mut resp, AnyInclusiveRange::Full, 10)
        .expect("failed to set content range");
    let expected = b"HTTP/1.1 206 Partial Content\r\n\
                     Content-Length: 0\r\n\
                     Content-Range: bytes 0-9/10\r\n\
                     \r\n";
    assert_eq!(serialize(&mut resp), expected.to_vec());
}

#[test]
fn content_range_rejections() {
    let mut resp = new_206_partial_content();
    assert_eq!(
        set_content_range(&mut resp, AnyInclusiveRange::FromTo { start: 5, end: 2 }, 10),
        Err(RangeError::RangeInvalid)
    );
    assert_eq!(
        set_content_range(&mut resp, AnyInclusiveRange::From { start: 10 }, 10),
        Err(RangeError::RangeOutOfBounds)
    );
    assert_eq!(
        set_content_range(&mut resp, AnyInclusiveRange::Full, 0),
        Err(RangeError::RangeOutOfBounds)
    );
}

#[test]
fn file_range_headers() {
    // The file-backed form writes the same headers; the caller then seeks
    // to the returned start and bounds the reader to `end - start` bytes
    let mut resp = new_206_partial_content();
    let (start, end) = set_file_range_headers(&mut resp, AnyInclusiveRange::From { start: 8 }, 10)
        .expect("failed to set file range headers");
    assert_eq!((start, end), (8, 10));
    let expected = b"HTTP/1.1 206 Partial Content\r\n\
                     Content-Range: bytes 8-9/10\r\n\
                     Content-Length: 2\r\n\
                     \r\n";
    assert_eq!(serialize(&mut resp), expected.to_vec());
}

#[test]
fn file_range_headers_rejections() {
    let mut resp = Response::new_status_reason(404, "Not Found");
    assert_eq!(
        set_file_range_headers(&mut resp, AnyInclusiveRange::Full, 10),
        Err(RangeError::WrongResponseStatus)
    );

    let mut resp = new_206_partial_content();
    assert_eq!(
        set_file_range_headers(&mut resp, AnyInclusiveRange::FromTo { start: 5, end: 20 }, 10),
        Err(RangeError::RangeOutOfBounds)
    );
    assert_eq!(
        set_file_range_headers(&mut resp, AnyInclusiveRange::Full, 0),
        Err(RangeError::RangeInvalid)
    );
}
