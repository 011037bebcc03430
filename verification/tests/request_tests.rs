use httpserver::Method;
use httpserver::ParseError;
use httpserver::QueryStringValue;
use httpserver::decode;
use httpserver::get_next_word;

#[test]
fn decode_with_repeated_query_key() {
    let request = decode(b"GET /hello?a=1&a=2 HTTP/1.1\r\n\r\n").expect("must decode");
    assert_eq!(*request.method(), Method::GET);
    assert_eq!(request.path(), "/hello");
    let qs = request.query_string().expect("query string must be present");
    assert_eq!(
        qs.get("a"),
        Some(QueryStringValue::Multiple(vec!["1".to_string(), "2".to_string()]))
    );
}

#[test]
fn decode_without_query() {
    let request = decode(b"GET /no-query HTTP/1.1\r\n\r\n").expect("must decode");
    assert_eq!(*request.method(), Method::GET);
    assert_eq!(request.path(), "/no-query");
    assert!(request.query_string().is_none());
}

#[test]
fn decode_rejects_wrong_protocol() {
    assert_eq!(decode(b"GET /x HTTP/1.0\r\n\r\n"), Err(ParseError::InvalidProtocol));
}

#[test]
fn decode_rejects_protocol_with_trailing_garbage() {
    assert_eq!(decode(b"GET /x HTTP/1.1x\r\n\r\n"), Err(ParseError::InvalidProtocol));
}

#[test]
fn decode_rejects_unknown_method() {
    assert_eq!(decode(b"BOGUS /x HTTP/1.1\r\n\r\n"), Err(ParseError::InvalidMethod));
}

#[test]
fn decode_rejects_incomplete_request_lines() {
    assert_eq!(decode(b""), Err(ParseError::InvalidRequest));
    assert_eq!(decode(b"GET"), Err(ParseError::InvalidRequest));
    assert_eq!(decode(b"GET /x"), Err(ParseError::InvalidRequest));
    assert_eq!(decode(b"GET /x HTTP/1.1"), Err(ParseError::InvalidRequest));
    assert_eq!(decode(b" "), Err(ParseError::InvalidRequest));
    assert_eq!(decode(b"  "), Err(ParseError::InvalidRequest));
}

#[test]
fn decode_rejects_invalid_encoding() {
    assert_eq!(decode(&[0xff, 0xfe, 0xfd]), Err(ParseError::InvalidEncoding));
    assert_eq!(decode(&[b'G', 0x80, b' ']), Err(ParseError::InvalidEncoding));
}

#[test]
fn decode_splits_path_at_first_question_mark_only() {
    let request = decode(b"GET /a?b=1?c=2 HTTP/1.1\r\n\r\n").expect("must decode");
    assert_eq!(request.path(), "/a");
    let qs = request.query_string().expect("query string must be present");
    assert_eq!(qs.get("b"), Some(QueryStringValue::Single("1?c=2".to_string())));
}

#[test]
fn decode_accepts_every_verb() {
    let m = decode(b"DELETE /x HTTP/1.1\r\n\r\n").expect("must decode");
    assert_eq!(*m.method(), Method::DELETE);
    let m = decode(b"PATCH /x HTTP/1.1\r\n\r\n").expect("must decode");
    assert_eq!(*m.method(), Method::PATCH);
}

#[test]
fn decode_ignores_everything_after_the_protocol() {
    let mut buffer = [0u8; 1024];
    let line = b"GET /hello HTTP/1.1\r\nHost: example\r\n\r\n";
    buffer[..line.len()].copy_from_slice(line);
    let request = decode(&buffer[..]).expect("must decode");
    assert_eq!(*request.method(), Method::GET);
    assert_eq!(request.path(), "/hello");
}

#[test]
fn decode_with_empty_query_fragment() {
    let request = decode(b"GET /x? HTTP/1.1\r\n\r\n").expect("must decode");
    assert_eq!(request.path(), "/x");
    let qs = request.query_string().expect("query string must be present");
    assert_eq!(qs.get(""), Some(QueryStringValue::Single("".to_string())));
}

#[test]
fn protocol_is_checked_before_the_method() {
    assert_eq!(decode(b"BOGUS /x HTTP/1.0\r\n\r\n"), Err(ParseError::InvalidProtocol));
}

#[test]
fn error_messages_are_fixed() {
    assert_eq!(ParseError::InvalidRequest.message(), "Invalid Request");
    assert_eq!(ParseError::InvalidEncoding.message(), "Invalid Encoding");
    assert_eq!(ParseError::InvalidProtocol.message(), "Invalid Protocol");
    assert_eq!(ParseError::InvalidMethod.message(), "Invalid Method");
}

#[test]
fn get_next_word_splits_at_space_or_carriage_return() {
    assert_eq!(get_next_word("GET /x"), Some(("GET", "/x")));
    assert_eq!(get_next_word("HTTP/1.1\r\nrest"), Some(("HTTP/1.1", "\nrest")));
    assert_eq!(get_next_word("noword"), None);
    assert_eq!(get_next_word(""), None);
}
