use gemini::auth::error::NetConnError;
use gemini::auth::fetcher::{
    create_req_body, decode_chunked_body, response_json_body, token_request_text,
    try_decode_chunked_body,
};

#[test]
fn decodes_chunks() {
    let body = "4\r\nWiki\r\n5\r\npedia\r\nE\r\n in\r\n\r\nchunks.\r\n0\r\n\r\n";
    assert_eq!(decode_chunked_body(body).unwrap(), "Wikipedia in\r\n\r\nchunks.");
}

#[test]
fn decodes_with_padded_and_signed_sizes() {
    assert_eq!(decode_chunked_body(" +3 \r\nabc\r\n0\r\n").unwrap(), "abc");
    assert_eq!(decode_chunked_body("0\r\ntrailer").unwrap(), "");
}

#[test]
fn decodes_multibyte_chunks() {
    assert_eq!(decode_chunked_body("2\r\né\r\n0\r\n\r\n").unwrap(), "é");
}

#[test]
fn missing_size_line_is_invalid() {
    match decode_chunked_body("abc") {
        Err(NetConnError::InvalidChunk(rest)) => assert_eq!(rest, "abc"),
        other => panic!("{other:?}"),
    }
    match decode_chunked_body("3\r\nabc\r\n") {
        Err(NetConnError::InvalidChunk(rest)) => assert_eq!(rest, ""),
        other => panic!("{other:?}"),
    }
}

#[test]
fn unreadable_size_is_invalid() {
    match decode_chunked_body("zz\r\nabc\r\n0\r\n\r\n") {
        Err(NetConnError::InvalidChunk(rest)) => assert_eq!(rest, "zz\r\nabc\r\n0\r\n\r\n"),
        other => panic!("{other:?}"),
    }
}

#[test]
fn short_chunk_is_invalid() {
    match decode_chunked_body("a\r\nabc") {
        Err(NetConnError::InvalidChunk(rest)) => assert_eq!(rest, "abc"),
        other => panic!("{other:?}"),
    }
}

#[test]
fn slicing_inside_a_character_is_reported() {
    assert!(try_decode_chunked_body("1\r\né\r\n0\r\n\r\n").is_none());
    assert!(try_decode_chunked_body("3\r\nabc").is_none());
    assert!(try_decode_chunked_body("3\r\nabc\r\n0\r\n\r\n").is_some());
}

#[test]
fn request_text_and_body() {
    let body = create_req_body("x.y.z");
    assert_eq!(body, "grant_type=urn:ietf:params:oauth:grant-type:jwt-bearer&assertion=x.y.z");
    assert_eq!(
        token_request_text("a=é"),
        "POST /token HTTP/1.1\r\nHost: oauth2.googleapis.com\r\nContent-Type: application/x-www-form-urlencoded\r\nContent-Length: 4\r\nConnection: close\r\n\r\na=é"
    );
}

#[test]
fn plain_response_body() {
    let resp = b"HTTP/1.1 200 OK\r\nContent-Type: application/json\r\n\r\n{\"a\":1}";
    assert_eq!(response_json_body(resp).unwrap().unwrap(), "{\"a\":1}");
}

#[test]
fn chunked_response_body() {
    let resp = b"HTTP/1.1 200 OK\r\nTransfer-Encoding: chunked\r\n\r\n3\r\n{\"a\r\n4\r\n\":1}\r\n0\r\n\r\n";
    assert_eq!(response_json_body(resp).unwrap().unwrap(), "{\"a\":1}");
    let lower = b"HTTP/1.1 200 OK\r\ntransfer-encoding: chunked\r\n\r\n2\r\n{}\r\n0\r\n\r\n";
    assert_eq!(response_json_body(lower).unwrap().unwrap(), "{}");
}

#[test]
fn response_without_blank_line() {
    match response_json_body(b"HTTP/1.1 200 OK\r\n") {
        Some(Err(NetConnError::UnexpectedResponse(m))) => assert_eq!(m, "Empty body"),
        other => panic!("{other:?}"),
    }
}

#[test]
fn text_after_the_last_chunk_is_ignored() {
    let body = "4\r\nWiki\r\n2\r\né\r\n0\r\nExpires: never\r\n\r\n";
    assert_eq!(decode_chunked_body(body).unwrap(), "Wikié");
    assert_eq!(decode_chunked_body("4\r\nWiki\r\n0\r\n").unwrap(), "Wiki");
    assert_eq!(decode_chunked_body("1\r\nx\r\n0\r\n0\r\nmore").unwrap(), "x");
}
