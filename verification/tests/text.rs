use gemini::auth::fetcher::{decode_chunked_body, response_json_body, token_request_text};
use gemini::auth::hyper_fetcher::refresh_request;
use gemini::auth::user_account::SourceCredentials;
use gemini::text::{contains_bytes, find_bytes, parse_hex_usize};

#[test]
fn hex_sizes() {
    assert_eq!(parse_hex_usize("1a"), Some(26));
    assert_eq!(parse_hex_usize("FF"), Some(255));
    assert_eq!(parse_hex_usize("+10"), Some(16));
    assert_eq!(parse_hex_usize("0"), Some(0));
    assert_eq!(parse_hex_usize(""), None);
    assert_eq!(parse_hex_usize("+"), None);
    assert_eq!(parse_hex_usize("-1"), None);
    assert_eq!(parse_hex_usize("1g"), None);
    assert_eq!(parse_hex_usize(" 1"), None);
    assert_eq!(parse_hex_usize("ffffffffffffffff"), Some(usize::MAX));
    assert_eq!(parse_hex_usize("10000000000000000"), None);
    assert_eq!(parse_hex_usize("é"), None);
}

#[test]
fn hex_sizes_agree_with_std() {
    for s in ["7", "+a", "abc", "", "+", "x1", "00ff", "+-1", "1 "] {
        assert_eq!(parse_hex_usize(s), usize::from_str_radix(s, 16).ok(), "{s}");
    }
}

#[test]
fn finds_first_occurrence() {
    assert_eq!(find_bytes(b"ab\r\ncd\r\n", b"\r\n"), Some(2));
    assert_eq!(find_bytes(b"abc", b"\r\n"), None);
    assert_eq!(find_bytes(b"abc", b""), Some(0));
    assert_eq!(find_bytes(b"a", b"ab"), None);
    assert!(contains_bytes(b"xx google/api yy", b"google/api"));
    assert!(!contains_bytes(b"google/ap", b"google/api"));
}

#[test]
fn size_lines_are_trimmed_of_unicode_white_space() {
    assert_eq!(decode_chunked_body("  3\t\r\nabc\r\n0\r\n").unwrap(), "abc");
    assert_eq!(decode_chunked_body("\u{3000}2\u{a0}\r\nxy\r\n0\r\n").unwrap(), "xy");
    assert!(decode_chunked_body("\r\nabc\r\n").is_err());
}

#[test]
fn refresh_form_is_url_encoded() {
    let c = SourceCredentials {
        account: String::new(),
        client_id: "AZaz09-._~".to_string(),
        client_secret: "é/".to_string(),
        refresh_token: "a b&c=d".to_string(),
        type_: "authorized_user".to_string(),
        universe_domain: "googleapis.com".to_string(),
    };
    let req = refresh_request(&c);
    assert_eq!(
        String::from_utf8(req.body).unwrap(),
        "grant_type=refresh_token&refresh_token=a%20b%26c%3Dd&client_id=AZaz09-._~&client_secret=%C3%A9%2F"
    );
    let empty = SourceCredentials {
        account: String::new(),
        client_id: String::new(),
        client_secret: String::new(),
        refresh_token: String::new(),
        type_: String::new(),
        universe_domain: String::new(),
    };
    assert_eq!(
        String::from_utf8(refresh_request(&empty).body).unwrap(),
        "grant_type=refresh_token&refresh_token=&client_id=&client_secret="
    );
}

#[test]
fn content_length_is_decimal() {
    assert!(token_request_text("").contains("\r\nContent-Length: 0\r\n"));
    let long = "x".repeat(1234);
    assert!(token_request_text(&long).contains("\r\nContent-Length: 1234\r\n"));
}

#[test]
fn response_bytes_are_read_lossily() {
    assert_eq!(response_json_body(b"HTTP/1.1 200 OK\r\n\r\nplain").unwrap().unwrap(), "plain");
    assert_eq!(
        response_json_body(&[b'\r', b'\n', b'\r', b'\n', 0x61, 0xFF, 0x62]).unwrap().unwrap(),
        "a\u{FFFD}b"
    );
}
