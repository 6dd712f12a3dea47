use theater_control::loopback::{
    loopback_address, loopback_request_target, request_target, AUTHORIZATION_RESPONSE,
    REQUEST_READ_LIMIT,
};
use theater_control::launch::command_outcome;
use theater_control::text::{chars_of, is_whitespace_char, push_decimal, push_str, string_of_range};

fn reference_target(text: &str) -> Option<String> {
    let line = text.lines().next()?;
    let parts: Vec<&str> = line.split_whitespace().collect();
    if parts.len() >= 2 {
        Some(parts[1].to_string())
    } else {
        None
    }
}

#[test]
fn decimal_matches_display() {
    let samples: Vec<u128> = vec![0, 1, 9, 10, 11, 99, 100, 101, 4096, 65535, 1_700_000_000_123, u64::MAX as u128, u128::MAX];
    for n in samples {
        let mut s = String::new();
        push_decimal(&mut s, n);
        assert_eq!(s, format!("{}", n));
    }
    for n in 0u128..2000 {
        let mut s = String::from("x");
        push_decimal(&mut s, n);
        assert_eq!(s, format!("x{}", n));
    }
}

#[test]
fn whitespace_matches_std_for_every_char() {
    for u in 0u32..=0x10FFFF {
        if let Some(c) = char::from_u32(u) {
            assert_eq!(is_whitespace_char(c), c.is_whitespace(), "char {:#x}", u);
        }
    }
}

#[test]
fn chars_and_ranges() {
    let v = chars_of("héllo wörld");
    assert_eq!(v.len(), 11);
    assert_eq!(string_of_range(&v, 6, 11), "wörld");
    assert_eq!(string_of_range(&v, 3, 3), "");
    let mut s = String::from("ab");
    push_str(&mut s, "cd");
    assert_eq!(s, "abcd");
}

#[test]
fn lossy_decoding() {
    let decode = |b: &[u8]| command_outcome(true, b, b"").unwrap();
    assert_eq!(decode(b"plain text"), "plain text");
    assert_eq!(decode("grüße".as_bytes()), "grüße");
    assert_eq!(decode(&[0x61, 0xff, 0x62]), "a\u{FFFD}b");
    assert_eq!(decode(&[0xF0, 0x9F, 0x98]), "\u{FFFD}");
    assert_eq!(decode(&[]), "");
}

#[test]
fn request_target_of_a_browser_request() {
    let req = "GET /callback?code=abc123&state=xyz HTTP/1.1\r\nHost: 127.0.0.1:8080\r\nUser-Agent: test\r\n\r\n";
    assert_eq!(request_target(req), Some("/callback?code=abc123&state=xyz".to_string()));
}

#[test]
fn request_target_edge_cases() {
    assert_eq!(request_target(""), None);
    assert_eq!(request_target("GET"), None);
    assert_eq!(request_target("GET\r\n/x y"), None);
    assert_eq!(request_target("\nGET /x HTTP/1.1"), None);
    assert_eq!(request_target("GET /x"), Some("/x".to_string()));
    assert_eq!(request_target("   GET    /x   HTTP/1.1  "), Some("/x".to_string()));
    assert_eq!(request_target("GET\t/tab\r\n"), Some("/tab".to_string()));
    assert_eq!(request_target("GET /x\r"), Some("/x".to_string()));
    assert_eq!(request_target("GET\u{3000}/wide HTTP/1.1"), Some("/wide".to_string()));
    assert_eq!(request_target("GET /a\u{00A0}b HTTP/1.1"), Some("/a".to_string()));
    assert_eq!(request_target("\r\nGET /x"), None);
    assert_eq!(request_target("POST /p"), Some("/p".to_string()));
}

#[test]
fn request_target_agrees_with_lines_and_split_whitespace() {
    let samples = [
        "", "\n", "\r\n", "a", "a b", "a b c", " a  b ", "a\r\nb c", "a b\r\nc d", "a\rb c",
        "a \rb", "\u{85}x y", "x\u{2028}y z", "GET /é HTTP/1.1", "\t\tGET\t\t/t\t", "a\n b c",
        "x y\r", "x\r", "\r", "\r\r\n", "one\u{200B}two three",
    ];
    for s in samples {
        assert_eq!(request_target(s), reference_target(s), "input {:?}", s);
    }
}

#[test]
fn request_target_from_bytes() {
    assert_eq!(
        loopback_request_target(b"GET /cb?code=1 HTTP/1.1\r\n\r\n"),
        Some("/cb?code=1".to_string())
    );
    assert_eq!(
        loopback_request_target(b"GET /a\xffb HTTP/1.1\r\n"),
        Some("/a\u{FFFD}b".to_string())
    );
    assert_eq!(loopback_request_target(b""), None);
}

#[test]
fn loopback_addresses() {
    assert_eq!(loopback_address(8080), "127.0.0.1:8080");
    assert_eq!(loopback_address(0), "127.0.0.1:0");
    assert_eq!(loopback_address(65535), "127.0.0.1:65535");
}

#[test]
fn authorization_response_is_http_ok() {
    assert!(AUTHORIZATION_RESPONSE.starts_with("HTTP/1.1 200 OK\r\nContent-Type: text/html\r\nConnection: close\r\n\r\n<html>"));
    assert!(AUTHORIZATION_RESPONSE.ends_with("</html>"));
    assert!(AUTHORIZATION_RESPONSE.contains("<h1>Setup Successful!</h1>"));
    assert_eq!(REQUEST_READ_LIMIT, 2048);
}
