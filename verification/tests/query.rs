use minecraft_essentials::capture::classify;
use minecraft_essentials::errors::AuthErrors;
use minecraft_essentials::query::{find_byte, info_from_pairs, lookup, parse_oauth};

fn pair(k: &str, v: &str) -> (String, String) {
    (k.to_string(), v.to_string())
}

#[test]
fn redirect_with_code_and_state_is_parsed() {
    let request = b"GET /?code=ABC123&state=12345 HTTP/1.1\r\nHost: localhost:8000\r\n\r\n";
    let info = parse_oauth(request).unwrap();
    assert_eq!(info.code, Some("ABC123".to_string()));
    assert_eq!(info.state, Some("12345".to_string()));
    assert_eq!(info.error, None);
    assert_eq!(info.error_description, None);
}

#[test]
fn state_is_cut_at_the_marker() {
    let pairs = vec![pair("state", "xyz HTTP/1.1\r\nHost: a\r\n")];
    let info = info_from_pairs(&pairs);
    assert_eq!(info.state, Some("xyz".to_string()));
}

#[test]
fn state_is_cut_at_the_first_marker() {
    let pairs = vec![pair("state", "a HTTP/1.1\r\nb HTTP/1.1\r\nc")];
    let info = info_from_pairs(&pairs);
    assert_eq!(info.state, Some("a".to_string()));
}

#[test]
fn state_without_marker_is_kept_whole() {
    let pairs = vec![pair("state", "12345")];
    let info = info_from_pairs(&pairs);
    assert_eq!(info.state, Some("12345".to_string()));
}

#[test]
fn state_with_characters_of_several_bytes_is_cut_by_characters() {
    let pairs = vec![pair("state", "h\u{e9}\u{4e16} HTTP/1.1\r\nrest")];
    let info = info_from_pairs(&pairs);
    assert_eq!(info.state, Some("h\u{e9}\u{4e16}".to_string()));
}

#[test]
fn only_state_is_cut() {
    let pairs = vec![pair("code", "abc HTTP/1.1\r\n")];
    let info = info_from_pairs(&pairs);
    assert_eq!(info.code, Some("abc HTTP/1.1\r\n".to_string()));
}

#[test]
fn first_value_of_a_name_wins() {
    let pairs = vec![pair("code", "one"), pair("other", "x"), pair("code", "two")];
    assert_eq!(lookup(&pairs, "code"), Some("one".to_string()));
    assert_eq!(lookup(&pairs, "other"), Some("x".to_string()));
    assert_eq!(lookup(&pairs, "none"), None);
}

#[test]
fn provider_error_is_parsed_and_then_classified() {
    let request =
        b"GET /?error=access_denied&error_description=User%20declined&state=1 HTTP/1.1\r\n\r\n";
    let info = parse_oauth(request).unwrap();
    assert_eq!(info.error, Some("access_denied".to_string()));
    assert_eq!(info.error_description, Some("User declined".to_string()));
    assert_eq!(info.code, None);
    match classify(info) {
        Err(AuthErrors::AuthenticationFailure(words)) => assert_eq!(words, "User declined"),
        other => panic!("unexpected: {:?}", other),
    }
}

#[test]
fn error_without_words_is_no_failure() {
    let request = b"GET /?error=access_denied&code=c HTTP/1.1\r\n\r\n&state=1 HTTP/1.1\r\n";
    let info = parse_oauth(request).unwrap();
    let kept = classify(info).unwrap();
    assert_eq!(kept.error, Some("access_denied".to_string()));
}

#[test]
fn empty_error_with_words_is_no_failure() {
    let pairs = vec![pair("error", ""), pair("error_description", "words")];
    assert!(classify(info_from_pairs(&pairs)).is_ok());
}

#[test]
fn request_without_question_mark_is_malformed() {
    match parse_oauth(b"GET /favicon.ico HTTP/1.1\r\n\r\n") {
        Err(AuthErrors::MalformedRequest(words)) => assert_eq!(words, "No query string found"),
        other => panic!("unexpected: {:?}", other),
    }
}

#[test]
fn empty_request_is_malformed() {
    assert!(matches!(parse_oauth(b""), Err(AuthErrors::MalformedRequest(_))));
}

#[test]
fn request_that_is_not_utf8_is_malformed() {
    match parse_oauth(b"GET /?code=\xff\xfe HTTP/1.1\r\n") {
        Err(AuthErrors::MalformedRequest(words)) => assert_eq!(words, "Invalid UTF-8"),
        other => panic!("unexpected: {:?}", other),
    }
}

#[test]
fn query_ends_at_the_fragment() {
    let info = parse_oauth(b"GET /?code=abc#frag&state=zzz HTTP/1.1\r\n").unwrap();
    assert_eq!(info.code, Some("abc".to_string()));
    assert_eq!(info.state, None);
}

#[test]
fn fragment_sign_before_the_query_does_not_count() {
    let info = parse_oauth(b"GET /#x?code=abc&state=s HTTP/1.1\r\n").unwrap();
    assert_eq!(info.code, Some("abc".to_string()));
    assert_eq!(info.state, Some("s".to_string()));
}

#[test]
fn values_are_percent_decoded_by_the_url_crate() {
    let info = parse_oauth(b"GET /?code=a%2Bb+c%26d&state=%31 HTTP/1.1\r\n").unwrap();
    assert_eq!(info.code, Some("a+b c&d".to_string()));
    assert_eq!(info.state, Some("1".to_string()));
}

#[test]
fn find_byte_gives_the_first_index_or_the_length() {
    assert_eq!(find_byte(b"a?b?c", b'?', 0), 1);
    assert_eq!(find_byte(b"a?b?c", b'?', 2), 3);
    assert_eq!(find_byte(b"a?b?c", b'?', 4), 5);
    assert_eq!(find_byte(b"", b'?', 0), 0);
}
