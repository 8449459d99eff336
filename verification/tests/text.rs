use minecraft_essentials::text::{
    chars_of, cut_text, decimal_text, digit_text, find_text, joined, push_decimal, same_text,
    stands_at,
};

#[test]
fn decimal_text_writes_numbers_without_leading_zeros() {
    assert_eq!(decimal_text(0), "0");
    assert_eq!(decimal_text(7), "7");
    assert_eq!(decimal_text(10), "10");
    assert_eq!(decimal_text(8000), "8000");
    assert_eq!(decimal_text(65535), "65535");
    assert_eq!(decimal_text(u64::MAX), "18446744073709551615");
}

#[test]
fn push_decimal_appends() {
    let mut s = String::from("port ");
    push_decimal(&mut s, 1234567890);
    assert_eq!(s, "port 1234567890");
}

#[test]
fn digit_text_gives_each_digit() {
    let all: Vec<&str> = (0..10).map(digit_text).collect();
    assert_eq!(all, vec!["0", "1", "2", "3", "4", "5", "6", "7", "8", "9"]);
}

#[test]
fn same_text_compares_by_characters() {
    assert!(same_text("code", "code"));
    assert!(!same_text("code", "codes"));
    assert!(!same_text("code", "cods"));
    assert!(same_text("", ""));
    assert!(same_text("h\u{e9}", "h\u{e9}"));
    assert!(!same_text("h\u{e9}", "he"));
}

#[test]
fn chars_of_gives_the_characters() {
    assert_eq!(chars_of("a\u{4e16}b"), vec!['a', '\u{4e16}', 'b']);
    assert_eq!(chars_of(""), Vec::<char>::new());
}

#[test]
fn find_text_gives_the_first_place_or_the_length() {
    let hay: Vec<char> = "abcabc".chars().collect();
    let bc: Vec<char> = "bc".chars().collect();
    let zz: Vec<char> = "zz".chars().collect();
    let long: Vec<char> = "abcabcabc".chars().collect();
    assert_eq!(find_text(&hay, &bc), 1);
    assert_eq!(find_text(&hay, &zz), 6);
    assert_eq!(find_text(&hay, &long), 6);
    assert_eq!(find_text(&hay, &hay), 0);
    assert!(stands_at(&hay, &bc, 4));
    assert!(!stands_at(&hay, &bc, 3));
}

#[test]
fn find_text_with_an_empty_pattern() {
    let hay: Vec<char> = "ab".chars().collect();
    let none: Vec<char> = Vec::new();
    assert_eq!(find_text(&hay, &none), 0);
    assert_eq!(find_text(&none, &none), 0);
}

#[test]
fn cut_text_cuts_before_the_first_place() {
    assert_eq!(cut_text("12345 HTTP/1.1\r\nHost", " HTTP/1.1\r\n"), "12345");
    assert_eq!(cut_text("12345", " HTTP/1.1\r\n"), "12345");
    assert_eq!(cut_text(" HTTP/1.1\r\n", " HTTP/1.1\r\n"), "");
    assert_eq!(cut_text("", "x"), "");
    assert_eq!(cut_text("a HTTP/1.1\r", " HTTP/1.1\r\n"), "a HTTP/1.1\r");
}

#[test]
fn joined_puts_one_text_behind_the_other() {
    assert_eq!(joined("d=", "token"), "d=token");
    assert_eq!(joined("", ""), "");
}
