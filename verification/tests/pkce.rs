use minecraft_essentials::hashes::{checked_hash, create_hash};
use minecraft_essentials::pkce::{
    alphabet_char, checked_verifier, code_challenge, code_verifier, make_url_safe, url_encode,
};

const CHARS: &[u8] = b"ABCDEFGHIJKLMNOPQRSTUVWXYZabcdefghijklmnopqrstuvwxyz0123456789-.~_";

#[test]
fn alphabet_is_letters_digits_and_four_signs() {
    let all: Vec<u8> = (0..66).map(alphabet_char).collect();
    assert_eq!(all, CHARS.to_vec());
}

#[test]
fn verifier_has_the_length_asked_for_and_stays_in_the_alphabet() {
    for size in [43usize, 64, 128] {
        let v = code_verifier(size);
        assert_eq!(v.len(), size);
        assert!(v.iter().all(|b| CHARS.contains(b)));
    }
}

#[test]
fn checked_verifier_refuses_other_lengths() {
    assert!(checked_verifier(42).is_none());
    assert!(checked_verifier(129).is_none());
    assert!(checked_verifier(0).is_none());
    assert_eq!(checked_verifier(43).unwrap().len(), 43);
    assert_eq!(checked_verifier(128).unwrap().len(), 128);
}

#[test]
fn make_url_safe_drops_padding_and_replaces_two_signs() {
    assert_eq!(make_url_safe("ab+/cd=="), "ab-_cd");
    assert_eq!(make_url_safe("===="), "");
    assert_eq!(make_url_safe(""), "");
    assert_eq!(make_url_safe("a=b"), "ab");
    assert_eq!(make_url_safe("plain123"), "plain123");
}

#[test]
fn url_encode_is_base64_without_padding() {
    assert_eq!(url_encode(b""), "");
    assert_eq!(url_encode(b"f"), "Zg");
    assert_eq!(url_encode(b"fo"), "Zm8");
    assert_eq!(url_encode(b"foo"), "Zm9v");
    assert_eq!(url_encode(&[0xfb, 0xff]), "-_8");
    assert_eq!(url_encode(&[0xff, 0xef]), "_-8");
}

#[test]
fn code_challenge_of_a_known_verifier() {
    assert_eq!(
        code_challenge(b"dBjftJeZ4CVP-mB92K27uhbUJU1p1r_wW1gFWFOEjXk"),
        "E9Melhoa2OwvFrEMTJguCHaoeK1t8URWbuGJSstw-cM"
    );
}

#[test]
fn create_hash_is_the_start_of_the_sha1_digest() {
    assert_eq!(create_hash("abc"), "a9993e");
    assert_eq!(create_hash(""), "da39a3");
    assert_eq!(checked_hash("abc"), Some("a9993e".to_string()));
    assert_eq!(create_hash("The quick brown fox jumps over the lazy dog"), "2fd4e1");
}
