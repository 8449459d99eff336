//! Proof keys for the authorization code grant: a random verifier and the
//! challenge that is derived from it.

use vstd::prelude::*;
use base64::Engine;
use rand::Rng;
use sha2::Digest;
use crate::text::{chars_of, push_char};

verus! {

/// The number of characters that a verifier is drawn from.
pub const ALPHABET_LEN: usize = 66;

/// The least length of a verifier.
pub const VERIFIER_MIN: usize = 43;

/// The greatest length of a verifier.
pub const VERIFIER_MAX: usize = 128;

/// The characters that a verifier is drawn from, by index: the capital
/// letters, the small letters, the digits, then `-`, `.`, `~` and `_`.
pub open spec fn alphabet(i: int) -> u8 {
    if i < 26 {
        (0x41 + i) as u8
    } else if i < 52 {
        (0x61 + (i - 26)) as u8
    } else if i < 62 {
        (0x30 + (i - 52)) as u8
    } else if i == 62 {
        0x2d
    } else if i == 63 {
        0x2e
    } else if i == 64 {
        0x7e
    } else {
        0x5f
    }
}

/// Whether a byte is one that a verifier may hold.
pub open spec fn in_alphabet(b: u8) -> bool {
    exists|i: int| 0 <= i < ALPHABET_LEN && alphabet(i) == b
}

/// What `base64`'s standard engine, with padding, writes for a byte string.
pub uninterp spec fn base64_standard(input: Seq<u8>) -> Seq<char>;

/// The SHA-256 digest of a byte string, as `sha2` computes it.
pub uninterp spec fn sha256_digest(data: Seq<u8>) -> Seq<u8>;

/// A text of the standard base64 alphabet in the form that an address can
/// carry: without `=`, with `-` for `+` and `_` for `/`.
pub open spec fn url_safe(text: Seq<char>) -> Seq<char>
    decreases text.len(),
{
    if text.len() == 0 {
        Seq::empty()
    } else {
        let head = url_safe(text.drop_last());
        let c = text.last();
        if c == '=' {
            head
        } else if c == '+' {
            head.push('-')
        } else if c == '/' {
            head.push('_')
        } else {
            head.push(c)
        }
    }
}

/// Draws a number below `bound` from `rand`'s generator of the thread, with
/// `gen_range`; nothing is said of which one comes.
#[verifier::external_body]
fn random_below(bound: usize) -> (i: usize)
    requires
        bound > 0,
    ensures
        i < bound,
{
    rand::thread_rng().gen_range(0..bound)
}

/// Encodes with `base64::engine::general_purpose::STANDARD`. The crate
/// fails where the length of the output does not fit in `usize`, which the
/// bound on the input rules out.
#[verifier::external_body]
fn base64_encode(input: &[u8]) -> (out: String)
    requires
        input.len() <= usize::MAX / 2,
    ensures
        out@ == base64_standard(input@),
{
    base64::engine::general_purpose::STANDARD.encode(input)
}

/// Computes the digest with `sha2::Sha256`; it is 32 bytes long.
#[verifier::external_body]
fn sha256(data: &[u8]) -> (out: Vec<u8>)
    ensures
        out@ == sha256_digest(data@),
        out@.len() == 32,
{
    let mut sha = sha2::Sha256::new();
    sha.update(data);
    sha.finalize().to_vec()
}

/// The character of the alphabet at index `i`.
pub fn alphabet_char(i: usize) -> (b: u8)
    requires
        i < ALPHABET_LEN,
    ensures
        b == alphabet(i as int),
        in_alphabet(b),
{
    if i < 26 {
        0x41u8 + i as u8
    } else if i < 52 {
        0x61u8 + (i - 26) as u8
    } else if i < 62 {
        0x30u8 + (i - 52) as u8
    } else if i == 62 {
        0x2d
    } else if i == 63 {
        0x2e
    } else if i == 64 {
        0x7e
    } else {
        0x5f
    }
}

/// A random verifier of `size` characters, each drawn from the alphabet.
pub fn code_verifier(size: usize) -> (out: Vec<u8>)
    requires
        VERIFIER_MIN <= size <= VERIFIER_MAX,
    ensures
        out@.len() == size,
        forall|k: int| 0 <= k < out@.len() ==> in_alphabet(#[trigger] out@[k]),
{
    let mut out: Vec<u8> = Vec::new();
    let mut n: usize = 0;
    while n < size
        invariant
            n <= size,
            out@.len() == n,
            forall|k: int| 0 <= k < out@.len() ==> in_alphabet(#[trigger] out@[k]),
        decreases size - n,
    {
        let i = random_below(ALPHABET_LEN);
        out.push(alphabet_char(i));
        n += 1;
    }
    out
}

/// A random verifier of `size` characters, where `size` is a length that a
/// verifier may have.
pub fn checked_verifier(size: usize) -> (out: Option<Vec<u8>>)
    ensures
        out is Some <==> VERIFIER_MIN <= size <= VERIFIER_MAX,
        out matches Some(v) ==> v@.len() == size && forall|k: int|
            0 <= k < v@.len() ==> in_alphabet(#[trigger] v@[k]),
{
    if VERIFIER_MIN <= size && size <= VERIFIER_MAX {
        Some(code_verifier(size))
    } else {
        None
    }
}

/// A text of the standard base64 alphabet in the form that an address can
/// carry.
pub fn make_url_safe(text: &str) -> (out: String)
    ensures
        out@ == url_safe(text@),
{
    let chars = chars_of(text);
    let mut out = String::new();
    let mut i: usize = 0;
    assert(text@.take(0) =~= Seq::<char>::empty());
    while i < chars.len()
        invariant
            i <= chars.len(),
            chars@ == text@,
            out@ == url_safe(text@.take(i as int)),
        decreases chars.len() - i,
    {
        let c = chars[i];
        assert(text@.take(i + 1).drop_last() =~= text@.take(i as int));
        if c == '=' {
        } else if c == '+' {
            push_char(&mut out, '-');
        } else if c == '/' {
            push_char(&mut out, '_');
        } else {
            push_char(&mut out, c);
        }
        i += 1;
    }
    assert(text@.take(i as int) =~= text@);
    out
}

/// The bytes in base64, in the form that an address can carry.
pub fn url_encode(input: &[u8]) -> (out: String)
    requires
        input.len() <= usize::MAX / 2,
    ensures
        out@ == url_safe(base64_standard(input@)),
{
    let b64 = base64_encode(input);
    make_url_safe(b64.as_str())
}

/// The challenge of a verifier: its SHA-256 digest in base64, in the form
/// that an address can carry.
pub fn code_challenge(verifier_bytes: &[u8]) -> (out: String)
    ensures
        out@ == url_safe(base64_standard(sha256_digest(verifier_bytes@))),
{
    let digest = sha256(verifier_bytes);
    url_encode(digest.as_slice())
}

} // verus!
