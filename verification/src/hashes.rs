//! Short names for texts, made of a digest.

use vstd::prelude::*;
use vstd::string::StrSliceExecFns;
use vstd::string::StringSliceAdditionalSpecFns;

verus! {

/// The greatest length of what `ring` digests; beyond it the length in bits
/// no longer fits in 64 bits.
pub const DIGEST_INPUT_MAX: u64 = 0x1fff_ffff_ffff_ffff;

/// The number of characters of a short name.
pub const NAME_LEN: usize = 6;

/// The SHA-1 digest of a byte string, as `ring` computes it.
pub uninterp spec fn sha1_digest(data: Seq<u8>) -> Seq<u8>;

/// The character of one hexadecimal digit, in small letters.
pub open spec fn hex_digit(d: int) -> char {
    if d == 0 {
        '0'
    } else if d == 1 {
        '1'
    } else if d == 2 {
        '2'
    } else if d == 3 {
        '3'
    } else if d == 4 {
        '4'
    } else if d == 5 {
        '5'
    } else if d == 6 {
        '6'
    } else if d == 7 {
        '7'
    } else if d == 8 {
        '8'
    } else if d == 9 {
        '9'
    } else if d == 10 {
        'a'
    } else if d == 11 {
        'b'
    } else if d == 12 {
        'c'
    } else if d == 13 {
        'd'
    } else if d == 14 {
        'e'
    } else {
        'f'
    }
}

/// A byte string in hexadecimal digits, two for each byte, the high half
/// first.
pub open spec fn hex_lower(data: Seq<u8>) -> Seq<char> {
    Seq::new(
        2 * data.len(),
        |i: int|
            if i % 2 == 0 {
                hex_digit(data[i / 2] as int / 16)
            } else {
                hex_digit(data[i / 2] as int % 16)
            },
    )
}

/// The short name of a text: the first six hexadecimal digits of its SHA-1
/// digest.
pub open spec fn short_hash(input: Seq<u8>) -> Seq<char> {
    hex_lower(sha1_digest(input)).take(NAME_LEN as int)
}

/// Computes the SHA-1 digest with `ring::digest::Context`; it is 20 bytes
/// long. The crate fails on an input whose length in bits does not fit in
/// 64 bits, which the bound rules out.
#[verifier::external_body]
fn sha1(data: &[u8]) -> (out: Vec<u8>)
    requires
        data.len() <= DIGEST_INPUT_MAX,
    ensures
        out@ == sha1_digest(data@),
        out@.len() == 20,
{
    let mut context = ring::digest::Context::new(&ring::digest::SHA1_FOR_LEGACY_USE_ONLY);
    context.update(data);
    context.finish().as_ref().to_vec()
}

/// Calls `hex::encode`, which writes each byte as two hexadecimal digits in
/// small letters.
#[verifier::external_body]
fn hex_encode(data: &[u8]) -> (out: String)
    ensures
        out@ == hex_lower(data@),
{
    hex::encode(data)
}

/// The short name of a text, where the text is short enough to be
/// digested.
pub fn create_hash(input: &str) -> (out: String)
    requires
        input.spec_bytes().len() <= DIGEST_INPUT_MAX,
    ensures
        out@ == short_hash(input.spec_bytes()),
        out@.len() == NAME_LEN,
{
    let digest = sha1(input.as_bytes());
    let hash_string = hex_encode(digest.as_slice());
    hash_string.as_str().substring_char(0, NAME_LEN).to_owned()
}

/// The short name of a text; none where the text is too long to be
/// digested.
pub fn checked_hash(input: &str) -> (out: Option<String>)
    ensures
        out is Some <==> input.spec_bytes().len() <= DIGEST_INPUT_MAX,
        out matches Some(name) ==> name@ == short_hash(input.spec_bytes()),
{
    if input.as_bytes().len() as u64 <= DIGEST_INPUT_MAX {
        Some(create_hash(input))
    } else {
        None
    }
}

} // verus!
