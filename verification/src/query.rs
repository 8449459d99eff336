//! The query of the redirect: from the bytes of one HTTP request to the
//! authorization result that the provider put into its query string.

use vstd::prelude::*;
use vstd::slice::slice_subrange;
use vstd::string::StringExecFns;
use crate::errors::{AuthErrors, AuthErrorsView};
use crate::text::{cut_before, cut_text, find_from, lemma_find_from, occurs, occurs_at, same_text};

verus! {

/// The protocol text that a proxy may leave behind the `state` value.
pub const STATE_MARKER: &'static str = " HTTP/1.1\r\n";

/// What the browser brought back from the provider.
#[derive(Debug)]
pub struct OuathInfo {
    /// The authorization code.
    pub code: Option<String>,
    /// The state that was sent along (by default 12345).
    pub state: Option<String>,
    /// The provider's error, where it reported one.
    pub error: Option<String>,
    /// The provider's words on that error.
    pub error_description: Option<String>,
}

/// An authorization result as plain values.
pub struct AuthorizationResult {
    pub code: Option<Seq<char>>,
    pub state: Option<Seq<char>>,
    pub error: Option<Seq<char>>,
    pub error_description: Option<Seq<char>>,
}

impl View for OuathInfo {
    type V = AuthorizationResult;

    open spec fn view(&self) -> AuthorizationResult {
        AuthorizationResult {
            code: self.code.deep_view(),
            state: self.state.deep_view(),
            error: self.error.deep_view(),
            error_description: self.error_description.deep_view(),
        }
    }
}

/// The least index at or after `from` at which the byte `b` stands in
/// `bytes`; the length of `bytes` where it stands nowhere from there on.
pub open spec fn index_from(bytes: Seq<u8>, b: u8, from: int) -> int
    decreases bytes.len() - from,
{
    if from < 0 || from >= bytes.len() {
        bytes.len() as int
    } else if bytes[from] == b {
        from
    } else {
        index_from(bytes, b, from + 1)
    }
}

/// What `index_from` finds is in range, the byte stands there unless the
/// end was reached, and it stands nowhere between `from` and there.
pub proof fn lemma_index_from(bytes: Seq<u8>, b: u8, from: int)
    requires
        0 <= from <= bytes.len(),
    ensures
        from <= index_from(bytes, b, from) <= bytes.len(),
        index_from(bytes, b, from) < bytes.len() ==> bytes[index_from(bytes, b, from)] == b,
        forall|j: int| from <= j < index_from(bytes, b, from) ==> bytes[j] != b,
    decreases bytes.len() - from,
{
    if from < bytes.len() && bytes[from] != b {
        lemma_index_from(bytes, b, from + 1);
    }
}

/// Whether a request holds a query: a `?` stands in it.
pub open spec fn has_query(data: Seq<u8>) -> bool {
    index_from(data, 0x3f, 0) < data.len()
}

/// The query string of a request: what stands behind the first `?`, up to
/// the first `#` behind that, or to the end.
pub open spec fn query_bytes(data: Seq<u8>) -> Seq<u8> {
    let start = index_from(data, 0x3f, 0) + 1;
    data.subrange(start, index_from(data, 0x23, start))
}

/// What `url::form_urlencoded::parse` makes of a query string: its pairs of
/// name and value, percent-decoded, in their order.
pub uninterp spec fn form_urlencoded_pairs(input: Seq<u8>) -> Seq<(Seq<char>, Seq<char>)>;

/// The value of the first pair at or after `from` whose name is `key`.
pub open spec fn value_from(pairs: Seq<(Seq<char>, Seq<char>)>, key: Seq<char>, from: int)
    -> Option<Seq<char>>
    decreases pairs.len() - from,
{
    if from < 0 || from >= pairs.len() {
        None
    } else if pairs[from].0 == key {
        Some(pairs[from].1)
    } else {
        value_from(pairs, key, from + 1)
    }
}

/// The value of the first pair whose name is `key`.
pub open spec fn first_value(pairs: Seq<(Seq<char>, Seq<char>)>, key: Seq<char>) -> Option<
    Seq<char>,
> {
    value_from(pairs, key, 0)
}

/// A `state` value without what a proxy left behind it.
pub open spec fn clean_state(value: Seq<char>) -> Seq<char> {
    cut_before(value, STATE_MARKER@)
}

/// The authorization result that a list of pairs holds: of each name the
/// first value, the `state` cut at the marker.
pub open spec fn info_of_pairs(pairs: Seq<(Seq<char>, Seq<char>)>) -> AuthorizationResult {
    AuthorizationResult {
        code: first_value(pairs, "code"@),
        state: match first_value(pairs, "state"@) {
            Some(v) => Some(clean_state(v)),
            None => None,
        },
        error: first_value(pairs, "error"@),
        error_description: first_value(pairs, "error_description"@),
    }
}

/// What a request parses to: an error where it is not UTF-8 or holds no
/// `?`, else the authorization result of its query string.
pub open spec fn parsed(data: Seq<u8>) -> Result<AuthorizationResult, AuthErrorsView> {
    if !vstd::utf8::valid_utf8(data) {
        Err(AuthErrorsView::MalformedRequest("Invalid UTF-8"@))
    } else if !has_query(data) {
        Err(AuthErrorsView::MalformedRequest("No query string found"@))
    } else {
        Ok(info_of_pairs(form_urlencoded_pairs(query_bytes(data))))
    }
}

/// A request without a `?` parses to `MalformedRequest`, whatever else it
/// holds.
pub proof fn lemma_no_query_is_malformed(data: Seq<u8>)
    requires
        forall|i: int| 0 <= i < data.len() ==> data[i] != 0x3f,
    ensures
        parsed(data) matches Err(e) && e is MalformedRequest,
{
    lemma_index_from(data, 0x3f, 0);
}

/// A request that is UTF-8 and holds a `?` parses to an authorization
/// result: an `error` in its query is no failure of the parse.
pub proof fn lemma_query_is_parsed(data: Seq<u8>, at: int)
    requires
        vstd::utf8::valid_utf8(data),
        0 <= at < data.len(),
        data[at] == 0x3f,
    ensures
        parsed(data) is Ok,
{
    lemma_index_from(data, 0x3f, 0);
}

/// What is kept of a `state` value is its beginning and holds no marker; a
/// value that holds the marker is cut right before the first one, and a
/// value that holds none is kept whole.
pub proof fn lemma_clean_state(value: Seq<char>)
    ensures
        clean_state(value).is_prefix_of(value),
        !occurs(clean_state(value), STATE_MARKER@),
        occurs(value, STATE_MARKER@) ==> occurs_at(
            value,
            STATE_MARKER@,
            clean_state(value).len() as int,
        ),
        !occurs(value, STATE_MARKER@) ==> clean_state(value) == value,
{
    reveal_strlit(" HTTP/1.1\r\n");
    let pat = STATE_MARKER@;
    let at = find_from(value, pat, 0);
    lemma_find_from(value, pat, 0);
    let kept = clean_state(value);
    assert(kept =~= value.subrange(0, at));
    assert forall|j: int| !occurs_at(kept, pat, j) by {
        if occurs_at(kept, pat, j) {
            assert(kept.subrange(j, j + pat.len()) =~= value.subrange(j, j + pat.len()));
            assert(occurs_at(value, pat, j));
        }
    }
    if occurs(value, pat) {
        let j = choose|j: int| occurs_at(value, pat, j);
        assert(at < value.len());
    } else {
        if at < value.len() {
            assert(occurs_at(value, pat, at));
        }
        assert(kept =~= value);
    }
}

/// A `state` value made of `head`, the marker and anything behind it is
/// cut back to `head`, where `head` holds no marker of its own.
pub proof fn lemma_clean_state_drops_tail(head: Seq<char>, rest: Seq<char>)
    requires
        !occurs(head, STATE_MARKER@),
    ensures
        clean_state(head + STATE_MARKER@ + rest) == head,
{
    reveal_strlit(" HTTP/1.1\r\n");
    let pat = STATE_MARKER@;
    let value = head + pat + rest;
    let at = find_from(value, pat, 0);
    lemma_find_from(value, pat, 0);
    let n = head.len() as int;
    assert(value.subrange(n, n + pat.len()) =~= pat);
    assert(occurs_at(value, pat, n));
    assert(at <= n);
    if at < n {
        assert(occurs_at(value, pat, at));
        if at + pat.len() <= n {
            assert(head.subrange(at, at + pat.len()) =~= value.subrange(at, at + pat.len()));
            assert(occurs_at(head, pat, at));
        } else {
            let k = n - at;
            assert(value.subrange(at, at + pat.len())[k] == value[n]);
            assert(value[n] == pat[0]);
            assert(pat[k] == pat[0]);
        }
    }
    assert(value.take(n) =~= head);
}

/// Calls `std::str::from_utf8`, which accepts exactly the byte strings that
/// are well-formed UTF-8.
#[verifier::external_body]
fn is_utf8(data: &[u8]) -> (ok: bool)
    ensures
        ok == vstd::utf8::valid_utf8(data@),
{
    std::str::from_utf8(data).is_ok()
}

/// Calls `url::form_urlencoded::parse` and collects the owned pairs that it
/// yields; the result is the crate's reading of `input` and nothing else.
#[verifier::external_body]
fn form_pairs(input: &[u8]) -> (pairs: Vec<(String, String)>)
    ensures
        pairs.deep_view() == form_urlencoded_pairs(input@),
{
    url::form_urlencoded::parse(input).into_owned().collect()
}

/// The least index at or after `from` at which `b` stands in `bytes`.
pub fn find_byte(bytes: &[u8], b: u8, from: usize) -> (at: usize)
    requires
        from <= bytes.len(),
    ensures
        at == index_from(bytes@, b, from as int),
        from <= at <= bytes.len(),
{
    let mut i: usize = from;
    while i < bytes.len()
        invariant
            from <= i <= bytes.len(),
            index_from(bytes@, b, from as int) == index_from(bytes@, b, i as int),
        decreases bytes.len() - i,
    {
        if bytes[i] == b {
            return i;
        }
        i += 1;
    }
    i
}

/// The value of the first pair whose name is `key`.
pub fn lookup(pairs: &Vec<(String, String)>, key: &str) -> (value: Option<String>)
    ensures
        value.deep_view() == first_value(pairs.deep_view(), key@),
{
    let mut i: usize = 0;
    while i < pairs.len()
        invariant
            i <= pairs.len(),
            first_value(pairs.deep_view(), key@) == value_from(pairs.deep_view(), key@, i as int),
        decreases pairs.len() - i,
    {
        assert(pairs.deep_view()[i as int] == pairs@[i as int].deep_view());
        if same_text(pairs[i].0.as_str(), key) {
            return Some(pairs[i].1.clone());
        }
        i += 1;
    }
    None
}

/// The authorization result that a list of decoded pairs holds.
pub fn info_from_pairs(pairs: &Vec<(String, String)>) -> (info: OuathInfo)
    ensures
        info@ == info_of_pairs(pairs.deep_view()),
{
    let state = match lookup(pairs, "state") {
        Some(v) => Some(cut_text(v.as_str(), STATE_MARKER)),
        None => None,
    };
    OuathInfo {
        code: lookup(pairs, "code"),
        state,
        error: lookup(pairs, "error"),
        error_description: lookup(pairs, "error_description"),
    }
}

/// Reads the authorization result out of one HTTP request.
pub fn parse_oauth(data: &[u8]) -> (result: Result<OuathInfo, AuthErrors>)
    ensures
        match result {
            Ok(info) => parsed(data@) == Ok::<AuthorizationResult, AuthErrorsView>(info@),
            Err(e) => parsed(data@) == Err::<AuthorizationResult, AuthErrorsView>(e@),
        },
{
    if !is_utf8(data) {
        return Err(AuthErrors::MalformedRequest(String::from_str("Invalid UTF-8")));
    }
    let mark = find_byte(data, 0x3f, 0);
    if mark >= data.len() {
        return Err(AuthErrors::MalformedRequest(String::from_str("No query string found")));
    }
    let start = mark + 1;
    let end = find_byte(data, 0x23, start);
    let pairs = form_pairs(slice_subrange(data, start, end));
    Ok(info_from_pairs(&pairs))
}

} // verus!
