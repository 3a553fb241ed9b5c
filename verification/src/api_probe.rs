//! The decisions of the API connectivity probe that device scripts ask for.
use crate::text::{decimal, owned, push_chars, slice_range, starts_with, str_starts_with, trim, trim_str, chars_of};
use vstd::prelude::*;

verus! {

broadcast use vstd::string::group_string_axioms;

/// How many characters of a response body a result line shows.
pub const BODY_SNIPPET_CHARS: usize = 120;

/// Whether an API key looks like a DeepSeek key: `sk-` after trimming.
pub open spec fn key_looks_valid(key: Seq<char>) -> bool {
    starts_with(trim(key), "sk-"@)
}

/// Whether an API key looks like a DeepSeek key.
pub fn api_key_looks_valid(key: &str) -> (r: bool)
    ensures
        r == key_looks_valid(key@),
{
    let t = trim_str(key);
    str_starts_with(t.as_str(), "sk-")
}

/// The result line of a probe whose key is missing or malformed.
pub const BAD_KEY_RESULT: &'static str = "FAIL api_key missing or invalid prefix";

/// The result line of a probe that got an answer: a pass with the status
/// and the start of the body, the 401 refusal, or a failure with both.
pub open spec fn response_line(success: bool, code: u16, status: Seq<char>, body: Seq<char>) -> Seq<char> {
    let snippet = if body.len() > BODY_SNIPPET_CHARS {
        body.take(BODY_SNIPPET_CHARS as int)
    } else {
        body
    };
    if success {
        "PASS http="@ + status + " body="@ + snippet
    } else if code == 401 {
        "FAIL http=401 unauthorized (bad API key)"@
    } else {
        "FAIL http="@ + status + " body="@ + snippet
    }
}

/// The result line of a probe that got an answer with status `code`
/// (shown as `status`) and this body.
pub fn api_response_line(success: bool, code: u16, status: &str, body: &str) -> (r: String)
    ensures
        r@ == response_line(success, code, status@, body@),
{
    if !success && code == 401 {
        return owned("FAIL http=401 unauthorized (bad API key)");
    }
    let chars = chars_of(body);
    let snippet = if chars.len() > BODY_SNIPPET_CHARS {
        slice_range(&chars, 0, BODY_SNIPPET_CHARS)
    } else {
        chars
    };
    let mut s = if success {
        owned("PASS http=")
    } else {
        owned("FAIL http=")
    };
    s.append(status);
    s.append(" body=");
    push_chars(&mut s, &snippet);
    s
}

/// Whether a saved key is configured (the dev bootstrap's check).
pub fn api_key_configured(saved_api_key: Option<&str>) -> (r: bool)
    ensures
        r == match saved_api_key {
            Some(k) => key_looks_valid(k@),
            None => false,
        },
{
    match saved_api_key {
        Some(k) => api_key_looks_valid(k),
        None => false,
    }
}

} // verus!
