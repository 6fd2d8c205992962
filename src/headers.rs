//! Validation of a response's `Content-Type` header.

use vstd::prelude::*;

verus! {

/// What `str::to_lowercase` makes of a sequence of characters.
pub uninterp spec fn lower_of(s: Seq<char>) -> Seq<char>;

/// `needle` occurs in `hay` as a contiguous run of characters.
pub open spec fn contains_seq(hay: Seq<char>, needle: Seq<char>) -> bool {
    exists|i: int|
        0 <= i && i + needle.len() <= hay.len() && #[trigger] hay.subrange(i, i + needle.len())
            == needle
}

/// The media type whose presence marks a JSON body.
pub const JSON_MEDIA_TYPE: &'static str = "application/json";

/// A `Content-Type` value (absent: `None`) is accepted when its lowercase form
/// holds `application/json`.
pub open spec fn json_content_type(value: Option<Seq<char>>, marker: Seq<char>) -> bool {
    match value {
        Some(v) => contains_seq(lower_of(v), marker),
        None => false,
    }
}

/// Relies on `str::to_lowercase`: the result depends on the characters alone.
#[verifier::external_body]
fn lowercase(s: &str) -> (r: String)
    ensures
        r@ == lower_of(s@),
{
    s.to_lowercase()
}

/// Whether `needle` occurs in `hay`.
pub fn contains_str(hay: &str, needle: &str) -> (r: bool)
    ensures
        r == contains_seq(hay@, needle@),
{
    let n = hay.unicode_len();
    let m = needle.unicode_len();
    if m > n {
        return false;
    }
    let mut i: usize = 0;
    while i <= n - m
        invariant
            n == hay@.len(),
            m == needle@.len(),
            m <= n,
            i <= n - m + 1,
            forall|j: int| 0 <= j < i ==> #[trigger] hay@.subrange(j, j + m) != needle@,
        decreases n - m + 1 - i,
    {
        let mut k: usize = 0;
        while k < m && hay.get_char(i + k) == needle.get_char(k)
            invariant
                n == hay@.len(),
                m == needle@.len(),
                i + m <= n,
                k <= m,
                forall|t: int| 0 <= t < k ==> hay@[i + t] == needle@[t],
            decreases m - k,
        {
            k = k + 1;
        }
        if k == m {
            assert(hay@.subrange(i as int, i + m) =~= needle@);
            return true;
        }
        assert(hay@.subrange(i as int, i + m)[k as int] != needle@[k as int]);
        i = i + 1;
    }
    false
}

/// Whether a `Content-Type` value marks a JSON body: it is present and its
/// lowercase form holds `application/json`.
pub fn content_type_is_json(value: Option<&str>) -> (r: bool)
    ensures
        r == json_content_type(
            match value {
                Some(v) => Some(v@),
                None => None,
            },
            JSON_MEDIA_TYPE@,
        ),
{
    match value {
        Some(v) => {
            let lower = lowercase(v);
            contains_str(lower.as_str(), JSON_MEDIA_TYPE)
        },
        None => false,
    }
}

#[verifier::external_type_specification]
#[verifier::external_body]
pub struct ExResponse(ureq::Response);

/// The character sequence of an optional header value.
pub open spec fn value_view(value: Option<String>) -> Option<Seq<char>> {
    match value {
        Some(v) => Some(v@),
        None => None,
    }
}

/// What the checks read from a response, as plain values: its status code
/// and the value of its `Content-Type` header, if it has one.
#[derive(Debug)]
pub struct ResponseHead {
    pub status: u16,
    pub content_type: Option<String>,
}

/// Relies on `ureq::Response::header`: the value of the first header whose
/// name matches case-insensitively, if that value is valid text.
#[verifier::external_body]
fn header_value(response: &ureq::Response, name: &str) -> (r: Option<String>) {
    response.header(name).map(|v| v.to_string())
}

/// Relies on `ureq::Response::status`: the status code of the response.
#[verifier::external_body]
fn response_status(response: &ureq::Response) -> (r: u16) {
    response.status()
}

/// Reads the status code and the `Content-Type` value of a response. The
/// response is opaque here, so nothing is stated of what it holds.
pub fn head_of(response: &ureq::Response) -> (r: ResponseHead) {
    let status = response_status(response);
    let content_type = header_value(response, "Content-Type");
    ResponseHead { status, content_type }
}

/// Whether the response carries a `Content-Type` header whose lowercase form
/// holds `application/json`.
pub fn validate_headers(head: &ResponseHead) -> (r: bool)
    ensures
        r == json_content_type(value_view(head.content_type), JSON_MEDIA_TYPE@),
{
    match &head.content_type {
        Some(v) => content_type_is_json(Some(v.as_str())),
        None => content_type_is_json(None),
    }
}

} // verus!
