//! The result of one check of one URL, and how it is built from a reply.

use vstd::prelude::*;
use crate::headers::{content_type_is_json, head_of, json_content_type, value_view, JSON_MEDIA_TYPE};

verus! {

/// The outcome of checking one URL.
///
/// `status` is `Ok(code)` when the request completed, whatever the code, and
/// `Err(message)` on a transport failure. `response_time_nanos` is the wall
/// time the request took and `timestamp_millis` the time the check began, in
/// milliseconds since the Unix epoch.
#[derive(Debug)]
pub struct WebsiteStatus {
    pub url: String,
    pub status: Result<u16, String>,
    pub response_time_nanos: u64,
    pub timestamp_millis: i64,
    pub headers_valid: bool,
}

/// The message of a failed request.
pub open spec fn failure_message_of(error_text: Seq<char>, url: Seq<char>) -> Seq<char> {
    "Request failed: "@ + error_text + " for URL "@ + url
}

/// Builds the message of a failed request from the error's text and the URL.
pub fn failure_message(error_text: &str, url: &str) -> (r: String)
    ensures
        r@ == failure_message_of(error_text@, url@),
{
    let mut m = String::from_str("Request failed: ");
    m.append(error_text);
    m.append(" for URL ");
    m.append(url);
    m
}

/// The result of a request that completed with `status_code`; the headers are
/// valid when `content_type` marks a JSON body.
pub fn completed(
    url: String,
    status_code: u16,
    content_type: Option<&str>,
    response_time_nanos: u64,
    timestamp_millis: i64,
) -> (r: WebsiteStatus)
    ensures
        r.url == url,
        r.status == Ok::<u16, String>(status_code),
        r.headers_valid == json_content_type(
            match content_type {
                Some(v) => Some(v@),
                None => None,
            },
            JSON_MEDIA_TYPE@,
        ),
        r.response_time_nanos == response_time_nanos,
        r.timestamp_millis == timestamp_millis,
{
    let headers_valid = content_type_is_json(content_type);
    WebsiteStatus {
        url,
        status: Ok(status_code),
        response_time_nanos,
        timestamp_millis,
        headers_valid,
    }
}

/// The result of a request that failed in transport with an error whose text
/// is `error_text`; such a result never has valid headers.
pub fn failed(url: String, error_text: &str, response_time_nanos: u64, timestamp_millis: i64) -> (r:
    WebsiteStatus)
    ensures
        r.url == url,
        r.status matches Err(m) && m@ == failure_message_of(error_text@, url@),
        !r.headers_valid,
        r.response_time_nanos == response_time_nanos,
        r.timestamp_millis == timestamp_millis,
{
    let message = failure_message(error_text, url.as_str());
    WebsiteStatus { url, status: Err(message), response_time_nanos, timestamp_millis, headers_valid: false }
}

/// What came back from one request, as plain values: either a response with
/// its status code and its `Content-Type` value, or a transport error's text.
pub enum Reply {
    Completed { status: u16, content_type: Option<String> },
    Failed { error: String },
}

/// The result of one request to `url` from its reply: a completed request
/// reports its status code, whatever it is, with valid headers exactly when
/// the `Content-Type` value marks a JSON body; a transport failure reports a
/// message naming the error and the URL, with invalid headers.
pub fn from_outcome(url: String, reply: Reply, response_time_nanos: u64, timestamp_millis: i64) -> (r:
    WebsiteStatus)
    ensures
        r.url == url,
        r.response_time_nanos == response_time_nanos,
        r.timestamp_millis == timestamp_millis,
        match reply {
            Reply::Completed { status, content_type } => {
                &&& r.status == Ok::<u16, String>(status)
                &&& r.headers_valid == json_content_type(value_view(content_type), JSON_MEDIA_TYPE@)
            },
            Reply::Failed { error } => {
                &&& r.status matches Err(m) && m@ == failure_message_of(error@, url@)
                &&& !r.headers_valid
            },
        },
{
    match reply {
        Reply::Completed { status, content_type } => match content_type {
            Some(v) => completed(url, status, Some(v.as_str()), response_time_nanos, timestamp_millis),
            None => completed(url, status, None, response_time_nanos, timestamp_millis),
        },
        Reply::Failed { error } => failed(url, error.as_str(), response_time_nanos, timestamp_millis),
    }
}

#[verifier::external_type_specification]
pub struct ExError(ureq::Error);

#[verifier::external_type_specification]
#[verifier::external_body]
pub struct ExTransport(ureq::Transport);

/// Relies on `ureq::Transport`'s `Display` impl: the error as text.
#[verifier::external_body]
fn transport_text(error: &ureq::Transport) -> (r: String) {
    format!("{}", error)
}

/// What the HTTP client returned, as plain values. A response counts as a
/// completed request whatever its code: ureq hands one with a code of 400 or
/// more back as `Error::Status`, whose code is kept as it is. Only
/// `Error::Transport`, a failure before any response came, makes a failure.
pub fn reply_of(reply: Result<ureq::Response, ureq::Error>) -> (r: Reply)
    ensures
        reply is Ok <==> (r is Completed && !(reply matches Err(ureq::Error::Status(_, _)))),
        reply matches Err(ureq::Error::Status(c, _)) ==> (r matches Reply::Completed {
            status,
            ..
        } && status == c),
        reply matches Err(ureq::Error::Transport(_)) <==> r is Failed,
{
    match reply {
        Ok(response) => {
            let head = head_of(&response);
            Reply::Completed { status: head.status, content_type: head.content_type }
        },
        Err(ureq::Error::Status(code, response)) => {
            let head = head_of(&response);
            Reply::Completed { status: code, content_type: head.content_type }
        },
        Err(ureq::Error::Transport(t)) => Reply::Failed { error: transport_text(&t) },
    }
}

/// The result of one request to `url`, from what the HTTP client returned
/// (see [`reply_of`] and [`from_outcome`]). Every response counts as a
/// completed request, an error status included; only a transport error makes
/// a failure, whose message names the URL.
pub fn from_reply(
    url: String,
    reply: Result<ureq::Response, ureq::Error>,
    response_time_nanos: u64,
    timestamp_millis: i64,
) -> (r: WebsiteStatus)
    ensures
        r.url == url,
        r.response_time_nanos == response_time_nanos,
        r.timestamp_millis == timestamp_millis,
        reply is Ok ==> r.status is Ok,
        reply matches Err(ureq::Error::Status(c, _)) ==> r.status == Ok::<u16, String>(c),
        reply matches Err(ureq::Error::Transport(_)) ==> (r.status matches Err(m) && exists|
            t: Seq<char>,
        | m@ == failure_message_of(t, url@)),
        r.status is Err ==> !r.headers_valid,
{
    let outcome = reply_of(reply);
    from_outcome(url, outcome, response_time_nanos, timestamp_millis)
}

} // verus!
