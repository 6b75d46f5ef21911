//! The calls into other crates and into the clock, with what is taken for granted of each.

use std::time::{Duration, SystemTime};

use reqwest_retry::policies::ExponentialBackoff;
use reqwest_retry::RetryPolicy;
use vstd::prelude::*;

use crate::response::{header_view, is_status};
use crate::retry::{
    is_signed_span, BackoffPolicy, Jitter, Retryable, Span, REQUEST_TIMEOUT, TOO_MANY_REQUESTS,
};
use crate::text::ascii_chars;

verus! {

/// `reqwest::Error`, carried through and handed back to its crate.
#[verifier::external_type_specification]
#[verifier::external_body]
pub struct ExReqwestError(reqwest::Error);

/// What `reqwest_retry::default_on_request_error` returns for an error.
pub uninterp spec fn error_verdict(err: reqwest::Error) -> Option<Retryable>;

/// Calls `reqwest_retry::default_on_request_error`. Its answer rests on how the error came about
/// inside the HTTP stack and on nothing else; the answer is named, not described. Of an error that
/// was made from a response it has nothing to say.
#[verifier::external_body]
pub(crate) fn default_on_request_error(err: &reqwest::Error) -> (verdict: Option<Retryable>)
    ensures
        verdict == error_verdict(*err),
        error_status(*err) is Some ==> verdict is None,
{
    reqwest_retry::default_on_request_error(err).map(|verdict| match verdict {
        reqwest_retry::Retryable::Transient => Retryable::Transient,
        reqwest_retry::Retryable::Fatal => Retryable::Fatal,
    })
}

/// What `reqwest::Error::status` returns for an error, as a number.
pub uninterp spec fn error_status(err: reqwest::Error) -> Option<u16>;

/// Calls `reqwest::Error::status`: the status code of the response that the error was made from, if
/// it was made from one. Only client errors and server errors are made into an error.
#[verifier::external_body]
pub(crate) fn request_error_status(err: &reqwest::Error) -> (status: Option<u16>)
    ensures
        status == error_status(*err),
        status matches Some(code) ==> 400 <= code < 600,
{
    err.status().map(|status| status.as_u16())
}

/// What `reqwest_retry` makes of a response, going by its status code: server errors and the two
/// codes of an overloaded server are worth another try, other codes that are no success are fatal.
pub open spec fn success_verdict(status: u16) -> Option<Retryable> {
    if 500 <= status < 600 || status == REQUEST_TIMEOUT || status == TOO_MANY_REQUESTS {
        Some(Retryable::Transient)
    } else if 200 <= status < 300 {
        None
    } else {
        Some(Retryable::Fatal)
    }
}

/// Calls `reqwest_retry::default_on_request_success` on a response with the given status code. It
/// reads nothing else of the response.
#[verifier::external_body]
pub(crate) fn default_on_request_success(status: u16) -> (verdict: Option<Retryable>)
    requires
        is_status(status),
    ensures
        verdict == success_verdict(status),
{
    let response = http::Response::builder().status(status).body("").unwrap();
    reqwest_retry::default_on_request_success(&response.into()).map(|verdict| match verdict {
        reqwest_retry::Retryable::Transient => Retryable::Transient,
        reqwest_retry::Retryable::Fatal => Retryable::Fatal,
    })
}

/// Calls `http::StatusCode::is_server_error`: the codes from 500 to 599. A number that is no status
/// code is no server error.
#[verifier::external_body]
pub(crate) fn is_server_error(status: u16) -> (server_error: bool)
    ensures
        server_error == (500 <= status < 600),
{
    http::StatusCode::from_u16(status).is_ok_and(|status| status.is_server_error())
}

/// What an `http::StatusCode` displays as: the number and the reason phrase.
pub uninterp spec fn status_display(status: u16) -> Seq<char>;

/// Calls `http::StatusCode`'s `Display`. The reason phrases are a table of that crate; the text is
/// named, not described.
#[verifier::external_body]
pub(crate) fn status_text(status: u16) -> (text: String)
    requires
        is_status(status),
    ensures
        text@ == status_display(status),
{
    http::StatusCode::from_u16(status).unwrap().to_string()
}

/// The bytes of a header value that can be read as text: the visible ones of ASCII, and the tab.
pub open spec fn is_visible_ascii(byte: u8) -> bool {
    32 <= byte < 127 || byte == 9
}

pub open spec fn is_header_text(bytes: Seq<u8>) -> bool {
    forall|i: int| 0 <= i < bytes.len() ==> is_visible_ascii(#[trigger] bytes[i])
}

/// Calls `http::HeaderValue::to_str`: the text of a header value, if all its bytes are visible ASCII
/// or tabs. Bytes that no header value can hold are not visible ASCII either.
#[verifier::external_body]
pub(crate) fn header_to_str(value: &[u8]) -> (text: Option<String>)
    ensures
        text is Some <==> is_header_text(value@),
        text matches Some(text) ==> text@ == ascii_chars(value@),
{
    let value = http::HeaderValue::from_bytes(value).ok()?;
    value.to_str().ok().map(|text| text.to_owned())
}

/// `reqwest::Response`, which its accessors read.
#[verifier::external_type_specification]
#[verifier::external_body]
pub struct ExReqwestResponse(reqwest::Response);

/// What `reqwest::Response::status` returns, as a number.
pub uninterp spec fn status_of(response: reqwest::Response) -> u16;

/// Calls `reqwest::Response::status`. A status code has three digits.
#[verifier::external_body]
pub(crate) fn response_status(response: &reqwest::Response) -> (status: u16)
    ensures
        status == status_of(*response),
        is_status(status),
{
    response.status().as_u16()
}

/// The value of the first header of a response with the given name.
pub uninterp spec fn header_of(response: reqwest::Response, name: Seq<char>) -> Option<Seq<u8>>;

/// Calls `http::HeaderMap::get` on the headers of a response: the value of the first header of that
/// name, as bytes.
#[verifier::external_body]
pub(crate) fn response_header(response: &reqwest::Response, name: &str) -> (value: Option<Vec<u8>>)
    ensures
        header_view(value) == header_of(*response, name@),
{
    response.headers().get(name).map(|value| value.as_bytes().to_vec())
}

/// What `reqwest::Response::content_length` returns.
pub uninterp spec fn content_length_of(response: reqwest::Response) -> Option<u64>;

/// Calls `reqwest::Response::content_length`: the size of the body, if it is known.
#[verifier::external_body]
pub(crate) fn response_content_length(response: &reqwest::Response) -> (length: Option<u64>)
    ensures
        length == content_length_of(*response),
{
    response.content_length()
}

/// The number of retries that the middleware recorded in a response.
pub uninterp spec fn retry_count_of(response: reqwest::Response) -> Option<u32>;

/// Calls `http::Extensions::get` for the `reqwest_retry::RetryCount` of a response, which the retry
/// middleware leaves there after it has retried.
#[verifier::external_body]
pub(crate) fn response_retry_count(response: &reqwest::Response) -> (count: Option<u32>)
    ensures
        count == retry_count_of(*response),
{
    response.extensions().get::<reqwest_retry::RetryCount>().map(|count| count.value())
}

/// `std::time::SystemTime`, a reading of the system's clock.
#[verifier::external_type_specification]
#[verifier::external_body]
pub struct ExSystemTime(SystemTime);

/// The point in time of a clock reading, in nanoseconds from a fixed point.
pub uninterp spec fn clock_nanos(time: SystemTime) -> int;

/// Calls `std::time::SystemTime::now`. Nothing is promised of a reading, not even that a later one
/// is not smaller.
#[verifier::external_body]
pub(crate) fn system_now() -> (now: SystemTime) {
    SystemTime::now()
}

/// Calls `std::time::SystemTime::duration_since`: the time from the earlier reading to the later
/// one, or as an error the time by which the readings are the wrong way round.
#[verifier::external_body]
pub(crate) fn time_since(later: &SystemTime, earlier: &SystemTime) -> (span: Result<Span, Span>)
    ensures
        is_signed_span(clock_nanos(*later) - clock_nanos(*earlier), span),
{
    match later.duration_since(*earlier) {
        Ok(span) => Ok(Span { secs: span.as_secs(), nanos: span.subsec_nanos() }),
        Err(err) => {
            let ahead = err.duration();
            Err(Span { secs: ahead.as_secs(), nanos: ahead.subsec_nanos() })
        },
    }
}

/// Calls `ExponentialBackoff::should_retry`: the time of the next try, if the number of past retries
/// leaves one. That time is the present, as the policy itself reads it off the clock, and a wait: the
/// calculated interval without jitter, with jitter one that chance picks between its bounds, and
/// never more than the longest interval. Where between the bounds it lies, and what the present is,
/// is left unsaid. The start time changes nothing about the answer. The policies left out are those
/// whose wait cannot be calculated, which panics.
#[verifier::external_body]
pub(crate) fn backoff_decision(
    policy: &BackoffPolicy,
    start_time: &SystemTime,
    n_past_retries: u32,
) -> (execute_after: Option<SystemTime>)
    requires
        policy.well_formed(),
        policy.allows(n_past_retries as int) ==> policy.can_schedule(n_past_retries as nat),
    ensures
        execute_after is Some <==> policy.allows(n_past_retries as int),
        execute_after matches Some(then) ==> exists|asked_at: SystemTime| #[trigger]
            policy.schedules(n_past_retries as nat, asked_at, then),
{
    let (min, max) = (policy.min_retry_interval, policy.max_retry_interval);
    let mut backoff = ExponentialBackoff::builder().build_with_max_retries(n_past_retries);
    backoff.max_n_retries = policy.max_n_retries;
    backoff.min_retry_interval = Duration::new(min.secs, min.nanos);
    backoff.max_retry_interval = Duration::new(max.secs, max.nanos);
    backoff.base = policy.base;
    backoff.jitter = match policy.jitter {
        Jitter::Off => reqwest_retry::Jitter::None,
        Jitter::Full => reqwest_retry::Jitter::Full,
        Jitter::Bounded => reqwest_retry::Jitter::Bounded,
    };
    match backoff.should_retry(*start_time, n_past_retries) {
        reqwest_retry::RetryDecision::Retry { execute_after } => Some(execute_after),
        reqwest_retry::RetryDecision::DoNotRetry => None,
    }
}

} // verus!
