//! What one probe records: how the end of an HTTP exchange becomes a
//! `WebsiteStatus`, and the settings that every probe runs under.
//!
//! The exchange itself and the clock are the caller's: it makes the
//! request, times it, and hands in what came of it.

use crate::status::{StatusView, WebsiteStatus, STATUS_MAX, STATUS_MIN};
use std::time::Duration;
use vstd::prelude::*;

verus! {

/// Seconds a probe waits, for the connection and for each read, when the
/// caller has no timeout of its own.
pub const DEFAULT_TIMEOUT_SECS: u64 = 5;

/// Redirects a probe follows: none, so that one probe is one exchange
/// and reports the status of the URL it was given.
pub const REDIRECTS_FOLLOWED: u32 = 0;

/// Failure description for a status code outside the HTTP range.
pub const INVALID_STATUS: &'static str = "status code outside the HTTP range";

/// What one HTTP exchange came to.
#[derive(Debug)]
pub enum Exchange {
    /// A status line arrived; this is its code.
    Response(u16),
    /// No status line arrived, or the client gave up on what followed
    /// it; this says why.
    Failure(String),
}

/// The duration of this many whole seconds.
pub uninterp spec fn seconds(secs: u64) -> Duration;

/// The status field that an exchange gives: the code of a response
/// within the HTTP range, whatever class it is of, and a description
/// otherwise.
pub open spec fn outcome_of(exchange: Exchange) -> Result<u16, Seq<char>> {
    match exchange {
        Exchange::Response(code) => if STATUS_MIN <= code <= STATUS_MAX {
            Ok(code)
        } else {
            Err(INVALID_STATUS@)
        },
        Exchange::Failure(message) => Err(message@),
    }
}

/// The record of a probe of `url` that ended in `exchange` after
/// `response_time`.
pub open spec fn recorded(url: Seq<char>, exchange: Exchange, response_time: Duration) -> StatusView {
    StatusView {
        url,
        status: outcome_of(exchange),
        response_time,
        error: match outcome_of(exchange) {
            Ok(_) => None,
            Err(message) => Some(message),
        },
    }
}

/// Turns the end of an exchange into the probe's record.
///
/// A response is a success whatever its code says, 404 and 500
/// included; only a code that is no HTTP status, and an exchange that
/// gave no status line, are failures.
pub fn status_from_exchange(url: &str, exchange: Exchange, response_time: Duration) -> (record:
    WebsiteStatus)
    ensures
        record@ == recorded(url@, exchange, response_time),
        record.well_formed(),
{
    match exchange {
        Exchange::Response(code) => {
            if STATUS_MIN <= code && code <= STATUS_MAX {
                WebsiteStatus::new(url.to_owned(), Ok(code), response_time, None)
            } else {
                WebsiteStatus::new(
                    url.to_owned(),
                    Err(INVALID_STATUS.to_owned()),
                    response_time,
                    Some(INVALID_STATUS.to_owned()),
                )
            }
        },
        Exchange::Failure(message) => {
            let description = message.clone();
            WebsiteStatus::new(url.to_owned(), Err(message), response_time, Some(description))
        },
    }
}

/// A response whose code is an HTTP status is a success, whatever the
/// class of the code: the record holds the code and no error.
pub proof fn lemma_any_http_status_is_success(url: Seq<char>, code: u16, response_time: Duration)
    requires
        STATUS_MIN <= code <= STATUS_MAX,
    ensures
        recorded(url, Exchange::Response(code), response_time).status == Ok::<u16, Seq<char>>(code),
        recorded(url, Exchange::Response(code), response_time).error is None,
        recorded(url, Exchange::Response(code), response_time).succeeded(),
{
}

/// Every record that a probe makes is well formed, whatever the
/// exchange came to: it reports a response or a failure, never both and
/// never neither.
pub proof fn lemma_recorded_is_well_formed(url: Seq<char>, exchange: Exchange, response_time: Duration)
    ensures
        recorded(url, exchange, response_time).well_formed(),
        recorded(url, exchange, response_time).succeeded() != recorded(
            url,
            exchange,
            response_time,
        ).failed(),
        recorded(url, exchange, response_time).url == url,
        recorded(url, exchange, response_time).response_time == response_time,
{
}

/// The timeout of a caller that has none of its own.
pub fn default_timeout() -> (timeout: Duration)
    ensures
        timeout == seconds(DEFAULT_TIMEOUT_SECS),
{
    duration_from_secs(DEFAULT_TIMEOUT_SECS)
}

/// `Duration::from_secs` of std: the duration of `secs` whole seconds,
/// which is all that `seconds` stands for.
#[verifier::external_body]
fn duration_from_secs(secs: u64) -> (duration: Duration)
    ensures
        duration == seconds(secs),
{
    Duration::from_secs(secs)
}

} // verus!
