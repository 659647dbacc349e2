//! The record of one probe.

use std::time::Duration;
use vstd::prelude::*;

verus! {

/// Lowest status code that counts as an HTTP status.
pub const STATUS_MIN: u16 = 100;

/// Highest status code that counts as an HTTP status.
pub const STATUS_MAX: u16 = 599;

/// Outcome of probing one URL.
///
/// `status` is the HTTP status code when a response arrived, whatever
/// the code says, and the failure's description when none did. `error`
/// repeats that description, and is `None` when a response arrived.
#[derive(Debug)]
pub struct WebsiteStatus {
    pub url: String,
    pub status: Result<u16, String>,
    pub response_time: Duration,
    pub error: Option<String>,
}

/// A `WebsiteStatus` with its strings as sequences of characters.
pub struct StatusView {
    pub url: Seq<char>,
    pub status: Result<u16, Seq<char>>,
    pub response_time: Duration,
    pub error: Option<Seq<char>>,
}

/// The characters of a status field.
pub open spec fn status_chars(status: Result<u16, String>) -> Result<u16, Seq<char>> {
    match status {
        Ok(code) => Ok(code),
        Err(message) => Err(message@),
    }
}

/// The characters of an error field.
pub open spec fn error_chars(error: Option<String>) -> Option<Seq<char>> {
    match error {
        Some(message) => Some(message@),
        None => None,
    }
}

/// Whether a status and an error describe one outcome: a status code
/// within the HTTP range and no error, or one failure description in
/// both.
pub open spec fn consistent(status: Result<u16, Seq<char>>, error: Option<Seq<char>>) -> bool {
    match status {
        Ok(code) => STATUS_MIN <= code <= STATUS_MAX && error is None,
        Err(message) => error == Some(message),
    }
}

impl View for WebsiteStatus {
    type V = StatusView;

    open spec fn view(&self) -> StatusView {
        StatusView {
            url: self.url@,
            status: status_chars(self.status),
            response_time: self.response_time,
            error: error_chars(self.error),
        }
    }
}

impl StatusView {
    /// The record reports a response.
    pub open spec fn succeeded(self) -> bool {
        self.status is Ok
    }

    /// The record reports a failure.
    pub open spec fn failed(self) -> bool {
        self.error is Some
    }

    /// `status` and `error` describe one outcome.
    pub open spec fn well_formed(self) -> bool {
        consistent(self.status, self.error)
    }
}

impl WebsiteStatus {
    /// `status` and `error` describe one outcome.
    pub open spec fn well_formed(&self) -> bool {
        self@.well_formed()
    }

    /// Puts the four fields together, as they are given.
    pub fn new(
        url: String,
        status: Result<u16, String>,
        response_time: Duration,
        error: Option<String>,
    ) -> (record: WebsiteStatus)
        ensures
            record.url == url,
            record.status == status,
            record.response_time == response_time,
            record.error == error,
            record.well_formed() <==> consistent(status_chars(status), error_chars(error)),
    {
        WebsiteStatus { url, status, response_time, error }
    }
}

/// A well-formed record reports a response or a failure, never both and
/// never neither.
pub proof fn lemma_exactly_one_outcome(record: StatusView)
    requires
        record.well_formed(),
    ensures
        record.succeeded() != record.failed(),
        record.succeeded() ==> STATUS_MIN <= record.status->Ok_0 <= STATUS_MAX,
        record.failed() ==> record.status == Err::<u16, Seq<char>>(record.error->Some_0),
{
}

} // verus!
