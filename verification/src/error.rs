//! The error taxonomy of the store.

use vstd::prelude::*;
use vstd::string::StringExecFns;
use crate::timestamp::TimeStamp;

verus! {

/// Which collaborator a foreign failure came from.
#[derive(Clone, Copy, Debug, PartialEq, Eq, Structural)]
pub enum Origin {
    /// The SQL engine: opening the file, preparing or running a statement,
    /// or decoding a column.
    Engine,
    /// The compression codec.
    Codec,
}

/// Everything that can go wrong in this crate.
#[derive(Debug)]
pub enum Error {
    /// A violated precondition of this crate, with a message describing it.
    GeneralError(String),
    /// A failure of the SQL engine or of the codec, with the text that the
    /// failure printed for itself.
    InternalError(Origin, String),
    /// No row is stored under this key and time stamp.
    TimeStampNotAvailable(String, TimeStamp),
    /// No row is stored under this key at any time stamp.
    NoMatch(String),
}

/// Name for the text that chrono's `Display` prints for the calendar-naive
/// date-time `secs` seconds and `nanos` nanoseconds after the epoch; `None`
/// where chrono cannot represent that instant.
pub uninterp spec fn calendar_text(secs: int, nanos: int) -> Option<Seq<char>>;

/// Calls `chrono::DateTime::from_timestamp`, then `naive_utc` and `to_string`
/// on what it gives. The result is exactly the value named by
/// [`calendar_text`]; nothing is claimed about its shape.
#[verifier::external_body]
fn format_calendar(secs: i64, nanos: u32) -> (text: Option<String>)
    ensures
        text.is_some() == calendar_text(secs as int, nanos as int).is_some(),
        text matches Some(s) ==> calendar_text(secs as int, nanos as int) == Some(s@),
{
    chrono::DateTime::from_timestamp(secs, nanos).map(|t| t.naive_utc().to_string())
}

/// How a time stamp reads in a message: its calendar rendering where it has
/// one.
pub open spec fn rendered(calendar: Option<Seq<char>>) -> Seq<char> {
    match calendar {
        Some(text) => text,
        None => "<out of range>"@,
    }
}

/// The message for a lookup that found no row under `key`, with the calendar
/// rendering of the time stamp that was asked for.
pub open spec fn missing_text(key: Seq<char>, calendar: Option<Seq<char>>) -> Seq<char> {
    "No data available for key "@ + key + " and time stamp "@ + rendered(calendar)
}

/// Builds the message for a lookup that found no row under `key`.
pub fn describe_missing(key: &str, calendar: Option<String>) -> (text: String)
    ensures
        text@ == missing_text(
            key@,
            match calendar {
                Some(stamp) => Some(stamp@),
                None => None,
            },
        ),
{
    let head = String::from_str("No data available for key ").concat(key).concat(
        " and time stamp ",
    );
    match calendar {
        Some(stamp) => head.concat(stamp.as_str()),
        None => head.concat("<out of range>"),
    }
}

impl Error {
    /// Create a new general error with a message.
    pub fn general_error(msg: String) -> (e: Error)
        ensures
            e == Error::GeneralError(msg),
    {
        Error::GeneralError(msg)
    }

    /// The error for a failure that the SQL engine reported as `text`.
    pub fn engine_failure(text: String) -> (e: Error)
        ensures
            e == Error::InternalError(Origin::Engine, text),
        opens_invariants none
        no_unwind
    {
        Error::InternalError(Origin::Engine, text)
    }

    /// The error for a failure that the codec reported as `text`.
    pub fn codec_failure(text: String) -> (e: Error)
        ensures
            e == Error::InternalError(Origin::Codec, text),
    {
        Error::InternalError(Origin::Codec, text)
    }

    /// What [`Error::message`] returns.
    pub open spec fn message_spec(self) -> Seq<char> {
        match self {
            Error::GeneralError(msg) => msg@,
            Error::InternalError(_, text) => text@,
            Error::NoMatch(key) => "No match found for key "@ + key@,
            Error::TimeStampNotAvailable(key, t) => missing_text(
                key@,
                calendar_text(t.secs as int, t.nanos as int),
            ),
        }
    }

    /// A human-readable description of the error.
    pub fn message(&self) -> (text: String)
        ensures
            text@ == self.message_spec(),
    {
        match self {
            Error::GeneralError(msg) => msg.clone(),
            Error::InternalError(_, text) => text.clone(),
            Error::NoMatch(key) => {
                String::from_str("No match found for key ").concat(key.as_str())
            },
            Error::TimeStampNotAvailable(key, t) => {
                describe_missing(key.as_str(), format_calendar(t.secs, t.nanos))
            },
        }
    }

    /// What [`Error::origin`] returns.
    pub open spec fn origin_spec(self) -> Option<Origin> {
        match self {
            Error::InternalError(origin, _) => Some(origin),
            _ => None,
        }
    }

    /// The collaborator behind this error, if it was raised outside this crate.
    pub fn origin(&self) -> (o: Option<Origin>)
        ensures
            o == self.origin_spec(),
    {
        match self {
            Error::InternalError(origin, _) => Some(*origin),
            _ => None,
        }
    }
}

} // verus!
