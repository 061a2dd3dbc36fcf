//! The ways in which a forecast or the event store can fail, and how each
//! is told.

use vstd::prelude::*;
use vstd::string::*;
use crate::provider::{reason_phrase, status_text, status_text_of};
use crate::text::{signed_decimal, signed_decimal_text};

verus! {

/// Why the file of the event store could not be used.
#[derive(Debug, Clone, Copy, PartialEq, Eq, Structural)]
pub enum Access {
    /// There is no such file.
    NotFound,
    /// The file is there but could not be read or written.
    Failed,
}

/// Why a call to a provider gave nothing usable.
#[derive(Debug, PartialEq, Eq)]
pub enum Upstream {
    /// The request never got an answer; the text says why.
    Transport(String),
    /// The provider at `url` answered with a status that is not a success,
    /// and with this body.
    Status { url: String, status: u16, body: String },
    /// The answer held no entry for the place searched for.
    NoResults(String),
    /// The answer from `url` did not have the expected shape; `cause` says
    /// what was wrong with it.
    Malformed { url: String, cause: String },
}

/// A failure of a provider with its texts as plain sequences.
pub enum UpstreamView {
    Transport(Seq<char>),
    Status { url: Seq<char>, status: u16, body: Seq<char> },
    NoResults(Seq<char>),
    Malformed { url: Seq<char>, cause: Seq<char> },
}

impl View for Upstream {
    type V = UpstreamView;

    open spec fn view(&self) -> UpstreamView {
        match *self {
            Upstream::Transport(cause) => UpstreamView::Transport(cause@),
            Upstream::Status { url, status, body } => UpstreamView::Status {
                url: url@,
                status,
                body: body@,
            },
            Upstream::NoResults(query) => UpstreamView::NoResults(query@),
            Upstream::Malformed { url, cause } => UpstreamView::Malformed {
                url: url@,
                cause: cause@,
            },
        }
    }
}

/// Every failure is final for the operation that raised it.
#[derive(Debug, PartialEq, Eq)]
pub enum Error {
    /// The place could not be located.
    GeocodingFailed(Upstream),
    /// The forecast could not be fetched.
    ForecastFetchFailed(Upstream),
    /// The forecast from `url` could not be read; `cause` says why.
    ForecastParseFailed { url: String, cause: String },
    /// No hour of the forecast was complete.
    NoWeatherDataFound,
    /// The weather code has no glyph.
    UnknownWeatherCode(i8),
    /// `value` is no date in the format `format`.
    InvalidTimestamp { format: String, value: String },
    /// The file of the event store could not be read or written; `cause`
    /// says why.
    EventStoreIOError { access: Access, cause: String },
    /// The file of the event store does not hold a store; the text says why.
    EventStoreCorrupt(String),
    /// Only an event with a name can be saved.
    EventNameRequired,
}

/// An error with its texts as plain sequences.
pub enum ErrorView {
    GeocodingFailed(UpstreamView),
    ForecastFetchFailed(UpstreamView),
    ForecastParseFailed { url: Seq<char>, cause: Seq<char> },
    NoWeatherDataFound,
    UnknownWeatherCode(i8),
    InvalidTimestamp { format: Seq<char>, value: Seq<char> },
    EventStoreIOError { access: Access, cause: Seq<char> },
    EventStoreCorrupt(Seq<char>),
    EventNameRequired,
}

impl View for Error {
    type V = ErrorView;

    open spec fn view(&self) -> ErrorView {
        match *self {
            Error::GeocodingFailed(failure) => ErrorView::GeocodingFailed(failure@),
            Error::ForecastFetchFailed(failure) => ErrorView::ForecastFetchFailed(failure@),
            Error::ForecastParseFailed { url, cause } => ErrorView::ForecastParseFailed {
                url: url@,
                cause: cause@,
            },
            Error::NoWeatherDataFound => ErrorView::NoWeatherDataFound,
            Error::UnknownWeatherCode(code) => ErrorView::UnknownWeatherCode(code),
            Error::InvalidTimestamp { format, value } => ErrorView::InvalidTimestamp {
                format: format@,
                value: value@,
            },
            Error::EventStoreIOError { access, cause } => ErrorView::EventStoreIOError {
                access,
                cause: cause@,
            },
            Error::EventStoreCorrupt(cause) => ErrorView::EventStoreCorrupt(cause@),
            Error::EventNameRequired => ErrorView::EventNameRequired,
        }
    }
}

/// An outcome with its error, if it is one, as plain sequences.
pub open spec fn outcome<T>(result: Result<T, Error>) -> Result<T, ErrorView> {
    match result {
        Ok(value) => Ok(value),
        Err(error) => Err(error@),
    }
}

impl UpstreamView {
    /// The failure in words. A request that got no answer and an answer of
    /// the wrong shape are told by their cause.
    pub open spec fn message(self) -> Seq<char> {
        match self {
            UpstreamView::Transport(cause) => cause,
            UpstreamView::Status { url, status, body } => "HTTP request to "@ + url
                + " returned "@ + status_text_of(status) + ": "@ + body,
            UpstreamView::NoResults(query) => "No latitude/longitude found for "@ + query,
            UpstreamView::Malformed { url, cause } => cause,
        }
    }
}

impl ErrorView {
    /// The error in words.
    pub open spec fn message(self) -> Seq<char> {
        match self {
            ErrorView::GeocodingFailed(failure) => failure.message(),
            ErrorView::ForecastFetchFailed(failure) => failure.message(),
            ErrorView::ForecastParseFailed { url, cause } =>
                "Failed to parse response JSON body from "@ + url + ": "@ + cause,
            ErrorView::NoWeatherDataFound => "No weather data found"@,
            ErrorView::UnknownWeatherCode(code) => "Unknown weather code: "@ + signed_decimal(
                code as int,
            ),
            ErrorView::InvalidTimestamp { format, value } =>
                "Failed to parse date and time, it should be in the format "@ + format + ": "@
                    + value,
            ErrorView::EventStoreIOError { access, cause } => cause,
            ErrorView::EventStoreCorrupt(cause) => cause,
            ErrorView::EventNameRequired => "Cannot create an event without a name"@,
        }
    }
}

impl Upstream {
    /// The failure in words.
    pub fn to_string(&self) -> (text: String)
        ensures
            text@ == self@.message(),
    {
        match self {
            Upstream::Transport(cause) => cause.clone(),
            Upstream::Status { url, status, body } => {
                let mut text = String::from_str("HTTP request to ");
                text.append(url.as_str());
                text.append(" returned ");
                text.append(status_text(*status, reason_phrase(*status)).as_str());
                text.append(": ");
                text.append(body.as_str());
                text
            },
            Upstream::NoResults(query) => {
                let mut text = String::from_str("No latitude/longitude found for ");
                text.append(query.as_str());
                text
            },
            Upstream::Malformed { url, cause } => cause.clone(),
        }
    }
}

impl Error {
    /// The error in words.
    pub fn to_string(&self) -> (text: String)
        ensures
            text@ == self@.message(),
    {
        match self {
            Error::GeocodingFailed(failure) => failure.to_string(),
            Error::ForecastFetchFailed(failure) => failure.to_string(),
            Error::ForecastParseFailed { url, cause } => {
                let mut text = String::from_str("Failed to parse response JSON body from ");
                text.append(url.as_str());
                text.append(": ");
                text.append(cause.as_str());
                text
            },
            Error::NoWeatherDataFound => String::from_str("No weather data found"),
            Error::UnknownWeatherCode(code) => {
                let mut text = String::from_str("Unknown weather code: ");
                text.append(signed_decimal_text(*code as i64).as_str());
                text
            },
            Error::InvalidTimestamp { format, value } => {
                let mut text = String::from_str(
                    "Failed to parse date and time, it should be in the format ",
                );
                text.append(format.as_str());
                text.append(": ");
                text.append(value.as_str());
                text
            },
            Error::EventStoreIOError { access, cause } => cause.clone(),
            Error::EventStoreCorrupt(cause) => cause.clone(),
            Error::EventNameRequired => String::from_str("Cannot create an event without a name"),
        }
    }
}

} // verus!
