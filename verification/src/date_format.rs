//! The formats in which dates travel as text.

use vstd::prelude::*;
use vstd::string::*;
use crate::error::{Error, ErrorView};
use crate::time::{format_with, parsed, Timestamp};

verus! {

/// How the forecast provider writes the hour of a sample.
pub const OPEN_METEO_DATE_FORMAT: &'static str = "%Y-%m-%dT%H:%M";

/// How the date of an event is written in the store's file.
pub const WED_FILE_DATE_FORMAT: &'static str = "%Y-%m-%d %H:%M:%S";

/// Reads the date of an event as the store's file holds it. A text that is
/// no date is an `InvalidTimestamp` that names the format and the text.
pub fn deserialize(text: &str) -> (date: Result<Timestamp, Error>)
    ensures
        match parsed(text@, WED_FILE_DATE_FORMAT@) {
            Some(stamp) => date == Ok::<Timestamp, Error>(stamp),
            None => date is Err && date->Err_0@ == (ErrorView::InvalidTimestamp {
                format: WED_FILE_DATE_FORMAT@,
                value: text@,
            }),
        },
{
    match Timestamp::parse(text, WED_FILE_DATE_FORMAT) {
        Some(stamp) => Ok(stamp),
        None => Err(
            Error::InvalidTimestamp {
                format: String::from_str(WED_FILE_DATE_FORMAT),
                value: String::from_str(text),
            },
        ),
    }
}

/// Writes the date of an event as the store's file holds it.
pub fn serialize(date: &Timestamp) -> (text: String)
    ensures
        text@ == date.formatted(WED_FILE_DATE_FORMAT@),
{
    format_with(date, WED_FILE_DATE_FORMAT)
}

} // verus!
