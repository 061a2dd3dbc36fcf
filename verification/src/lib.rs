//! Weather on the event day: picks the hourly forecast sample nearest to an
//! event, renders it, and keeps a store of named events.

use vstd::prelude::*;
use vstd::string::*;
use crate::error::{Error, ErrorView};
use crate::number::Binary64;
use crate::provider::Reply;
use crate::text::{decimal, magnitude, magnitude_text};
use crate::time::{parsed, Timestamp};
use crate::units::Units;
use crate::weather::{Hourly, Weather};

pub mod date_format;
pub mod emoji;
pub mod error;
pub mod geo;
pub mod number;
pub mod persistence;
pub mod provider;
pub mod report;
pub mod text;
pub mod time;
pub mod units;
pub mod weather;
pub mod wind;

verus! {

/// How the date of an event is typed in: day, hour and minute.
pub const DATE_INPUT_FORMAT: &'static str = "%Y-%m-%d %H:%M";

/// How many days ahead the provider forecasts.
pub const FORECAST_DAYS: i64 = 16;

/// Reads the date of an event as it was typed in. A text that is no date
/// is an `InvalidTimestamp` that names the format and the text.
pub fn date_parser(value: &String) -> (date: Result<Timestamp, Error>)
    ensures
        match parsed(value@, DATE_INPUT_FORMAT@) {
            Some(stamp) => date == Ok::<Timestamp, Error>(stamp),
            None => date is Err && date->Err_0@ == (ErrorView::InvalidTimestamp {
                format: DATE_INPUT_FORMAT@,
                value: value@,
            }),
        },
{
    match Timestamp::parse(value.as_str(), DATE_INPUT_FORMAT) {
        Some(stamp) => Ok(stamp),
        None => Err(
            Error::InvalidTimestamp {
                format: String::from_str(DATE_INPUT_FORMAT),
                value: value.clone(),
            },
        ),
    }
}

/// Something that happens at a place and a time, and how many whole days
/// away it was when it was looked at.
#[derive(Debug, PartialEq)]
pub struct Event {
    pub name: Option<String>,
    pub when: Timestamp,
    pub location: String,
    pub latitude: Binary64,
    pub longitude: Binary64,
    pub days: i64,
}

impl Event {
    /// Whether the event lies within the days that the provider forecasts:
    /// not in the past, and less than sixteen days ahead.
    pub open spec fn in_forecast_window(self) -> bool {
        0 <= self.days < FORECAST_DAYS
    }

    /// What to tell about an event that gets no forecast.
    pub open spec fn notice_text(self) -> Seq<char> {
        if self.days < 0 {
            match self.name {
                Some(name) => "Skipping weather forecast for "@ + name@ + " since it was "@
                    + decimal(magnitude(self.days as int)) + " days ago."@,
                None => "Skipping weather forecast for "@ + decimal(magnitude(self.days as int))
                    + " days ago."@,
            }
        } else {
            match self.name {
                Some(name) => "Skipping weather forecast for "@ + name@ + " since it is "@
                    + decimal(magnitude(self.days as int)) + " days in the future."@,
                None => "Skipping weather forecast for "@ + decimal(magnitude(self.days as int))
                    + " days in the future."@,
            }
        }
    }

    /// The event with these values as seen at `now`.
    pub fn at(
        name: Option<String>,
        when: Timestamp,
        location: String,
        latitude: Binary64,
        longitude: Binary64,
        now: &Timestamp,
    ) -> (event: Event)
        ensures
            event == (Event {
                name,
                when,
                location,
                latitude,
                longitude,
                days: when.days_since(*now) as i64,
            }),
            event.days == when.days_since(*now),
    {
        let days = when.whole_days_since(now);
        Event { name, when, location, latitude, longitude, days }
    }

    /// The event with this name, date and place as seen at the present
    /// moment. The date is read as typed in; one that does not read so is an
    /// `InvalidTimestamp`.
    pub fn new(
        name: Option<String>,
        date: String,
        location: String,
        latitude: Binary64,
        longitude: Binary64,
    ) -> (event: Result<Event, Error>)
        ensures
            match parsed(date@, DATE_INPUT_FORMAT@) {
                Some(when) => exists|now: Timestamp|
                    event == Ok::<Event, Error>(
                        Event {
                            name,
                            when,
                            location,
                            latitude,
                            longitude,
                            days: (#[trigger] when.days_since(now)) as i64,
                        },
                    ),
                None => event is Err && event->Err_0@ == (ErrorView::InvalidTimestamp {
                    format: DATE_INPUT_FORMAT@,
                    value: date@,
                }),
            },
    {
        let when = match date_parser(&date) {
            Ok(when) => when,
            Err(error) => {
                return Err(error);
            },
        };
        let now = crate::time::now();
        Ok(Event::at(name, when, location, latitude, longitude, &now))
    }

    /// Whether a forecast can be had for the event.
    pub fn has_weather_forcast(&self) -> (available: bool)
        ensures
            available == self.in_forecast_window(),
    {
        0 <= self.days && self.days < FORECAST_DAYS
    }

    /// What to tell about the event if it gets no forecast; nothing if it
    /// gets one.
    pub fn skip_notice(&self) -> (notice: Option<String>)
        ensures
            self.in_forecast_window() ==> notice is None,
            !self.in_forecast_window() ==> notice is Some && notice->Some_0@ == self.notice_text(),
    {
        if self.has_weather_forcast() {
            return None;
        }
        let mut text = String::from_str("Skipping weather forecast for ");
        match &self.name {
            Some(name) => {
                text.append(name.as_str());
                if self.days < 0 {
                    text.append(" since it was ");
                } else {
                    text.append(" since it is ");
                }
            },
            None => {},
        }
        text.append(magnitude_text(self.days).as_str());
        if self.days < 0 {
            text.append(" days ago.");
        } else {
            text.append(" days in the future.");
        }
        Some(text)
    }

    /// The forecast for the event that the provider's answer gives.
    pub fn weather(&self, units: &Units, reply: Reply<Hourly>) -> (shown: Result<Weather, Error>)
        ensures
            Weather::is_made_of(self.when, self.name, self.location, *units, reply, shown),
    {
        let name = match &self.name {
            Some(name) => Some(name.clone()),
            None => None,
        };
        Weather::new(self.when, units, name, self.location.clone(), reply)
    }
}

} // verus!
