//! The forecast for one event: how it is picked from an hourly series and
//! how it is shown.

use vstd::prelude::*;
use vstd::string::*;
use crate::date_format::OPEN_METEO_DATE_FORMAT;
use crate::emoji::{emoji_for_weather, glyph_of, is_known_code, sky_of, CALENDAR, GLOBE, PRECIPITATION, WIND};
use crate::error::{Error, ErrorView, Upstream, UpstreamView};
use crate::provider::{pairs_text, parse_with_params, url_with_params, Reply};
use crate::number::Binary64;
use crate::text::{signed_decimal, signed_decimal_text};
use crate::time::{format_with, parsed, Timestamp};
use crate::units::Units;
use crate::wind::{compass, wind_direction};

verus! {

/// Where hourly forecasts are asked for.
pub const API_URL: &'static str = "https://api.open-meteo.com/v1/forecast";

/// The day of a forecast as the provider wants it.
pub const QUERY_DATE_FORMAT: &'static str = "%Y-%m-%d";

/// The values asked for of every hour.
pub const HOURLY_VARIABLES: &'static str =
    "temperature_2m,apparent_temperature,precipitation_probability,relativehumidity_2m,windspeed_10m,winddirection_10m,weathercode";

/// How the date of an event is shown: short month name, day, hour and minute.
pub const DATE_OUTPUT_FORMAT: &'static str = "%b %-d, %H:%M";

/// A forecast split into the three parts of a desktop notification.
#[derive(Debug)]
pub struct Notification {
    pub title: String,
    pub subtitle: String,
    pub body: String,
}

/// The forecast picked for an event.
#[derive(Debug)]
pub struct Weather {
    pub name: Option<String>,
    pub location: String,
    pub units: Units,
    pub icon: String,
    pub date: Timestamp,
    pub weather_code: i8,
    pub probability_of_precipitation: i8,
    pub temperature: Binary64,
    pub feels_like: Binary64,
    pub humidity: i8,
    pub wind_speed: Binary64,
    pub wind_direction: i32,
}

/// The name of an event with its date, written out, behind it in brackets.
pub open spec fn heading_text(name: Seq<char>, date: Seq<char>) -> Seq<char> {
    CALENDAR@ + " "@ + name + " ("@ + date + ")"@
}

/// The name of an event with its date behind it.
pub fn heading(name: &str, date: &str) -> (text: String)
    ensures
        text@ == heading_text(name@, date@),
{
    let mut text = String::from_str(CALENDAR);
    text.append(" ");
    text.append(name);
    text.append(" (");
    text.append(date);
    text.append(")");
    text
}

/// The parameters of a request for the hours of one day at one place.
pub open spec fn forecast_query(
    day: Seq<char>,
    latitude: Seq<char>,
    longitude: Seq<char>,
    units: Units,
) -> Seq<(Seq<char>, Seq<char>)> {
    seq![
        ("latitude"@, latitude),
        ("longitude"@, longitude),
        ("start_date"@, day),
        ("end_date"@, day),
        ("temperature_unit"@, units.temperature_token()),
        ("windspeed_10m"@, units.speed_token()),
        ("timezone"@, "auto"@),
        ("forecast_days"@, "16"@),
        ("hourly"@, HOURLY_VARIABLES@),
    ]
}

/// The parameters of a request for the hours of `day` at a place whose
/// coordinates are given as text.
pub fn forecast_params_for(day: &str, latitude: &str, longitude: &str, units: &Units) -> (params:
    Vec<(String, String)>)
    ensures
        pairs_text(params@) == forecast_query(day@, latitude@, longitude@, *units),
{
    let mut params: Vec<(String, String)> = Vec::new();
    params.push((String::from_str("latitude"), String::from_str(latitude)));
    params.push((String::from_str("longitude"), String::from_str(longitude)));
    params.push((String::from_str("start_date"), String::from_str(day)));
    params.push((String::from_str("end_date"), String::from_str(day)));
    params.push((String::from_str("temperature_unit"), units.temperature()));
    params.push((String::from_str("windspeed_10m"), units.speed()));
    params.push((String::from_str("timezone"), String::from_str("auto")));
    params.push((String::from_str("forecast_days"), String::from_str("16")));
    params.push((String::from_str("hourly"), String::from_str(HOURLY_VARIABLES)));
    assert(pairs_text(params@) =~= forecast_query(day@, latitude@, longitude@, *units));
    params
}

/// The parameters of a request for the hours of the day of `target` at a
/// place whose coordinates are given as text.
pub fn forecast_params(target: &Timestamp, latitude: &str, longitude: &str, units: &Units) -> (params:
    Vec<(String, String)>)
    ensures
        pairs_text(params@) == forecast_query(
            target.formatted(QUERY_DATE_FORMAT@),
            latitude@,
            longitude@,
            *units,
        ),
{
    let day = format_with(target, QUERY_DATE_FORMAT);
    forecast_params_for(day.as_str(), latitude, longitude, units)
}

/// The address at which to ask for the hours of the day of `target`, or
/// nothing if no address can be built.
pub fn forecast_url(target: &Timestamp, latitude: &str, longitude: &str, units: &Units) -> (url:
    Option<String>)
    ensures
        match url_with_params(
            API_URL@,
            forecast_query(target.formatted(QUERY_DATE_FORMAT@), latitude@, longitude@, *units),
        ) {
            Some(address) => url is Some && url->Some_0@ == address,
            None => url is None,
        },
{
    let params = forecast_params(target, latitude, longitude, units);
    parse_with_params(API_URL, &params)
}

impl Weather {
    /// Whether `shown` is what the provider's answer gives for the target.
    pub open spec fn is_made_of(
        target: Timestamp,
        name: Option<String>,
        location: String,
        units: Units,
        reply: Reply<Hourly>,
        shown: Result<Weather, Error>,
    ) -> bool {
        match reply.failure() {
            Some(UpstreamView::Malformed { url, cause }) => shown is Err && shown->Err_0@
                == (ErrorView::ForecastParseFailed { url, cause }),
            Some(failure) => shown is Err && shown->Err_0@ == ErrorView::ForecastFetchFailed(
                failure,
            ),
            None => reply->parsed->Ok_0.is_answered_by(target, name, location, units, shown),
        }
    }

    /// The forecast for the target that the provider's answer gives.
    ///
    /// An answer that never came or that reports no success is
    /// `ForecastFetchFailed`, with the address, the status and the body of
    /// the answer; a body that could not be read is `ForecastParseFailed`,
    /// with the address and the cause; and a series that was read is
    /// searched for the sample nearest to the target.
    pub fn new(
        target: Timestamp,
        units: &Units,
        name: Option<String>,
        location: String,
        reply: Reply<Hourly>,
    ) -> (shown: Result<Weather, Error>)
        ensures
            Weather::is_made_of(target, name, location, *units, reply, shown),
    {
        match reply.content() {
            Ok(hourly) => hourly.as_weather(target, name, location, units),
            Err(Upstream::Malformed { url, cause }) => Err(
                Error::ForecastParseFailed { url, cause },
            ),
            Err(failure) => Err(Error::ForecastFetchFailed(failure)),
        }
    }

    /// What stands in the way of showing this forecast, if anything: a
    /// weather code without a glyph.
    pub open spec fn rendering_error(self) -> Option<Error> {
        if !is_known_code(self.weather_code as int) {
            Some(Error::UnknownWeatherCode(self.weather_code))
        } else {
            None
        }
    }

    /// The title: the name of the event and its date, or nothing for an
    /// event without a name.
    pub open spec fn title_text(self) -> Seq<char> {
        match self.name {
            Some(name) => heading_text(name@, self.date.formatted(DATE_OUTPUT_FORMAT@)),
            None => Seq::<char>::empty(),
        }
    }

    /// The subtitle: where the event takes place.
    pub open spec fn subtitle_text(self) -> Seq<char> {
        GLOBE@ + " "@ + self.location@
    }

    /// The sky and the temperatures, rounded to whole degrees.
    pub open spec fn temperature_line(self) -> Seq<char> {
        glyph_of(sky_of(self.weather_code as int)->Some_0) + " "@ + self.temperature.rounded_text()
            + "°"@ + self.units.temperature_symbol() + " (feels like "@
            + self.feels_like.rounded_text() + "°"@ + self.units.temperature_symbol() + ")"@
    }

    /// The chance of rain and the humidity, in percent.
    pub open spec fn moisture_line(self) -> Seq<char> {
        PRECIPITATION@ + " "@ + signed_decimal(self.probability_of_precipitation as int)
            + "% chance of rain & "@ + signed_decimal(self.humidity as int) + "% humidity"@
    }

    /// The wind: its speed, rounded to whole units, and where it comes from.
    pub open spec fn wind_line(self) -> Seq<char> {
        WIND@ + " "@ + self.wind_speed.rounded_text() + self.units.speed_symbol() + " "@
            + compass(self.wind_direction as int)
    }

    /// The three lines of the summary with `separator` between them.
    pub open spec fn summary_text(self, separator: Seq<char>) -> Seq<char> {
        self.temperature_line() + separator + self.moisture_line() + separator + self.wind_line()
    }

    /// The forecast as plain text: for an event with a name a heading line
    /// of title and subtitle, then the summary on one line.
    pub open spec fn plain_text(self) -> Seq<char> {
        match self.name {
            Some(_) => self.title_text() + " "@ + self.subtitle_text() + "\n"@ + self.summary_text(
                " "@,
            ),
            None => self.summary_text(" "@),
        }
    }

    /// The title of the notification.
    fn title(&self) -> (text: String)
        ensures
            text@ == self.title_text(),
    {
        match &self.name {
            Some(name) => heading(
                name.as_str(),
                format_with(&self.date, DATE_OUTPUT_FORMAT).as_str(),
            ),
            None => String::new(),
        }
    }

    /// The subtitle of the notification.
    fn subtitle(&self) -> (text: String)
        ensures
            text@ == self.subtitle_text(),
    {
        let mut text = String::from_str(GLOBE);
        text.append(" ");
        text.append(self.location.as_str());
        text
    }

    /// The three lines of the summary with `separator` between them, unless
    /// something stands in the way of showing the forecast.
    fn summary(&self, separator: &str) -> (text: Result<String, Error>)
        ensures
            match self.rendering_error() {
                Some(error) => text == Err::<String, Error>(error),
                None => text is Ok && text->Ok_0@ == self.summary_text(separator@),
            },
    {
        let glyph = match emoji_for_weather(self.weather_code) {
            Ok(glyph) => glyph,
            Err(error) => {
                return Err(error);
            },
        };
        let point = match wind_direction(self.wind_direction) {
            Ok(point) => point,
            Err(error) => {
                return Err(error);
            },
        };
        let degree = self.units.temperature_display();
        let mut text = String::from_str(glyph);
        text.append(" ");
        text.append(self.temperature.rounded().as_str());
        text.append("°");
        text.append(degree);
        text.append(" (feels like ");
        text.append(self.feels_like.rounded().as_str());
        text.append("°");
        text.append(degree);
        text.append(")");
        assert(text@ == self.temperature_line());
        let mut moisture = String::from_str(PRECIPITATION);
        moisture.append(" ");
        moisture.append(signed_decimal_text(self.probability_of_precipitation as i64).as_str());
        moisture.append("% chance of rain & ");
        moisture.append(signed_decimal_text(self.humidity as i64).as_str());
        moisture.append("% humidity");
        assert(moisture@ == self.moisture_line());
        let mut wind = String::from_str(WIND);
        wind.append(" ");
        wind.append(self.wind_speed.rounded().as_str());
        wind.append(self.units.speed_display());
        wind.append(" ");
        wind.append(point.as_str());
        assert(wind@ == self.wind_line());
        text.append(separator);
        text.append(moisture.as_str());
        text.append(separator);
        text.append(wind.as_str());
        Ok(text)
    }

    /// The forecast as a notification: the title carries the name and the
    /// date, the subtitle the place, the body the summary on three lines.
    pub fn as_notification(&self) -> (shown: Result<Notification, Error>)
        ensures
            match self.rendering_error() {
                Some(error) => shown == Err::<Notification, Error>(error),
                None => shown is Ok && shown->Ok_0.title@ == self.title_text()
                    && shown->Ok_0.subtitle@ == self.subtitle_text() && shown->Ok_0.body@
                    == self.summary_text("\n"@),
            },
    {
        let title = self.title();
        let subtitle = self.subtitle();
        match self.summary("\n") {
            Ok(body) => Ok(Notification { title, subtitle, body }),
            Err(error) => Err(error),
        }
    }

    /// The forecast as plain text.
    pub fn as_string(&self) -> (shown: Result<String, Error>)
        ensures
            match self.rendering_error() {
                Some(error) => shown == Err::<String, Error>(error),
                None => shown is Ok && shown->Ok_0@ == self.plain_text(),
            },
    {
        let summary = match self.summary(" ") {
            Ok(summary) => summary,
            Err(error) => {
                return Err(error);
            },
        };
        if self.name.is_some() {
            let mut text = self.title();
            text.append(" ");
            text.append(self.subtitle().as_str());
            text.append("\n");
            text.append(summary.as_str());
            Ok(text)
        } else {
            Ok(summary)
        }
    }
}

/// One hour of the forecast with every value in place.
#[derive(Debug, Clone, Copy)]
pub struct HourlyItem {
    pub time: Timestamp,
    pub temperature_2m: Binary64,
    pub apparent_temperature: Binary64,
    pub relativehumidity_2m: i8,
    pub precipitation_probability: i8,
    pub windspeed_10m: Binary64,
    pub winddirection_10m: i32,
    pub weathercode: i8,
}

/// The hourly series as the provider sends it: one column for each value,
/// in which any entry may be missing.
#[derive(Debug)]
pub struct Hourly {
    pub time: Vec<String>,
    pub temperature_2m: Vec<Option<Binary64>>,
    pub apparent_temperature: Vec<Option<Binary64>>,
    pub relativehumidity_2m: Vec<Option<i8>>,
    pub precipitation_probability: Vec<Option<i8>>,
    pub windspeed_10m: Vec<Option<Binary64>>,
    pub winddirection_10m: Vec<Option<i32>>,
    pub weathercode: Vec<Option<i8>>,
}

/// The entry of a column at an index; an index past the end of the column
/// holds nothing.
pub open spec fn entry<T>(column: Seq<Option<T>>, idx: int) -> Option<T> {
    if 0 <= idx < column.len() {
        column[idx]
    } else {
        None
    }
}

/// The sample made of the values of one hour: there is one only if the time
/// and every value but the chance of rain is there, and a missing chance of
/// rain counts as zero.
pub open spec fn complete(
    time: Option<Timestamp>,
    temperature: Option<Binary64>,
    apparent: Option<Binary64>,
    humidity: Option<i8>,
    precipitation: Option<i8>,
    windspeed: Option<Binary64>,
    winddirection: Option<i32>,
    weathercode: Option<i8>,
) -> Option<HourlyItem> {
    if time is Some && temperature is Some && apparent is Some && humidity is Some
        && windspeed is Some && winddirection is Some && weathercode is Some {
        Some(
            HourlyItem {
                time: time->Some_0,
                temperature_2m: temperature->Some_0,
                apparent_temperature: apparent->Some_0,
                relativehumidity_2m: humidity->Some_0,
                precipitation_probability: match precipitation {
                    Some(chance) => chance,
                    None => 0,
                },
                windspeed_10m: windspeed->Some_0,
                winddirection_10m: winddirection->Some_0,
                weathercode: weathercode->Some_0,
            },
        )
    } else {
        None
    }
}

/// How far the sample at `j` is from the target, in whole minutes.
pub open spec fn distance(series: Seq<Option<HourlyItem>>, target: Timestamp, j: int) -> int {
    target.minutes_apart(series[j]->Some_0.time)
}

/// `k` is the complete sample nearest to the target, and the first of those
/// that are equally near.
pub open spec fn is_nearest_sample(
    series: Seq<Option<HourlyItem>>,
    target: Timestamp,
    k: int,
) -> bool {
    &&& 0 <= k < series.len()
    &&& series[k] is Some
    &&& forall|j: int|
        0 <= j < series.len() && series[j] is Some ==> distance(series, target, k)
            <= #[trigger] distance(series, target, j)
    &&& forall|j: int|
        0 <= j < k && series[j] is Some ==> distance(series, target, k) < #[trigger] distance(
            series,
            target,
            j,
        )
}

/// Whether a series holds no complete sample at all.
pub open spec fn all_incomplete(series: Seq<Option<HourlyItem>>) -> bool {
    forall|j: int| 0 <= j < series.len() ==> (#[trigger] series[j]) is None
}

/// A series has at most one nearest sample.
pub proof fn lemma_nearest_sample_unique(
    series: Seq<Option<HourlyItem>>,
    target: Timestamp,
    a: int,
    b: int,
)
    requires
        is_nearest_sample(series, target, a),
        is_nearest_sample(series, target, b),
    ensures
        a == b,
{
    if a < b {
        assert(distance(series, target, b) < distance(series, target, a));
        assert(distance(series, target, a) <= distance(series, target, b));
    } else if b < a {
        assert(distance(series, target, a) < distance(series, target, b));
        assert(distance(series, target, b) <= distance(series, target, a));
    }
}

/// The value of a column at an index, if the column reaches that far and
/// holds one there.
pub fn entry_at<T: Copy>(column: &Vec<Option<T>>, idx: usize) -> (value: Option<T>)
    ensures
        value == entry(column@, idx as int),
{
    if idx < column.len() {
        column[idx]
    } else {
        None
    }
}

/// The complete sample nearest to the target among those of a series, the
/// first of them where several are equally near; none where no sample is
/// complete.
pub fn nearest_sample(series: &Vec<Option<HourlyItem>>, target: &Timestamp) -> (found: Option<
    usize,
>)
    ensures
        match found {
            Some(k) => is_nearest_sample(series@, *target, k as int),
            None => all_incomplete(series@),
        },
{
    let mut best: Option<(usize, i64)> = None;
    let mut idx: usize = 0;
    while idx < series.len()
        invariant
            idx <= series.len(),
            match best {
                Some((k, gap)) => {
                    &&& k < idx
                    &&& series[k as int] is Some
                    &&& gap == distance(series@, *target, k as int)
                    &&& forall|j: int|
                        0 <= j < idx && series[j] is Some ==> gap <= #[trigger] distance(
                            series@,
                            *target,
                            j,
                        )
                    &&& forall|j: int|
                        0 <= j < k && series[j] is Some ==> gap < #[trigger] distance(
                            series@,
                            *target,
                            j,
                        )
                },
                None => forall|j: int| 0 <= j < idx ==> (#[trigger] series[j]) is None,
            },
        decreases series.len() - idx,
    {
        match &series[idx] {
            Some(item) => {
                let gap: i64 = target.whole_minutes_apart(&item.time);
                match best {
                    Some((_, least)) => {
                        if gap < least {
                            best = Some((idx, gap));
                        }
                    },
                    None => {
                        best = Some((idx, gap));
                    },
                }
            },
            None => {},
        }
        idx = idx + 1;
    }
    match best {
        Some((k, _)) => Some(k),
        None => None,
    }
}

impl HourlyItem {
    /// Puts the values of one hour together, if all that are needed are there.
    pub fn assemble(
        time: Option<Timestamp>,
        temperature: Option<Binary64>,
        apparent: Option<Binary64>,
        humidity: Option<i8>,
        precipitation: Option<i8>,
        windspeed: Option<Binary64>,
        winddirection: Option<i32>,
        weathercode: Option<i8>,
    ) -> (item: Option<HourlyItem>)
        ensures
            item == complete(
                time,
                temperature,
                apparent,
                humidity,
                precipitation,
                windspeed,
                winddirection,
                weathercode,
            ),
    {
        match (time, temperature, apparent, humidity, windspeed, winddirection, weathercode) {
            (
                Some(time),
                Some(temperature_2m),
                Some(apparent_temperature),
                Some(relativehumidity_2m),
                Some(windspeed_10m),
                Some(winddirection_10m),
                Some(weathercode),
            ) => Some(
                HourlyItem {
                    time,
                    temperature_2m,
                    apparent_temperature,
                    relativehumidity_2m,
                    precipitation_probability: match precipitation {
                        Some(chance) => chance,
                        None => 0,
                    },
                    windspeed_10m,
                    winddirection_10m,
                    weathercode,
                },
            ),
            _ => None,
        }
    }

    /// Whether a forecast shows this sample for the event with this name and
    /// place, in these units.
    pub open spec fn is_shown_by(
        self,
        weather: Weather,
        name: Option<String>,
        location: String,
        units: Units,
    ) -> bool {
        &&& weather.name == name
        &&& weather.location == location
        &&& weather.units == units
        &&& sky_of(self.weathercode as int) is Some
        &&& weather.icon@ == glyph_of(sky_of(self.weathercode as int)->Some_0)
        &&& weather.date == self.time
        &&& weather.weather_code == self.weathercode
        &&& weather.probability_of_precipitation == self.precipitation_probability
        &&& weather.temperature == self.temperature_2m
        &&& weather.feels_like == self.apparent_temperature
        &&& weather.humidity == self.relativehumidity_2m
        &&& weather.wind_speed == self.windspeed_10m
        &&& weather.wind_direction == self.winddirection_10m
    }

    /// The forecast that shows this sample, unless its weather code has no
    /// glyph.
    pub fn into_weather(self, name: Option<String>, location: String, units: &Units) -> (shown:
        Result<Weather, Error>)
        ensures
            match sky_of(self.weathercode as int) {
                Some(_) => shown is Ok && self.is_shown_by(shown->Ok_0, name, location, *units),
                None => shown == Err::<Weather, Error>(Error::UnknownWeatherCode(self.weathercode)),
            },
    {
        let glyph = match emoji_for_weather(self.weathercode) {
            Ok(glyph) => glyph,
            Err(error) => {
                return Err(error);
            },
        };
        Ok(
            Weather {
                name,
                location,
                weather_code: self.weathercode,
                icon: String::from_str(glyph),
                units: *units,
                date: self.time,
                probability_of_precipitation: self.precipitation_probability,
                temperature: self.temperature_2m,
                feels_like: self.apparent_temperature,
                humidity: self.relativehumidity_2m,
                wind_speed: self.windspeed_10m,
                wind_direction: self.winddirection_10m,
            },
        )
    }
}

impl Hourly {
    /// The complete sample at an index, if the values there make one. The
    /// time has to read as a date with hour and minute.
    pub open spec fn item_at(self, idx: int) -> Option<HourlyItem> {
        if 0 <= idx < self.time.len() {
            complete(
                parsed(self.time[idx]@, OPEN_METEO_DATE_FORMAT@),
                entry(self.temperature_2m@, idx),
                entry(self.apparent_temperature@, idx),
                entry(self.relativehumidity_2m@, idx),
                entry(self.precipitation_probability@, idx),
                entry(self.windspeed_10m@, idx),
                entry(self.winddirection_10m@, idx),
                entry(self.weathercode@, idx),
            )
        } else {
            None
        }
    }

    /// The series sample by sample, with nothing where a sample is incomplete.
    pub open spec fn series(self) -> Seq<Option<HourlyItem>> {
        Seq::new(self.time.len() as nat, |idx: int| self.item_at(idx))
    }

    /// Whether `shown` is the forecast of this series for the target. Where
    /// no sample is complete it is `NoWeatherDataFound`. Otherwise the
    /// nearest sample decides: it is shown, or, where its weather code has
    /// no glyph, the outcome is `UnknownWeatherCode`.
    pub open spec fn is_answered_by(
        self,
        target: Timestamp,
        name: Option<String>,
        location: String,
        units: Units,
        shown: Result<Weather, Error>,
    ) -> bool {
        if all_incomplete(self.series()) {
            shown == Err::<Weather, Error>(Error::NoWeatherDataFound)
        } else {
            exists|k: int|
                is_nearest_sample(self.series(), target, k) && match sky_of(
                    (#[trigger] self.series()[k])->Some_0.weathercode as int,
                ) {
                    Some(_) => shown is Ok && self.series()[k]->Some_0.is_shown_by(
                        shown->Ok_0,
                        name,
                        location,
                        units,
                    ),
                    None => shown == Err::<Weather, Error>(
                        Error::UnknownWeatherCode(self.series()[k]->Some_0.weathercode),
                    ),
                }
        }
    }

    /// The complete sample at an index, if the values there make one.
    pub fn item(&self, idx: usize) -> (item: Option<HourlyItem>)
        ensures
            item == self.item_at(idx as int),
    {
        if idx >= self.time.len() {
            return None;
        }
        HourlyItem::assemble(
            Timestamp::parse(self.time[idx].as_str(), OPEN_METEO_DATE_FORMAT),
            entry_at(&self.temperature_2m, idx),
            entry_at(&self.apparent_temperature, idx),
            entry_at(&self.relativehumidity_2m, idx),
            entry_at(&self.precipitation_probability, idx),
            entry_at(&self.windspeed_10m, idx),
            entry_at(&self.winddirection_10m, idx),
            entry_at(&self.weathercode, idx),
        )
    }

    /// Every hour of the series as a sample, or as nothing where it is
    /// incomplete.
    pub fn samples(&self) -> (series: Vec<Option<HourlyItem>>)
        ensures
            series@ == self.series(),
    {
        let mut series: Vec<Option<HourlyItem>> = Vec::new();
        let mut idx: usize = 0;
        while idx < self.time.len()
            invariant
                idx <= self.time.len(),
                series.len() == idx,
                forall|j: int| 0 <= j < idx ==> series[j] == self.item_at(j),
            decreases self.time.len() - idx,
        {
            series.push(self.item(idx));
            idx = idx + 1;
        }
        assert(series@ =~= self.series());
        series
    }

    /// The forecast for the target: the complete sample nearest to it, shown
    /// for the event with this name and place.
    ///
    /// Fails with `NoWeatherDataFound` where no sample is complete, and with
    /// `UnknownWeatherCode` where the nearest one has a code without a glyph.
    pub fn as_weather(
        &self,
        target: Timestamp,
        name: Option<String>,
        location: String,
        units: &Units,
    ) -> (shown: Result<Weather, Error>)
        ensures
            self.is_answered_by(target, name, location, *units, shown),
    {
        let series = self.samples();
        match nearest_sample(&series, &target) {
            Some(k) => {
                match series[k] {
                    Some(item) => item.into_weather(name, location, units),
                    None => Err(Error::NoWeatherDataFound),
                }
            },
            None => Err(Error::NoWeatherDataFound),
        }
    }
}

} // verus!
