use chrono::DateTime;
use wed::error::{Error, Upstream};
use wed::number::Binary64;
use wed::provider::Reply;
use wed::time::Timestamp;
use wed::units::Units;
use wed::weather::{
    forecast_params, forecast_params_for, forecast_url, heading, nearest_sample, Hourly,
    HourlyItem, Weather,
};

fn number(value: f64) -> Binary64 {
    Binary64::from_bits(value.to_bits())
}

fn at(seconds: i64) -> Timestamp {
    let moment = DateTime::from_timestamp(seconds, 0).unwrap().naive_utc();
    Timestamp::new(moment.and_utc().timestamp(), moment.and_utc().timestamp_subsec_nanos()).unwrap()
}

fn weather() -> Weather {
    Weather {
        name: Some("Event".to_string()),
        location: "Location".to_string(),
        units: Units::Metric,
        icon: "☀️".to_string(),
        date: at(1621555200),
        weather_code: 1,
        probability_of_precipitation: 20,
        temperature: number(25.0),
        feels_like: number(28.0),
        humidity: 80,
        wind_speed: number(10.0),
        wind_direction: 180,
    }
}

#[test]
fn test_weather_as_notification() {
    let weather = weather();

    let result = weather.as_notification();
    assert!(result.is_ok());

    let notification = result.unwrap();
    assert_eq!(notification.title, "🗓️ Event (May 21, 00:00)");
    assert_eq!(notification.subtitle, "🌐 Location");

    let lines = notification.body.split('\n').collect::<Vec<&str>>();
    assert_eq!(lines.len(), 3);
    assert_eq!(lines[0], "☀️ 25°C (feels like 28°C)");
    assert_eq!(lines[1], "☔ 20% chance of rain & 80% humidity");
    assert_eq!(lines[2], "💨 10km/h S");
}

#[test]
fn weather_test_weather_as_string() {
    let weather = weather();

    let result = weather.as_string();
    assert!(result.is_ok());
    assert_eq!(
        result.unwrap(),
        [
            "🗓️ Event (May 21, 00:00) 🌐 Location",
            "☀️ 25°C (feels like 28°C) ☔ 20% chance of rain & 80% humidity 💨 10km/h S"
        ]
        .join("\n")
    );
}

#[test]
fn forecast_test_weather_as_string() {
    let weather = weather();

    let result = weather.as_string();
    assert!(result.is_ok());
    assert_eq!(
        result.unwrap(),
        [
            "🗓️ Event (May 21, 00:00) 🌐 Location",
            "☀️ 25°C (feels like 28°C) ☔ 20% chance of rain & 80% humidity 💨 10km/h S"
        ]
        .join("\n")
    );
}

#[test]
fn an_event_without_a_name_has_no_heading() {
    let mut weather = weather();
    weather.name = None;
    assert_eq!(
        weather.as_string().unwrap(),
        "☀️ 25°C (feels like 28°C) ☔ 20% chance of rain & 80% humidity 💨 10km/h S"
    );
    let notification = weather.as_notification().unwrap();
    assert_eq!(notification.title, "");
    assert_eq!(notification.subtitle, "🌐 Location");
}

#[test]
fn temperatures_are_shown_rounded() {
    let mut weather = weather();
    weather.temperature = number(25.4);
    weather.feels_like = number(27.6);
    weather.wind_speed = number(9.5);
    let notification = weather.as_notification().unwrap();
    let lines = notification.body.split('\n').collect::<Vec<&str>>();
    assert_eq!(lines[0], "☀️ 25°C (feels like 28°C)");
    assert_eq!(lines[2], "💨 10km/h S");
    assert_eq!(weather.temperature.to_bits(), 25.4f64.to_bits());
    assert_eq!(weather.feels_like.to_bits(), 27.6f64.to_bits());
}

#[test]
fn imperial_units_are_shown() {
    let mut weather = weather();
    weather.units = Units::Imperial;
    weather.temperature = number(-3.5);
    weather.wind_direction = 299;
    let notification = weather.as_notification().unwrap();
    let lines = notification.body.split('\n').collect::<Vec<&str>>();
    assert_eq!(lines[0], "☀️ -4°F (feels like 28°F)");
    assert_eq!(lines[2], "💨 10mph NW");
}

#[test]
fn a_forecast_that_cannot_be_shown_is_an_error() {
    let mut weather = weather();
    weather.weather_code = 4;
    assert_eq!(weather.as_string().unwrap_err(), Error::UnknownWeatherCode(4));
    assert_eq!(weather.as_notification().unwrap_err(), Error::UnknownWeatherCode(4));
    weather.wind_direction = 361;
    assert_eq!(weather.as_string().unwrap_err(), Error::UnknownWeatherCode(4));
}

#[test]
fn a_wind_direction_off_the_scale_is_shown_as_north() {
    let mut weather = weather();
    weather.wind_direction = 400;
    let notification = weather.as_notification().unwrap();
    let lines = notification.body.split('\n').collect::<Vec<&str>>();
    assert_eq!(lines[2], "💨 10km/h N");
    weather.wind_direction = -5;
    assert!(weather.as_string().unwrap().ends_with("💨 10km/h N"));
}

fn hourly(times: Vec<&str>, temperatures: Vec<Option<f64>>) -> Hourly {
    let count = times.len();
    Hourly {
        time: times.into_iter().map(|t| t.to_string()).collect(),
        temperature_2m: temperatures.into_iter().map(|t| t.map(number)).collect(),
        apparent_temperature: vec![Some(number(20.0)); count],
        relativehumidity_2m: vec![Some(50); count],
        precipitation_probability: vec![Some(10); count],
        windspeed_10m: vec![Some(number(5.0)); count],
        winddirection_10m: vec![Some(90); count],
        weathercode: vec![Some(2); count],
    }
}

fn parse(text: &str) -> Timestamp {
    Timestamp::parse(text, "%Y-%m-%dT%H:%M").unwrap()
}

#[test]
fn the_nearest_complete_sample_is_picked() {
    let series = hourly(
        vec!["2023-05-21T10:00", "2023-05-21T11:00", "2023-05-21T12:00"],
        vec![Some(1.0), None, Some(3.0)],
    );
    let before = series
        .as_weather(parse("2023-05-21T10:55"), None, "Here".to_string(), &Units::Metric)
        .unwrap();
    assert_eq!(before.date, parse("2023-05-21T10:00"));
    assert_eq!(before.temperature.to_bits(), 1.0f64.to_bits());
    let after = series
        .as_weather(parse("2023-05-21T11:05"), None, "Here".to_string(), &Units::Metric)
        .unwrap();
    assert_eq!(after.date, parse("2023-05-21T12:00"));
    assert_eq!(after.temperature.to_bits(), 3.0f64.to_bits());
    let tie = series
        .as_weather(parse("2023-05-21T11:00"), None, "Here".to_string(), &Units::Metric)
        .unwrap();
    assert_eq!(tie.date, parse("2023-05-21T10:00"));
}

#[test]
fn the_picked_sample_fills_the_forecast() {
    let series = hourly(vec!["2023-05-21T10:00"], vec![Some(1.5)]);
    let shown = series
        .as_weather(
            parse("2023-05-22T10:00"),
            Some("Picnic".to_string()),
            "Park".to_string(),
            &Units::Imperial,
        )
        .unwrap();
    assert_eq!(shown.name, Some("Picnic".to_string()));
    assert_eq!(shown.location, "Park");
    assert_eq!(shown.units, Units::Imperial);
    assert_eq!(shown.icon, "⛅");
    assert_eq!(shown.date, parse("2023-05-21T10:00"));
    assert_eq!(shown.weather_code, 2);
    assert_eq!(shown.probability_of_precipitation, 10);
    assert_eq!(shown.temperature.to_bits(), 1.5f64.to_bits());
    assert_eq!(shown.feels_like.to_bits(), 20.0f64.to_bits());
    assert_eq!(shown.humidity, 50);
    assert_eq!(shown.wind_speed.to_bits(), 5.0f64.to_bits());
    assert_eq!(shown.wind_direction, 90);
}

#[test]
fn a_series_without_a_complete_sample_has_no_weather() {
    let series = hourly(
        vec!["2023-05-21T10:00", "2023-05-21T11:00"],
        vec![None, None],
    );
    let result = series.as_weather(parse("2023-05-21T10:00"), None, "Here".to_string(), &Units::Metric);
    assert_eq!(result.unwrap_err(), Error::NoWeatherDataFound);
    let empty = hourly(vec![], vec![]);
    let result = empty.as_weather(parse("2023-05-21T10:00"), None, "Here".to_string(), &Units::Metric);
    assert_eq!(result.unwrap_err(), Error::NoWeatherDataFound);
}

#[test]
fn a_sample_needs_every_value_but_the_chance_of_rain() {
    let mut series = hourly(
        vec!["2023-05-21T10:00", "no date", "2023-05-21T12:00", "2023-05-21T13:00"],
        vec![Some(1.0), Some(2.0), Some(3.0), Some(4.0)],
    );
    series.precipitation_probability = vec![None, Some(1)];
    series.weathercode = vec![Some(2), Some(2), Some(2)];
    let first = series.item(0).unwrap();
    assert_eq!(first.precipitation_probability, 0);
    assert_eq!(first.time, parse("2023-05-21T10:00"));
    assert!(series.item(1).is_none());
    let third = series.item(2).unwrap();
    assert_eq!(third.precipitation_probability, 0);
    assert!(series.item(3).is_none());
    assert!(series.item(4).is_none());
    series.relativehumidity_2m[0] = None;
    assert!(series.item(0).is_none());
    let samples = series.samples();
    assert_eq!(samples.len(), 4);
    assert!(samples[0].is_none() && samples[1].is_none() && samples[3].is_none());
    assert_eq!(samples[2].unwrap().temperature_2m.to_bits(), 3.0f64.to_bits());
}

#[test]
fn the_nearest_sample_has_a_code_without_a_glyph() {
    let mut series = hourly(
        vec!["2023-05-21T10:00", "2023-05-21T11:00"],
        vec![Some(1.0), Some(2.0)],
    );
    series.weathercode[1] = Some(4);
    let result = series.as_weather(parse("2023-05-21T11:00"), None, "Here".to_string(), &Units::Metric);
    assert_eq!(result.unwrap_err(), Error::UnknownWeatherCode(4));
    let result = series.as_weather(parse("2023-05-21T10:00"), None, "Here".to_string(), &Units::Metric);
    assert!(result.is_ok());
}

fn sample(time: &str) -> Option<HourlyItem> {
    HourlyItem::assemble(
        Some(parse(time)),
        Some(number(1.0)),
        Some(number(1.0)),
        Some(1),
        None,
        Some(number(1.0)),
        Some(1),
        Some(1),
    )
}

#[test]
fn the_first_of_equally_near_samples_wins() {
    let series = vec![
        None,
        sample("2023-05-21T10:00"),
        sample("2023-05-21T12:00"),
        sample("2023-05-21T12:00"),
        None,
    ];
    assert_eq!(nearest_sample(&series, &parse("2023-05-21T11:00")), Some(1));
    assert_eq!(nearest_sample(&series, &parse("2023-05-21T11:01")), Some(2));
    assert_eq!(nearest_sample(&series, &parse("2023-05-21T11:00")), Some(1));
    assert_eq!(nearest_sample(&series, &parse("2024-01-01T00:00")), Some(2));
    assert_eq!(nearest_sample(&vec![None, None], &parse("2024-01-01T00:00")), None);
    assert_eq!(nearest_sample(&vec![], &parse("2024-01-01T00:00")), None);
}

#[test]
fn the_request_names_the_day_and_the_units() {
    let params = forecast_params(&at(1621555200), "52.5", "13.4", &Units::Imperial);
    let expected: Vec<(String, String)> = vec![
        ("latitude", "52.5"),
        ("longitude", "13.4"),
        ("start_date", "2021-05-21"),
        ("end_date", "2021-05-21"),
        ("temperature_unit", "fahrenheit"),
        ("windspeed_10m", "mph"),
        ("timezone", "auto"),
        ("forecast_days", "16"),
        (
            "hourly",
            "temperature_2m,apparent_temperature,precipitation_probability,relativehumidity_2m,windspeed_10m,winddirection_10m,weathercode",
        ),
    ]
    .into_iter()
    .map(|(name, value)| (name.to_string(), value.to_string()))
    .collect();
    assert_eq!(params, expected);
}

#[test]
fn the_request_goes_to_the_provider() {
    let url = forecast_url(&at(1621555200), "52.5", "-13.4", &Units::Metric).unwrap();
    assert_eq!(
        url,
        "https://api.open-meteo.com/v1/forecast?latitude=52.5&longitude=-13.4&start_date=2021-05-21&end_date=2021-05-21&temperature_unit=celsius&windspeed_10m=kmh&timezone=auto&forecast_days=16&hourly=temperature_2m%2Capparent_temperature%2Cprecipitation_probability%2Crelativehumidity_2m%2Cwindspeed_10m%2Cwinddirection_10m%2Cweathercode"
    );
}

fn answer(status: u16, body: &str, parsed: Result<Hourly, String>) -> Reply<Hourly> {
    Reply::Answered {
        url: "https://example.net/forecast?x=1".to_string(),
        status,
        body: body.to_string(),
        parsed,
    }
}

#[test]
fn an_answer_becomes_a_forecast_or_an_error() {
    let target = parse("2023-05-21T10:00");
    let unreachable = Weather::new(
        target,
        &Units::Metric,
        None,
        "Here".to_string(),
        Reply::Unreachable { cause: "connection refused".to_string() },
    );
    assert_eq!(
        unreachable.unwrap_err(),
        Error::ForecastFetchFailed(Upstream::Transport("connection refused".to_string()))
    );
    let refused = Weather::new(
        target,
        &Units::Metric,
        None,
        "Here".to_string(),
        answer(500, "it broke", Ok(hourly(vec!["2023-05-21T10:00"], vec![Some(1.0)]))),
    )
    .unwrap_err();
    assert_eq!(
        refused,
        Error::ForecastFetchFailed(Upstream::Status {
            url: "https://example.net/forecast?x=1".to_string(),
            status: 500,
            body: "it broke".to_string(),
        })
    );
    assert_eq!(
        refused.to_string(),
        "HTTP request to https://example.net/forecast?x=1 returned 500 Internal Server Error: it broke"
    );
    let unread = Weather::new(
        target,
        &Units::Metric,
        None,
        "Here".to_string(),
        answer(200, "{}", Err("missing field `hourly`".to_string())),
    )
    .unwrap_err();
    assert_eq!(
        unread,
        Error::ForecastParseFailed {
            url: "https://example.net/forecast?x=1".to_string(),
            cause: "missing field `hourly`".to_string(),
        }
    );
    assert_eq!(
        unread.to_string(),
        "Failed to parse response JSON body from https://example.net/forecast?x=1: missing field `hourly`"
    );
    let empty = Weather::new(
        target,
        &Units::Metric,
        None,
        "Here".to_string(),
        answer(200, "", Ok(hourly(vec![], vec![]))),
    );
    assert_eq!(empty.unwrap_err(), Error::NoWeatherDataFound);
    let good = Weather::new(
        target,
        &Units::Metric,
        None,
        "Here".to_string(),
        answer(299, "", Ok(hourly(vec!["2023-05-21T10:00"], vec![Some(1.0)]))),
    );
    assert_eq!(good.unwrap().date, target);
}

#[test]
fn a_heading_names_the_event_and_its_date() {
    assert_eq!(heading("Event", "May 21, 00:00"), "🗓️ Event (May 21, 00:00)");
    assert_eq!(heading("", ""), "🗓️  ()");
}

#[test]
fn the_request_for_a_day_names_it_twice() {
    let params = forecast_params_for("2021-05-21", "1", "2", &Units::Metric);
    assert_eq!(params.len(), 9);
    assert_eq!(params[0], ("latitude".to_string(), "1".to_string()));
    assert_eq!(params[1], ("longitude".to_string(), "2".to_string()));
    assert_eq!(params[2], ("start_date".to_string(), "2021-05-21".to_string()));
    assert_eq!(params[3], ("end_date".to_string(), "2021-05-21".to_string()));
    assert_eq!(params[4], ("temperature_unit".to_string(), "celsius".to_string()));
    assert_eq!(params[5], ("windspeed_10m".to_string(), "kmh".to_string()));
    assert_eq!(params[6], ("timezone".to_string(), "auto".to_string()));
    assert_eq!(params[7], ("forecast_days".to_string(), "16".to_string()));
    assert_eq!(params[8].0, "hourly");
}
