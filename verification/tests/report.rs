use chrono::NaiveDateTime;
use wed::error::{Access, Error, Upstream};
use wed::number::Binary64;
use wed::persistence::{SavedEvent, SavedEvents};
use wed::provider::{status_text, Reply};
use wed::report::{collect, forecastable, forecastable_today, list_line, listed, report};
use wed::time::Timestamp;
use wed::units::Units;
use wed::weather::Hourly;
use wed::Event;

fn stamp(text: &str) -> Timestamp {
    let when = NaiveDateTime::parse_from_str(text, "%Y-%m-%d %H:%M:%S").unwrap();
    Timestamp::new(when.and_utc().timestamp(), 0).unwrap()
}

fn saved(name: &str, when: &str) -> SavedEvent {
    SavedEvent {
        name: name.to_string(),
        location: "Place".to_string(),
        latitude: Binary64::from_bits(1.0f64.to_bits()),
        longitude: Binary64::from_bits(2.0f64.to_bits()),
        when: stamp(when),
    }
}

fn event(name: Option<&str>, days: i64) -> Event {
    Event {
        name: name.map(|name| name.to_string()),
        when: stamp("2030-01-01 08:00:00"),
        location: "Place".to_string(),
        latitude: Binary64::from_bits(1.0f64.to_bits()),
        longitude: Binary64::from_bits(2.0f64.to_bits()),
        days,
    }
}

#[test]
fn forecasts_reach_sixteen_days_ahead() {
    assert!(!event(None, -1).has_weather_forcast());
    assert!(event(None, 0).has_weather_forcast());
    assert!(event(None, 15).has_weather_forcast());
    assert!(!event(None, 16).has_weather_forcast());
    assert!(!event(None, i64::MIN).has_weather_forcast());
    assert!(!event(None, i64::MAX).has_weather_forcast());
}

#[test]
fn an_event_without_forecast_gets_a_notice() {
    assert_eq!(event(Some("Party"), 3).skip_notice(), None);
    assert_eq!(
        event(Some("Party"), -3).skip_notice().unwrap(),
        "Skipping weather forecast for Party since it was 3 days ago."
    );
    assert_eq!(
        event(None, -3).skip_notice().unwrap(),
        "Skipping weather forecast for 3 days ago."
    );
    assert_eq!(
        event(Some("Party"), 16).skip_notice().unwrap(),
        "Skipping weather forecast for Party since it is 16 days in the future."
    );
    assert_eq!(
        event(None, 400).skip_notice().unwrap(),
        "Skipping weather forecast for 400 days in the future."
    );
    assert_eq!(
        event(None, i64::MIN).skip_notice().unwrap(),
        "Skipping weather forecast for 9223372036854775808 days ago."
    );
}

#[test]
fn only_events_within_reach_get_a_forecast() {
    let now = stamp("2030-01-10 12:00:00");
    let mut store = SavedEvents::new();
    store.add(saved("past", "2030-01-09 11:00:00"));
    store.add(saved("today", "2030-01-10 08:00:00"));
    store.add(saved("far", "2030-01-26 12:00:00"));
    store.add(saved("soon", "2030-01-26 11:59:59"));
    store.add(saved("next", "2030-01-11 12:00:00"));
    let events = forecastable(&store, &now);
    let names: Vec<_> = events.iter().map(|event| event.name.clone().unwrap()).collect();
    assert_eq!(names, vec!["today", "soon", "next"]);
    let days: Vec<_> = events.iter().map(|event| event.days).collect();
    assert_eq!(days, vec![0, 15, 1]);
    assert!(forecastable(&SavedEvents::new(), &now).is_empty());
}

#[test]
fn an_event_is_made_at_a_moment() {
    let made = Event::at(
        Some("Party".to_string()),
        stamp("2030-01-12 08:00:00"),
        "Place".to_string(),
        Binary64::from_bits(1),
        Binary64::from_bits(2),
        &stamp("2030-01-10 12:00:00"),
    );
    assert_eq!(made.days, 1);
    assert_eq!(made.name, Some("Party".to_string()));
    assert_eq!(made.when, stamp("2030-01-12 08:00:00"));
    assert_eq!(made.location, "Place");
    assert_eq!(made.latitude.to_bits(), 1);
    assert_eq!(made.longitude.to_bits(), 2);
}

#[test]
fn a_new_event_counts_from_the_present() {
    let made = Event::new(
        None,
        "1999-01-12 08:00".to_string(),
        "Place".to_string(),
        Binary64::from_bits(1),
        Binary64::from_bits(2),
    )
    .unwrap();
    assert!(made.days < -9000);
    assert_eq!(made.when, stamp("1999-01-12 08:00:00"));
    assert!(!made.has_weather_forcast());
    let failed = Event::new(
        None,
        "1999-01-12".to_string(),
        "Place".to_string(),
        Binary64::from_bits(1),
        Binary64::from_bits(2),
    );
    assert_eq!(
        failed.unwrap_err(),
        Error::InvalidTimestamp {
            format: "%Y-%m-%d %H:%M".to_string(),
            value: "1999-01-12".to_string(),
        }
    );
}

#[test]
fn the_weather_of_an_event_comes_from_the_answer() {
    let party = event(Some("Party"), 3);
    let answer = Reply::Answered {
        url: "https://example.net/".to_string(),
        status: 200,
        body: String::new(),
        parsed: Ok(Hourly {
            time: vec!["2030-01-01T08:00".to_string()],
            temperature_2m: vec![Some(Binary64::from_bits(1.0f64.to_bits()))],
            apparent_temperature: vec![Some(Binary64::from_bits(2.0f64.to_bits()))],
            relativehumidity_2m: vec![Some(3)],
            precipitation_probability: vec![Some(4)],
            windspeed_10m: vec![Some(Binary64::from_bits(5.0f64.to_bits()))],
            winddirection_10m: vec![Some(6)],
            weathercode: vec![Some(71)],
        }),
    };
    let shown = party.weather(&Units::Metric, answer).unwrap();
    assert_eq!(shown.name, Some("Party".to_string()));
    assert_eq!(shown.location, "Place");
    assert_eq!(shown.icon, "🌨️");
    assert_eq!(shown.date, stamp("2030-01-01 08:00:00"));
    assert_eq!(
        party
            .weather(&Units::Metric, Reply::Unreachable { cause: "no route".to_string() })
            .unwrap_err(),
        Error::ForecastFetchFailed(Upstream::Transport("no route".to_string()))
    );
}

#[test]
fn one_failure_fails_the_lot() {
    let all = collect::<Error>(vec![Ok("a".to_string()), Ok("b".to_string())]);
    assert_eq!(all, Ok(vec!["a".to_string(), "b".to_string()]));
    let failed = collect(vec![
        Ok("a".to_string()),
        Err(Error::NoWeatherDataFound),
        Ok("c".to_string()),
        Err(Error::EventNameRequired),
    ]);
    assert_eq!(failed, Err(Error::NoWeatherDataFound));
    assert_eq!(collect::<Error>(vec![]), Ok(vec![]));
    assert_eq!(collect(vec![Err(7), Err(8)]), Err(7));
}

#[test]
fn forecasts_are_put_together() {
    let forecasts = vec!["{\"a\":1}".to_string(), "{\"b\":2}".to_string(), "{}".to_string()];
    assert_eq!(report(&forecasts, true).unwrap(), "[{\"a\":1},{\"b\":2},{}]");
    assert_eq!(report(&forecasts, false).unwrap(), "{\"a\":1}\n\n{\"b\":2}\n\n{}");
    assert_eq!(report(&vec!["one".to_string()], true).unwrap(), "[one]");
    assert_eq!(report(&vec!["one".to_string()], false).unwrap(), "one");
    assert_eq!(report(&vec![], true), None);
    assert_eq!(report(&vec![], false), None);
}

#[test]
fn a_saved_event_is_listed_with_date_name_and_place() {
    assert_eq!(list_line(&saved("Party", "2030-01-26 11:59:59")), "2030-01-26 11:59 Party, Place");
    assert_eq!(listed("a date", "a name", "a place"), "a date a name, a place");
}

#[test]
fn events_long_past_get_no_forecast_today() {
    let mut store = SavedEvents::new();
    store.add(saved("past", "1999-01-09 11:00:00"));
    assert!(forecastable_today(&store).is_empty());
}

#[test]
fn errors_are_told_in_words() {
    assert_eq!(Error::NoWeatherDataFound.to_string(), "No weather data found");
    assert_eq!(Error::UnknownWeatherCode(-1).to_string(), "Unknown weather code: -1");
    assert_eq!(
        Error::GeocodingFailed(Upstream::NoResults("Atlantis".to_string())).to_string(),
        "No latitude/longitude found for Atlantis"
    );
    assert_eq!(
        Error::GeocodingFailed(Upstream::Malformed {
            url: "https://example.net/".to_string(),
            cause: "expected value at line 1".to_string(),
        })
        .to_string(),
        "expected value at line 1"
    );
    assert_eq!(
        Error::ForecastFetchFailed(Upstream::Status {
            url: "https://example.net/".to_string(),
            status: 503,
            body: "try later".to_string(),
        })
        .to_string(),
        "HTTP request to https://example.net/ returned 503 Service Unavailable: try later"
    );
    assert_eq!(
        Upstream::Status { url: "u".to_string(), status: 299, body: String::new() }.to_string(),
        "HTTP request to u returned 299 <unknown status code>: "
    );
    assert_eq!(
        Upstream::Status { url: "u".to_string(), status: 7, body: "b".to_string() }.to_string(),
        "HTTP request to u returned 7 <unknown status code>: b"
    );
    assert_eq!(
        Error::ForecastFetchFailed(Upstream::Transport("connection reset".to_string())).to_string(),
        "connection reset"
    );
    assert_eq!(
        Error::ForecastParseFailed { url: "u".to_string(), cause: "c".to_string() }.to_string(),
        "Failed to parse response JSON body from u: c"
    );
    assert_eq!(
        Error::InvalidTimestamp { format: "%Y-%m-%d %H:%M".to_string(), value: "soon".to_string() }
            .to_string(),
        "Failed to parse date and time, it should be in the format %Y-%m-%d %H:%M: soon"
    );
    assert_eq!(
        Error::EventStoreIOError { access: Access::Failed, cause: "Permission denied".to_string() }
            .to_string(),
        "Permission denied"
    );
    assert_eq!(Error::EventStoreCorrupt("EOF while parsing".to_string()).to_string(), "EOF while parsing");
    assert_eq!(Error::EventNameRequired.to_string(), "Cannot create an event without a name");
}

#[test]
fn a_status_is_written_with_its_phrase() {
    assert_eq!(status_text(404, Some("Not Found")), "404 Not Found");
    assert_eq!(status_text(0, None), "0 <unknown status code>");
    assert_eq!(status_text(65535, Some("")), "65535 ");
}

fn reply(status: u16, parsed: Result<u8, String>) -> Reply<u8> {
    Reply::Answered { url: "u".to_string(), status, body: "b".to_string(), parsed }
}

#[test]
fn an_answer_is_good_from_200_to_299() {
    let refused = |status: u16| {
        Err(Upstream::Status { url: "u".to_string(), status, body: "b".to_string() })
    };
    assert_eq!(reply(200, Ok(1)).content(), Ok(1));
    assert_eq!(reply(299, Ok(1)).content(), Ok(1));
    assert_eq!(reply(199, Ok(1)).content(), refused(199));
    assert_eq!(reply(300, Ok(1)).content(), refused(300));
    assert_eq!(reply(300, Err("c".to_string())).content(), refused(300));
    assert_eq!(
        reply(204, Err("c".to_string())).content(),
        Err(Upstream::Malformed { url: "u".to_string(), cause: "c".to_string() })
    );
    assert_eq!(
        Reply::<u8>::Unreachable { cause: "c".to_string() }.content(),
        Err(Upstream::Transport("c".to_string()))
    );
}
