use chrono::NaiveDateTime;
use wed::error::{Error, Upstream};
use wed::geo::{coordinates, coordinates_from_saved_events, lookup, search_url, Location, Lookup};
use wed::number::Binary64;
use wed::persistence::{SavedEvent, SavedEvents};
use wed::provider::Reply;
use wed::time::Timestamp;

fn number(value: f64) -> Binary64 {
    Binary64::from_bits(value.to_bits())
}

fn saved(name: &str, location: &str, latitude: f64) -> SavedEvent {
    let when = NaiveDateTime::parse_from_str("2030-01-01 08:00:00", "%Y-%m-%d %H:%M:%S").unwrap();
    SavedEvent {
        name: name.to_string(),
        location: location.to_string(),
        latitude: number(latitude),
        longitude: number(-latitude),
        when: Timestamp::new(when.and_utc().timestamp(), 0).unwrap(),
    }
}

fn bits(pair: Option<(Binary64, Binary64)>) -> Option<(u64, u64)> {
    pair.map(|(latitude, longitude)| (latitude.to_bits(), longitude.to_bits()))
}

fn answer(status: u16, body: &str, parsed: Result<Vec<Location>, String>) -> Reply<Vec<Location>> {
    Reply::Answered {
        url: "https://example.net/search?q=x".to_string(),
        status,
        body: body.to_string(),
        parsed,
    }
}

#[test]
fn a_place_unknown_to_the_geocoder_fails() {
    let failed = coordinates("Unknown Place Xyz123", answer(200, "[]", Ok(vec![]))).unwrap_err();
    assert_eq!(
        failed,
        Error::GeocodingFailed(Upstream::NoResults("Unknown Place Xyz123".to_string()))
    );
    assert_eq!(failed.to_string(), "No latitude/longitude found for Unknown Place Xyz123");
}

#[test]
fn the_first_match_gives_the_coordinates() {
    let reply = answer(
        200,
        "",
        Ok(vec![
            Location { lat: Ok(number(1.5)), lon: Ok(number(2.5)) },
            Location { lat: Ok(number(3.5)), lon: Err("invalid float literal".to_string()) },
        ]),
    );
    let (latitude, longitude) = coordinates("x", reply).unwrap();
    assert_eq!(latitude.to_bits(), 1.5f64.to_bits());
    assert_eq!(longitude.to_bits(), 2.5f64.to_bits());
}

#[test]
fn an_answer_without_coordinates_fails() {
    let unreachable = coordinates("x", Reply::Unreachable { cause: "timed out".to_string() });
    assert_eq!(
        unreachable.unwrap_err(),
        Error::GeocodingFailed(Upstream::Transport("timed out".to_string()))
    );
    let refused = coordinates("x", answer(404, "nothing here", Ok(vec![]))).unwrap_err();
    assert_eq!(
        refused,
        Error::GeocodingFailed(Upstream::Status {
            url: "https://example.net/search?q=x".to_string(),
            status: 404,
            body: "nothing here".to_string(),
        })
    );
    assert_eq!(
        refused.to_string(),
        "HTTP request to https://example.net/search?q=x returned 404 Not Found: nothing here"
    );
    let unread = coordinates("x", answer(200, "<html>", Err("expected value".to_string())));
    assert_eq!(
        unread.unwrap_err(),
        Error::GeocodingFailed(Upstream::Malformed {
            url: "https://example.net/search?q=x".to_string(),
            cause: "expected value".to_string(),
        })
    );
    let half = answer(
        200,
        "",
        Ok(vec![
            Location { lat: Ok(number(1.5)), lon: Err("invalid float literal".to_string()) },
            Location { lat: Ok(number(3.5)), lon: Ok(number(4.5)) },
        ]),
    );
    let failed = coordinates("x", half).unwrap_err();
    assert_eq!(failed.to_string(), "invalid float literal");
    let neither = answer(
        200,
        "",
        Ok(vec![Location {
            lat: Err("cannot parse float from empty string".to_string()),
            lon: Err("invalid float literal".to_string()),
        }]),
    );
    assert_eq!(
        coordinates("x", neither).unwrap_err(),
        Error::GeocodingFailed(Upstream::Malformed {
            url: "https://example.net/search?q=x".to_string(),
            cause: "cannot parse float from empty string".to_string(),
        })
    );
}

#[test]
fn a_saved_place_needs_no_geocoder() {
    let mut store = SavedEvents::new();
    store.add(saved("a", "Paris", 1.0));
    store.add(saved("b", "Berlin", 2.0));
    store.add(saved("c", "Berlin", 3.0));
    assert_eq!(
        bits(coordinates_from_saved_events("Berlin", &store)),
        Some((2.0f64.to_bits(), (-2.0f64).to_bits()))
    );
    assert_eq!(
        bits(coordinates_from_saved_events("Paris", &store)),
        Some((1.0f64.to_bits(), (-1.0f64).to_bits()))
    );
    assert_eq!(bits(coordinates_from_saved_events("berlin", &store)), None);
    assert_eq!(bits(coordinates_from_saved_events("Berlin ", &store)), None);
    assert_eq!(bits(coordinates_from_saved_events("Berlin", &SavedEvents::new())), None);
}

#[test]
fn the_geocoder_is_asked_for_the_place_as_typed() {
    assert_eq!(
        search_url("Unknown Place Xyz123"),
        "https://nominatim.openstreetmap.org/search.php?format=jsonv2&q=Unknown Place Xyz123"
    );
}

#[test]
fn the_store_is_looked_through_before_the_geocoder_is_asked() {
    let mut store = SavedEvents::new();
    store.add(saved("a", "Paris", 1.0));
    match lookup("Paris", &store) {
        Lookup::Known(latitude, longitude) => {
            assert_eq!(latitude.to_bits(), 1.0f64.to_bits());
            assert_eq!(longitude.to_bits(), (-1.0f64).to_bits());
        }
        Lookup::Ask(_) => panic!("the place is in the store"),
    }
    match lookup("Rome", &store) {
        Lookup::Known(..) => panic!("the place is not in the store"),
        Lookup::Ask(url) => assert_eq!(
            url,
            "https://nominatim.openstreetmap.org/search.php?format=jsonv2&q=Rome"
        ),
    }
}
