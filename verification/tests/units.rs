use wed::units::Units;

#[test]
fn units_test_units_temperature_metric() {
    let units = Units::Metric;
    assert_eq!(units.temperature(), "celsius");
}

#[test]
fn units_test_units_temperature_imperial() {
    let units = Units::Imperial;
    assert_eq!(units.temperature(), "fahrenheit");
}

#[test]
fn units_test_units_speed_metric() {
    let units = Units::Metric;
    assert_eq!(units.speed(), "kmh");
}

#[test]
fn units_test_units_speed_imperial() {
    let units = Units::Imperial;
    assert_eq!(units.speed(), "mph");
}

#[test]
fn forecast_test_units_temperature_metric() {
    let units = Units::Metric;
    assert_eq!(units.temperature(), "celsius");
}

#[test]
fn forecast_test_units_temperature_imperial() {
    let units = Units::Imperial;
    assert_eq!(units.temperature(), "fahrenheit");
}

#[test]
fn forecast_test_units_speed_metric() {
    let units = Units::Metric;
    assert_eq!(units.speed(), "kmh");
}

#[test]
fn forecast_test_units_speed_imperial() {
    let units = Units::Imperial;
    assert_eq!(units.speed(), "mph");
}

#[test]
fn display_symbols() {
    assert_eq!(Units::Metric.temperature_display(), "C");
    assert_eq!(Units::Imperial.temperature_display(), "F");
    assert_eq!(Units::Metric.speed_display(), "km/h");
    assert_eq!(Units::Imperial.speed_display(), "mph");
}
