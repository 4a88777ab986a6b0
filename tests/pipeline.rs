use weather_tui::event_loop::{
    handle_events, is_quit_event, next_state, should_draw, InputEvent, KeyCode, KeyKind, LoopState,
    POLL_TIMEOUT_MS,
};
use weather_tui::forecast::{lookup, DailyEntry, Date, Forecast, Measurement};
use weather_tui::series::{
    axis_range, chart_points, date_labels, extract, extract_temperature_data, tick_labels,
    tick_values, value_bounds, AXIS_MARGIN,
};
use weather_tui::text::{push_int_text, push_nat_text, push_two_digits};
use weather_tui::view::{plan_view, ViewMode};
use weather_tui::weather::{
    location_from_args, Coordinate, CurrentUnits, ForecastRequest, TemperatureUnit,
    DEFAULT_LAT_MICRO, DEFAULT_LON_MICRO, FORECAST_DAYS,
};

fn hundredths(x: f64) -> i32 {
    (x * 100.0).round() as i32
}

fn date(y: i32, m: u8, d: u8) -> Date {
    Date::new(y, m, d).unwrap()
}

fn reading(value: Option<i32>) -> Measurement {
    Measurement { unit: Some("°F".to_string()), value }
}

fn day(d: Date, values: Vec<(&str, Option<i32>)>) -> DailyEntry {
    DailyEntry {
        date: d,
        values: values.into_iter().map(|(k, v)| (k.to_string(), reading(v))).collect(),
    }
}

fn two_day_forecast() -> Forecast {
    Forecast {
        daily: Some(vec![
            day(date(2024, 8, 2), vec![("temperature_2m_max", Some(hundredths(82.76)))]),
            day(date(2024, 8, 3), vec![("temperature_2m_max", Some(hundredths(75.2)))]),
        ]),
    }
}

#[test]
fn test_extract_temperature_data() {
    let forecast = two_day_forecast();
    let expected = vec![
        (date(2024, 8, 2), hundredths(82.76)),
        (date(2024, 8, 3), hundredths(75.2)),
    ];
    let result = extract_temperature_data(&forecast);
    assert_eq!(result, expected);
}

#[test]
fn two_days_give_labels_and_padded_bounds() {
    let series = extract_temperature_data(&two_day_forecast());
    assert_eq!(series, vec![(date(2024, 8, 2), 8276), (date(2024, 8, 3), 7520)]);
    assert_eq!(date_labels(&series), vec!["08/02".to_string(), "08/03".to_string()]);
    assert_eq!(axis_range(&series), (7020, 8776));
}

#[test]
fn missing_daily_section_shows_placeholder() {
    let forecast = Forecast { daily: None };
    assert!(extract_temperature_data(&forecast).is_empty());
    assert!(matches!(plan_view(&forecast), ViewMode::NoData));
}

#[test]
fn no_daily_entries_give_empty_series() {
    let forecast = Forecast { daily: Some(vec![]) };
    assert!(extract(&forecast, "temperature_2m_max").is_empty());
    assert!(matches!(plan_view(&forecast), ViewMode::NoData));
}

#[test]
fn missing_field_gives_zero_in_place() {
    let forecast = Forecast {
        daily: Some(vec![
            day(date(2024, 8, 2), vec![("temperature_2m_max", Some(8276))]),
            day(date(2024, 8, 3), vec![("temperature_2m_min", Some(6100))]),
            day(date(2024, 8, 4), vec![("temperature_2m_max", None)]),
            day(date(2024, 8, 5), vec![("temperature_2m_max", Some(-350))]),
        ]),
    };
    let series = extract_temperature_data(&forecast);
    assert_eq!(
        series,
        vec![
            (date(2024, 8, 2), 8276),
            (date(2024, 8, 3), 0),
            (date(2024, 8, 4), 0),
            (date(2024, 8, 5), -350),
        ]
    );
    assert_eq!(extract(&forecast, "temperature_2m_min")[1], (date(2024, 8, 3), 6100));
}

#[test]
fn extracting_twice_gives_same_series() {
    let forecast = two_day_forecast();
    assert_eq!(extract_temperature_data(&forecast), extract_temperature_data(&forecast));
    assert_eq!(extract(&forecast, "x"), extract(&forecast, "x"));
}

#[test]
fn lookup_takes_first_entry_with_name() {
    let values = day(date(2024, 1, 1), vec![("a", Some(1)), ("b", Some(2)), ("b", Some(3))]).values;
    assert_eq!(lookup(&values, "b"), Some(2));
    assert_eq!(lookup(&values, "a"), Some(1));
    assert_eq!(lookup(&values, "c"), None);
}

#[test]
fn axis_range_encloses_values() {
    let series = vec![
        (date(2024, 1, 1), -1200),
        (date(2024, 1, 2), 300),
        (date(2024, 1, 3), -4000),
        (date(2024, 1, 4), 250),
    ];
    assert_eq!(value_bounds(&series), (-4000, 300));
    let (lo, hi) = axis_range(&series);
    assert_eq!((lo, hi), (-4000 - AXIS_MARGIN, 300 + AXIS_MARGIN));
    assert!(lo < hi);
    for (_, v) in &series {
        assert!(lo + AXIS_MARGIN <= *v as i64 && *v as i64 <= hi - AXIS_MARGIN);
    }
}

#[test]
fn single_point_range() {
    let series = vec![(date(2024, 1, 1), 1000)];
    assert_eq!(axis_range(&series), (500, 1500));
}

#[test]
fn ticks_every_five_units() {
    assert_eq!(tick_values(7020, 8776), vec![70, 75, 80, 85]);
    assert_eq!(tick_values(-1250, -250), vec![-12, -7, -2]);
    assert_eq!(tick_values(-99, 99), vec![0]);
    assert_eq!(tick_values(500, 1000), vec![5, 10]);
}

#[test]
fn tick_labels_carry_unit() {
    let labels = tick_labels(&vec![70, -7, 0, 105], "°F");
    assert_eq!(labels, vec!["70°F", "-7°F", "0°F", "105°F"]);
}

#[test]
fn decimal_text() {
    let mut s = String::from("x");
    push_int_text(&mut s, i64::MIN);
    assert_eq!(s, format!("x{}", i64::MIN));
    let mut t = String::new();
    push_nat_text(&mut t, 1200340);
    assert_eq!(t, "1200340");
    let mut u = String::new();
    push_two_digits(&mut u, 7);
    assert_eq!(u, "07");
}

#[test]
fn month_day_labels() {
    assert_eq!(date(2024, 12, 31).month_day_label(), "12/31");
    assert_eq!(date(1999, 1, 5).month_day_label(), "01/05");
    assert!(Date::new(2024, 13, 1).is_none());
    assert!(Date::new(2024, 0, 1).is_none());
    assert!(Date::new(2024, 2, 0).is_none());
}

#[test]
fn chart_for_two_days() {
    let view = plan_view(&two_day_forecast());
    match view {
        ViewMode::Chart(c) => {
            assert_eq!(c.points, vec![(0, 8276), (1, 7520)]);
            assert_eq!(c.x_labels, vec!["08/02", "08/03"]);
            assert_eq!(c.x_max, 2);
            assert_eq!((c.y_min, c.y_max), (7020, 8776));
            assert_eq!(c.y_labels, vec!["70°F", "75°F", "80°F", "85°F"]);
        }
        ViewMode::NoData => panic!("expected a chart"),
    }
}

#[test]
fn chart_points_by_position() {
    let series = vec![(date(2024, 1, 1), 5), (date(2024, 1, 2), -5)];
    assert_eq!(chart_points(&series), vec![(0, 5), (1, -5)]);
}

#[test]
fn quit_key_press_ends_loop() {
    let q = InputEvent::Key { code: KeyCode::Char('q'), kind: KeyKind::Press };
    assert!(is_quit_event(&q));
    assert!(handle_events(Some(q)));
    assert_eq!(next_state(LoopState::Running, Some(q)), LoopState::Terminating);
    assert!(!should_draw(LoopState::Terminating));
    assert_eq!(next_state(LoopState::Terminating, None), LoopState::Terminating);
}

#[test]
fn other_events_keep_loop_running() {
    let release = InputEvent::Key { code: KeyCode::Char('q'), kind: KeyKind::Release };
    let other_key = InputEvent::Key { code: KeyCode::Char('x'), kind: KeyKind::Press };
    let special = InputEvent::Key { code: KeyCode::Other, kind: KeyKind::Press };
    for polled in [None, Some(release), Some(other_key), Some(special), Some(InputEvent::Other)] {
        assert!(!handle_events(polled));
        assert_eq!(next_state(LoopState::Running, polled), LoopState::Running);
    }
    assert!(should_draw(LoopState::Running));
    assert_eq!(POLL_TIMEOUT_MS, 50);
}

#[test]
fn location_defaults() {
    let c = location_from_args(None, None);
    assert_eq!((c.lat_micro, c.lon_micro), (DEFAULT_LAT_MICRO, DEFAULT_LON_MICRO));
    let c = location_from_args(Some(51_500000), Some(-120_000));
    assert_eq!((c.lat_micro, c.lon_micro), (51_500000, -120_000));
    let c = location_from_args(Some(91_000000), Some(181_000000));
    assert_eq!((c.lat_micro, c.lon_micro), (DEFAULT_LAT_MICRO, DEFAULT_LON_MICRO));
    assert!(Coordinate::new(90_000000, -180_000000).is_some());
    assert!(Coordinate::new(-90_000001, 0).is_none());
}

#[test]
fn request_for_daily_highs() {
    let loc = Coordinate::new(40712800, -74006000).unwrap();
    let r = ForecastRequest::daily_high_temperatures(loc);
    assert_eq!(r.location, loc);
    assert_eq!(r.daily, vec!["temperature_2m_max".to_string()]);
    assert_eq!(r.temperature_unit, TemperatureUnit::Fahrenheit);
    assert_eq!(r.forecast_days, FORECAST_DAYS);
}

#[test]
fn current_units_hold_strings() {
    let u = CurrentUnits {
        time: "iso8601".to_string(),
        interval: "seconds".to_string(),
        temperature_2m: "°F".to_string(),
        wind_speed_10m: "km/h".to_string(),
    };
    assert_eq!(u.temperature_2m, "°F");
}
