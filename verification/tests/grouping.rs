use weathr::backend::{City, Coord, DayKey, ForecastError};
use weathr::display::{WeatherForecast, WeatherSection};
use weathr::grouping::hours_are_of_day;
use weathr::measure::Measure;

fn nowhere() -> City {
    City {
        name: String::from("Nowhere"),
        country: String::from("NA"),
        coord: Coord { lat: Measure::zero(), lon: Measure::zero() },
        sunrise: 0,
        sunset: 0,
        timezone: 0,
    }
}

fn section(tag: &str, hour: u8) -> WeatherSection {
    WeatherSection::new(
        String::from("Mon"),
        hour,
        String::from("2022-06-20 00:00"),
        Measure::zero(),
        Measure::zero(),
        0,
        String::from(tag),
        Measure::zero(),
        0,
        None,
    )
}

fn item(month: u8, day: u8, hour: u8, tag: &str) -> (DayKey, u8, WeatherSection) {
    (DayKey::new(month, day), hour, section(tag, hour))
}

fn tags(forecast: &WeatherForecast, month: u8, day: u8) -> Vec<String> {
    match forecast.sections(&DayKey::new(month, day)) {
        Some(sections) => sections.iter().map(|s| String::from(s.description())).collect(),
        None => Vec::new(),
    }
}

#[test]
fn keys_given_out_of_order_come_out_in_order() {
    let items = vec![item(6, 30, 12, "a"), item(7, 1, 12, "b"), item(6, 29, 12, "c")];
    let forecast = WeatherForecast::group(nowhere(), items, &vec![0, 3]).unwrap();
    assert_eq!(
        forecast.day_keys(),
        vec![DayKey::new(6, 29), DayKey::new(6, 30), DayKey::new(7, 1)]
    );
}

#[test]
fn keys_order_by_number_beyond_the_calendar() {
    let items = vec![
        item(10, 1, 1, "a"),
        item(9, 100, 1, "b"),
        item(9, 20, 1, "c"),
        item(255, 255, 1, "d"),
        item(0, 0, 1, "e"),
        item(2, 1, 1, "f"),
    ];
    let forecast = WeatherForecast::group(nowhere(), items, &Vec::new()).unwrap();
    assert_eq!(
        forecast.day_keys(),
        vec![
            DayKey::new(0, 0),
            DayKey::new(2, 1),
            DayKey::new(9, 20),
            DayKey::new(9, 100),
            DayKey::new(10, 1),
            DayKey::new(255, 255),
        ]
    );
    assert_eq!(forecast.day_count(), 6);
}

#[test]
fn items_of_a_day_stay_in_their_order() {
    let items = vec![
        item(6, 18, 21, "first"),
        item(6, 19, 6, "other day"),
        item(6, 18, 9, "second"),
        item(6, 18, 21, "third"),
        item(6, 19, 5, "other day again"),
        item(6, 18, 9, "fourth"),
    ];
    let forecast = WeatherForecast::group(nowhere(), items, &vec![0, 3]).unwrap();
    assert_eq!(tags(&forecast, 6, 18), vec!["first", "second", "third", "fourth"]);
    assert_eq!(tags(&forecast, 6, 19), vec!["other day", "other day again"]);
    assert_eq!(forecast.day_count(), 2);
}

#[test]
fn items_at_excluded_hours_are_dropped() {
    let items = vec![
        item(6, 18, 0, "midnight"),
        item(6, 18, 1, "one"),
        item(6, 18, 2, "two"),
        item(6, 18, 3, "three"),
        item(6, 18, 4, "four"),
        item(6, 18, 23, "late"),
        item(6, 19, 0, "next midnight"),
        item(6, 19, 3, "next three"),
    ];
    let forecast = WeatherForecast::group(nowhere(), items, &vec![0, 3]).unwrap();
    assert_eq!(tags(&forecast, 6, 18), vec!["one", "two", "four", "late"]);
    assert_eq!(forecast.day_keys(), vec![DayKey::new(6, 18)]);
    assert!(forecast.sections(&DayKey::new(6, 19)).is_none());
}

#[test]
fn equal_items_are_each_kept() {
    let items = vec![item(6, 18, 9, "same"), item(6, 18, 9, "same"), item(6, 18, 9, "same")];
    let forecast = WeatherForecast::group(nowhere(), items, &vec![0, 3]).unwrap();
    assert_eq!(tags(&forecast, 6, 18), vec!["same", "same", "same"]);
}

#[test]
fn the_hour_of_the_item_decides_not_the_hour_of_the_section() {
    let items = vec![
        (DayKey::new(6, 18), 3, section("hidden", 12)),
        (DayKey::new(6, 18), 12, section("shown", 3)),
    ];
    let forecast = WeatherForecast::group(nowhere(), items, &vec![0, 3]).unwrap();
    assert_eq!(tags(&forecast, 6, 18), vec!["shown"]);
}

#[test]
fn grouping_counts_add_up() {
    let mut items = Vec::new();
    let mut dropped = 0;
    for i in 0..500u32 {
        let hour = (i * 7 % 24) as u8;
        if hour == 0 || hour == 3 || hour == 17 {
            dropped += 1;
        }
        items.push(item((i % 12 + 1) as u8, (i % 28 + 1) as u8, hour, "x"));
    }
    let forecast = WeatherForecast::group(nowhere(), items, &vec![0, 3, 17]).unwrap();
    let kept: usize =
        forecast.day_keys().iter().map(|k| forecast.sections(k).unwrap().len()).sum();
    assert_eq!(kept + dropped, 500);
    let keys = forecast.day_keys();
    assert_eq!(keys.len(), forecast.day_count());
    for pair in keys.windows(2) {
        assert!(pair[0].is_before(&pair[1]));
    }
    for key in &keys {
        assert!(!forecast.sections(key).unwrap().is_empty());
    }
}

#[test]
fn grouping_refuses_an_hour_past_the_day() {
    let made = WeatherForecast::group(nowhere(), vec![item(6, 18, 9, "a")], &vec![3, 24]);
    assert_eq!(made.err(), Some(ForecastError::InvalidExclusionConfig));
    let made = WeatherForecast::group(nowhere(), Vec::new(), &vec![200]);
    assert_eq!(made.err(), Some(ForecastError::InvalidExclusionConfig));
}

#[test]
fn grouping_keeps_the_place() {
    let forecast = WeatherForecast::group(nowhere(), Vec::new(), &vec![0, 3]).unwrap();
    assert_eq!(forecast.location().name, "Nowhere");
    assert_eq!(forecast.location().country, "NA");
    assert_eq!(forecast.day_count(), 0);
}

#[test]
fn hours_of_the_day_end_at_twenty_three() {
    assert!(hours_are_of_day(&Vec::new()));
    assert!(hours_are_of_day(&vec![0, 3]));
    assert!(hours_are_of_day(&(0..24).collect()));
    assert!(hours_are_of_day(&vec![23, 23]));
    assert!(!hours_are_of_day(&vec![24]));
    assert!(!hours_are_of_day(&vec![0, 3, 255]));
    assert!(!hours_are_of_day(&vec![100, 3]));
}

#[test]
fn a_section_is_copied_whole() {
    let first = WeatherSection::new(
        String::from("Tue"),
        7,
        String::from("2022-06-21 07:00"),
        Measure::from_bits(1),
        Measure::from_bits(2),
        3,
        String::from("mist"),
        Measure::from_bits(4),
        5,
        Some(Measure::from_bits(6)),
    );
    let copy = first.clone();
    assert_eq!(copy.day_of_week(), "Tue");
    assert_eq!(copy.hour(), 7);
    assert_eq!(copy.datetime(), "2022-06-21 07:00");
    assert_eq!(copy.temp().to_bits(), 1);
    assert_eq!(copy.feels_like().to_bits(), 2);
    assert_eq!(copy.humidity(), 3);
    assert_eq!(copy.description(), "mist");
    assert_eq!(copy.wind_speed().to_bits(), 4);
    assert_eq!(copy.wind_deg(), 5);
    assert_eq!(copy.rain_three_hour(), Some(Measure::from_bits(6)));
    assert_eq!(first.description(), "mist");
}
