use weathr::backend::{
    City, Coord, DayKey, Description, ForecastError, Rain, Temperature, WeatherData, WeatherList,
    Wind,
};
use weathr::display::{TableLine, WeatherForecast, WeatherSection, COLUMN_HEADING};
use weathr::measure::Measure;

const JUNE_18_MIDNIGHT: u64 = 1655510400;
const HOUR: u64 = 3600;
const DAY: u64 = 86400;

fn reading(x: f32) -> Measure {
    Measure::from_bits(x.to_bits())
}

fn number(m: Measure) -> f32 {
    f32::from_bits(m.to_bits())
}

fn described(dt: u64, words: &[&str]) -> WeatherData {
    WeatherData {
        datetime: dt,
        main: Temperature { temp: reading(70.5), feels_like: reading(69.25), humidity: 55 },
        weather: words
            .iter()
            .map(|w| Description { main: String::from("Clouds"), description: String::from(*w) })
            .collect(),
        wind: Wind { speed: reading(4.5), deg: 7 },
        rain: None,
    }
}

fn at(dt: u64) -> WeatherData {
    described(dt, &["few clouds"])
}

fn london() -> City {
    City {
        name: String::from("London"),
        country: String::from("GB"),
        coord: Coord { lat: reading(51.5085), lon: reading(-0.1257) },
        sunrise: 1655523780,
        sunset: 1655583660,
        timezone: 3600,
    }
}

fn response(list: Vec<WeatherData>) -> WeatherList {
    WeatherList { cod: String::from("200"), list, city: london() }
}

fn hours_on(forecast: &WeatherForecast, key: DayKey) -> Vec<u8> {
    match forecast.sections(&key) {
        Some(sections) => sections.iter().map(WeatherSection::hour).collect(),
        None => Vec::new(),
    }
}

fn total_sections(forecast: &WeatherForecast) -> usize {
    forecast.day_keys().iter().map(|key| forecast.sections(key).unwrap().len()).sum()
}

#[test]
fn end_to_end_two_samples_of_one_day() {
    let first = WeatherData {
        datetime: 1655575200,
        main: Temperature { temp: reading(91.0), feels_like: reading(89.5), humidity: 33 },
        weather: vec![Description {
            main: String::from("Clouds"),
            description: String::from("scattered clouds"),
        }],
        wind: Wind { speed: reading(18.0), deg: 40 },
        rain: None,
    };
    let second = WeatherData {
        datetime: 1655586000,
        main: Temperature { temp: reading(92.41), feels_like: reading(90.88), humidity: 30 },
        weather: vec![
            Description { main: String::from("Rain"), description: String::from("light rain") },
            Description { main: String::from("Mist"), description: String::from("mist") },
        ],
        wind: Wind { speed: reading(21.43), deg: 236 },
        rain: Some(Rain { three_hour: reading(0.22) }),
    };
    let forecast = response(vec![first, second]).transform().unwrap();

    assert_eq!(forecast.day_keys(), vec![DayKey::new(6, 18)]);
    assert_eq!(forecast.day_count(), 1);
    assert_eq!(forecast.day_keys()[0].to_string(), "06-18");
    let sections = forecast.sections(&DayKey::new(6, 18)).unwrap();
    assert_eq!(sections.len(), 2);

    let early = &sections[0];
    assert_eq!(early.hour(), 18);
    assert_eq!(early.day_of_week(), "Sat");
    assert_eq!(early.datetime(), "2022-06-18 18:00");
    assert_eq!(early.description(), "scattered clouds");
    assert_eq!(early.rain_three_hour(), None);
    assert_eq!(early.humidity(), 33);
    assert_eq!(early.wind_deg(), 40);
    assert_eq!(number(early.temp()), 91.0);

    let late = &sections[1];
    assert_eq!(late.hour(), 21);
    assert_eq!(late.day_of_week(), "Sat");
    assert_eq!(late.datetime(), "2022-06-18 21:00");
    assert_eq!(number(late.temp()), 92.41);
    assert_eq!(number(late.feels_like()), 90.88);
    assert_eq!(late.humidity(), 30);
    assert_eq!(late.description(), "light rain");
    assert_eq!(number(late.wind_speed()), 21.43);
    assert_eq!(late.wind_deg(), 236);
    assert_eq!(late.rain_three_hour().map(number), Some(0.22));

    assert_eq!(forecast.location().name, "London");
    assert_eq!(forecast.location().country, "GB");
    assert_eq!(forecast.location().sunrise, 1655523780);
    assert_eq!(forecast.location().sunset, 1655583660);
    assert_eq!(forecast.location().timezone, 3600);
    assert_eq!(number(forecast.location().coord.lat), 51.5085);
    assert_eq!(number(forecast.location().coord.lon), -0.1257);
}

#[test]
fn input_order_is_kept_within_a_day() {
    let list = vec![at(1655586000), at(1655575200), at(1655586000 + HOUR)];
    let forecast = response(list).transform().unwrap();
    assert_eq!(hours_on(&forecast, DayKey::new(6, 18)), vec![21, 18, 22]);
}

#[test]
fn days_come_in_calendar_order() {
    let june_29 = JUNE_18_MIDNIGHT + 11 * DAY + 12 * HOUR;
    let list = vec![at(june_29 + DAY), at(june_29 + 2 * DAY), at(june_29)];
    let forecast = response(list).transform().unwrap();
    assert_eq!(
        forecast.day_keys(),
        vec![DayKey::new(6, 29), DayKey::new(6, 30), DayKey::new(7, 1)]
    );
    assert_eq!(forecast.day_count(), 3);
}

#[test]
fn days_across_a_month_boundary_come_in_calendar_order() {
    let march_1_2022: u64 = 1646092800;
    let mut list = Vec::new();
    for day in [2u64, 0, 3, 1] {
        list.push(at(march_1_2022 + day * DAY + 6 * HOUR));
    }
    for day in [1u64, 3, 2] {
        list.push(at(march_1_2022 - day * DAY + 6 * HOUR));
    }
    let forecast = response(list).transform().unwrap();
    let keys = forecast.day_keys();
    assert_eq!(
        keys,
        vec![
            DayKey::new(2, 26),
            DayKey::new(2, 27),
            DayKey::new(2, 28),
            DayKey::new(3, 1),
            DayKey::new(3, 2),
            DayKey::new(3, 3),
            DayKey::new(3, 4),
        ]
    );
    for pair in keys.windows(2) {
        assert!(pair[0] < pair[1]);
    }
}

#[test]
fn a_window_over_new_year_sorts_january_first() {
    let dec_31_2021: u64 = 1640908800;
    let list = vec![at(dec_31_2021 + 12 * HOUR), at(dec_31_2021 + DAY + 12 * HOUR)];
    let forecast = response(list).transform().unwrap();
    assert_eq!(forecast.day_keys(), vec![DayKey::new(1, 1), DayKey::new(12, 31)]);
}

#[test]
fn same_day_of_different_years_is_one_day() {
    let list = vec![at(1655586000), at(1655586000 + 365 * DAY)];
    let forecast = response(list).transform().unwrap();
    assert_eq!(forecast.day_keys(), vec![DayKey::new(6, 18)]);
    let sections = forecast.sections(&DayKey::new(6, 18)).unwrap();
    assert_eq!(sections[0].datetime(), "2022-06-18 21:00");
    assert_eq!(sections[1].datetime(), "2023-06-18 21:00");
}

#[test]
fn samples_at_midnight_and_three_are_left_out() {
    let list: Vec<WeatherData> = (0..24).map(|h| at(JUNE_18_MIDNIGHT + h * HOUR)).collect();
    let forecast = response(list).transform().unwrap();
    let kept = hours_on(&forecast, DayKey::new(6, 18));
    let expected: Vec<u8> = (0..24u8).filter(|h| *h != 0 && *h != 3).collect();
    assert_eq!(kept, expected);
    assert_eq!(forecast.day_keys(), vec![DayKey::new(6, 18)]);
}

#[test]
fn hour_three_is_out_and_hour_four_is_in() {
    let three = JUNE_18_MIDNIGHT + 3 * HOUR;
    let list = vec![at(three), at(three + HOUR), at(three - 1), at(three + HOUR - 1)];
    let forecast = response(list).transform().unwrap();
    let sections = forecast.sections(&DayKey::new(6, 18)).unwrap();
    let stamps: Vec<&str> = sections.iter().map(WeatherSection::datetime).collect();
    assert_eq!(stamps, vec!["2022-06-18 04:00", "2022-06-18 02:59"]);
}

#[test]
fn a_sample_within_an_excluded_hour_is_left_out() {
    let list = vec![at(JUNE_18_MIDNIGHT + 59 * 60 + 59), at(JUNE_18_MIDNIGHT + HOUR)];
    let forecast = response(list).transform().unwrap();
    assert_eq!(hours_on(&forecast, DayKey::new(6, 18)), vec![1]);
}

#[test]
fn a_day_of_excluded_samples_does_not_appear() {
    let list = vec![
        at(JUNE_18_MIDNIGHT),
        at(JUNE_18_MIDNIGHT + 3 * HOUR),
        at(JUNE_18_MIDNIGHT + DAY + 6 * HOUR),
    ];
    let forecast = response(list).transform().unwrap();
    assert_eq!(forecast.day_keys(), vec![DayKey::new(6, 19)]);
    assert!(forecast.sections(&DayKey::new(6, 18)).is_none());
    assert!(forecast.sections(&DayKey::new(6, 19)).is_some());
}

#[test]
fn an_empty_list_gives_an_empty_forecast() {
    let forecast = response(Vec::new()).transform().unwrap();
    assert_eq!(forecast.day_keys(), Vec::<DayKey>::new());
    assert_eq!(forecast.day_count(), 0);
    assert!(forecast.sections(&DayKey::new(6, 18)).is_none());
    assert_eq!(forecast.location().name, "London");
}

#[test]
fn every_sample_is_kept_or_excluded() {
    let list: Vec<WeatherData> = (0..40).map(|i| at(JUNE_18_MIDNIGHT + i * 3 * HOUR)).collect();
    let total = list.len();
    let excluded = list
        .iter()
        .filter(|s| {
            let hour = (s.datetime % DAY) / HOUR;
            hour == 0 || hour == 3
        })
        .count();
    assert_eq!(excluded, 10);
    let forecast = response(list).transform().unwrap();
    assert_eq!(total_sections(&forecast) + excluded, total);
    assert_eq!(forecast.day_count(), 5);
    for key in forecast.day_keys() {
        assert_eq!(hours_on(&forecast, key), vec![6, 9, 12, 15, 18, 21]);
    }
}

#[test]
fn every_kept_sample_appears_once() {
    let mut list = Vec::new();
    for i in 0..30u64 {
        let mut sample = at(JUNE_18_MIDNIGHT + i * 5 * HOUR);
        sample.main.humidity = i as u16;
        list.push(sample);
    }
    let forecast = response(list).transform().unwrap();
    let mut seen = Vec::new();
    for key in forecast.day_keys() {
        for section in forecast.sections(&key).unwrap() {
            seen.push(section.humidity());
        }
    }
    let mut expected = Vec::new();
    for i in 0..30u64 {
        let hour = (i * 5) % 24;
        if hour != 0 && hour != 3 {
            expected.push(i as u16);
        }
    }
    assert_eq!(seen, expected);
}

#[test]
fn other_hours_can_be_excluded() {
    let list = vec![
        at(1655575200),
        at(1655586000),
        at(JUNE_18_MIDNIGHT),
        at(JUNE_18_MIDNIGHT + 3 * HOUR),
    ];
    let forecast = response(list).transform_with(&vec![18]).unwrap();
    assert_eq!(hours_on(&forecast, DayKey::new(6, 18)), vec![21, 0, 3]);
}

#[test]
fn no_hour_need_be_excluded() {
    let list: Vec<WeatherData> = (0..24).map(|h| at(JUNE_18_MIDNIGHT + h * HOUR)).collect();
    let forecast = response(list).transform_with(&Vec::new()).unwrap();
    assert_eq!(hours_on(&forecast, DayKey::new(6, 18)), (0..24u8).collect::<Vec<u8>>());
}

#[test]
fn an_hour_may_be_excluded_twice() {
    let list = vec![at(JUNE_18_MIDNIGHT), at(JUNE_18_MIDNIGHT + 23 * HOUR)];
    let forecast = response(list).transform_with(&vec![23, 23, 23]).unwrap();
    assert_eq!(hours_on(&forecast, DayKey::new(6, 18)), vec![0]);
}

#[test]
fn transform_is_transform_with_midnight_and_three() {
    let list =
        || -> Vec<WeatherData> { (0..48).map(|h| at(JUNE_18_MIDNIGHT + h * HOUR)).collect() };
    let plain = response(list()).transform().unwrap();
    let explicit = response(list()).transform_with(&vec![0, 3]).unwrap();
    assert_eq!(plain.day_keys(), explicit.day_keys());
    for key in plain.day_keys() {
        assert_eq!(hours_on(&plain, key), hours_on(&explicit, key));
    }
}

#[test]
fn an_hour_past_twenty_three_is_refused() {
    let bad = response(vec![at(1655586000)]).transform_with(&vec![0, 24]);
    assert_eq!(bad.err(), Some(ForecastError::InvalidExclusionConfig));
    let bad = response(vec![at(1655586000)]).transform_with(&vec![255]);
    assert_eq!(bad.err(), Some(ForecastError::InvalidExclusionConfig));
    assert!(response(vec![at(1655586000)]).transform_with(&vec![23]).is_ok());
}

#[test]
fn hours_are_checked_before_samples() {
    let bad = response(vec![described(1655586000, &[])]).transform_with(&vec![99]);
    assert_eq!(bad.err(), Some(ForecastError::InvalidExclusionConfig));
}

#[test]
fn a_sample_without_descriptor_breaks_the_forecast() {
    let list = vec![at(1655575200), described(1655586000, &[])];
    assert_eq!(response(list).transform().err(), Some(ForecastError::DataIntegrity));
}

#[test]
fn an_excluded_sample_without_descriptor_breaks_the_forecast_too() {
    let list = vec![at(1655575200), described(JUNE_18_MIDNIGHT, &[])];
    assert_eq!(response(list).transform().err(), Some(ForecastError::DataIntegrity));
}

#[test]
fn a_sample_off_the_calendar_breaks_the_forecast() {
    for dt in [u64::MAX, i64::MAX as u64, i64::MAX as u64 + 1, 1u64 << 50] {
        assert_eq!(response(vec![at(dt)]).transform().err(), Some(ForecastError::DataIntegrity));
        assert_eq!(at(dt).transform().err(), Some(ForecastError::DataIntegrity));
    }
}

#[test]
fn one_sample_without_descriptor_is_refused() {
    assert_eq!(described(1655586000, &[]).transform().err(), Some(ForecastError::DataIntegrity));
}

#[test]
fn only_the_first_descriptor_is_shown() {
    let sample = described(1655586000, &["light rain", "mist", "fog"]);
    let (_, _, section) = sample.transform().unwrap();
    assert_eq!(section.description(), "light rain");
}

#[test]
fn one_sample_gives_day_hour_and_section() {
    let (key, hour, section) = at(1655586000).transform().unwrap();
    assert_eq!(key, DayKey::new(6, 18));
    assert_eq!(hour, 21);
    assert_eq!(section.hour(), 21);
    assert_eq!(section.day_of_week(), "Sat");
    assert_eq!(section.datetime(), "2022-06-18 21:00");
    assert_eq!(section.humidity(), 55);
    assert_eq!(section.wind_deg(), 7);
    assert_eq!(number(section.temp()), 70.5);
    assert_eq!(number(section.feels_like()), 69.25);
    assert_eq!(number(section.wind_speed()), 4.5);
}

#[test]
fn the_epoch_is_a_thursday_in_january() {
    let (key, hour, section) = at(0).transform().unwrap();
    assert_eq!(key, DayKey::new(1, 1));
    assert_eq!(hour, 0);
    assert_eq!(section.day_of_week(), "Thu");
    assert_eq!(section.datetime(), "1970-01-01 00:00");
}

#[test]
fn leap_day_is_a_day() {
    let feb_29_2024: u64 = 1709164800;
    let (key, hour, section) = at(feb_29_2024 + 13 * HOUR + 7 * 60).transform().unwrap();
    assert_eq!(key, DayKey::new(2, 29));
    assert_eq!(hour, 13);
    assert_eq!(section.datetime(), "2024-02-29 13:07");
    assert_eq!(section.day_of_week(), "Thu");
}

#[test]
fn unreported_rain_is_no_rain_and_shows_as_zero() {
    let (_, _, section) = at(1655575200).transform().unwrap();
    assert_eq!(section.rain_three_hour(), None);
    assert_eq!(section.rain_or_zero(), Measure::zero());
    assert_eq!(section.rain_or_zero().to_bits(), 0);
    assert_eq!(format!("{:.2}", number(section.rain_or_zero())), "0.00");
}

#[test]
fn reported_rain_of_zero_is_rain() {
    let mut sample = at(1655575200);
    sample.rain = Some(Rain { three_hour: reading(0.0) });
    let (_, _, section) = sample.transform().unwrap();
    assert_eq!(section.rain_three_hour(), Some(reading(0.0)));
    assert_ne!(section.rain_three_hour(), None);
}

#[test]
fn reported_rain_is_shown_as_it_is() {
    let mut sample = at(1655586000);
    sample.rain = Some(Rain { three_hour: reading(0.22) });
    let (_, _, section) = sample.transform().unwrap();
    assert_eq!(section.rain_or_zero(), reading(0.22));
    assert_eq!(format!("{:.2}", number(section.rain_or_zero())), "0.22");
}

#[test]
fn readings_pass_through_bit_for_bit() {
    for bits in [0u32, 1, 0x8000_0000, 0x7fc0_0000, 0x7f80_0000, 0xffff_ffff, 0x42b8_d1ec] {
        let mut sample = at(1655586000);
        sample.main.temp = Measure::from_bits(bits);
        sample.main.feels_like = Measure::from_bits(!bits);
        sample.wind.speed = Measure::from_bits(bits ^ 0x5555_5555);
        sample.rain = Some(Rain { three_hour: Measure::from_bits(bits.rotate_left(7)) });
        let (_, _, section) = sample.transform().unwrap();
        assert_eq!(section.temp().to_bits(), bits);
        assert_eq!(section.feels_like().to_bits(), !bits);
        assert_eq!(section.wind_speed().to_bits(), bits ^ 0x5555_5555);
        assert_eq!(section.rain_three_hour().map(|m| m.to_bits()), Some(bits.rotate_left(7)));
    }
}

#[test]
fn cells_are_padded_as_the_table_wants_them() {
    let mut sample = at(JUNE_18_MIDNIGHT + 4 * HOUR);
    sample.wind.deg = 7;
    sample.main.humidity = 5;
    let (_, _, section) = sample.transform().unwrap();
    assert_eq!(section.day_hour(), "Sat-04");
    assert_eq!(section.wind_deg_text(), "007");
    assert_eq!(section.humidity_text(), "5");

    let mut sample = at(1655586000);
    sample.wind.deg = 236;
    sample.main.humidity = 100;
    let (_, _, section) = sample.transform().unwrap();
    assert_eq!(section.day_hour(), "Sat-21");
    assert_eq!(section.wind_deg_text(), "236");
    assert_eq!(section.humidity_text(), "100");

    let mut sample = at(1655586000);
    sample.wind.deg = 65535;
    sample.main.humidity = 65535;
    let (_, _, section) = sample.transform().unwrap();
    assert_eq!(section.wind_deg_text(), "65535");
    assert_eq!(section.humidity_text(), "65535");
}

#[test]
fn a_section_holds_what_it_was_made_of() {
    let section = WeatherSection::new(
        String::from("Mon"),
        9,
        String::from("2022-06-20 09:00"),
        reading(1.5),
        reading(2.5),
        40,
        String::from("clear sky"),
        reading(3.5),
        90,
        Some(reading(4.5)),
    );
    assert_eq!(section.day_of_week(), "Mon");
    assert_eq!(section.hour(), 9);
    assert_eq!(section.datetime(), "2022-06-20 09:00");
    assert_eq!(section.temp(), reading(1.5));
    assert_eq!(section.feels_like(), reading(2.5));
    assert_eq!(section.humidity(), 40);
    assert_eq!(section.description(), "clear sky");
    assert_eq!(section.wind_speed(), reading(3.5));
    assert_eq!(section.wind_deg(), 90);
    assert_eq!(section.rain_three_hour(), Some(reading(4.5)));
    assert_eq!(section.rain_or_zero(), reading(4.5));
    assert_eq!(section.day_hour(), "Mon-09");
}

#[test]
fn a_response_with_a_bare_sample_is_malformed() {
    let list = vec![at(1655575200), described(1655586000, &[])];
    let made = WeatherList::from_parts(String::from("200"), list, london());
    assert_eq!(made.err(), Some(ForecastError::MalformedResponse));
}

#[test]
fn a_response_of_whole_samples_is_put_together() {
    let list = vec![at(1655575200), at(1655586000)];
    let made = WeatherList::from_parts(String::from("200"), list, london()).unwrap();
    assert_eq!(made.cod, "200");
    assert_eq!(made.list.len(), 2);
    assert_eq!(made.list[1].datetime, 1655586000);
    assert_eq!(made.city.name, "London");
    assert_eq!(made.transform().unwrap().day_keys(), vec![DayKey::new(6, 18)]);
    let empty = WeatherList::from_parts(String::from("200"), Vec::new(), london()).unwrap();
    assert_eq!(empty.list.len(), 0);
}

#[test]
fn a_city_is_copied_whole() {
    let city = london();
    let copy = city.clone();
    assert_eq!(copy.name, city.name);
    assert_eq!(copy.country, city.country);
    assert_eq!(copy.coord.lat, city.coord.lat);
    assert_eq!(copy.coord.lon, city.coord.lon);
    assert_eq!(copy.sunrise, city.sunrise);
    assert_eq!(copy.sunset, city.sunset);
    assert_eq!(copy.timezone, city.timezone);
}

fn sketch(forecast: &WeatherForecast) -> Vec<String> {
    forecast
        .lines()
        .iter()
        .map(|line| match line {
            TableLine::Place(city) => format!("place {}", city.name),
            TableLine::Day(key) => format!("day {}", key.to_string()),
            TableLine::Columns => String::from("columns"),
            TableLine::Row(section) => format!("row {}", section.day_hour()),
        })
        .collect()
}

#[test]
fn table_has_a_heading_per_day_and_a_row_per_section() {
    let june_30_noon = JUNE_18_MIDNIGHT + 12 * DAY + 12 * HOUR;
    let list = vec![
        at(june_30_noon),
        at(june_30_noon + DAY),
        at(june_30_noon + 3 * HOUR),
        at(june_30_noon - DAY),
        at(june_30_noon + 12 * HOUR),
        at(june_30_noon + DAY + HOUR),
    ];
    let forecast = response(list).transform().unwrap();
    assert_eq!(
        sketch(&forecast),
        vec![
            "place London",
            "day 06-29",
            "columns",
            "row Wed-12",
            "day 06-30",
            "columns",
            "row Thu-12",
            "row Thu-15",
            "day 07-01",
            "columns",
            "row Fri-12",
            "row Fri-13",
        ]
    );
}

#[test]
fn table_of_an_empty_forecast_has_the_place_only() {
    let forecast = response(Vec::new()).transform().unwrap();
    assert_eq!(sketch(&forecast), vec!["place London"]);
    let forecast = response(vec![at(JUNE_18_MIDNIGHT)]).transform().unwrap();
    assert_eq!(sketch(&forecast), vec!["place London"]);
}

#[test]
fn columns_have_their_names() {
    assert_eq!(COLUMN_HEADING, "day-hour  temp    feel   hum   wspd  wdeg   rain   desc");
    let names: Vec<&str> = COLUMN_HEADING.split_whitespace().collect();
    assert_eq!(names, vec!["day-hour", "temp", "feel", "hum", "wspd", "wdeg", "rain", "desc"]);
}

#[test]
fn first_descriptor_is_the_first_or_an_error() {
    let sample = described(1655586000, &["light rain", "mist"]);
    let first = sample.first_descriptor().unwrap();
    assert_eq!(first.description, "light rain");
    assert_eq!(first.main, "Clouds");
    let bare = described(1655586000, &[]);
    assert_eq!(bare.first_descriptor().err(), Some(ForecastError::DataIntegrity));
}
