//! The forecast response as it was sent, and its regrouping by day.

use crate::calendar::{
    civil_fields, civil_fields_of, fields_are_known, month_day_time_text, timestamp_text,
    weekday_label, CivilFields, LAST_FOUR_DIGIT_SECOND,
};
pub use crate::day_key::{DayKey, ParseDayKeyError};
use crate::display::{SectionView, WeatherForecast, WeatherSection};
use crate::grouping::{
    grouped, hours_are_of_day, hours_of_day, lemma_day_has_a_sample, placed_all, Placed,
};
use crate::measure::Measure;
use vstd::prelude::*;

verus! {

/// Temperature and humidity of a sample.
#[derive(Debug)]
pub struct Temperature {
    pub temp: Measure,
    pub feels_like: Measure,
    /// Relative humidity in percent.
    pub humidity: u16,
}

/// One descriptor of the weather of a sample.
#[derive(Debug)]
pub struct Description {
    /// The group the weather belongs to.
    pub main: String,
    /// Words for the weather.
    pub description: String,
}

/// The wind of a sample.
#[derive(Debug)]
pub struct Wind {
    pub speed: Measure,
    /// Direction in degrees.
    pub deg: u16,
}

/// The rain of a sample.
#[derive(Debug)]
pub struct Rain {
    /// Amount over three hours.
    pub three_hour: Measure,
}

/// A place on the map.
#[derive(Clone, Copy, Debug)]
pub struct Coord {
    pub lat: Measure,
    pub lon: Measure,
}

/// The place a forecast is for.
#[derive(Debug)]
pub struct City {
    pub name: String,
    pub country: String,
    pub coord: Coord,
    /// Sunrise, in seconds since 1970-01-01T00:00:00Z.
    pub sunrise: u64,
    /// Sunset, in seconds since 1970-01-01T00:00:00Z.
    pub sunset: u64,
    /// Offset of the place's clock from UTC, in seconds: local time is UTC
    /// plus the offset.
    pub timezone: i32,
}

/// What a city holds.
pub struct CityView {
    pub name: Seq<char>,
    pub country: Seq<char>,
    pub coord: Coord,
    pub sunrise: u64,
    pub sunset: u64,
    pub timezone: i32,
}

impl View for City {
    type V = CityView;

    open spec fn view(&self) -> CityView {
        CityView {
            name: self.name@,
            country: self.country@,
            coord: self.coord,
            sunrise: self.sunrise,
            sunset: self.sunset,
            timezone: self.timezone,
        }
    }
}

impl Clone for City {
    fn clone(&self) -> (r: City)
        ensures
            r@ == self@,
    {
        City {
            name: self.name.clone(),
            country: self.country.clone(),
            coord: self.coord,
            sunrise: self.sunrise,
            sunset: self.sunset,
            timezone: self.timezone,
        }
    }
}

/// One timed sample of a forecast.
#[derive(Debug)]
pub struct WeatherData {
    /// The instant of the sample, in seconds since 1970-01-01T00:00:00Z.
    pub datetime: u64,
    pub main: Temperature,
    /// Descriptors of the weather; only the first is shown.
    pub weather: Vec<Description>,
    pub wind: Wind,
    /// `None` where no rain was reported, which is not the same as an
    /// amount of zero.
    pub rain: Option<Rain>,
}

/// Why a response cannot become a forecast.
#[derive(Clone, Copy, Debug, PartialEq, Eq, Structural)]
pub enum ForecastError {
    /// The response does not have the shape of a forecast.
    MalformedResponse,
    /// A sample has the right shape and breaks a rule all the same: it has
    /// no descriptor of the weather, or its instant is on no calendar.
    DataIntegrity,
    /// An hour to exclude is no hour of the day.
    InvalidExclusionConfig,
}

/// The day that the given date falls on.
pub open spec fn key_at(at: CivilFields) -> DayKey {
    DayKey { month: at.month as u8, day: at.day as u8 }
}

impl WeatherData {
    /// The section that shows this sample, its instant having the fields `at`.
    /// Of the descriptors of the weather only the first is shown. Rain that
    /// was not reported stays unreported.
    pub open spec fn section_at(&self, at: CivilFields) -> SectionView {
        SectionView {
            day_of_week: weekday_label(at.weekday),
            hour: at.hour as u8,
            datetime: timestamp_text(at),
            temp: self.main.temp,
            feels_like: self.main.feels_like,
            humidity: self.main.humidity,
            description: self.weather@[0].description@,
            wind_speed: self.wind.speed,
            wind_deg: self.wind.deg,
            rain_three_hour: match self.rain {
                Some(rain) => Some(rain.three_hour),
                None => None,
            },
        }
    }

    /// The fields of the sample's instant in UTC; `None` where the calendar
    /// has none for it.
    pub open spec fn civil(&self) -> Option<CivilFields> {
        if self.datetime <= i64::MAX {
            civil_fields_of(self.datetime as int, 0)
        } else {
            None
        }
    }

    /// Whether the sample can be shown: it has a descriptor of the weather,
    /// and its instant is on the calendar.
    pub open spec fn sound(&self) -> bool {
        self.weather@.len() > 0 && self.civil() is Some
    }

    /// The day that the sample falls on, in UTC.
    pub open spec fn day_key(&self) -> DayKey {
        key_at(self.civil()->0)
    }

    /// The hour of the day that the sample falls on, in UTC.
    pub open spec fn hour_of_day(&self) -> u8 {
        self.civil()->0.hour as u8
    }

    /// The section that shows this sample.
    pub open spec fn section(&self) -> SectionView {
        self.section_at(self.civil()->0)
    }

    /// The sample with its place in time.
    pub open spec fn placed(&self) -> Placed {
        Placed { key: self.day_key(), hour: self.hour_of_day(), section: self.section() }
    }

    /// What is known of the calendar at the sample's instant, whatever its
    /// date is: where the instant has fields, they are in range, hour and
    /// minute are those of a clock that counts 86 400 seconds to the day,
    /// the day of the week is counted on from Thursday, 1 January 1970, and
    /// an instant up to the end of the year 9999 lies in a year from 1970 to
    /// 9999; and an instant up to the end of the year 9999 has fields.
    pub open spec fn on_known_calendar(&self) -> bool {
        self.datetime <= i64::MAX ==> fields_are_known(self.datetime as int, 0)
    }

    /// The descriptor of the weather that is shown: the first. A sample
    /// without one breaks the rules of the data.
    pub fn first_descriptor(&self) -> (r: Result<&Description, ForecastError>)
        ensures
            match r {
                Ok(first) => self.weather@.len() > 0 && *first == self.weather@[0],
                Err(e) => self.weather@.len() == 0 && e == ForecastError::DataIntegrity,
            },
    {
        if self.weather.len() == 0 {
            Err(ForecastError::DataIntegrity)
        } else {
            Ok(&self.weather[0])
        }
    }

    /// The day, the hour of the day and the section of this sample, its
    /// instant having the fields `at`. Fails on a sample without a descriptor
    /// of the weather.
    pub fn transform_at(&self, at: &CivilFields) -> (r: Result<
        (DayKey, u8, WeatherSection),
        ForecastError,
    >)
        requires
            at.in_range(),
        ensures
            match r {
                Ok(t) => {
                    &&& self.weather@.len() > 0
                    &&& t.0 == key_at(*at)
                    &&& t.1 == at.hour
                    &&& t.2@ == self.section_at(*at)
                },
                Err(e) => self.weather@.len() == 0 && e == ForecastError::DataIntegrity,
            },
    {
        let first = match self.first_descriptor() {
            Ok(first) => first,
            Err(e) => {
                return Err(e);
            },
        };
        let rain = match &self.rain {
            Some(rain) => Some(rain.three_hour),
            None => None,
        };
        let hour = at.hour as u8;
        let section = WeatherSection::new(
            at.weekday_name().to_owned(),
            hour,
            at.timestamp(),
            self.main.temp,
            self.main.feels_like,
            self.main.humidity,
            first.description.clone(),
            self.wind.speed,
            self.wind.deg,
            rain,
        );
        Ok((DayKey::new(at.month as u8, at.day as u8), hour, section))
    }

    /// The day, the hour of the day and the section of this sample, by its
    /// instant in UTC. Fails on a sample without a descriptor of the weather
    /// and on one whose instant is on no calendar.
    pub fn transform(&self) -> (r: Result<(DayKey, u8, WeatherSection), ForecastError>)
        ensures
            self.on_known_calendar(),
            match r {
                Ok(t) => {
                    &&& self.sound()
                    &&& t.0 == self.day_key()
                    &&& t.1 == self.hour_of_day()
                    &&& t.2@ == self.section()
                },
                Err(e) => !self.sound() && e == ForecastError::DataIntegrity,
            },
    {
        if self.datetime > i64::MAX as u64 {
            return Err(ForecastError::DataIntegrity);
        }
        match civil_fields(self.datetime as i64, 0) {
            None => Err(ForecastError::DataIntegrity),
            Some(at) => self.transform_at(&at),
        }
    }
}

/// The fields that `datetime` shows for the instant `value` on a clock that
/// is `offset` seconds ahead of UTC (behind it where `offset` is negative);
/// `None` where the calendar has none.
pub open spec fn datetime_fields(value: u64, offset: i32) -> Option<CivilFields> {
    if value <= i64::MAX {
        civil_fields_of(value as int, offset as int)
    } else {
        None
    }
}

/// What is known of `datetime_fields`, whatever the instant: where there are
/// fields, the offset is of less than a day, the fields are in range, and
/// hour and minute are those of the local second `value + offset` on a clock
/// that counts 86 400 seconds to the day, with what else is known of the
/// calendar there; and there are fields for every instant up to the end of
/// the year 9999 at every offset of less than a day.
pub open spec fn datetime_on_known_calendar(value: u64, offset: i32) -> bool {
    value <= i64::MAX ==> fields_are_known(value as int, offset as int)
}

fn fields_for_datetime(value: u64, offset: i32) -> (r: Option<CivilFields>)
    ensures
        r == datetime_fields(value, offset),
        datetime_on_known_calendar(value, offset),
        r matches Some(at) ==> at.in_range(),
{
    if value > i64::MAX as u64 {
        return None;
    }
    civil_fields(value as i64, offset)
}

/// Month, day, hour and minute of the instant `value`, in seconds since
/// 1970-01-01T00:00:00Z, as `MM-DD HH:MM`, read on a clock that is ahead of
/// UTC by `offset` seconds: local time is UTC plus the offset, so a negative
/// offset is a clock behind UTC.
pub fn datetime(value: u64, offset: i32) -> (r: String)
    requires
        datetime_fields(value, offset) is Some,
    ensures
        r@ == month_day_time_text(datetime_fields(value, offset)->0),
        datetime_on_known_calendar(value, offset),
{
    fields_for_datetime(value, offset).unwrap().month_day_time()
}

/// As `datetime`, for any instant and any offset: `None` where the calendar
/// has no fields for them.
pub fn checked_datetime(value: u64, offset: i32) -> (r: Option<String>)
    ensures
        match r {
            Some(text) => datetime_fields(value, offset) matches Some(at) && text@
                == month_day_time_text(at),
            None => datetime_fields(value, offset) is None,
        },
        datetime_on_known_calendar(value, offset),
{
    match fields_for_datetime(value, offset) {
        Some(_) => Some(datetime(value, offset)),
        None => None,
    }
}

/// A forecast response: a flat list of samples in the order of their
/// instants, and the place they are for.
#[derive(Debug)]
pub struct WeatherList {
    /// The status that the service reported.
    pub cod: String,
    pub list: Vec<WeatherData>,
    pub city: City,
}

/// The samples of the list with their places in time, in their order.
pub open spec fn placed_samples(list: Seq<WeatherData>) -> Seq<Placed> {
    list.map_values(|sample: WeatherData| sample.placed())
}

/// Whether every sample of the list can be shown.
pub open spec fn all_sound(list: Seq<WeatherData>) -> bool {
    forall|i: int| 0 <= i < list.len() ==> (#[trigger] list[i]).sound()
}

/// Whether every sample of the list has a descriptor of the weather.
pub open spec fn all_described(list: Seq<WeatherData>) -> bool {
    forall|i: int| 0 <= i < list.len() ==> (#[trigger] list[i]).weather@.len() > 0
}

/// Whether every sample of the list is of an instant up to the end of the
/// year 9999.
pub open spec fn all_in_four_digit_years(list: Seq<WeatherData>) -> bool {
    forall|i: int| 0 <= i < list.len() ==> (#[trigger] list[i]).datetime <= LAST_FOUR_DIGIT_SECOND
}

/// Whether the calendar is known at every sample of the list.
pub open spec fn all_on_known_calendar(list: Seq<WeatherData>) -> bool {
    forall|i: int| 0 <= i < list.len() ==> (#[trigger] list[i]).on_known_calendar()
}

/// The hours that are left out where nothing else is asked for: midnight and
/// three in the morning, UTC.
pub open spec fn default_excluded() -> Set<u8> {
    set![0u8, 3u8]
}

impl WeatherList {
    /// Puts a decoded response together. A response with a sample that has no
    /// descriptor of the weather is malformed.
    pub fn from_parts(cod: String, list: Vec<WeatherData>, city: City) -> (r: Result<
        WeatherList,
        ForecastError,
    >)
        ensures
            match r {
                Ok(response) => {
                    &&& all_described(list@)
                    &&& response.cod == cod
                    &&& response.list == list
                    &&& response.city == city
                },
                Err(e) => !all_described(list@) && e == ForecastError::MalformedResponse,
            },
    {
        let mut i: usize = 0;
        while i < list.len()
            invariant
                i <= list.len(),
                forall|j: int| 0 <= j < i ==> (#[trigger] list@[j]).weather@.len() > 0,
            decreases list.len() - i,
        {
            if list[i].weather.len() == 0 {
                return Err(ForecastError::MalformedResponse);
            }
            i = i + 1;
        }
        Ok(WeatherList { cod, list, city })
    }

    /// Regroups the list by day, leaving out the samples at midnight and at
    /// three in the morning, UTC.
    pub fn transform(&self) -> (r: Result<WeatherForecast, ForecastError>)
        ensures
            match r {
                Ok(forecast) => {
                    &&& all_sound(self.list@)
                    &&& forecast.place() == self.city@
                    &&& forecast.days() == grouped(placed_samples(self.list@), default_excluded())
                    &&& forall|key: DayKey| #[trigger]
                        forecast.days().contains_key(key) ==> key.on_calendar()
                },
                Err(e) => !all_sound(self.list@) && e == ForecastError::DataIntegrity,
            },
            r is Ok ==> all_on_known_calendar(self.list@),
            all_described(self.list@) && all_in_four_digit_years(self.list@) ==> r is Ok,
    {
        let hours: Vec<u8> = vec![0, 3];
        proof {
            assert(hours@.to_set() =~= default_excluded());
        }
        self.transform_with(&hours)
    }

    /// Regroups the list by day, leaving out the samples that fall, in UTC,
    /// on one of the hours of `exclude_hours`.
    ///
    /// Every sample that is kept goes to the day of its date, after the
    /// samples that the list has before it. The hours are checked before any
    /// sample is looked at; the samples are all checked, the excluded too.
    pub fn transform_with(&self, exclude_hours: &Vec<u8>) -> (r: Result<
        WeatherForecast,
        ForecastError,
    >)
        ensures
            match r {
                Ok(forecast) => {
                    &&& hours_of_day(exclude_hours@)
                    &&& all_sound(self.list@)
                    &&& forecast.place() == self.city@
                    &&& forecast.days() == grouped(
                        placed_samples(self.list@),
                        exclude_hours@.to_set(),
                    )
                    &&& forall|key: DayKey| #[trigger]
                        forecast.days().contains_key(key) ==> key.on_calendar()
                },
                Err(e) => if hours_of_day(exclude_hours@) {
                    !all_sound(self.list@) && e == ForecastError::DataIntegrity
                } else {
                    e == ForecastError::InvalidExclusionConfig
                },
            },
            r is Ok ==> all_on_known_calendar(self.list@),
            hours_of_day(exclude_hours@) && all_described(self.list@) && all_in_four_digit_years(
                self.list@,
            ) ==> r is Ok,
    {
        if !hours_are_of_day(exclude_hours) {
            return Err(ForecastError::InvalidExclusionConfig);
        }
        let mut items: Vec<(DayKey, u8, WeatherSection)> = Vec::new();
        let mut i: usize = 0;
        while i < self.list.len()
            invariant
                i <= self.list.len(),
                hours_of_day(exclude_hours@),
                placed_all(items@) == placed_samples(self.list@.take(i as int)),
                forall|j: int| 0 <= j < i ==> (#[trigger] self.list@[j]).sound(),
                forall|j: int| 0 <= j < i ==> (#[trigger] self.list@[j]).on_known_calendar(),
            decreases self.list.len() - i,
        {
            match self.list[i].transform() {
                Err(e) => {
                    assert(!self.list@[i as int].sound());
                    return Err(e);
                },
                Ok(item) => {
                    proof {
                        assert(placed_samples(self.list@.take(i + 1)) =~= placed_samples(
                            self.list@.take(i as int),
                        ).push(self.list@[i as int].placed()));
                    }
                    items.push(item);
                },
            }
            i = i + 1;
        }
        proof {
            assert(self.list@.take(i as int) =~= self.list@);
            let all = placed_samples(self.list@);
            let excluded = exclude_hours@.to_set();
            // A day of the forecast is the day of a sample, whose date the
            // calendar gave.
            assert forall|key: DayKey| #[trigger]
                grouped(all, excluded).contains_key(key) implies key.on_calendar() by {
                lemma_day_has_a_sample(all, excluded, key);
                let j = choose|j: int| 0 <= j < all.len() && all[j].key == key;
                assert(self.list@[j].on_known_calendar());
            }
        }
        WeatherForecast::group(self.city.clone(), items, exclude_hours)
    }
}

} // verus!
