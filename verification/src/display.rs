//! The forecast as it is shown: one section per sample, grouped by day.

use crate::backend::{City, CityView, ForecastError};
use crate::day_key::DayKey;
use crate::grouping::{
    bucket, grouped, hours_are_of_day, hours_of_day, lands_in, lemma_bucket_push, placed,
    placed_all,
};
use crate::measure::Measure;
use crate::ordered::{lemma_keys_ascend, pair_before};
use crate::text::{decimal, padded, push_padded};
use std::collections::{BTreeMap, HashSet};
use vstd::prelude::*;
use vstd::std_specs::btree::into_iter_keys;
use vstd::std_specs::iter::IteratorSpec;

verus! {

broadcast use vstd::laws_cmp::group_laws_cmp;

/// One sample, ready to be shown.
#[derive(Debug)]
pub struct WeatherSection {
    day_of_week: String,
    hour: u8,
    datetime: String,
    temp: Measure,
    feels_like: Measure,
    humidity: u16,
    description: String,
    wind_speed: Measure,
    wind_deg: u16,
    rain_three_hour: Option<Measure>,
}

/// What a section holds.
pub struct SectionView {
    /// Three-letter name of the day of the week.
    pub day_of_week: Seq<char>,
    /// Hour of the day.
    pub hour: u8,
    /// Timestamp, `YYYY-MM-DD HH:MM`.
    pub datetime: Seq<char>,
    pub temp: Measure,
    pub feels_like: Measure,
    /// Relative humidity in percent.
    pub humidity: u16,
    /// Words for the weather.
    pub description: Seq<char>,
    pub wind_speed: Measure,
    /// Direction of the wind in degrees.
    pub wind_deg: u16,
    /// Rain over three hours; `None` where none was reported.
    pub rain_three_hour: Option<Measure>,
}

impl View for WeatherSection {
    type V = SectionView;

    closed spec fn view(&self) -> SectionView {
        SectionView {
            day_of_week: self.day_of_week@,
            hour: self.hour,
            datetime: self.datetime@,
            temp: self.temp,
            feels_like: self.feels_like,
            humidity: self.humidity,
            description: self.description@,
            wind_speed: self.wind_speed,
            wind_deg: self.wind_deg,
            rain_three_hour: self.rain_three_hour,
        }
    }
}

impl Clone for WeatherSection {
    fn clone(&self) -> (r: WeatherSection)
        ensures
            r@ == self@,
    {
        WeatherSection {
            day_of_week: self.day_of_week.clone(),
            hour: self.hour,
            datetime: self.datetime.clone(),
            temp: self.temp,
            feels_like: self.feels_like,
            humidity: self.humidity,
            description: self.description.clone(),
            wind_speed: self.wind_speed,
            wind_deg: self.wind_deg,
            rain_three_hour: self.rain_three_hour,
        }
    }
}

impl SectionView {
    /// The first cell of a row: the day of the week, a `-`, and the hour with
    /// two digits.
    pub open spec fn day_hour(self) -> Seq<char> {
        self.day_of_week + seq!['-'] + padded(self.hour as nat, 2)
    }

    /// The humidity cell: the number as it is.
    pub open spec fn humidity_text(self) -> Seq<char> {
        decimal(self.humidity as nat)
    }

    /// The wind direction cell: the degrees with three digits.
    pub open spec fn wind_deg_text(self) -> Seq<char> {
        padded(self.wind_deg as nat, 3)
    }

    /// The rain that is shown: what was reported, or zero.
    pub open spec fn rain_or_zero(self) -> Measure {
        match self.rain_three_hour {
            Some(amount) => amount,
            None => Measure { bits: 0 },
        }
    }
}

impl WeatherSection {
    /// The section that holds the given values.
    pub fn new(
        day_of_week: String,
        hour: u8,
        datetime: String,
        temp: Measure,
        feels_like: Measure,
        humidity: u16,
        description: String,
        wind_speed: Measure,
        wind_deg: u16,
        rain_three_hour: Option<Measure>,
    ) -> (r: WeatherSection)
        ensures
            r@ == (SectionView {
                day_of_week: day_of_week@,
                hour,
                datetime: datetime@,
                temp,
                feels_like,
                humidity,
                description: description@,
                wind_speed,
                wind_deg,
                rain_three_hour,
            }),
    {
        WeatherSection {
            day_of_week,
            hour,
            datetime,
            temp,
            feels_like,
            humidity,
            description,
            wind_speed,
            wind_deg,
            rain_three_hour,
        }
    }

    /// Three-letter name of the day of the week.
    pub fn day_of_week(&self) -> (r: &str)
        ensures
            r@ == self@.day_of_week,
    {
        self.day_of_week.as_str()
    }

    /// Hour of the day.
    pub fn hour(&self) -> (r: u8)
        ensures
            r == self@.hour,
    {
        self.hour
    }

    /// Timestamp, `YYYY-MM-DD HH:MM`.
    pub fn datetime(&self) -> (r: &str)
        ensures
            r@ == self@.datetime,
    {
        self.datetime.as_str()
    }

    /// Temperature.
    pub fn temp(&self) -> (r: Measure)
        ensures
            r == self@.temp,
    {
        self.temp
    }

    /// Temperature as it feels.
    pub fn feels_like(&self) -> (r: Measure)
        ensures
            r == self@.feels_like,
    {
        self.feels_like
    }

    /// Relative humidity in percent.
    pub fn humidity(&self) -> (r: u16)
        ensures
            r == self@.humidity,
    {
        self.humidity
    }

    /// Words for the weather.
    pub fn description(&self) -> (r: &str)
        ensures
            r@ == self@.description,
    {
        self.description.as_str()
    }

    /// Speed of the wind.
    pub fn wind_speed(&self) -> (r: Measure)
        ensures
            r == self@.wind_speed,
    {
        self.wind_speed
    }

    /// Direction of the wind in degrees.
    pub fn wind_deg(&self) -> (r: u16)
        ensures
            r == self@.wind_deg,
    {
        self.wind_deg
    }

    /// Rain over three hours; `None` where none was reported.
    pub fn rain_three_hour(&self) -> (r: Option<Measure>)
        ensures
            r == self@.rain_three_hour,
    {
        self.rain_three_hour
    }

    /// The rain that is shown: what was reported, or zero.
    pub fn rain_or_zero(&self) -> (r: Measure)
        ensures
            r == self@.rain_or_zero(),
    {
        match self.rain_three_hour {
            Some(amount) => amount,
            None => Measure::zero(),
        }
    }

    /// The first cell of a row: the day of the week, a `-`, and the hour with
    /// two digits.
    pub fn day_hour(&self) -> (r: String)
        ensures
            r@ == self@.day_hour(),
    {
        let mut out = self.day_of_week.clone();
        out.append("-");
        push_padded(&mut out, self.hour as u32, 2);
        proof {
            reveal_strlit("-");
        }
        out
    }

    /// The humidity cell.
    pub fn humidity_text(&self) -> (r: String)
        ensures
            r@ == self@.humidity_text(),
    {
        let mut out = String::new();
        push_padded(&mut out, self.humidity as u32, 1);
        out
    }

    /// The wind direction cell.
    pub fn wind_deg_text(&self) -> (r: String)
        ensures
            r@ == self@.wind_deg_text(),
    {
        let mut out = String::new();
        push_padded(&mut out, self.wind_deg as u32, 3);
        out
    }
}

/// What each of the sections holds, in their order.
pub open spec fn section_views(sections: Seq<WeatherSection>) -> Seq<SectionView> {
    sections.map_values(|s: WeatherSection| s@)
}

/// The days of a map from (month, day) to sections.
pub(crate) open spec fn days_of(days: Map<(u8, u8), Vec<WeatherSection>>) -> Map<
    DayKey,
    Seq<SectionView>,
> {
    Map::new(
        |key: DayKey| days.contains_key(key.pair()),
        |key: DayKey| section_views(days[key.pair()]@),
    )
}

/// Whether every day of the map has a section.
pub(crate) open spec fn no_empty_day(days: Map<(u8, u8), Vec<WeatherSection>>) -> bool {
    forall|pair: (u8, u8)| days.contains_key(pair) ==> (#[trigger] days[pair])@.len() > 0
}

/// The sections of a day so far: none where the day is new.
pub(crate) open spec fn sections_so_far(days: Map<DayKey, Seq<SectionView>>, key: DayKey) -> Seq<
    SectionView,
> {
    if days.contains_key(key) {
        days[key]
    } else {
        Seq::empty()
    }
}

/// Puts `section` at the end of the day `key`, which is made where the map
/// does not have it yet. The other days stay as they are.
fn append_to_day(
    days: &mut BTreeMap<(u8, u8), Vec<WeatherSection>>,
    key: DayKey,
    section: WeatherSection,
)
    ensures
        days_of(final(days)@) == days_of(old(days)@).insert(
            key,
            sections_so_far(days_of(old(days)@), key).push(section@),
        ),
        no_empty_day(old(days)@) ==> no_empty_day(final(days)@),
{
    let pair = (key.month, key.day);
    let ghost before = days@;
    let ghost shown = section@;
    let mut sections = match days.remove(&pair) {
        Some(sections) => sections,
        None => Vec::new(),
    };
    let ghost earlier = sections@;
    sections.push(section);
    days.insert(pair, sections);
    proof {
        assert(section_views(earlier) == sections_so_far(days_of(before), key));
        assert(section_views(earlier.push(section)) =~= section_views(earlier).push(shown));
        assert forall|other: DayKey| other != key implies other.pair() != pair by {}
    }
}

/// The hours of the list as a set.
fn hour_set(hours: &Vec<u8>) -> (r: HashSet<u8>)
    ensures
        r@ == hours@.to_set(),
{
    let mut set: HashSet<u8> = HashSet::new();
    let mut i: usize = 0;
    while i < hours.len()
        invariant
            i <= hours.len(),
            set@ == hours@.take(i as int).to_set(),
        decreases hours.len() - i,
    {
        set.insert(hours[i]);
        proof {
            assert(hours@.take(i + 1) =~= hours@.take(i as int).push(hours@[i as int]));
            hours@.take(i as int).lemma_push_to_set_commute(hours@[i as int]);
        }
        i = i + 1;
    }
    proof {
        assert(hours@.take(i as int) =~= hours@);
    }
    set
}

/// The names of the columns of the table that shows a forecast.
pub const COLUMN_HEADING: &'static str = "day-hour  temp    feel   hum   wspd  wdeg   rain   desc";

/// One line of the table that shows a forecast.
#[derive(Debug)]
pub enum TableLine<'a> {
    /// The line on the place, which opens the table.
    Place(&'a City),
    /// The line that opens a day.
    Day(DayKey),
    /// The line that names the columns.
    Columns,
    /// The line of one section.
    Row(&'a WeatherSection),
}

/// What a line of the table holds.
pub enum LineView {
    Place(CityView),
    Day(DayKey),
    Columns,
    Row(SectionView),
}

impl<'a> View for TableLine<'a> {
    type V = LineView;

    open spec fn view(&self) -> LineView {
        match *self {
            TableLine::Place(city) => LineView::Place(city@),
            TableLine::Day(key) => LineView::Day(key),
            TableLine::Columns => LineView::Columns,
            TableLine::Row(section) => LineView::Row(section@),
        }
    }
}

/// What each of the lines holds, in their order.
pub open spec fn line_views(lines: Seq<TableLine>) -> Seq<LineView> {
    lines.map_values(|line: TableLine| line@)
}

/// The rows of the given sections, in their order.
pub open spec fn rows_of(sections: Seq<SectionView>) -> Seq<LineView> {
    sections.map_values(|section: SectionView| LineView::Row(section))
}

/// The lines of the days `keys`, day after day: for each day the line that
/// opens it, the line that names the columns, and a row for each of its
/// sections.
pub open spec fn day_lines(days: Map<DayKey, Seq<SectionView>>, keys: Seq<DayKey>) -> Seq<
    LineView,
>
    decreases keys.len(),
{
    if keys.len() == 0 {
        Seq::empty()
    } else {
        day_lines(days, keys.drop_last()) + seq![LineView::Day(keys.last()), LineView::Columns]
            + rows_of(days[keys.last()])
    }
}

/// A forecast: the place it is for, and its sections day by day.
///
/// The days are kept in the order of their keys, the sections of a day in
/// the order in which they were put there. No day is without a section.
/// Keys have no year, so a forecast that runs over the end of a year has its
/// days of January before its days of December.
#[derive(Debug)]
pub struct WeatherForecast {
    location: City,
    days: BTreeMap<(u8, u8), Vec<WeatherSection>>,
}

impl WeatherForecast {
    #[verifier::type_invariant]
    spec fn every_day_has_a_section(self) -> bool {
        no_empty_day(self.days@)
    }

    /// The place the forecast is for.
    pub closed spec fn place(&self) -> CityView {
        self.location@
    }

    /// The days of the forecast, each with what its sections hold.
    pub closed spec fn days(&self) -> Map<DayKey, Seq<SectionView>> {
        days_of(self.days@)
    }

    pub(crate) fn new(location: City, days: BTreeMap<(u8, u8), Vec<WeatherSection>>) -> (r:
        WeatherForecast)
        requires
            no_empty_day(days@),
        ensures
            r.place() == location@,
            r.days() == days_of(days@),
    {
        WeatherForecast { location, days }
    }

    /// The forecast for `location` of the given items, each a day, an hour of
    /// the day and a section: the items whose hour is none of `exclude_hours`,
    /// grouped by their day.
    ///
    /// Every item that is kept goes to its day, after the items that the
    /// list has before it. Fails where an hour to exclude is past 23.
    pub fn group(
        location: City,
        items: Vec<(DayKey, u8, WeatherSection)>,
        exclude_hours: &Vec<u8>,
    ) -> (r: Result<WeatherForecast, ForecastError>)
        ensures
            match r {
                Ok(forecast) => {
                    &&& hours_of_day(exclude_hours@)
                    &&& forecast.place() == location@
                    &&& forecast.days() == grouped(placed_all(items@), exclude_hours@.to_set())
                },
                Err(e) => !hours_of_day(exclude_hours@) && e
                    == ForecastError::InvalidExclusionConfig,
            },
    {
        if !hours_are_of_day(exclude_hours) {
            return Err(ForecastError::InvalidExclusionConfig);
        }
        let exclusion = hour_set(exclude_hours);
        let ghost excluded = exclude_hours@.to_set();
        let ghost all = placed_all(items@);
        let mut days: BTreeMap<(u8, u8), Vec<WeatherSection>> = BTreeMap::new();
        for item in it: items
            invariant
                exclusion@ == excluded,
                placed_all(it.seq()) == all,
                no_empty_day(days@),
                days_of(days@) == grouped(all.take(it.index()), excluded),
        {
            let ghost sample = placed(item);
            let ghost before = all.take(it.index());
            let ghost earlier = days_of(days@);
            proof {
                assert(all.take(it.index() + 1) =~= before.push(sample));
                assert forall|key: DayKey|
                    bucket(before.push(sample), excluded, key) == if lands_in(
                        sample,
                        excluded,
                        key,
                    ) {
                        bucket(before, excluded, key).push(sample.section)
                    } else {
                        bucket(before, excluded, key)
                    } by {
                    lemma_bucket_push(before, sample, excluded, key);
                }
            }
            let (key, hour, section) = item;
            if !exclusion.contains(&hour) {
                append_to_day(&mut days, key, section);
                proof {
                    assert(sections_so_far(earlier, key) =~= bucket(before, excluded, key));
                }
            }
        }
        proof {
            assert(all.take(all.len() as int) =~= all);
        }
        Ok(WeatherForecast::new(location, days))
    }

    /// The place the forecast is for.
    pub fn location(&self) -> (r: &City)
        ensures
            r@ == self.place(),
    {
        &self.location
    }

    /// The keys of the days, in the order in which the forecast hands them
    /// out.
    pub closed spec fn key_seq(&self) -> Seq<DayKey> {
        into_iter_keys(self.days.keys()).map_values(
            |pair: (u8, u8)| DayKey { month: pair.0, day: pair.1 },
        )
    }

    /// The days of the forecast, in the order of their keys: by month, then
    /// by day. Every day is there once, and no other key.
    pub fn day_keys(&self) -> (r: Vec<DayKey>)
        ensures
            r@ == self.key_seq(),
            forall|i: int, j: int| 0 <= i < j < r@.len() ==> r@[i].before(r@[j]),
            forall|key: DayKey| r@.contains(key) <==> self.days().contains_key(key),
    {
        let mut out: Vec<DayKey> = Vec::new();
        let ghost pairs = self.days.keys().remaining();
        for pair in it: self.days.keys()
            invariant
                it.seq() == pairs,
                into_iter_keys(self.days.keys()) == pairs.unref(),
                out@.len() == it.index(),
                forall|i: int| 0 <= i < out@.len() ==> (#[trigger] out@[i]).pair() == *pairs[i],
        {
            out.push(DayKey::new(pair.0, pair.1));
        }
        proof {
            assert forall|i: int, j: int| 0 <= i < j < out@.len() implies out@[i].before(
                out@[j],
            ) by {
                lemma_keys_ascend(pairs, i, j);
            }
            assert forall|key: DayKey| out@.contains(key) <==> self.days().contains_key(key) by {
                if out@.contains(key) {
                    let i = choose|i: int| 0 <= i < out@.len() && out@[i] == key;
                    assert(pairs.unref()[i] == key.pair());
                }
                if self.days().contains_key(key) {
                    let i = choose|i: int|
                        0 <= i < pairs.unref().len() && pairs.unref()[i] == key.pair();
                    assert(out@[i] == key);
                }
            }
        }
        out
    }

    /// The table that shows the forecast: the line on the place, then the
    /// lines of the days in the order of their keys.
    pub open spec fn table(&self) -> Seq<LineView> {
        seq![LineView::Place(self.place())] + day_lines(self.days(), self.key_seq())
    }

    /// The lines of the table that shows the forecast, from the top.
    pub fn lines(&self) -> (r: Vec<TableLine<'_>>)
        ensures
            line_views(r@) == self.table(),
    {
        let keys = self.day_keys();
        let mut out: Vec<TableLine<'_>> = Vec::new();
        out.push(TableLine::Place(&self.location));
        let ghost top = seq![LineView::Place(self.place())];
        let mut i: usize = 0;
        while i < keys.len()
            invariant
                i <= keys.len(),
                top == seq![LineView::Place(self.place())],
                keys@ == self.key_seq(),
                forall|key: DayKey| keys@.contains(key) ==> self.days().contains_key(key),
                line_views(out@) == top + day_lines(self.days(), keys@.take(i as int)),
            decreases keys.len() - i,
        {
            let key = keys[i];
            let ghost head = line_views(out@);
            let ghost opening = seq![LineView::Day(key), LineView::Columns];
            out.push(TableLine::Day(key));
            out.push(TableLine::Columns);
            assert(keys@.contains(key));
            match self.sections(&key) {
                Some(sections) => {
                    let mut j: usize = 0;
                    while j < sections.len()
                        invariant
                            j <= sections.len(),
                            section_views(sections@) == self.days()[key],
                            line_views(out@) == head + opening + rows_of(
                                self.days()[key].take(j as int),
                            ),
                        decreases sections.len() - j,
                    {
                        let ghost shown = line_views(out@);
                        out.push(TableLine::Row(&sections[j]));
                        proof {
                            let day = self.days()[key];
                            assert(line_views(out@) =~= shown.push(LineView::Row(day[j as int])));
                        }
                        j = j + 1;
                    }
                },
                None => {},
            }
            proof {
                let done = keys@.take(i + 1);
                assert(done.drop_last() =~= keys@.take(i as int));
            }
            i = i + 1;
        }
        assert(keys@.take(i as int) =~= keys@);
        out
    }

    /// The number of days.
    pub fn day_count(&self) -> (r: usize)
        ensures
            self.days().dom().finite(),
            r == self.days().dom().len(),
            r == self.key_seq().len(),
    {
        let keys = self.day_keys();
        proof {
            assert forall|i: int, j: int| 0 <= i < j < keys@.len() implies keys@[i]
                != keys@[j] by {
                assert(keys@[i].before(keys@[j]));
            }
            assert(keys@.to_set() =~= self.days().dom());
            keys@.unique_seq_to_set();
            vstd::seq_lib::seq_to_set_is_finite(keys@);
        }
        keys.len()
    }

    /// The sections of a day, in the order in which the samples came; `None`
    /// where the forecast has nothing on that day. A day that the forecast
    /// has is never empty.
    pub fn sections(&self, key: &DayKey) -> (r: Option<&Vec<WeatherSection>>)
        ensures
            match r {
                Some(sections) => {
                    &&& self.days().contains_key(*key)
                    &&& section_views(sections@) == self.days()[*key]
                    &&& sections@.len() > 0
                },
                None => !self.days().contains_key(*key),
            },
    {
        proof {
            use_type_invariant(self);
        }
        let pair = (key.month, key.day);
        self.days.get(&pair)
    }
}

} // verus!
