//! Calendar fields of an instant.
//!
//! The calendar itself is chrono's: one function here asks it for the fields
//! of an instant, and what it answers is taken on trust. What the crate makes
//! of the fields (labels and timestamps) is verified.

use crate::text::{padded, push_padded};
use chrono::{DateTime, Datelike, FixedOffset, Timelike};
use vstd::prelude::*;

verus! {

/// The calendar date and time of day of an instant, read on a clock at a
/// fixed offset from UTC.
#[derive(Clone, Copy, Debug, PartialEq, Eq, Structural)]
pub struct CivilFields {
    /// Year of the proleptic Gregorian calendar.
    pub year: i32,
    /// Month, from 1.
    pub month: u32,
    /// Day of the month, from 1.
    pub day: u32,
    /// Day of the week, counted from Monday as 0.
    pub weekday: u32,
    /// Hour of the day, from 0.
    pub hour: u32,
    /// Minute of the hour, from 0.
    pub minute: u32,
}

impl CivilFields {
    /// Whether every field is one that a calendar and a clock can show.
    pub open spec fn in_range(self) -> bool {
        &&& 1 <= self.month <= 12
        &&& 1 <= self.day <= 31
        &&& self.weekday <= 6
        &&& self.hour <= 23
        &&& self.minute <= 59
    }
}

/// The last second, counted from 1970-01-01T00:00:00Z, of the year 9999.
pub const LAST_FOUR_DIGIT_SECOND: i64 = 253_402_300_799;

/// The fields that chrono gives for the instant `secs` seconds after
/// 1970-01-01T00:00:00Z on a clock `east` seconds ahead of UTC; `None` where
/// it has none for that instant or that offset.
pub uninterp spec fn civil_fields_of(secs: int, east: int) -> Option<CivilFields>;

/// What is known of the fields that chrono gives for the instant `secs` on a
/// clock `east` seconds ahead of UTC, whatever the date is.
///
/// Where there are fields: the offset is of less than a day; the fields are
/// in range; hour and minute are those of the local second `secs + east` on
/// a clock that counts 86 400 seconds to the day; the day of the week is
/// counted on from Thursday, 1 January 1970; and a local second from 1970 to
/// the end of the year 9999 lies in a year from 1970 to 9999. And there are
/// fields for every instant from 1970 to the end of the year 9999 at every
/// offset of less than a day.
pub open spec fn fields_are_known(secs: int, east: int) -> bool {
    &&& civil_fields_of(secs, east) matches Some(at) ==> {
        &&& -86_400 < east < 86_400
        &&& at.in_range()
        &&& at.hour == ((secs + east) % 86_400) / 3_600
        &&& at.minute == ((secs + east) % 3_600) / 60
        &&& at.weekday == ((secs + east) / 86_400 + 3) % 7
        &&& 0 <= secs + east <= LAST_FOUR_DIGIT_SECOND ==> 1970 <= at.year <= 9999
    }
    &&& 0 <= secs <= LAST_FOUR_DIGIT_SECOND && -86_400 < east < 86_400 ==> civil_fields_of(
        secs,
        east,
    ) is Some
}

/// Asks chrono for the calendar fields of an instant at a fixed offset:
/// `FixedOffset::east_opt`, `DateTime::from_timestamp` and
/// `DateTime::with_timezone`, then the accessors of `Datelike` and `Timelike`
/// and `Weekday::num_days_from_monday`.
///
/// Taken on trust: the answer depends on the two arguments alone; its fields
/// lie in the ranges that chrono documents for them; hour and minute are
/// those of the second of the day that `secs + east` falls on, days being
/// 86 400 seconds long; the day of the week is the one that the local day
/// `(secs + east) / 86 400` has when days are counted on from 1 January
/// 1970, a Thursday; a local second from 0 to the last of the year 9999 lies
/// in a year from 1970 to 9999; there is an answer for every instant from
/// 1970 to the end of the year 9999 at every offset of less than a day; and
/// there is none at an offset of a day or more.
#[verifier::external_body]
pub(crate) fn civil_fields(secs: i64, east: i32) -> (r: Option<CivilFields>)
    ensures
        r == civil_fields_of(secs as int, east as int),
        r matches Some(f) ==> f.in_range(),
        r matches Some(f) ==> f.hour == ((secs + east) % 86_400) / 3_600,
        r matches Some(f) ==> f.minute == ((secs + east) % 3_600) / 60,
        r matches Some(f) ==> f.weekday == ((secs + east) / 86_400 + 3) % 7,
        r matches Some(f) ==> (0 <= secs + east <= LAST_FOUR_DIGIT_SECOND ==> 1970 <= f.year),
        r matches Some(f) ==> (0 <= secs + east <= LAST_FOUR_DIGIT_SECOND ==> f.year <= 9999),
        0 <= secs <= LAST_FOUR_DIGIT_SECOND && -86_400 < east < 86_400 ==> r is Some,
        r is Some ==> -86_400 < east < 86_400,
{
    let zone = FixedOffset::east_opt(east)?;
    let at = DateTime::from_timestamp(secs, 0)?.with_timezone(&zone);
    Some(
        CivilFields {
            year: at.year(),
            month: at.month(),
            day: at.day(),
            weekday: at.weekday().num_days_from_monday(),
            hour: at.hour(),
            minute: at.minute(),
        },
    )
}

/// The three-letter English name of a day of the week, counted from Monday
/// as 0. A number past 6 reads as Sunday.
pub open spec fn weekday_label(weekday: u32) -> Seq<char> {
    if weekday == 0 {
        seq!['M', 'o', 'n']
    } else if weekday == 1 {
        seq!['T', 'u', 'e']
    } else if weekday == 2 {
        seq!['W', 'e', 'd']
    } else if weekday == 3 {
        seq!['T', 'h', 'u']
    } else if weekday == 4 {
        seq!['F', 'r', 'i']
    } else if weekday == 5 {
        seq!['S', 'a', 't']
    } else {
        seq!['S', 'u', 'n']
    }
}

/// A year as text: four digits for the years 0 to 9999; a sign and at least
/// four digits for every other year.
pub open spec fn year_text(year: int) -> Seq<char> {
    if 0 <= year <= 9999 {
        padded(year as nat, 4)
    } else if year > 9999 {
        seq!['+'] + padded(year as nat, 4)
    } else {
        seq!['-'] + padded((-year) as nat, 4)
    }
}

/// Month, day, hour and minute as `MM-DD HH:MM`.
pub open spec fn month_day_time_text(f: CivilFields) -> Seq<char> {
    padded(f.month as nat, 2) + seq!['-'] + padded(f.day as nat, 2) + seq![' '] + padded(
        f.hour as nat,
        2,
    ) + seq![':'] + padded(f.minute as nat, 2)
}

/// The full timestamp `YYYY-MM-DD HH:MM`.
pub open spec fn timestamp_text(f: CivilFields) -> Seq<char> {
    year_text(f.year as int) + seq!['-'] + month_day_time_text(f)
}

impl CivilFields {
    /// The three-letter English name of the day of the week.
    pub fn weekday_name(&self) -> (r: &'static str)
        ensures
            r@ == weekday_label(self.weekday),
    {
        proof {
            reveal_strlit("Mon");
            reveal_strlit("Tue");
            reveal_strlit("Wed");
            reveal_strlit("Thu");
            reveal_strlit("Fri");
            reveal_strlit("Sat");
            reveal_strlit("Sun");
        }
        if self.weekday == 0 {
            "Mon"
        } else if self.weekday == 1 {
            "Tue"
        } else if self.weekday == 2 {
            "Wed"
        } else if self.weekday == 3 {
            "Thu"
        } else if self.weekday == 4 {
            "Fri"
        } else if self.weekday == 5 {
            "Sat"
        } else {
            "Sun"
        }
    }

    /// Month, day, hour and minute as `MM-DD HH:MM`.
    pub fn month_day_time(&self) -> (r: String)
        ensures
            r@ == month_day_time_text(*self),
    {
        let mut out = String::new();
        self.push_month_day_time(&mut out);
        out
    }

    /// The full timestamp `YYYY-MM-DD HH:MM`.
    pub fn timestamp(&self) -> (r: String)
        ensures
            r@ == timestamp_text(*self),
    {
        let mut out = String::new();
        let year: i64 = self.year as i64;
        if 0 <= year && year <= 9999 {
            push_padded(&mut out, year as u32, 4);
        } else if year > 9999 {
            out.append("+");
            push_padded(&mut out, year as u32, 4);
        } else {
            out.append("-");
            push_padded(&mut out, (-year) as u32, 4);
        }
        out.append("-");
        self.push_month_day_time(&mut out);
        proof {
            reveal_strlit("+");
            reveal_strlit("-");
        }
        out
    }

    fn push_month_day_time(&self, out: &mut String)
        ensures
            final(out)@ == old(out)@ + month_day_time_text(*self),
    {
        push_padded(out, self.month, 2);
        out.append("-");
        push_padded(out, self.day, 2);
        out.append(" ");
        push_padded(out, self.hour, 2);
        out.append(":");
        push_padded(out, self.minute, 2);
        proof {
            reveal_strlit("-");
            reveal_strlit(" ");
            reveal_strlit(":");
        }
    }
}

} // verus!
