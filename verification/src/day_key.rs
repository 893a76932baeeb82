//! The calendar key that samples are grouped by.

use crate::text::{
    chars_of, lemma_padded_reads_back, padded, parse_u8, parse_u8_in, push_padded,
};
use std::cmp::Ordering;
use vstd::prelude::*;
use vstd::std_specs::cmp::PartialOrdSpecImpl;

verus! {

/// A day of the year: a month and a day of that month, with no year.
///
/// Keys are ordered by month, then by day. Two instants on the same month
/// and day of different years have the same key.
#[derive(Clone, Copy, Debug, Hash, PartialEq, Eq, Ord, Structural)]
pub struct DayKey {
    pub month: u8,
    pub day: u8,
}

/// Why a text is no day key.
#[derive(Clone, Copy, Debug, PartialEq, Eq, Structural)]
pub enum ParseDayKeyError {
    /// What stands before the first `-` is no number from 0 to 255.
    InvalidMonth,
    /// The text has a month and no `-` after it.
    MissingSeparator,
    /// What stands after the first `-`, up to the next one, is no number
    /// from 0 to 255.
    InvalidDay,
}

/// The index of the first `-` in `s`, or the length of `s` where it has none.
pub open spec fn first_dash(s: Seq<char>) -> int
    decreases s.len(),
{
    if s.len() == 0 || s[0] == '-' {
        0
    } else {
        1 + first_dash(s.skip(1))
    }
}

/// What a text reads as: a number, a `-`, and a number; what follows a second
/// `-` is ignored. The first number is the month, the second the day.
pub open spec fn parse_day_key(s: Seq<char>) -> Result<DayKey, ParseDayKeyError> {
    let a = first_dash(s);
    match parse_u8(s.take(a)) {
        None => Err(ParseDayKeyError::InvalidMonth),
        Some(month) => if a == s.len() {
            Err(ParseDayKeyError::MissingSeparator)
        } else {
            let rest = s.skip(a + 1);
            match parse_u8(rest.take(first_dash(rest))) {
                None => Err(ParseDayKeyError::InvalidDay),
                Some(day) => Ok(DayKey { month, day }),
            }
        },
    }
}

impl DayKey {
    /// Whether a date of the calendar can have this key.
    pub open spec fn on_calendar(self) -> bool {
        1 <= self.month <= 12 && 1 <= self.day <= 31
    }

    /// The order of keys: by month, then by day.
    pub open spec fn before(self, other: DayKey) -> bool {
        self.month < other.month || (self.month == other.month && self.day < other.day)
    }

    /// The key as a pair, month first.
    pub open spec fn pair(self) -> (u8, u8) {
        (self.month, self.day)
    }

    /// The canonical text of the key: month and day with two digits each (three
    /// where the number is over 99), and a `-` between them.
    pub open spec fn text(self) -> Seq<char> {
        padded(self.month as nat, 2) + seq!['-'] + padded(self.day as nat, 2)
    }

    /// The key of the given month and day.
    pub fn new(month: u8, day: u8) -> (r: DayKey)
        ensures
            r == (DayKey { month, day }),
    {
        DayKey { month, day }
    }

    /// The month of the key.
    pub fn month(&self) -> (r: u8)
        ensures
            r == self.month,
    {
        self.month
    }

    /// The day of the month of the key.
    pub fn day(&self) -> (r: u8)
        ensures
            r == self.day,
    {
        self.day
    }

    /// Whether `self` comes before `other` in the order of keys.
    pub fn is_before(&self, other: &DayKey) -> (r: bool)
        ensures
            r == self.before(*other),
    {
        self.month < other.month || (self.month == other.month && self.day < other.day)
    }

    /// The canonical text of the key.
    pub fn to_string(&self) -> (r: String)
        ensures
            r@ == self.text(),
    {
        let mut out = String::new();
        push_padded(&mut out, self.month as u32, 2);
        out.append("-");
        push_padded(&mut out, self.day as u32, 2);
        proof {
            reveal_strlit("-");
        }
        out
    }

    /// Reads a key from its text.
    pub fn from_str(s: &str) -> (r: Result<DayKey, ParseDayKeyError>)
        ensures
            r == parse_day_key(s@),
    {
        let chars = chars_of(s);
        let a = find_dash(&chars, 0);
        proof {
            assert(chars@.skip(0) =~= chars@);
        }
        let month = match parse_u8_in(&chars, 0, a) {
            None => {
                return Err(ParseDayKeyError::InvalidMonth);
            },
            Some(m) => m,
        };
        if a == chars.len() {
            return Err(ParseDayKeyError::MissingSeparator);
        }
        let b = find_dash(&chars, a + 1);
        proof {
            let rest = s@.skip(a + 1);
            assert(chars@.subrange(a + 1, b as int) =~= rest.take(first_dash(rest)));
        }
        match parse_u8_in(&chars, a + 1, b) {
            None => Err(ParseDayKeyError::InvalidDay),
            Some(day) => Ok(DayKey { month, day }),
        }
    }
}

/// The index of the first `-` at or after `from`, or the length of `chars`.
fn find_dash(chars: &Vec<char>, from: usize) -> (r: usize)
    requires
        from <= chars.len(),
    ensures
        from <= r <= chars.len(),
        r - from == first_dash(chars@.skip(from as int)),
{
    let mut i: usize = from;
    while i < chars.len() && chars[i] != '-'
        invariant
            from <= i <= chars.len(),
            first_dash(chars@.skip(from as int)) == (i - from) + first_dash(chars@.skip(i as int)),
        decreases chars.len() - i,
    {
        proof {
            assert(chars@.skip(i as int).skip(1) =~= chars@.skip(i + 1));
        }
        i = i + 1;
    }
    i
}

/// A text whose first `a` characters are no `-`, and which ends there or has
/// a `-` there, has its first `-` at `a`.
proof fn lemma_first_dash_at(s: Seq<char>, a: int)
    requires
        0 <= a <= s.len(),
        forall|j: int| 0 <= j < a ==> s[j] != '-',
        a == s.len() || s[a] == '-',
    ensures
        first_dash(s) == a,
    decreases a,
{
    if a > 0 {
        let rest = s.skip(1);
        assert forall|j: int| 0 <= j < a - 1 implies rest[j] != '-' by {}
        lemma_first_dash_at(rest, a - 1);
    }
}

/// A key's text reads back as the key: writing a key with `to_string` and
/// reading the text with `from_str` gives the key again, whatever its month
/// and day.
pub proof fn lemma_text_round_trip(key: DayKey)
    ensures
        parse_day_key(key.text()) == Ok::<DayKey, ParseDayKeyError>(key),
{
    let month = padded(key.month as nat, 2);
    let day = padded(key.day as nat, 2);
    let text = key.text();
    lemma_padded_reads_back(key.month as nat, 2);
    lemma_padded_reads_back(key.day as nat, 2);
    // The digits of the month hold no `-`, so the first one is the separator.
    assert forall|j: int| 0 <= j < month.len() implies text[j] != '-' by {}
    lemma_first_dash_at(text, month.len() as int);
    assert(text.take(month.len() as int) =~= month);
    // What follows the separator is the day, which holds no `-` either.
    assert(text.skip(month.len() as int + 1) =~= day);
    assert forall|j: int| 0 <= j < day.len() implies day[j] != '-' by {}
    lemma_first_dash_at(day, day.len() as int);
    assert(day.take(day.len() as int) =~= day);
}

/// The order of keys is a strict total order: no key is before itself, of
/// two different keys exactly one is before the other, and the order is
/// transitive.
pub proof fn lemma_order_is_total(a: DayKey, b: DayKey, c: DayKey)
    ensures
        !a.before(a),
        a == b || a.before(b) || b.before(a),
        !(a.before(b) && b.before(a)),
        a.before(b) && b.before(c) ==> a.before(c),
{
}

impl PartialOrd for DayKey {
    fn partial_cmp(&self, other: &DayKey) -> (r: Option<Ordering>) {
        if self.month < other.month {
            Some(Ordering::Less)
        } else if self.month > other.month {
            Some(Ordering::Greater)
        } else if self.day < other.day {
            Some(Ordering::Less)
        } else if self.day > other.day {
            Some(Ordering::Greater)
        } else {
            Some(Ordering::Equal)
        }
    }
}

impl PartialOrdSpecImpl for DayKey {
    open spec fn obeys_partial_cmp_spec() -> bool {
        true
    }

    open spec fn partial_cmp_spec(&self, other: &DayKey) -> Option<Ordering> {
        if self.before(*other) {
            Some(Ordering::Less)
        } else if other.before(*self) {
            Some(Ordering::Greater)
        } else {
            Some(Ordering::Equal)
        }
    }
}

} // verus!
