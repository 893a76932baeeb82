//! What it means to group a list of samples by day, and what follows from it.

use crate::day_key::DayKey;
use crate::display::{SectionView, WeatherSection};
use vstd::prelude::*;

verus! {

/// A sample that has been given its place in time: the day and the hour of
/// the day it falls on, and the section that shows it.
pub struct Placed {
    pub key: DayKey,
    pub hour: u8,
    pub section: SectionView,
}

/// What a day, an hour and a section stand for.
pub open spec fn placed(item: (DayKey, u8, WeatherSection)) -> Placed {
    Placed { key: item.0, hour: item.1, section: item.2@ }
}

/// What each of the items stands for, in their order.
pub open spec fn placed_all(items: Seq<(DayKey, u8, WeatherSection)>) -> Seq<Placed> {
    items.map_values(|item: (DayKey, u8, WeatherSection)| placed(item))
}

/// Whether every hour of the list is an hour of the day.
pub open spec fn hours_of_day(hours: Seq<u8>) -> bool {
    forall|i: int| 0 <= i < hours.len() ==> hours[i] <= 23
}

/// Whether every hour of the list is an hour of the day.
pub fn hours_are_of_day(hours: &Vec<u8>) -> (r: bool)
    ensures
        r == hours_of_day(hours@),
{
    let mut h: usize = 0;
    while h < hours.len()
        invariant
            h <= hours.len(),
            forall|i: int| 0 <= i < h ==> hours@[i] <= 23,
        decreases hours.len() - h,
    {
        if hours[h] > 23 {
            return false;
        }
        h = h + 1;
    }
    true
}

/// Whether the sample belongs to the day `key`: it falls on that day and not
/// on an excluded hour.
pub open spec fn lands_in(sample: Placed, excluded: Set<u8>, key: DayKey) -> bool {
    !excluded.contains(sample.hour) && sample.key == key
}

/// The sections of the day `key`: one for each sample of the list that
/// belongs to the day, in the order of the list.
pub open spec fn bucket(list: Seq<Placed>, excluded: Set<u8>, key: DayKey) -> Seq<
    SectionView,
> {
    list.filter(|sample: Placed| lands_in(sample, excluded, key)).map_values(
        |sample: Placed| sample.section,
    )
}

/// The list grouped by day: every day that has a sample, with its sections.
pub open spec fn grouped(list: Seq<Placed>, excluded: Set<u8>) -> Map<
    DayKey,
    Seq<SectionView>,
> {
    Map::new(
        |key: DayKey| bucket(list, excluded, key).len() > 0,
        |key: DayKey| bucket(list, excluded, key),
    )
}

/// One more sample at the end of the list goes to the end of its day, and
/// changes no other day.
pub proof fn lemma_bucket_push(
    list: Seq<Placed>,
    sample: Placed,
    excluded: Set<u8>,
    key: DayKey,
)
    ensures
        bucket(list.push(sample), excluded, key) == if lands_in(sample, excluded, key) {
            bucket(list, excluded, key).push(sample.section)
        } else {
            bucket(list, excluded, key)
        },
{
    reveal(Seq::filter);
    assert(list.push(sample).drop_last() =~= list);
}

/// The days of two lists, one after the other, are the days of the first
/// followed by the days of the second.
pub proof fn lemma_bucket_concat(
    first: Seq<Placed>,
    second: Seq<Placed>,
    excluded: Set<u8>,
    key: DayKey,
)
    ensures
        bucket(first + second, excluded, key) == bucket(first, excluded, key) + bucket(
            second,
            excluded,
            key,
        ),
{
    Seq::filter_distributes_over_add(
        first,
        second,
        |sample: Placed| lands_in(sample, excluded, key),
    );
}

/// A list of one sample has that sample's section on its day and nothing
/// on any other.
pub proof fn lemma_bucket_single(sample: Placed, excluded: Set<u8>, key: DayKey)
    ensures
        bucket(seq![sample], excluded, key) == if lands_in(sample, excluded, key) {
            seq![sample.section]
        } else {
            Seq::<SectionView>::empty()
        },
{
    reveal(Seq::filter);
    lemma_bucket_push(Seq::empty(), sample, excluded, key);
}

/// The list around its sample at `i`: what is before it, the sample, and what
/// is after it.
proof fn lemma_bucket_around(list: Seq<Placed>, i: int, excluded: Set<u8>, key: DayKey)
    requires
        0 <= i < list.len(),
    ensures
        bucket(list, excluded, key) == bucket(list.take(i), excluded, key) + bucket(
            seq![list[i]],
            excluded,
            key,
        ) + bucket(list.skip(i + 1), excluded, key),
        bucket(list.remove(i), excluded, key) == bucket(list.take(i), excluded, key) + bucket(
            list.skip(i + 1),
            excluded,
            key,
        ),
{
    let before = list.take(i);
    let after = list.skip(i + 1);
    assert(list =~= before + seq![list[i]] + after);
    lemma_bucket_concat(before, seq![list[i]], excluded, key);
    lemma_bucket_concat(before + seq![list[i]], after, excluded, key);
    lemma_bucket_concat(before, after, excluded, key);
}

/// The slot of the sample at `i` in the grouped list: its day, and how many
/// samples stand before it on that day. `None` for a sample at an excluded hour.
pub open spec fn slot_of(list: Seq<Placed>, excluded: Set<u8>, i: int) -> Option<
    (DayKey, int),
> {
    if excluded.contains(list[i].hour) {
        None
    } else {
        Some(
            (
                list[i].key,
                bucket(list.take(i), excluded, list[i].key).len() as int,
            ),
        )
    }
}

/// A sample at an excluded hour is on no day: it has no slot, and every day
/// is what it would be without the sample.
pub proof fn lemma_excluded_sample_is_dropped(
    list: Seq<Placed>,
    excluded: Set<u8>,
    i: int,
)
    requires
        0 <= i < list.len(),
        excluded.contains(list[i].hour),
    ensures
        slot_of(list, excluded, i) is None,
        forall|key: DayKey|
            #[trigger] bucket(list, excluded, key) == bucket(list.remove(i), excluded, key),
{
    assert forall|key: DayKey|
        #[trigger] bucket(list, excluded, key) == bucket(list.remove(i), excluded, key) by {
        lemma_bucket_around(list, i, excluded, key);
        lemma_bucket_single(list[i], excluded, key);
    }
}

/// A sample at an hour that is not excluded is on its own day exactly once:
/// its section stands in its slot, its day is one section longer than
/// without the sample, and every other day is what it would be without it.
pub proof fn lemma_kept_sample_is_placed_once(
    list: Seq<Placed>,
    excluded: Set<u8>,
    i: int,
)
    requires
        0 <= i < list.len(),
        !excluded.contains(list[i].hour),
    ensures
        slot_of(list, excluded, i) matches Some((key, at)) && {
            &&& key == list[i].key
            &&& 0 <= at < bucket(list, excluded, key).len()
            &&& bucket(list, excluded, key)[at] == list[i].section
            &&& bucket(list, excluded, key).len() == bucket(list.remove(i), excluded, key).len()
                + 1
        },
        forall|other: DayKey|
            other != list[i].key ==> #[trigger] bucket(list, excluded, other) == bucket(
                list.remove(i),
                excluded,
                other,
            ),
{
    let own = list[i].key;
    lemma_bucket_around(list, i, excluded, own);
    lemma_bucket_single(list[i], excluded, own);
    assert forall|other: DayKey| other != own implies #[trigger] bucket(list, excluded, other)
        == bucket(list.remove(i), excluded, other) by {
        lemma_bucket_around(list, i, excluded, other);
        lemma_bucket_single(list[i], excluded, other);
    }
}

/// Two samples never share a slot.
pub proof fn lemma_slots_differ(list: Seq<Placed>, excluded: Set<u8>, i: int, j: int)
    requires
        0 <= i < j < list.len(),
        slot_of(list, excluded, i) is Some,
    ensures
        slot_of(list, excluded, i) != slot_of(list, excluded, j),
{
    let own = list[i].key;
    if slot_of(list, excluded, j) is Some && list[j].key == own {
        let upto = list.take(j);
        assert(upto.take(i) =~= list.take(i));
        lemma_bucket_around(upto, i, excluded, own);
        lemma_bucket_single(list[i], excluded, own);
    }
}

/// Every slot of every day is the slot of a sample of the list.
pub proof fn lemma_every_slot_is_taken(
    list: Seq<Placed>,
    excluded: Set<u8>,
    key: DayKey,
    at: int,
)
    requires
        0 <= at < bucket(list, excluded, key).len(),
    ensures
        exists|i: int| 0 <= i < list.len() && slot_of(list, excluded, i) == Some((key, at)),
    decreases list.len(),
{
    reveal(Seq::filter);
    if list.len() > 0 {
        let shorter = list.drop_last();
        let last = list.last();
        lemma_bucket_push(shorter, last, excluded, key);
        if lands_in(last, excluded, key) && at == bucket(shorter, excluded, key).len() {
            // The slot is the one of the last sample.
            assert(slot_of(list, excluded, list.len() - 1) == Some((key, at)));
        } else {
            // The slot is there without the last sample, which changes no
            // slot before it.
            lemma_every_slot_is_taken(shorter, excluded, key, at);
            let i = choose|i: int|
                0 <= i < shorter.len() && slot_of(shorter, excluded, i) == Some((key, at));
            assert(list.take(i) =~= shorter.take(i));
            assert(slot_of(list, excluded, i) == Some((key, at)));
        }
    }
}

/// Every day of the grouped list is the day of a sample that is not at an
/// excluded hour.
pub proof fn lemma_day_has_a_sample(list: Seq<Placed>, excluded: Set<u8>, key: DayKey)
    requires
        grouped(list, excluded).contains_key(key),
    ensures
        exists|i: int| 0 <= i < list.len() && lands_in(#[trigger] list[i], excluded, key),
{
    lemma_every_slot_is_taken(list, excluded, key, 0);
    let first = choose|i: int|
        0 <= i < list.len() && slot_of(list, excluded, i) == Some((key, 0int));
    assert(lands_in(list[first], excluded, key));
}

/// How many samples of the list fall on an excluded hour.
pub open spec fn excluded_count(list: Seq<Placed>, excluded: Set<u8>) -> nat {
    list.filter(|sample: Placed| excluded.contains(sample.hour)).len()
}

/// How many sections the days `keys` have between them.
pub open spec fn sections_on(list: Seq<Placed>, excluded: Set<u8>, keys: Seq<DayKey>) -> nat
    decreases keys.len(),
{
    if keys.len() == 0 {
        0
    } else {
        sections_on(list, excluded, keys.drop_last()) + bucket(
            list,
            excluded,
            keys.last(),
        ).len()
    }
}

/// One more sample at the end of the list adds one section to the days
/// `keys` where it belongs to one of them, and none where it belongs to none.
proof fn lemma_sections_on_push(
    list: Seq<Placed>,
    sample: Placed,
    excluded: Set<u8>,
    keys: Seq<DayKey>,
)
    requires
        keys.no_duplicates(),
    ensures
        sections_on(list.push(sample), excluded, keys) == sections_on(list, excluded, keys) + (
        if !excluded.contains(sample.hour) && keys.contains(sample.key) {
            1nat
        } else {
            0nat
        }),
    decreases keys.len(),
{
    if keys.len() > 0 {
        let rest = keys.drop_last();
        let key = keys.last();
        lemma_bucket_push(list, sample, excluded, key);
        lemma_sections_on_push(list, sample, excluded, rest);
        // The key of the sample is the last of the keys or one of the rest,
        // and never both.
        if sample.key != key && keys.contains(sample.key) {
            let at = choose|at: int| 0 <= at < keys.len() && keys[at] == sample.key;
            assert(rest[at] == sample.key);
        }
    }
}

/// Grouping loses no sample and makes none: the sections of all the days and
/// the samples at excluded hours are together as many as the samples of the
/// list. `keys` are the days, each once, and among them the day of every
/// sample that is not excluded.
pub proof fn lemma_grouping_is_complete(
    list: Seq<Placed>,
    excluded: Set<u8>,
    keys: Seq<DayKey>,
)
    requires
        keys.no_duplicates(),
        forall|i: int|
            0 <= i < list.len() && !excluded.contains((#[trigger] list[i]).hour)
                ==> keys.contains(list[i].key),
    ensures
        sections_on(list, excluded, keys) + excluded_count(list, excluded) == list.len(),
    decreases list.len(),
{
    reveal(Seq::filter);
    if list.len() == 0 {
        assert(list =~= Seq::<Placed>::empty());
        lemma_sections_on_nothing(excluded, keys);
    } else {
        let shorter = list.drop_last();
        assert(list =~= shorter.push(list.last()));
        assert forall|i: int|
            0 <= i < shorter.len() && !excluded.contains(
                (#[trigger] shorter[i]).hour,
            ) implies keys.contains(shorter[i].key) by {}
        lemma_grouping_is_complete(shorter, excluded, keys);
        lemma_sections_on_push(shorter, list.last(), excluded, keys);
    }
}

/// How many sections the days `keys` of a forecast have between them.
pub open spec fn sections_of_days(days: Map<DayKey, Seq<SectionView>>, keys: Seq<DayKey>) -> nat
    decreases keys.len(),
{
    if keys.len() == 0 {
        0
    } else {
        sections_of_days(days, keys.drop_last()) + days[keys.last()].len()
    }
}

/// A forecast accounts for every sample: where `days` are the days of the
/// grouped list and `keys` are their keys, each once, the sections of all the
/// days and the samples at excluded hours are together as many as the samples
/// of the list.
pub proof fn lemma_forecast_is_complete(
    list: Seq<Placed>,
    excluded: Set<u8>,
    days: Map<DayKey, Seq<SectionView>>,
    keys: Seq<DayKey>,
)
    requires
        days == grouped(list, excluded),
        keys.no_duplicates(),
        forall|key: DayKey| keys.contains(key) <==> days.contains_key(key),
    ensures
        sections_of_days(days, keys) + excluded_count(list, excluded) == list.len(),
{
    assert forall|i: int|
        0 <= i < list.len() && !excluded.contains((#[trigger] list[i]).hour) implies keys.contains(
        list[i].key,
    ) by {
        lemma_kept_sample_is_placed_once(list, excluded, i);
    }
    lemma_grouping_is_complete(list, excluded, keys);
    lemma_sections_of_grouped(list, excluded, days, keys, keys.len() as int);
    assert(keys.take(keys.len() as int) =~= keys);
}

/// The sections of the first `n` of the days `keys`, counted in the forecast
/// and counted in the list, are as many.
proof fn lemma_sections_of_grouped(
    list: Seq<Placed>,
    excluded: Set<u8>,
    days: Map<DayKey, Seq<SectionView>>,
    keys: Seq<DayKey>,
    n: int,
)
    requires
        days == grouped(list, excluded),
        forall|key: DayKey| keys.contains(key) ==> days.contains_key(key),
        0 <= n <= keys.len(),
    ensures
        sections_of_days(days, keys.take(n)) == sections_on(list, excluded, keys.take(n)),
    decreases n,
{
    if n > 0 {
        lemma_sections_of_grouped(list, excluded, days, keys, n - 1);
        assert(keys.take(n).drop_last() =~= keys.take(n - 1));
        assert(keys.contains(keys[n - 1]));
    }
}

/// The days of an empty list have no section.
proof fn lemma_sections_on_nothing(excluded: Set<u8>, keys: Seq<DayKey>)
    ensures
        sections_on(Seq::<Placed>::empty(), excluded, keys) == 0,
    decreases keys.len(),
{
    reveal(Seq::filter);
    if keys.len() > 0 {
        lemma_sections_on_nothing(excluded, keys.drop_last());
    }
}

} // verus!
