//! The staggered re-check schedule.
//!
//! A tracked gallery is looked at again on the days of the month that its
//! stagger seed divides; the seed grows with the age of the gallery's message,
//! so that young galleries are checked every day and old ones twice a month.

use crate::text::text_view;
use chrono::{Datelike, NaiveDate, TimeDelta};
use vstd::prelude::*;

verus! {

/// The number of the day `year`-`month`-`day` in the proleptic Gregorian
/// calendar, counted from day 1 on January 1 of year 1, as `chrono` computes
/// it; `None` where `chrono` has no such date.
pub uninterp spec fn day_number_of(year: i32, month: u32, day: u32) -> Option<i32>;

/// `NaiveDate::from_ymd_opt` followed by `Datelike::num_days_from_ce`: the
/// day number of a calendar date, or `None` where the date does not exist or
/// lies outside the range that `chrono` covers.
#[verifier::external_body]
fn day_number(year: i32, month: u32, day: u32) -> (n: Option<i32>)
    ensures
        n == day_number_of(year, month, day),
{
    match NaiveDate::from_ymd_opt(year, month, day) {
        Some(date) => Some(date.num_days_from_ce()),
        None => None,
    }
}

/// The date that lies `days` days before `year`-`month`-`day`, as `chrono`
/// computes it; `None` where `chrono` has no such date to start from or to
/// arrive at.
pub uninterp spec fn date_before_of(year: i32, month: u32, day: u32, days: i64) -> Option<
    (i32, u32, u32),
>;

/// `NaiveDate::checked_sub_signed` of a `TimeDelta` of whole days: the date
/// that many days earlier, or later for a negative number, as year, month
/// and day.
#[verifier::external_body]
fn date_before(year: i32, month: u32, day: u32, days: i64) -> (before: Option<(i32, u32, u32)>)
    ensures
        before == date_before_of(year, month, day, days),
{
    let date = NaiveDate::from_ymd_opt(year, month, day)?;
    let delta = TimeDelta::try_days(days)?;
    let before = date.checked_sub_signed(delta)?;
    Some((before.year(), before.month(), before.day()))
}

/// How `chrono` writes the date `year`-`month`-`day`: the year in four
/// digits, or with a sign and five where it does not fit in four, then
/// month and day in two digits each, with hyphens between; `None` where
/// `chrono` has no such date.
pub uninterp spec fn date_text_of(year: i32, month: u32, day: u32) -> Option<Seq<char>>;

/// The `Display` of `NaiveDate`: the date as text.
#[verifier::external_body]
fn date_text(year: i32, month: u32, day: u32) -> (text: Option<String>)
    ensures
        text_view(text) == date_text_of(year, month, day),
{
    match NaiveDate::from_ymd_opt(year, month, day) {
        Some(date) => Some(date.to_string()),
        None => None,
    }
}

/// A calendar date that exists.
#[derive(Clone, Copy, Debug)]
pub struct Date {
    year: i32,
    month: u32,
    day: u32,
}

impl Date {
    #[verifier::type_invariant]
    spec fn on_calendar(self) -> bool {
        day_number_of(self.year, self.month, self.day) is Some
    }

    pub closed spec fn spec_year(&self) -> i32 {
        self.year
    }

    pub closed spec fn spec_month(&self) -> u32 {
        self.month
    }

    pub closed spec fn spec_day(&self) -> u32 {
        self.day
    }

    /// The day number of this date.
    pub open spec fn number(&self) -> int {
        day_number_of(self.spec_year(), self.spec_month(), self.spec_day()).unwrap() as int
    }

    /// The date `year`-`month`-`day`, if there is such a day.
    pub fn new(year: i32, month: u32, day: u32) -> (date: Option<Date>)
        ensures
            date is Some <==> day_number_of(year, month, day) is Some,
            date matches Some(d) ==> d.spec_year() == year && d.spec_month() == month
                && d.spec_day() == day,
    {
        match day_number(year, month, day) {
            Some(_) => Some(Date { year, month, day }),
            None => None,
        }
    }

    #[verifier::when_used_as_spec(spec_year)]
    pub fn year(&self) -> (y: i32)
        ensures
            y == self.spec_year(),
    {
        self.year
    }

    #[verifier::when_used_as_spec(spec_month)]
    pub fn month(&self) -> (m: u32)
        ensures
            m == self.spec_month(),
    {
        self.month
    }

    /// The day of the month.
    #[verifier::when_used_as_spec(spec_day)]
    pub fn day(&self) -> (d: u32)
        ensures
            d == self.spec_day(),
    {
        self.day
    }

    /// The date `days` days before this one, or after it for a negative
    /// number, where there is such a date.
    pub open spec fn before(&self, days: i64) -> Option<(i32, u32, u32)> {
        match date_before_of(self.spec_year(), self.spec_month(), self.spec_day(), days) {
            Some((y, m, d)) => if day_number_of(y, m, d) is Some {
                Some((y, m, d))
            } else {
                None
            },
            None => None,
        }
    }

    /// The date `days` days before this one, or after it for a negative
    /// number; `None` where the calendar of `chrono` does not reach that far.
    pub fn days_before(&self, days: i64) -> (date: Option<Date>)
        ensures
            fields(date) == self.before(days),
    {
        match date_before(self.year, self.month, self.day, days) {
            Some((year, month, day)) => Date::new(year, month, day),
            None => None,
        }
    }

    /// The date as text, the way `chrono` writes it.
    pub fn text(&self) -> (text: Option<String>)
        ensures
            text_view(text) == date_text_of(self.spec_year(), self.spec_month(), self.spec_day()),
    {
        date_text(self.year, self.month, self.day)
    }

    /// The number of days from `earlier` to this date; negative where
    /// `earlier` is the later of the two.
    pub fn days_since(&self, earlier: &Date) -> (days: i64)
        ensures
            days == self.number() - earlier.number(),
    {
        proof {
            use_type_invariant(self);
            use_type_invariant(earlier);
        }
        let to: i64 = match day_number(self.year, self.month, self.day) {
            Some(n) => n as i64,
            None => 0,
        };
        let from: i64 = match day_number(earlier.year, earlier.month, earlier.day) {
            Some(n) => n as i64,
            None => 0,
        };
        to - from
    }
}

/// The year, month and day of a date that may be absent.
pub open spec fn fields(date: Option<Date>) -> Option<(i32, u32, u32)> {
    match date {
        Some(d) => Some((d.spec_year(), d.spec_month(), d.spec_day())),
        None => None,
    }
}

/// The stagger seed for a message of the given age in days: the divisor that
/// the day of the month must be a multiple of for a gated check to run.
pub open spec fn seed_of_age(age_days: int) -> int {
    if age_days < 2 {
        1
    } else if age_days < 7 {
        3
    } else if age_days < 14 {
        7
    } else {
        14
    }
}

/// Whether a check runs: always when it is not gated, and otherwise on the
/// days of the month that the seed divides.
pub open spec fn check_is_due(age_days: int, day_of_month: int, gated: bool) -> bool {
    !gated || day_of_month % seed_of_age(age_days) == 0
}

/// The stagger seed for a message that is `age_days` old.
pub fn stagger_seed(age_days: i64) -> (seed: u32)
    ensures
        seed == seed_of_age(age_days as int),
{
    if age_days < 2 {
        1
    } else if age_days < 7 {
        3
    } else if age_days < 14 {
        7
    } else {
        14
    }
}

/// Whether a gallery whose message is `age_days` old is checked on the given
/// day of the month.
pub fn is_due(age_days: i64, day_of_month: u32, gated: bool) -> (due: bool)
    ensures
        due == check_is_due(age_days as int, day_of_month as int, gated),
{
    let seed: u32 = stagger_seed(age_days);
    !gated || day_of_month % seed == 0
}

/// Whether a gallery whose message went out on `published` is checked on `today`.
pub fn is_due_on(today: &Date, published: &Date, gated: bool) -> (due: bool)
    ensures
        due == check_is_due(today.number() - published.number(), today.day() as int, gated),
{
    is_due(today.days_since(published), today.day(), gated)
}

/// Every seed is one of 1, 3, 7 and 14, and an older message never has a
/// smaller seed than a younger one.
pub proof fn lemma_seed_grows_with_age(younger: int, older: int)
    requires
        younger <= older,
    ensures
        seed_of_age(younger) <= seed_of_age(older),
        seed_of_age(older) == 1 || seed_of_age(older) == 3 || seed_of_age(older) == 7
            || seed_of_age(older) == 14,
{
}

/// A check that is not gated always runs, and a gated check with seed 7
/// runs exactly on the days of the month that 7 divides.
pub proof fn lemma_gated_check_follows_seed(age_days: int, day_of_month: int)
    ensures
        check_is_due(age_days, day_of_month, false),
        check_is_due(age_days, day_of_month, true) <==> day_of_month % seed_of_age(age_days) == 0,
        7 <= age_days < 14 ==> (check_is_due(age_days, day_of_month, true) <==> day_of_month % 7
            == 0),
        age_days < 2 ==> check_is_due(age_days, day_of_month, true),
{
}

} // verus!
