//! Calendar dates of the proleptic Gregorian calendar, counted in days.
//!
//! A date is a year, a month and a day. Its day number counts days with
//! January 1 of year 1 as day 1, and everything that is said of dates (their
//! order, their weekday, which date comes next) is said over day numbers.

use chrono::Datelike;
use vstd::prelude::*;

verus! {

/// The first year that a date can have.
pub const MIN_YEAR: i32 = -262143;

/// The last year that a date can have.
pub const MAX_YEAR: i32 = 262142;

/// Whether February has a 29th day.
pub open spec fn leap_year(y: int) -> bool {
    y % 4 == 0 && (y % 100 != 0 || y % 400 == 0)
}

/// The number of days of a month.
pub open spec fn days_in_month(y: int, m: int) -> int {
    if m == 2 {
        if leap_year(y) {
            29
        } else {
            28
        }
    } else if m == 4 || m == 6 || m == 9 || m == 11 {
        30
    } else {
        31
    }
}

/// The number of days of a year that lie before a month.
pub open spec fn days_before_month(y: int, m: int) -> int
    decreases m,
{
    if m <= 1 {
        0
    } else {
        days_before_month(y, m - 1) + days_in_month(y, m - 1)
    }
}

/// The number of days between January 1 of year 1 and January 1 of year `y`.
pub open spec fn days_before_year(y: int) -> int {
    365 * (y - 1) + (y - 1) / 4 - (y - 1) / 100 + (y - 1) / 400
}

/// A calendar date.
#[derive(Clone, Copy, Debug, PartialEq, Eq, Structural)]
pub struct Date {
    pub year: i32,
    pub month: u32,
    pub day: u32,
}

impl Date {
    /// Whether the month exists and has that day.
    pub open spec fn proper(self) -> bool {
        &&& 1 <= self.month <= 12
        &&& 1 <= self.day <= days_in_month(self.year as int, self.month as int)
    }

    /// Whether the date exists and its year is one that dates can have.
    pub open spec fn valid(self) -> bool {
        &&& self.proper()
        &&& MIN_YEAR <= self.year <= MAX_YEAR
    }

    /// The day number of a date: January 1 of year 1 is day 1.
    pub open spec fn day_number(self) -> int {
        days_before_year(self.year as int) + days_before_month(
            self.year as int,
            self.month as int,
        ) + self.day
    }

    /// The weekday of a date: 1 for Monday up to 7 for Sunday.
    pub open spec fn weekday_number(self) -> int {
        (self.day_number() - 1) % 7 + 1
    }

    /// Whether no date comes after this one.
    pub open spec fn is_last(self) -> bool {
        self.year == MAX_YEAR && self.month == 12 && self.day == 31
    }

    /// The date of the day after.
    pub open spec fn next(self) -> Date {
        if self.day < days_in_month(self.year as int, self.month as int) {
            Date { year: self.year, month: self.month, day: (self.day + 1) as u32 }
        } else if self.month < 12 {
            Date { year: self.year, month: (self.month + 1) as u32, day: 1 }
        } else {
            Date { year: (self.year + 1) as i32, month: 1, day: 1 }
        }
    }

    /// Whether this date is an earlier day than another.
    pub fn is_before(self, other: Date) -> (r: bool)
        requires
            self.proper(),
            other.proper(),
        ensures
            r == (self.day_number() < other.day_number()),
    {
        proof {
            lemma_order(self, other);
            lemma_order(other, self);
        }
        self.year < other.year || (self.year == other.year && (self.month < other.month || (
        self.month == other.month && self.day < other.day)))
    }

    /// The date of the day after, where there is one.
    pub fn succ(self) -> (r: Option<Date>)
        requires
            self.valid(),
        ensures
            r == (if self.is_last() {
                None::<Date>
            } else {
                Some(self.next())
            }),
            r matches Some(d) ==> d.valid() && d.day_number() == self.day_number() + 1,
    {
        proof {
            lemma_next(self);
        }
        naive_succ_opt(self)
    }

    /// The weekday: 1 for Monday up to 7 for Sunday.
    pub fn weekday(self) -> (r: u32)
        requires
            self.valid(),
        ensures
            r == self.weekday_number(),
            1 <= r <= 7,
    {
        naive_weekday(self)
    }
}

/// Calls `chrono::NaiveDate::succ_opt`: the date of the next day, and none
/// after the last date of the calendar, December 31 of its last year.
#[verifier::external_body]
fn naive_succ_opt(date: Date) -> (r: Option<Date>)
    requires
        date.valid(),
    ensures
        r == (if date.is_last() {
            None::<Date>
        } else {
            Some(date.next())
        }),
{
    let naive = chrono::NaiveDate::from_ymd_opt(date.year, date.month, date.day).unwrap();
    naive.succ_opt().map(|d| Date { year: d.year(), month: d.month(), day: d.day() })
}

/// Calls `chrono::NaiveDate::weekday` and `chrono::Weekday::number_from_monday`:
/// weekdays repeat every seven days, and January 1 of year 1 is a Monday.
#[verifier::external_body]
fn naive_weekday(date: Date) -> (r: u32)
    requires
        date.valid(),
    ensures
        r == date.weekday_number(),
{
    let naive = chrono::NaiveDate::from_ymd_opt(date.year, date.month, date.day).unwrap();
    naive.weekday().number_from_monday()
}

/// The days before each month of a year.
proof fn lemma_month_table(y: int)
    ensures
        days_before_month(y, 1) == 0,
        days_before_month(y, 2) == 31,
        days_before_month(y, 3) == 31 + days_in_month(y, 2),
        days_before_month(y, 4) == 62 + days_in_month(y, 2),
        days_before_month(y, 5) == 92 + days_in_month(y, 2),
        days_before_month(y, 6) == 123 + days_in_month(y, 2),
        days_before_month(y, 7) == 153 + days_in_month(y, 2),
        days_before_month(y, 8) == 184 + days_in_month(y, 2),
        days_before_month(y, 9) == 215 + days_in_month(y, 2),
        days_before_month(y, 10) == 245 + days_in_month(y, 2),
        days_before_month(y, 11) == 276 + days_in_month(y, 2),
        days_before_month(y, 12) == 306 + days_in_month(y, 2),
{
    reveal_with_fuel(days_before_month, 13);
}

/// A year is as long as its months.
proof fn lemma_year_length(y: int)
    ensures
        days_before_year(y + 1) == days_before_year(y) + 337 + days_in_month(y, 2),
{
}

/// Years start in order.
proof fn lemma_years_in_order(a: int, b: int)
    requires
        a <= b,
    ensures
        days_before_year(a) <= days_before_year(b),
{
}

/// An earlier year, month or day is an earlier day.
proof fn lemma_order(a: Date, b: Date)
    requires
        a.proper(),
        b.proper(),
    ensures
        a.year < b.year || (a.year == b.year && (a.month < b.month || (a.month == b.month && a.day
            < b.day))) ==> a.day_number() < b.day_number(),
{
    lemma_month_table(a.year as int);
    lemma_month_table(b.year as int);
    lemma_year_length(a.year as int);
    if a.year < b.year {
        lemma_years_in_order(a.year + 1, b.year as int);
    }
}

/// The day after a date is the next day, a proper date, and within the years
/// that dates can have unless the date is the last one.
proof fn lemma_next(d: Date)
    requires
        d.proper(),
        d.year < i32::MAX,
    ensures
        d.next().proper(),
        d.next().day_number() == d.day_number() + 1,
        d.valid() && !d.is_last() ==> d.next().valid(),
{
    lemma_month_table(d.year as int);
    lemma_year_length(d.year as int);
    lemma_month_table(d.year + 1);
}

/// The day after a date is one day later.
pub proof fn next_day_follows(d: Date)
    requires
        d.valid(),
        !d.is_last(),
    ensures
        d.next().valid(),
        d.next().day_number() == d.day_number() + 1,
{
    lemma_next(d);
}

/// The weekdays follow each other, and Monday follows Sunday.
pub proof fn weekdays_follow(d: Date)
    requires
        d.valid(),
        !d.is_last(),
    ensures
        1 <= d.weekday_number() <= 7,
        d.next().weekday_number() == d.weekday_number() % 7 + 1,
{
    lemma_next(d);
}

/// No two dates are the same day.
pub proof fn day_number_is_injective(a: Date, b: Date)
    requires
        a.proper(),
        b.proper(),
        a.day_number() == b.day_number(),
    ensures
        a == b,
{
    lemma_order(a, b);
    lemma_order(b, a);
}

/// Days are ordered as their years, then their months, then their days are.
pub proof fn days_are_ordered_as_written(a: Date, b: Date)
    requires
        a.proper(),
        b.proper(),
    ensures
        a.day_number() < b.day_number() <==> a.year < b.year || (a.year == b.year && (a.month
            < b.month || (a.month == b.month && a.day < b.day))),
{
    lemma_order(a, b);
    lemma_order(b, a);
}

/// The months have 31 days, but for four that have 30 and for February, which
/// has 29 in each fourth year and 28 otherwise. Of the years that end a century
/// only each fourth has a February 29.
pub proof fn months_have_their_days(d: Date)
    ensures
        d.proper() <==> {
            &&& 1 <= d.month <= 12
            &&& 1 <= d.day <= 31
            &&& d.month == 4 || d.month == 6 || d.month == 9 || d.month == 11 ==> d.day <= 30
            &&& d.month == 2 ==> d.day <= 29
            &&& d.month == 2 && d.day == 29 ==> d.year % 4 == 0
            &&& d.month == 2 && d.day == 29 && d.year % 100 == 0 ==> d.year % 400 == 0
        },
{
}

/// The first of a month follows the last day of the month before, the first of
/// a year the last of December, and any other day the day before it in the same
/// month.
pub proof fn dates_follow_in_months_and_years(d: Date)
    requires
        d.proper(),
        d.year < i32::MAX,
    ensures
        ({
            let same_month = Date { year: d.year, month: d.month, day: (d.day + 1) as u32 };
            let next_month = Date { year: d.year, month: (d.month + 1) as u32, day: 1 };
            let next_year = Date { year: (d.year + 1) as i32, month: 1, day: 1 };
            &&& same_month.proper() ==> d.next() == same_month
            &&& !same_month.proper() && next_month.proper() ==> d.next() == next_month
            &&& !same_month.proper() && !next_month.proper() ==> d.next() == next_year
        }),
        d.next().day_number() == d.day_number() + 1,
{
    lemma_next(d);
}

/// Days are counted from January 1 of year 1, a Monday, and weekdays by the
/// days since.
pub proof fn days_are_counted_from_a_monday(d: Date)
    ensures
        d.year == 1 && d.month == 1 ==> d.day_number() == d.day,
        1 <= d.weekday_number() <= 7,
        (d.day_number() - d.weekday_number()) % 7 == 0,
        d.valid() && !d.is_last() <==> d.valid() && !(d.year == 262142 && d.month == 12 && d.day
            == 31),
{
}

/// The date with a given day number.
pub open spec fn date_at(n: int) -> Date {
    choose|d: Date| d.proper() && #[trigger] d.day_number() == n
}

/// Every day of the years that dates can have, and of the year before and the
/// year after them, is the day of a date.
pub proof fn every_day_has_a_date(n: int)
    requires
        -95746495 <= n <= 95745764,
    ensures
        date_at(n).proper(),
        date_at(n).day_number() == n,
    decreases n + 95746495,
{
    let first = Date { year: (-262144) as i32, month: 1, day: 1 };
    lemma_month_table(first.year as int);
    if n == -95746495 {
        assert(first.proper() && first.day_number() == n);
    } else {
        every_day_has_a_date(n - 1);
        let d = date_at(n - 1);
        if d.year > 300000 {
            lemma_month_table(d.year as int);
            lemma_years_in_order(300000, d.year as int);
        }
        lemma_next(d);
        assert(d.next().proper() && d.next().day_number() == n);
    }
}

/// A date is the date of its day number.
pub proof fn date_at_day_number(d: Date)
    requires
        d.proper(),
    ensures
        date_at(d.day_number()) == d,
{
    assert(d.proper() && d.day_number() == d.day_number());
    day_number_is_injective(date_at(d.day_number()), d);
}

} // verus!
