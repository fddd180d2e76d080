//! Instants, the time between them, and how they are written.

use vstd::prelude::*;

use crate::calendar::Date;

verus! {

/// The first second that an instant can lie in, counted from the start of 1970.
pub const MIN_SECS: i64 = -8334601228800;

/// The last second that an instant can lie in, counted from the start of 1970.
pub const MAX_SECS: i64 = 8210266876799;

/// The day number of January 1, 1970.
pub const EPOCH_DAY: i32 = 719163;

/// A point in time: whole seconds since the start of 1970 in UTC, and the
/// nanoseconds of the second that it lies in.
#[derive(Clone, Copy, Debug, PartialEq, Eq, Structural)]
pub struct Instant {
    pub secs: i64,
    pub nanos: u32,
}

/// A length of time.
#[derive(Clone, Copy, Debug, PartialEq, Eq, Structural)]
pub struct Span {
    pub secs: u64,
    pub nanos: u32,
}

impl Span {
    /// The length in nanoseconds.
    pub open spec fn length(self) -> int {
        self.secs * 1000000000 + self.nanos
    }
}

impl Instant {
    /// Whether the instant lies within the years that dates can have.
    pub open spec fn in_range(self) -> bool {
        &&& MIN_SECS <= self.secs <= MAX_SECS
        &&& self.nanos < 1000000000
    }

    /// The nanoseconds since the start of 1970.
    pub open spec fn at(self) -> int {
        self.secs * 1000000000 + self.nanos
    }

    /// The instant a number of seconds later.
    pub open spec fn later(self, secs: int) -> Instant {
        Instant { secs: (self.secs + secs) as i64, nanos: self.nanos }
    }

    /// Whether this instant lies before another.
    pub fn is_before(self, other: Instant) -> (r: bool)
        requires
            self.in_range(),
            other.in_range(),
        ensures
            r == (self.at() < other.at()),
            r == (self.secs < other.secs || (self.secs == other.secs && self.nanos < other.nanos)),
    {
        self.secs < other.secs || (self.secs == other.secs && self.nanos < other.nanos)
    }

    /// The instant a number of seconds later.
    pub fn plus_secs(self, secs: u32) -> (r: Instant)
        requires
            self.in_range(),
            self.secs + secs <= MAX_SECS,
        ensures
            r == self.later(secs as int),
            r.secs == self.secs + secs,
            r.nanos == self.nanos,
            r.in_range(),
            r.at() == self.at() + secs * 1000000000,
    {
        Instant { secs: self.secs + secs as i64, nanos: self.nanos }
    }
}

/// The time from `now` until `target`, where `target` does not lie in the past.
pub fn time_until(target: Instant, now: Instant) -> (r: Option<Span>)
    requires
        target.in_range(),
        now.in_range(),
    ensures
        r is Some <==> now.at() <= target.at(),
        r matches Some(s) ==> s.length() == target.at() - now.at() && s.nanos < 1000000000,
        r is None <==> target.secs < now.secs || (target.secs == now.secs && target.nanos
            < now.nanos),
        r matches Some(s) ==> (now.secs + s.secs) * 1000000000 + now.nanos + s.nanos
            == target.secs * 1000000000 + target.nanos,
{
    if target.is_before(now) {
        None
    } else if target.nanos >= now.nanos {
        Some(Span { secs: (target.secs - now.secs) as u64, nanos: target.nanos - now.nanos })
    } else {
        Some(
            Span {
                secs: (target.secs - now.secs - 1) as u64,
                nanos: target.nanos + 1000000000 - now.nanos,
            },
        )
    }
}

/// Calls `chrono::Utc::now`. Which instant it is depends on the machine's
/// clock; it is one that `chrono` can hold, and not before 1970.
#[verifier::external_body]
pub(crate) fn utc_now() -> (r: Instant)
    ensures
        r.in_range(),
        r.secs >= 0,
{
    let now = chrono::Utc::now();
    Instant { secs: now.timestamp(), nanos: now.timestamp_subsec_nanos() }
}

/// The date at a number of seconds since the start of 1970.
pub open spec fn date_of_secs(secs: int) -> Date {
    crate::calendar::date_at(secs / 86400 + EPOCH_DAY)
}

/// The hour of the day at a number of seconds since the start of 1970.
pub open spec fn hour_of_secs(secs: int) -> int {
    secs % 86400 / 3600
}

/// The minute of the hour at a number of seconds since the start of 1970.
pub open spec fn minute_of_secs(secs: int) -> int {
    secs % 3600 / 60
}

/// The seconds between the start of 1970 and a full hour of a date.
pub open spec fn secs_of_hour(d: Date, hour: int) -> int {
    (d.day_number() - EPOCH_DAY) * 86400 + hour * 3600
}

/// At a full hour of a date, the date and the hour are that date and that hour.
pub proof fn full_hour_reads_back(d: Date, hour: int)
    requires
        d.proper(),
        0 <= hour < 24,
    ensures
        date_of_secs(secs_of_hour(d, hour)) == d,
        hour_of_secs(secs_of_hour(d, hour)) == hour,
        minute_of_secs(secs_of_hour(d, hour)) == 0,
{
    crate::calendar::date_at_day_number(d);
}

/// The seconds since the start of 1970 are made up of the date, the hour, the
/// minute and the seconds of the minute.
pub proof fn times_are_made_up_of_their_parts(secs: int)
    requires
        MIN_SECS - 86400 <= secs <= MAX_SECS + 86400,
    ensures
        date_of_secs(secs).proper(),
        0 <= hour_of_secs(secs) < 24,
        0 <= minute_of_secs(secs) < 60,
        secs == (date_of_secs(secs).day_number() - 719163) * 86400 + hour_of_secs(secs) * 3600
            + minute_of_secs(secs) * 60 + secs % 60,
{
    crate::calendar::every_day_has_a_date(secs / 86400 + EPOCH_DAY);
}

/// The day number of January 1, 1970 is where seconds start from.
pub proof fn seconds_start_in_1970(d: Date, hour: int)
    requires
        d.year == 1970,
        d.month == 1,
        d.day == 1,
    ensures
        secs_of_hour(d, hour) == hour * 3600,
{
    reveal_with_fuel(crate::calendar::days_before_month, 2);
}

/// Month and day, as in 06/01.
pub open spec fn month_day(secs: int) -> Seq<char> {
    crate::text::padded(date_of_secs(secs).month as nat, 2) + "/"@ + crate::text::padded(
        date_of_secs(secs).day as nat,
        2,
    )
}

/// Month, day, hour and minute, as in 06/01 21:05.
pub open spec fn month_day_time(secs: int) -> Seq<char> {
    month_day(secs) + " "@ + crate::text::padded(hour_of_secs(secs) as nat, 2) + ":"@
        + crate::text::padded(minute_of_secs(secs) as nat, 2)
}

/// A year with at least four digits, and with its sign unless it has four.
pub open spec fn stamp_year(y: int) -> Seq<char> {
    if y < 0 {
        seq!['-'] + crate::text::padded((-y) as nat, 4)
    } else if y <= 9999 {
        crate::text::padded(y as nat, 4)
    } else {
        seq!['+'] + crate::text::padded(y as nat, 4)
    }
}

/// Date and time in one word, as in 20260601-210500.
pub open spec fn stamp(secs: int) -> Seq<char> {
    stamp_year(date_of_secs(secs).year as int) + crate::text::padded(
        date_of_secs(secs).month as nat,
        2,
    ) + crate::text::padded(date_of_secs(secs).day as nat, 2) + "-"@ + crate::text::padded(
        hour_of_secs(secs) as nat,
        2,
    ) + crate::text::padded(minute_of_secs(secs) as nat, 2) + crate::text::padded(
        (secs % 60) as nat,
        2,
    )
}

/// Calls `chrono::DateTime::format` on an instant, at an offset from UTC in
/// seconds. The date and the time of day that the three formats write are those
/// of the proleptic Gregorian calendar at the instant plus the offset; numbers
/// have leading zeros up to two digits, years up to four and a sign where they
/// have not four digits.
#[verifier::external_body]
fn chrono_format(t: Instant, offset: i32, format: &str) -> (r: String)
    requires
        t.in_range(),
        -86400 < offset < 86400,
        format@ == "%m/%d"@ || format@ == "%m/%d %H:%M"@ || format@ == "%Y%m%d-%H%M%S"@,
    ensures
        format@ == "%m/%d"@ ==> r@ == month_day(t.secs + offset),
        format@ == "%m/%d %H:%M"@ ==> r@ == month_day_time(t.secs + offset),
        format@ == "%Y%m%d-%H%M%S"@ ==> r@ == stamp(t.secs + offset),
{
    let utc = chrono::DateTime::from_timestamp(t.secs, t.nanos).unwrap();
    let zone = chrono::FixedOffset::east_opt(offset).unwrap();
    utc.with_timezone(&zone).format(format).to_string()
}

/// Month and day of an instant, at an offset from UTC in seconds.
pub fn month_day_text(t: Instant, offset: i32) -> (r: String)
    requires
        t.in_range(),
        -86400 < offset < 86400,
    ensures
        r@ == month_day(t.secs + offset),
{
    chrono_format(t, offset, "%m/%d")
}

/// Month, day, hour and minute of an instant, at an offset from UTC in seconds.
pub fn month_day_time_text(t: Instant, offset: i32) -> (r: String)
    requires
        t.in_range(),
        -86400 < offset < 86400,
    ensures
        r@ == month_day_time(t.secs + offset),
{
    chrono_format(t, offset, "%m/%d %H:%M")
}

/// Date and time of an instant in one word, at an offset from UTC in seconds.
pub fn stamp_text(t: Instant, offset: i32) -> (r: String)
    requires
        t.in_range(),
        -86400 < offset < 86400,
    ensures
        r@ == stamp(t.secs + offset),
{
    chrono_format(t, offset, "%Y%m%d-%H%M%S")
}

/// A number of at most two digits is written with two.
proof fn lemma_two_digits(n: nat)
    requires
        n <= 99,
    ensures
        crate::text::padded(n, 2).len() == 2,
        crate::text::digits_value(crate::text::padded(n, 2)) == n,
{
    reveal_with_fuel(crate::text::decimal, 3);
    crate::text::padding_keeps_the_number(n, 2);
}

/// Month, day, hour and minute stand at their places, with two digits each.
pub proof fn times_are_written_by_their_parts(secs: int)
    requires
        MIN_SECS - 86400 <= secs <= MAX_SECS + 86400,
    ensures
        ({
            let d = date_of_secs(secs);
            let s = month_day_time(secs);
            &&& s.len() == 11
            &&& s.take(5) == month_day(secs)
            &&& s[2] == '/' && s[5] == ' ' && s[8] == ':'
            &&& crate::text::digits_value(s.subrange(0, 2)) == d.month
            &&& crate::text::digits_value(s.subrange(3, 5)) == d.day
            &&& crate::text::digits_value(s.subrange(6, 8)) == secs % 86400 / 3600
            &&& crate::text::digits_value(s.subrange(9, 11)) == secs % 3600 / 60
        }),
{
    times_are_made_up_of_their_parts(secs);
    let d = date_of_secs(secs);
    let s = month_day_time(secs);
    lemma_two_digits(d.month as nat);
    lemma_two_digits(d.day as nat);
    lemma_two_digits(hour_of_secs(secs) as nat);
    lemma_two_digits(minute_of_secs(secs) as nat);
    reveal_strlit("/");
    reveal_strlit(" ");
    reveal_strlit(":");
    assert("/"@.len() == 1 && " "@.len() == 1 && ":"@.len() == 1);
    assert(s.take(5) =~= month_day(secs));
    assert(s.subrange(0, 2) =~= crate::text::padded(d.month as nat, 2));
    assert(s.subrange(3, 5) =~= crate::text::padded(d.day as nat, 2));
    assert(s.subrange(6, 8) =~= crate::text::padded(hour_of_secs(secs) as nat, 2));
    assert(s.subrange(9, 11) =~= crate::text::padded(minute_of_secs(secs) as nat, 2));
}

/// A stamp is the year, month and day, a dash, and hour, minute and second, with
/// two digits for all but the year. Years have a sign where they have not four
/// digits.
pub proof fn stamps_are_written_by_their_parts(secs: int)
    requires
        MIN_SECS - 86400 <= secs <= MAX_SECS + 86400,
    ensures
        ({
            let d = date_of_secs(secs);
            let s = stamp(secs);
            let k = s.len() - 11;
            &&& 0 <= d.year <= 9999 ==> s.take(k) == crate::text::padded(d.year as nat, 4)
            &&& d.year > 9999 ==> s.take(k) == seq!['+'] + crate::text::decimal(d.year as nat)
            &&& d.year < 0 ==> s.take(k) == seq!['-'] + crate::text::padded((-d.year) as nat, 4)
            &&& s[k + 4] == '-'
            &&& crate::text::digits_value(s.subrange(k, k + 2)) == d.month
            &&& crate::text::digits_value(s.subrange(k + 2, k + 4)) == d.day
            &&& crate::text::digits_value(s.subrange(k + 5, k + 7)) == secs % 86400 / 3600
            &&& crate::text::digits_value(s.subrange(k + 7, k + 9)) == secs % 3600 / 60
            &&& crate::text::digits_value(s.subrange(k + 9, k + 11)) == secs % 60
        }),
{
    times_are_made_up_of_their_parts(secs);
    let d = date_of_secs(secs);
    let s = stamp(secs);
    let y = stamp_year(d.year as int);
    let k = y.len() as int;
    lemma_two_digits(d.month as nat);
    lemma_two_digits(d.day as nat);
    lemma_two_digits(hour_of_secs(secs) as nat);
    lemma_two_digits(minute_of_secs(secs) as nat);
    lemma_two_digits((secs % 60) as nat);
    reveal_strlit("-");
    assert("-"@.len() == 1);
    assert(s.len() == k + 11);
    assert(s.take(k) =~= y);
    if d.year > 9999 {
        reveal_with_fuel(crate::text::decimal, 5);
        crate::text::lemma_decimal_digits((d.year as nat) / 10000);
    }
    assert(s.subrange(k, k + 2) =~= crate::text::padded(d.month as nat, 2));
    assert(s.subrange(k + 2, k + 4) =~= crate::text::padded(d.day as nat, 2));
    assert(s.subrange(k + 5, k + 7) =~= crate::text::padded(hour_of_secs(secs) as nat, 2));
    assert(s.subrange(k + 7, k + 9) =~= crate::text::padded(minute_of_secs(secs) as nat, 2));
    assert(s.subrange(k + 9, k + 11) =~= crate::text::padded((secs % 60) as nat, 2));
}

} // verus!
