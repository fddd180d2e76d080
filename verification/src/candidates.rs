//! The days that a vote offers.

use vstd::prelude::*;

use crate::calendar::Date;
use crate::clock::{utc_now, Instant};
use crate::day_filter::matches_filter;
use crate::errors::{BotError, COLLECT_DAYS};
use crate::text::same_text;
use crate::zone::{make_datetime, Zone};

verus! {

/// A day of a time zone: its date, and the instant at which it begins.
#[derive(Clone, Copy, Debug, PartialEq, Eq, Structural)]
pub struct ZonedDate {
    pub date: Date,
    pub instant: Instant,
}

impl ZonedDate {
    /// Whether the date and the instant exist.
    pub open spec fn valid(self) -> bool {
        self.date.valid() && self.instant.in_range()
    }

    /// Whether the instant is the midnight of the date in a time zone.
    pub open spec fn is_day_of(self, zone: Seq<char>) -> bool {
        self.valid() && crate::zone::is_local_hour(zone, self.instant, self.date, 0)
    }
}

/// The nanoseconds of a day.
pub open spec fn day_nanos() -> int {
    86400int * 1000000000
}

/// The days from `cur` to `end` that begin after the vote ends and that the
/// filter lets through, in order. The scan fails at the first day whose midnight
/// the time zone cannot tell, at the first day after the vote if there is no
/// filter of that name, and at the last day of the calendar.
pub open spec fn scan_days(
    cur: Date,
    end: Date,
    collect_end: Instant,
    filter: Seq<char>,
    zone: Seq<char>,
) -> Result<Seq<ZonedDate>, BotError>
    decreases end.day_number() - cur.day_number() + 1,
    when cur.valid()
    via scan_days_decreases
{
    if end.day_number() < cur.day_number() {
        Ok(Seq::empty())
    } else {
        match crate::zone::local_hour(zone, cur, 0) {
            Err(e) => Err(e),
            Ok(t) => {
                let open = collect_end.at() < t.at();
                if open && !crate::day_filter::known_filter(filter) {
                    Err(BotError::UnknownFilter)
                } else if cur.is_last() {
                    Err(BotError::DateGeneration)
                } else {
                    match scan_days(cur.next(), end, collect_end, filter, zone) {
                        Err(e) => Err(e),
                        Ok(rest) => if open && crate::day_filter::date_passes(filter, cur) == Ok::<bool, BotError>(
                            true,
                        ) {
                            Ok(seq![ZonedDate { date: cur, instant: t }] + rest)
                        } else {
                            Ok(rest)
                        },
                    }
                }
            },
        }
    }
}

#[via_fn]
proof fn scan_days_decreases(
    cur: Date,
    end: Date,
    collect_end: Instant,
    filter: Seq<char>,
    zone: Seq<char>,
) {
    if !cur.is_last() {
        crate::calendar::next_day_follows(cur);
    }
}

/// The days that a vote offers. The last day lies after the first, and the
/// first begins a week from now or later.
pub open spec fn schedule_dates(
    start: Date,
    end: Date,
    collect_end: Instant,
    filter: Seq<char>,
    zone: Seq<char>,
    now: Instant,
) -> Result<Seq<ZonedDate>, BotError> {
    if end.day_number() <= start.day_number() {
        Err(BotError::EndNotAfterStart)
    } else {
        match crate::zone::local_hour(zone, start, 0) {
            Err(e) => Err(e),
            Ok(t) => if t.at() < now.at() + COLLECT_DAYS * day_nanos() {
                Err(BotError::OverlapsVoting)
            } else {
                scan_days(start, end, collect_end, filter, zone)
            },
        }
    }
}

/// What a list of days holds.
pub open spec fn days_view(r: Result<Vec<ZonedDate>, BotError>) -> Result<
    Seq<ZonedDate>,
    BotError,
> {
    match r {
        Ok(v) => Ok(v@),
        Err(e) => Err(e),
    }
}

/// Days in front of what a scan finds.
spec fn with_days_before(before: Seq<ZonedDate>, r: Result<Seq<ZonedDate>, BotError>) -> Result<
    Seq<ZonedDate>,
    BotError,
> {
    match r {
        Ok(rest) => Ok(before + rest),
        Err(e) => Err(e),
    }
}

/// The days that a vote offers, by what the clock says.
pub fn schedule_dates_at(
    start: Date,
    end: Date,
    collect_end_at: Instant,
    filter_type: &str,
    timezone: &Zone,
    now: Instant,
) -> (r: Result<Vec<ZonedDate>, BotError>)
    requires
        start.valid(),
        end.valid(),
        collect_end_at.in_range(),
        now.in_range(),
    ensures
        days_view(r) == schedule_dates(
            start,
            end,
            collect_end_at,
            filter_type@,
            timezone@,
            now,
        ),
        r matches Ok(dates) ==> schedule_dates(
            start,
            end,
            collect_end_at,
            filter_type@,
            timezone@,
            now,
        ) == Ok::<Seq<ZonedDate>, BotError>(dates@),
        r matches Err(e) ==> schedule_dates(
            start,
            end,
            collect_end_at,
            filter_type@,
            timezone@,
            now,
        ) == Err::<Seq<ZonedDate>, BotError>(e),
        r == Err::<Vec<ZonedDate>, BotError>(BotError::EndNotAfterStart) <==> end.day_number()
            <= start.day_number(),
        r matches Ok(dates) ==> forall|i: int|
            0 <= i < dates.len() ==> (#[trigger] dates[i]).is_day_of(timezone@),
        r matches Err(e) ==> !(e is InvalidTimezone),
{
    if !start.is_before(end) {
        return Err(BotError::EndNotAfterStart);
    }
    let first = match make_datetime(timezone, start, 0) {
        Ok(t) => t,
        Err(e) => {
            return Err(e);
        },
    };
    let week: i64 = COLLECT_DAYS * 86400;
    let too_early = first.secs < now.secs + week || (first.secs == now.secs + week && first.nanos
        < now.nanos);
    if too_early {
        return Err(BotError::OverlapsVoting);
    }
    let mut dates: Vec<ZonedDate> = Vec::new();
    let mut current = start;
    let ghost whole = scan_days(start, end, collect_end_at, filter_type@, timezone@);
    proof {
        let rest = scan_days(current, end, collect_end_at, filter_type@, timezone@);
        assert(rest is Ok ==> dates@ + rest->Ok_0 =~= rest->Ok_0);
    }
    while !end.is_before(current)
        invariant
            current.valid(),
            end.valid(),
            collect_end_at.in_range(),
            whole == schedule_dates(
                start,
                end,
                collect_end_at,
                filter_type@,
                timezone@,
                now,
            ),
            whole == with_days_before(
                dates@,
                scan_days(current, end, collect_end_at, filter_type@, timezone@),
            ),
            forall|i: int|
                0 <= i < dates.len() ==> (#[trigger] dates[i]).is_day_of(timezone@),
        decreases end.day_number() - current.day_number() + 1,
    {
        let ghost before = dates@;
        let midnight = match make_datetime(timezone, current, 0) {
            Ok(t) => t,
            Err(e) => {
                return Err(e);
            },
        };
        let next = current.succ();
        if collect_end_at.is_before(midnight) {
            if next.is_none() && same_text(filter_type, "holydays") {
                return Err(BotError::DateGeneration);
            }
            match matches_filter(current, filter_type) {
                Ok(passes) => {
                    if passes {
                        dates.push(ZonedDate { date: current, instant: midnight });
                    }
                },
                Err(e) => {
                    return Err(e);
                },
            }
        }
        match next {
            Some(d) => {
                proof {
                    let rest = scan_days(d, end, collect_end_at, filter_type@, timezone@);
                    let day = ZonedDate { date: current, instant: midnight };
                    assert(rest is Ok ==> before + (seq![day] + rest->Ok_0) =~= before.push(day)
                        + rest->Ok_0);
                }
                current = d;
            },
            None => {
                return Err(BotError::DateGeneration);
            },
        }
    }
    assert(dates@ + Seq::<ZonedDate>::empty() =~= dates@);
    Ok(dates)
}

/// The days that a vote offers that is opened now.
pub fn generate_schedule_dates(
    start: Date,
    end: Date,
    collect_end_at: Instant,
    filter_type: &str,
    timezone: &Zone,
) -> (r: Result<Vec<ZonedDate>, BotError>)
    requires
        start.valid(),
        end.valid(),
        collect_end_at.in_range(),
    ensures
        exists|now: Instant|
            now.in_range() && now.secs >= 0 && days_view(r) == #[trigger] schedule_dates(
                start,
                end,
                collect_end_at,
                filter_type@,
                timezone@,
                now,
            ),
        r matches Ok(dates) ==> forall|i: int|
            0 <= i < dates.len() ==> (#[trigger] dates[i]).is_day_of(timezone@),
{
    let now = utc_now();
    schedule_dates_at(start, end, collect_end_at, filter_type, timezone, now)
}

/// Whether a day begins after an instant in a time zone.
spec fn begins_after(zone: Seq<char>, d: Date, t: Instant) -> bool {
    crate::zone::zone_instant(zone, (d.day_number() - 719163) * 86400) matches Some(s) && t.secs
        * 1000000000 + t.nanos < (s as i64) * 1000000000
}

/// When a scan succeeds, and what it fails with.
proof fn lemma_scan_outcome(
    cur: Date,
    end: Date,
    collect_end: Instant,
    filter: Seq<char>,
    zone: Seq<char>,
)
    requires
        cur.valid(),
        end.valid(),
    ensures
        cur.day_number() <= end.day_number() ==> (scan_days(
            cur,
            end,
            collect_end,
            filter,
            zone,
        ) is Ok <==> {
            &&& forall|d: Date|
                d.valid() && cur.day_number() <= #[trigger] d.day_number() <= end.day_number()
                    ==> crate::zone::zone_instant(zone, (d.day_number() - 719163) * 86400) is Some
            &&& !end.is_last()
            &&& crate::day_filter::known_filter(filter) || forall|d: Date|
                d.valid() && cur.day_number() <= #[trigger] d.day_number() <= end.day_number()
                    ==> !begins_after(zone, d, collect_end)
        }),
        scan_days(cur, end, collect_end, filter, zone) matches Err(e) ==> {
            ||| e == BotError::UnresolvedLocalTime && exists|d: Date|
                d.valid() && cur.day_number() <= #[trigger] d.day_number() <= end.day_number()
                    && crate::zone::zone_instant(zone, (d.day_number() - 719163) * 86400) is None
            ||| e == BotError::UnknownFilter && !crate::day_filter::known_filter(filter)
                && exists|d: Date|
                d.valid() && cur.day_number() <= #[trigger] d.day_number() <= end.day_number()
                    && begins_after(zone, d, collect_end)
            ||| e == BotError::DateGeneration && end.is_last()
        },
    decreases end.day_number() - cur.day_number() + 1,
{
    if cur.day_number() <= end.day_number() {
        if cur.is_last() {
            crate::calendar::days_are_ordered_as_written(cur, end);
            crate::calendar::months_have_their_days(end);
            if cur.day_number() == end.day_number() {
                crate::calendar::day_number_is_injective(cur, end);
            }
        } else {
            let next = cur.next();
            crate::calendar::next_day_follows(cur);
            lemma_scan_outcome(next, end, collect_end, filter, zone);
            assert forall|d: Date|
                d.valid() && cur.day_number() <= #[trigger] d.day_number() <= end.day_number()
                    && d.day_number() < next.day_number() implies d == cur by {
                crate::calendar::day_number_is_injective(d, cur);
            }
            if end.is_last() && end.day_number() < next.day_number() {
                crate::calendar::day_number_is_injective(cur, end);
            }
        }
    }
}

/// Days are laid out if and only if the last day lies after the first and is
/// not the last one of the calendar, the time zone has each midnight from the
/// first day to the last once, the first of them is a week from now or later,
/// and there is a filter of that name or no day on which it is asked.
pub proof fn days_are_laid_out_wherever_they_can_be(
    start: Date,
    end: Date,
    collect_end: Instant,
    filter: Seq<char>,
    zone: Seq<char>,
    now: Instant,
)
    requires
        start.valid(),
        end.valid(),
    ensures
        schedule_dates(start, end, collect_end, filter, zone, now) is Ok <==> {
            &&& start.day_number() < end.day_number()
            &&& !(end.year == 262142 && end.month == 12 && end.day == 31)
            &&& forall|d: Date|
                d.valid() && start.day_number() <= #[trigger] d.day_number() <= end.day_number()
                    ==> crate::zone::zone_instant(zone, (d.day_number() - 719163) * 86400) is Some
            &&& (now.secs + 7 * 86400) * 1000000000 + now.nanos <= (crate::zone::zone_instant(
                zone,
                (start.day_number() - 719163) * 86400,
            )->0 as i64) * 1000000000
            &&& filter == "all"@ || filter == "weekday"@ || filter == "weekend"@ || filter
                == "holydays"@ || forall|d: Date|
                d.valid() && start.day_number() <= #[trigger] d.day_number() <= end.day_number()
                    ==> (crate::zone::zone_instant(
                    zone,
                    (d.day_number() - 719163) * 86400,
                )->0 as i64) * 1000000000 <= collect_end.secs * 1000000000 + collect_end.nanos
        },
{
    if start.day_number() < end.day_number() {
        lemma_scan_outcome(start, end, collect_end, filter, zone);
    }
}

/// Each error of a layout has its own reason. The last day not lying after the
/// first comes first, then the first midnight, then its being too early.
pub proof fn layouts_fail_for_a_reason(
    start: Date,
    end: Date,
    collect_end: Instant,
    filter: Seq<char>,
    zone: Seq<char>,
    now: Instant,
)
    requires
        start.valid(),
        end.valid(),
    ensures
        ({
            let r = schedule_dates(start, end, collect_end, filter, zone, now);
            let first = crate::zone::zone_instant(zone, (start.day_number() - 719163) * 86400);
            let a_week_from_now = (now.secs + 7 * 86400) * 1000000000 + now.nanos;
            &&& r == Err::<Seq<ZonedDate>, BotError>(BotError::EndNotAfterStart)
                <==> end.day_number() <= start.day_number()
            &&& r == Err::<Seq<ZonedDate>, BotError>(BotError::OverlapsVoting)
                <==> start.day_number() < end.day_number() && first is Some && (first->0 as i64)
                * 1000000000 < a_week_from_now
            &&& r matches Err(e) ==> {
                ||| e == BotError::EndNotAfterStart
                ||| e == BotError::OverlapsVoting
                ||| e == BotError::UnresolvedLocalTime && exists|d: Date|
                    d.valid() && start.day_number() <= #[trigger] d.day_number()
                        <= end.day_number() && crate::zone::zone_instant(
                        zone,
                        (d.day_number() - 719163) * 86400,
                    ) is None
                ||| e == BotError::UnknownFilter && filter != "all"@ && filter != "weekday"@
                    && filter != "weekend"@ && filter != "holydays"@
                ||| e == BotError::DateGeneration && end.year == 262142 && end.month == 12
                    && end.day == 31
            }
        }),
{
    assert(start.valid() && start.day_number() <= start.day_number());
    if start.day_number() < end.day_number() {
        lemma_scan_outcome(start, end, collect_end, filter, zone);
    }
}

/// Whether a vote offers a day: it lies between the first and the last day,
/// begins after the vote, and passes the filter.
pub open spec fn offers(
    d: Date,
    start: Date,
    end: Date,
    collect_end: Instant,
    filter: Seq<char>,
    zone: Seq<char>,
) -> bool {
    &&& d.valid()
    &&& start.day_number() <= d.day_number() <= end.day_number()
    &&& crate::zone::local_hour(zone, d, 0) matches Ok(t) && collect_end.at() < t.at()
    &&& crate::day_filter::date_passes(filter, d) == Ok::<bool, BotError>(true)
}

/// A scan that succeeds finds every day that is offered and no other, with the
/// instant at which it begins, each once and in order.
pub proof fn offered_days_are_found_in_order(
    start: Date,
    end: Date,
    collect_end: Instant,
    filter: Seq<char>,
    zone: Seq<char>,
)
    requires
        start.valid(),
        scan_days(start, end, collect_end, filter, zone) is Ok,
    ensures
        ({
            let days = scan_days(start, end, collect_end, filter, zone)->Ok_0;
            &&& forall|i: int|
                0 <= i < days.len() ==> offers(
                    (#[trigger] days[i]).date,
                    start,
                    end,
                    collect_end,
                    filter,
                    zone,
                ) && crate::zone::local_hour(zone, days[i].date, 0) == Ok::<Instant, BotError>(days[i].instant)
            &&& forall|i: int, j: int|
                0 <= i < j < days.len() ==> (#[trigger] days[i]).date.day_number() < (
                #[trigger] days[j]).date.day_number()
            &&& forall|d: Date| #[trigger]
                offers(d, start, end, collect_end, filter, zone) ==> exists|i: int|
                    0 <= i < days.len() && (#[trigger] days[i]).date == d
        }),
    decreases end.day_number() - start.day_number() + 1,
{
    let days = scan_days(start, end, collect_end, filter, zone)->Ok_0;
    if end.day_number() >= start.day_number() {
        crate::calendar::next_day_follows(start);
        offered_days_are_found_in_order(start.next(), end, collect_end, filter, zone);
        let rest = scan_days(start.next(), end, collect_end, filter, zone)->Ok_0;
        assert forall|i: int| 0 <= i < days.len() implies offers(
            (#[trigger] days[i]).date,
            start,
            end,
            collect_end,
            filter,
            zone,
        ) && crate::zone::local_hour(zone, days[i].date, 0) == Ok::<Instant, BotError>(days[i].instant) by {
            if days.len() == rest.len() {
                assert(days[i] == rest[i]);
            } else if i > 0 {
                assert(days[i] == rest[i - 1]);
            }
        }
        assert forall|i: int, j: int| 0 <= i < j < days.len() implies (
        #[trigger] days[i]).date.day_number() < (#[trigger] days[j]).date.day_number() by {
            if days.len() == rest.len() {
                assert(days[i] == rest[i] && days[j] == rest[j]);
            } else {
                assert(days[j] == rest[j - 1]);
                if i > 0 {
                    assert(days[i] == rest[i - 1]);
                }
            }
        }
        assert forall|d: Date| #[trigger]
            offers(d, start, end, collect_end, filter, zone) implies exists|i: int|
            0 <= i < days.len() && (#[trigger] days[i]).date == d by {
            if d.day_number() == start.day_number() {
                crate::calendar::day_number_is_injective(d, start);
                assert(days[0].date == d);
            } else {
                assert(offers(d, start.next(), end, collect_end, filter, zone));
                let i = choose|i: int| 0 <= i < rest.len() && (#[trigger] rest[i]).date == d;
                if days.len() == rest.len() {
                    assert(days[i].date == d);
                } else {
                    assert(days[i + 1].date == d);
                }
            }
        }
    }
}

/// A day is offered if and only if it lies between the first and the last day,
/// the vote ends before the second at which it begins, and it is of the kind
/// that the filter names.
pub proof fn days_are_offered_by_place_begin_and_kind(
    d: Date,
    start: Date,
    end: Date,
    collect_end: Instant,
    filter: Seq<char>,
    zone: Seq<char>,
)
    requires
        d.valid(),
    ensures
        ({
            let begin = crate::zone::zone_instant(zone, (d.day_number() - 719163) * 86400);
            let weekend = (d.day_number() - 1) % 7 >= 5;
            let holiday = crate::day_filter::jp_holiday(
                d.year as int,
                d.month as int,
                d.day as int,
            );
            offers(d, start, end, collect_end, filter, zone) <==> {
                &&& start.day_number() <= d.day_number() <= end.day_number()
                &&& begin is Some
                &&& collect_end.secs * 1000000000 + collect_end.nanos < (begin->0 as i64)
                    * 1000000000
                &&& {
                    ||| filter == "all"@
                    ||| filter == "weekday"@ && !weekend
                    ||| filter == "weekend"@ && weekend
                    ||| filter == "holydays"@ && (weekend || holiday)
                }
            }
        }),
{
    crate::day_filter::filters_decide_by_date(filter, d);
}

/// A layout holds a day if and only if it is offered, with the second at which
/// it begins, in order and once.
pub proof fn layouts_hold_the_days_offered(
    start: Date,
    end: Date,
    collect_end: Instant,
    filter: Seq<char>,
    zone: Seq<char>,
    now: Instant,
)
    requires
        start.valid(),
        schedule_dates(start, end, collect_end, filter, zone, now) is Ok,
    ensures
        ({
            let days = schedule_dates(start, end, collect_end, filter, zone, now)->Ok_0;
            &&& forall|i: int, j: int|
                0 <= i < j < days.len() ==> (#[trigger] days[i]).date.day_number() < (
                #[trigger] days[j]).date.day_number()
            &&& forall|i: int|
                0 <= i < days.len() ==> (#[trigger] days[i]).instant.nanos == 0
                    && days[i].instant.secs == crate::zone::zone_instant(
                    zone,
                    (days[i].date.day_number() - 719163) * 86400,
                )->0 as i64
            &&& forall|i: int|
                0 <= i < days.len() ==> (#[trigger] days[i]).date.valid() && offers(
                    days[i].date,
                    start,
                    end,
                    collect_end,
                    filter,
                    zone,
                )
            &&& forall|d: Date|
                d.valid() && #[trigger] offers(d, start, end, collect_end, filter, zone)
                    ==> exists|i: int| 0 <= i < days.len() && (#[trigger] days[i]).date == d
        }),
{
    offered_days_are_found_in_order(start, end, collect_end, filter, zone);
}

} // verus!
