//! Which days a vote can offer: all, working days, weekends, or days off.

use vstd::prelude::*;

use crate::calendar::Date;
use crate::errors::BotError;
use crate::text::same_text;

verus! {

/// Whether `jpholiday` counts a date as a Japanese public holiday.
pub uninterp spec fn jp_holiday(year: int, month: int, day: int) -> bool;

/// Whether a date is a Japanese public holiday.
pub open spec fn is_holiday(d: Date) -> bool {
    jp_holiday(d.year as int, d.month as int, d.day as int)
}

/// Calls `jpholiday::jpholiday::JPHoliday::is_holiday`, which decides by the
/// date alone. It looks at the day after a date too, so the last date of the
/// calendar is left out. Which dates are holidays is left to the name.
#[verifier::external_body]
fn jpholiday_is_holiday(date: Date) -> (r: bool)
    requires
        date.valid(),
        !date.is_last(),
    ensures
        r == jp_holiday(date.year as int, date.month as int, date.day as int),
{
    let naive = jpholiday::chrono::NaiveDate::from_ymd_opt(date.year, date.month, date.day);
    jpholiday::jpholiday::JPHoliday::new().is_holiday(&naive.unwrap())
}

/// Whether a date is a Japanese public holiday.
pub fn is_japanese_holiday(date: Date) -> (r: bool)
    requires
        date.valid(),
        !date.is_last(),
    ensures
        r == is_holiday(date),
{
    jpholiday_is_holiday(date)
}

/// Whether a filter lets a day through, by its weekday (1 for Monday up to 7
/// for Sunday) and by whether it is a holiday.
pub open spec fn day_passes(filter: Seq<char>, weekday: int, holiday: bool) -> Result<
    bool,
    BotError,
> {
    if filter == "all"@ {
        Ok(true)
    } else if filter == "weekday"@ {
        Ok(weekday <= 5)
    } else if filter == "weekend"@ {
        Ok(weekday >= 6)
    } else if filter == "holydays"@ {
        Ok(weekday >= 6 || holiday)
    } else {
        Err(BotError::UnknownFilter)
    }
}

/// Whether a filter lets a date through.
pub open spec fn date_passes(filter: Seq<char>, d: Date) -> Result<bool, BotError> {
    day_passes(filter, d.weekday_number(), is_holiday(d))
}

/// Whether there is a filter of that name.
pub open spec fn known_filter(filter: Seq<char>) -> bool {
    filter == "all"@ || filter == "weekday"@ || filter == "weekend"@ || filter == "holydays"@
}

/// Whether a filter lets a day through, by its weekday and by whether it is a
/// holiday.
pub fn filter_day(filter: &str, weekday: u32, holiday: bool) -> (r: Result<bool, BotError>)
    ensures
        r == day_passes(filter@, weekday as int, holiday),
{
    if same_text(filter, "all") {
        Ok(true)
    } else if same_text(filter, "weekday") {
        Ok(weekday <= 5)
    } else if same_text(filter, "weekend") {
        Ok(weekday >= 6)
    } else if same_text(filter, "holydays") {
        Ok(weekday >= 6 || holiday)
    } else {
        Err(BotError::UnknownFilter)
    }
}

/// Whether a filter lets a date through. Whether the date is a holiday matters
/// to the filter `holydays` on a working day only, and is asked only there.
pub fn matches_filter(date: Date, filter: &str) -> (r: Result<bool, BotError>)
    requires
        date.valid(),
        filter@ == "holydays"@ ==> !date.is_last(),
    ensures
        r == date_passes(filter@, date),
{
    let weekday: u32 = date.weekday();
    let holiday = if same_text(filter, "holydays") && weekday < 6 {
        is_japanese_holiday(date)
    } else {
        false
    };
    let r = filter_day(filter, weekday, holiday);
    proof {
        lemma_filter_names_differ();
    }
    r
}

/// The names of the filters are four different names.
proof fn lemma_filter_names_differ()
    ensures
        "all"@ != "weekday"@,
        "all"@ != "weekend"@,
        "all"@ != "holydays"@,
        "weekday"@ != "weekend"@,
        "weekday"@ != "holydays"@,
        "weekend"@ != "holydays"@,
{
    reveal_strlit("all");
    reveal_strlit("weekday");
    reveal_strlit("weekend");
    reveal_strlit("holydays");
    assert("all"@.len() == 3 && "weekday"@.len() == 7 && "weekend"@.len() == 7);
    assert("holydays"@.len() == 8);
    assert("weekday"@[4] == 'd' && "weekend"@[4] == 'e');
}

/// A filter decides about every date if there is one of that name, and about
/// none otherwise.
pub proof fn filters_are_known_or_refused(filter: Seq<char>, weekday: int, holiday: bool)
    ensures
        day_passes(filter, weekday, holiday) is Ok <==> known_filter(filter),
{
}

/// Of a date, `all` asks nothing, `weekday` and `weekend` ask for its place in
/// the week, and `holydays` lets through the holidays too. Days of the week are
/// counted from a Monday. No other filter decides about any date.
pub proof fn filters_decide_by_date(filter: Seq<char>, d: Date)
    ensures
        date_passes("all"@, d) == Ok::<bool, BotError>(true),
        date_passes("weekday"@, d) == Ok::<bool, BotError>((d.day_number() - 1) % 7 < 5),
        date_passes("weekend"@, d) == Ok::<bool, BotError>((d.day_number() - 1) % 7 >= 5),
        date_passes("holydays"@, d) == Ok::<bool, BotError>(
            (d.day_number() - 1) % 7 >= 5 || jp_holiday(
                d.year as int,
                d.month as int,
                d.day as int,
            ),
        ),
        filter != "all"@ && filter != "weekday"@ && filter != "weekend"@ && filter != "holydays"@
            <==> date_passes(filter, d) == Err::<bool, BotError>(BotError::UnknownFilter),
        known_filter(filter) <==> filter == "all"@ || filter == "weekday"@ || filter == "weekend"@
            || filter == "holydays"@,
{
    lemma_filter_names_differ();
}

/// Every day is a working day or a weekend day and not both, `all` lets both
/// through, and `holydays` lets through the weekend days and the holidays.
pub proof fn filters_divide_the_week(weekday: int, holiday: bool)
    requires
        1 <= weekday <= 7,
    ensures
        day_passes("all"@, weekday, holiday) == Ok::<bool, BotError>(true),
        day_passes("weekday"@, weekday, holiday) == Ok::<bool, BotError>(weekday < 6),
        day_passes("weekend"@, weekday, holiday) == Ok::<bool, BotError>(!(weekday < 6)),
        day_passes("holydays"@, weekday, holiday) == Ok::<bool, BotError>(
            !(weekday < 6) || holiday,
        ),
{
    lemma_filter_names_differ();
}

} // verus!
