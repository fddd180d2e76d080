//! Dates as users write them and as messages show them.

use chrono::Datelike;
use vstd::prelude::*;

use crate::calendar::Date;
use crate::errors::BotError;
use crate::text::{padded_text, signed_padded_text};

verus! {

/// An error of `chrono` from reading a date or a time.
#[verifier::external_type_specification]
#[verifier::external_body]
pub struct ExDateParseError(chrono::ParseError);

/// What `chrono::NaiveDate::parse_from_str` reads from a text by a format: a
/// year, a month and a day, or nothing.
pub uninterp spec fn parsed_date(input: Seq<char>, format: Seq<char>) -> Option<(int, int, int)>;

/// A date of a four-digit year, with `sep` between year, month and day.
pub open spec fn ymd_text(d: Date, sep: Seq<char>) -> Seq<char> {
    crate::text::padded(d.year as nat, 4) + sep + crate::text::padded(d.month as nat, 2) + sep
        + crate::text::padded(d.day as nat, 2)
}

/// Whether the year of a date has no more than four digits.
pub open spec fn four_digit_year(d: Date) -> bool {
    0 <= d.year <= 9999
}

/// Whether a year has no more than four digits, and a month and a day no more
/// than two. They need not be those of a date of the calendar.
pub open spec fn short_numbers(d: Date) -> bool {
    four_digit_year(d) && d.month <= 99 && d.day <= 99
}

/// Whether a character stands at two places of a text.
pub open spec fn occurs_twice(s: Seq<char>, c: char) -> bool {
    exists|i: int, j: int|
        0 <= i < j < s.len() && #[trigger] s[i] == c && #[trigger] s[j] == c
}

/// Whether a reading of a text goes by a separator: nothing is read without two
/// of it, a date that is written with it is read, and what is written like a
/// date and is none is not read.
pub open spec fn reads_written_dates(
    r: Result<Date, chrono::ParseError>,
    input: Seq<char>,
    sep: char,
) -> bool {
    &&& r is Ok ==> occurs_twice(input, sep)
    &&& forall|d: Date|
        #![trigger ymd_text(d, seq![sep])]
        d.valid() && four_digit_year(d) && input == ymd_text(d, seq![sep]) ==> r == Ok::<
            Date,
            chrono::ParseError,
        >(d)
    &&& forall|d: Date|
        #![trigger ymd_text(d, seq![sep])]
        short_numbers(d) && !d.proper() && input == ymd_text(d, seq![sep]) ==> r is Err
}

/// Calls `chrono::NaiveDate::parse_from_str` with one of the formats `%Y-%m-%d`
/// and `%Y/%m/%d`. What it reads depends on the text and the format alone, and
/// is a date of the calendar.
///
/// A text without two separators is not read. Of a year of up to four digits, a
/// month and a day of up to two, written with leading zeros, a date is read as
/// that date, and what is no date is not read. What is read from other texts
/// (with fewer digits, blanks in front of a number, a sign in front of the year)
/// is left to the name.
#[verifier::external_body]
fn naive_parse_from_str(input: &str, format: &str) -> (r: Result<Date, chrono::ParseError>)
    requires
        format@ == "%Y-%m-%d"@ || format@ == "%Y/%m/%d"@,
    ensures
        match r {
            Ok(d) => d.valid() && parsed_date(input@, format@) == Some(
                (d.year as int, d.month as int, d.day as int),
            ),
            Err(_) => parsed_date(input@, format@) is None,
        },
        format@ == "%Y-%m-%d"@ ==> reads_written_dates(r, input@, '-'),
        format@ == "%Y/%m/%d"@ ==> reads_written_dates(r, input@, '/'),
{
    chrono::NaiveDate::parse_from_str(input, format).map(
        |d| Date { year: d.year(), month: d.month(), day: d.day() },
    )
}

/// The date that three numbers stand for.
pub open spec fn date_of(ymd: (int, int, int)) -> Date {
    Date { year: ymd.0 as i32, month: ymd.1 as u32, day: ymd.2 as u32 }
}

/// The date that an argument stands for: what the dash form reads, and where
/// that reads nothing, what the slash form reads.
pub open spec fn date_arg(input: Seq<char>) -> Result<Date, BotError> {
    match parsed_date(input, "%Y-%m-%d"@) {
        Some(ymd) => Ok(date_of(ymd)),
        None => match parsed_date(input, "%Y/%m/%d"@) {
            Some(ymd) => Ok(date_of(ymd)),
            None => Err(BotError::InvalidDate),
        },
    }
}

/// A date is read where one of the two forms reads one, and is the one that it
/// reads, the dash form first.
pub proof fn dates_are_read_where_a_form_reads_one(input: Seq<char>)
    ensures
        ({
            let dashed = parsed_date(input, "%Y-%m-%d"@);
            let slashed = parsed_date(input, "%Y/%m/%d"@);
            let r = date_arg(input);
            &&& r is Ok <==> dashed is Some || slashed is Some
            &&& r is Err ==> r == Err::<Date, BotError>(BotError::InvalidDate)
            &&& dashed is Some && r is Ok ==> r->Ok_0.year == (dashed->0).0 as i32 && r->Ok_0.month
                == (dashed->0).1 as u32 && r->Ok_0.day == (dashed->0).2 as u32
            &&& dashed is None && r is Ok ==> r->Ok_0.year == (slashed->0).0 as i32 && r->Ok_0.month
                == (slashed->0).1 as u32 && r->Ok_0.day == (slashed->0).2 as u32
        }),
{
}

/// The date that the dash form read, else the one that the slash form read,
/// else an error.
pub fn choose_date(dashed: Option<Date>, slashed: Option<Date>) -> (r: Result<Date, BotError>)
    ensures
        dashed matches Some(d) ==> r == Ok::<Date, BotError>(d),
        dashed is None ==> (slashed matches Some(d) ==> r == Ok::<Date, BotError>(d)),
        dashed is None && slashed is None ==> r == Err::<Date, BotError>(BotError::InvalidDate),
{
    match dashed {
        Some(d) => Ok(d),
        None => match slashed {
            Some(d) => Ok(d),
            None => Err(BotError::InvalidDate),
        },
    }
}

/// The date of a reading, without the reason where there is none.
fn read_date(r: Result<Date, chrono::ParseError>) -> (d: Option<Date>)
    ensures
        r matches Ok(x) ==> d == Some(x),
        r is Err ==> d is None,
{
    match r {
        Ok(d) => Some(d),
        Err(_) => None,
    }
}

/// Reads a date that a user gave, as YYYY-MM-DD or YYYY/MM/DD. A date that does
/// not exist is refused, and so is one with a dash and a slash.
pub fn parse_date_arg(input: &str) -> (r: Result<Date, BotError>)
    ensures
        r == date_arg(input@),
        r matches Ok(d) ==> d.valid(),
        forall|d: Date|
            #![trigger ymd_text(d, seq!['-'])]
            d.valid() && four_digit_year(d) && input@ == ymd_text(d, seq!['-']) ==> r == Ok::<
                Date,
                BotError,
            >(d),
        forall|d: Date|
            #![trigger ymd_text(d, seq!['/'])]
            d.valid() && four_digit_year(d) && input@ == ymd_text(d, seq!['/']) ==> r == Ok::<
                Date,
                BotError,
            >(d),
        forall|d: Date|
            #![trigger ymd_text(d, seq!['-'])]
            short_numbers(d) && !d.proper() && input@ == ymd_text(d, seq!['-']) ==> r is Err,
        forall|d: Date|
            #![trigger ymd_text(d, seq!['/'])]
            short_numbers(d) && !d.proper() && input@ == ymd_text(d, seq!['/']) ==> r is Err,
        !occurs_twice(input@, '-') && !occurs_twice(input@, '/') ==> r is Err,
{
    let dashed = naive_parse_from_str(input, "%Y-%m-%d");
    let slashed = naive_parse_from_str(input, "%Y/%m/%d");
    proof {
        assert forall|d: Date|
            #![trigger ymd_text(d, seq!['/'])]
            four_digit_year(d) && input@ == ymd_text(d, seq!['/']) implies dashed is Err by {
            lemma_one_separator(d, '/', '-');
        }
        assert forall|d: Date|
            #![trigger ymd_text(d, seq!['-'])]
            four_digit_year(d) && input@ == ymd_text(d, seq!['-']) implies slashed is Err by {
            lemma_one_separator(d, '-', '/');
        }
    }
    choose_date(read_date(dashed), read_date(slashed))
}

/// What is written with one separator does not hold another.
proof fn lemma_one_separator(d: Date, sep: char, other: char)
    requires
        four_digit_year(d),
        other != sep,
        other < '0',
    ensures
        !ymd_text(d, seq![sep]).contains(other),
{
    crate::text::lemma_decimal_digits(d.year as nat);
    crate::text::lemma_decimal_digits(d.month as nat);
    crate::text::lemma_decimal_digits(d.day as nat);
}

/// The weekday as a message shows it.
pub open spec fn weekday_name(weekday: int) -> Seq<char> {
    if weekday == 1 {
        "月"@
    } else if weekday == 2 {
        "火"@
    } else if weekday == 3 {
        "水"@
    } else if weekday == 4 {
        "木"@
    } else if weekday == 5 {
        "金"@
    } else if weekday == 6 {
        "土"@
    } else {
        "日"@
    }
}

/// The weekday as a message shows it.
fn weekday_name_text(weekday: u32) -> (r: &'static str)
    ensures
        r@ == weekday_name(weekday as int),
{
    if weekday == 1 {
        "月"
    } else if weekday == 2 {
        "火"
    } else if weekday == 3 {
        "水"
    } else if weekday == 4 {
        "木"
    } else if weekday == 5 {
        "金"
    } else if weekday == 6 {
        "土"
    } else {
        "日"
    }
}

/// A date as a message shows it: year, month and day with slashes between
/// them, and the weekday in brackets.
pub open spec fn jp_date(d: Date) -> Seq<char> {
    crate::text::signed_padded(d.year as int, 4) + "/"@ + crate::text::padded(d.month as nat, 2)
        + "/"@ + crate::text::padded(d.day as nat, 2) + "("@ + weekday_name(d.weekday_number())
        + ")"@
}

/// A number of at most two digits is written with two.
proof fn lemma_two_digits(n: nat)
    requires
        n <= 99,
    ensures
        crate::text::padded(n, 2).len() == 2,
{
    reveal_with_fuel(crate::text::decimal, 3);
}

/// A message shows the year, behind it a slash and two digits for the month, a
/// slash and two digits for the day, and the weekday in brackets as the
/// character that stands for it.
pub proof fn shown_dates_tell_year_month_day_and_weekday(d: Date)
    requires
        d.proper(),
    ensures
        ({
            let s = jp_date(d);
            let k = crate::text::signed_padded(d.year as int, 4).len() as int;
            &&& s.len() == k + 9
            &&& s.take(k) == crate::text::signed_padded(d.year as int, 4)
            &&& s[k] == '/' && s[k + 3] == '/' && s[k + 6] == '(' && s[k + 8] == ')'
            &&& crate::text::digits_value(s.subrange(k + 1, k + 3)) == d.month
            &&& crate::text::digits_value(s.subrange(k + 4, k + 6)) == d.day
            &&& s[k + 7] == "月火水木金土日"@[(d.day_number() - 1) % 7]
        }),
{
    let s = jp_date(d);
    let y = crate::text::signed_padded(d.year as int, 4);
    let k = y.len() as int;
    let m = crate::text::padded(d.month as nat, 2);
    let day = crate::text::padded(d.day as nat, 2);
    lemma_two_digits(d.month as nat);
    lemma_two_digits(d.day as nat);
    crate::text::padding_keeps_the_number(d.month as nat, 2);
    crate::text::padding_keeps_the_number(d.day as nat, 2);
    reveal_strlit("/");
    reveal_strlit("(");
    reveal_strlit(")");
    weekdays_are_shown_by_their_characters(d.weekday_number());
    assert("/"@.len() == 1 && "("@.len() == 1 && ")"@.len() == 1);
    assert(s.take(k) =~= y);
    assert(s.subrange(k + 1, k + 3) =~= m);
    assert(s.subrange(k + 4, k + 6) =~= day);
}

/// Each weekday is shown by its own character, Monday by the first of seven and
/// Sunday by the last.
pub proof fn weekdays_are_shown_by_their_characters(weekday: int)
    requires
        1 <= weekday <= 7,
    ensures
        "月火水木金土日"@.len() == 7,
        weekday_name(weekday) == seq!["月火水木金土日"@[weekday - 1]],
{
    reveal_strlit("月");
    reveal_strlit("火");
    reveal_strlit("水");
    reveal_strlit("木");
    reveal_strlit("金");
    reveal_strlit("土");
    reveal_strlit("日");
    reveal_strlit("月火水木金土日");
    assert("月火水木金土日"@.len() == 7);
    assert(weekday_name(weekday) =~= seq!["月火水木金土日"@[weekday - 1]]);
}

/// A date as a message shows it.
pub fn format_jp_date(d: Date) -> (r: String)
    requires
        d.valid(),
    ensures
        r@ == jp_date(d),
{
    signed_padded_text(d.year as i64, 4).concat("/").concat(
        padded_text(d.month as u64, 2).as_str(),
    ).concat("/").concat(padded_text(d.day as u64, 2).as_str()).concat("(").concat(
        weekday_name_text(d.weekday()),
    ).concat(")")
}

} // verus!
