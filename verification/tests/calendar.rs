use asg_discordbot::calendar::Date;
use asg_discordbot::clock::{month_day_text, month_day_time_text, stamp_text, time_until, Instant, Span};
use asg_discordbot::date_text::{choose_date, format_jp_date, parse_date_arg};
use asg_discordbot::day_filter::{filter_day, is_japanese_holiday, matches_filter};
use asg_discordbot::errors::BotError;
use asg_discordbot::text::{
    decimal_text, joined_text, padded_text, same_text, signed_decimal_text, signed_padded_text, starts_with,
};
use asg_discordbot::zone::{make_datetime, resolved_hour, Zone};

fn date(year: i32, month: u32, day: u32) -> Date {
    Date { year, month, day }
}

fn at(secs: i64) -> Instant {
    Instant { secs, nanos: 0 }
}

#[test]
fn numbers_are_written_in_decimal() {
    assert_eq!(decimal_text(0), "0");
    assert_eq!(decimal_text(907), "907");
    assert_eq!(decimal_text(u64::MAX), "18446744073709551615");
    assert_eq!(signed_decimal_text(-12), "-12");
    assert_eq!(signed_decimal_text(i64::MIN), "-9223372036854775808");
    assert_eq!(padded_text(7, 3), "007");
    assert_eq!(padded_text(1234, 3), "1234");
    assert_eq!(signed_padded_text(-5, 4), format!("{:04}", -5));
    assert_eq!(signed_padded_text(-12345, 4), format!("{:04}", -12345));
    assert_eq!(signed_padded_text(44, 4), format!("{:04}", 44));
}

#[test]
fn texts_are_joined_and_searched() {
    let list = vec!["a".to_string(), "".to_string(), "日".to_string()];
    assert_eq!(joined_text(&list, "\n"), "a\n\n日");
    assert_eq!(joined_text(&Vec::new(), "\n"), "");
    assert!(same_text("日本", "日本"));
    assert!(!same_text("日本", "日"));
    assert!(starts_with("勉強会 第3回", "勉強会 第"));
    assert!(!starts_with("勉強会", "勉強会 第"));
    assert!(starts_with("x", ""));
}

#[test]
fn days_follow_each_other() {
    assert_eq!(date(2026, 6, 1).succ(), Some(date(2026, 6, 2)));
    assert_eq!(date(2024, 2, 28).succ(), Some(date(2024, 2, 29)));
    assert_eq!(date(1900, 2, 28).succ(), Some(date(1900, 3, 1)));
    assert_eq!(date(2000, 2, 28).succ(), Some(date(2000, 2, 29)));
    assert_eq!(date(-1, 12, 31).succ(), Some(date(0, 1, 1)));
    assert_eq!(date(262142, 12, 31).succ(), None);
}

#[test]
fn weekdays_repeat_every_seven_days() {
    assert_eq!(date(2026, 6, 1).weekday(), 1);
    assert_eq!(date(2026, 6, 7).weekday(), 7);
    assert_eq!(date(2026, 6, 8).weekday(), 1);
    assert_eq!(date(1, 1, 1).weekday(), 1);
    assert_eq!(date(-308, 3, 14).weekday(), 5);
    assert_eq!(date(262142, 12, 31).weekday(), 1);
}

#[test]
fn dates_are_ordered_by_day() {
    assert!(date(2025, 12, 31).is_before(date(2026, 1, 1)));
    assert!(date(2026, 1, 31).is_before(date(2026, 2, 1)));
    assert!(!date(2026, 2, 1).is_before(date(2026, 2, 1)));
    assert!(!date(2026, 2, 2).is_before(date(2026, 2, 1)));
}

#[test]
fn dates_are_read_in_both_forms() {
    assert_eq!(parse_date_arg("2026-06-01"), Ok(date(2026, 6, 1)));
    assert_eq!(parse_date_arg("2026/06/30"), Ok(date(2026, 6, 30)));
    assert_eq!(parse_date_arg("2026-6-1"), Ok(date(2026, 6, 1)));
    assert_eq!(parse_date_arg("0005-01-09"), Ok(date(5, 1, 9)));
    assert_eq!(parse_date_arg("9999/12/31"), Ok(date(9999, 12, 31)));
}

#[test]
fn other_texts_are_no_dates() {
    assert_eq!(parse_date_arg(""), Err(BotError::InvalidDate));
    assert_eq!(parse_date_arg("20260601"), Err(BotError::InvalidDate));
    assert_eq!(parse_date_arg("2026-02-29"), Err(BotError::InvalidDate));
    assert_eq!(parse_date_arg("2026/02/30"), Err(BotError::InvalidDate));
    assert_eq!(parse_date_arg("2026-13-01"), Err(BotError::InvalidDate));
    assert_eq!(parse_date_arg("2026-06-00"), Err(BotError::InvalidDate));
    assert_eq!(parse_date_arg("0000/00/00"), Err(BotError::InvalidDate));
    assert_eq!(parse_date_arg("9999-99-99"), Err(BotError::InvalidDate));
    assert_eq!(parse_date_arg("2026-06/01"), Err(BotError::InvalidDate));
    assert_eq!(parse_date_arg("2026/06-01"), Err(BotError::InvalidDate));
    assert_eq!(parse_date_arg("2026-0601"), Err(BotError::InvalidDate));
    assert_eq!(parse_date_arg("2026-06-01 "), Err(BotError::InvalidDate));
    assert_eq!(parse_date_arg("tomorrow"), Err(BotError::InvalidDate));
}

#[test]
fn dash_form_goes_before_slash_form() {
    let a = date(2026, 6, 1);
    let b = date(2026, 6, 2);
    assert_eq!(choose_date(Some(a), Some(b)), Ok(a));
    assert_eq!(choose_date(None, Some(b)), Ok(b));
    assert_eq!(choose_date(None, None), Err(BotError::InvalidDate));
}

#[test]
fn dates_are_shown_with_their_weekday() {
    assert_eq!(format_jp_date(date(2026, 6, 1)), "2026/06/01(月)");
    assert_eq!(format_jp_date(date(2026, 6, 2)), "2026/06/02(火)");
    assert_eq!(format_jp_date(date(2026, 6, 3)), "2026/06/03(水)");
    assert_eq!(format_jp_date(date(2026, 6, 4)), "2026/06/04(木)");
    assert_eq!(format_jp_date(date(2026, 6, 5)), "2026/06/05(金)");
    assert_eq!(format_jp_date(date(2026, 6, 6)), "2026/06/06(土)");
    assert_eq!(format_jp_date(date(2026, 12, 27)), "2026/12/27(日)");
    assert_eq!(format_jp_date(date(33, 1, 2)), "0033/01/02(日)");
}

#[test]
fn holidays_are_known() {
    assert!(is_japanese_holiday(date(2026, 1, 1)));
    assert!(is_japanese_holiday(date(2026, 5, 6)));
    assert!(is_japanese_holiday(date(2026, 9, 22)));
    assert!(!is_japanese_holiday(date(2026, 6, 1)));
    assert!(!is_japanese_holiday(date(2026, 5, 7)));
}

#[test]
fn filters_let_days_through() {
    let monday = date(2026, 6, 1);
    let saturday = date(2026, 6, 6);
    let holiday = date(2026, 5, 6);
    assert_eq!(matches_filter(monday, "all"), Ok(true));
    assert_eq!(matches_filter(monday, "weekday"), Ok(true));
    assert_eq!(matches_filter(monday, "weekend"), Ok(false));
    assert_eq!(matches_filter(monday, "holydays"), Ok(false));
    assert_eq!(matches_filter(saturday, "all"), Ok(true));
    assert_eq!(matches_filter(saturday, "weekday"), Ok(false));
    assert_eq!(matches_filter(saturday, "weekend"), Ok(true));
    assert_eq!(matches_filter(saturday, "holydays"), Ok(true));
    assert_eq!(matches_filter(holiday, "weekday"), Ok(true));
    assert_eq!(matches_filter(holiday, "holydays"), Ok(true));
    assert_eq!(matches_filter(monday, "holidays"), Err(BotError::UnknownFilter));
    assert_eq!(matches_filter(monday, ""), Err(BotError::UnknownFilter));
}

#[test]
fn filters_decide_by_weekday_and_holiday() {
    for weekday in 1..8u32 {
        for holiday in [false, true] {
            assert_eq!(filter_day("all", weekday, holiday), Ok(true));
            assert_eq!(filter_day("weekday", weekday, holiday), Ok(weekday < 6));
            assert_eq!(filter_day("weekend", weekday, holiday), Ok(weekday > 5));
            assert_eq!(filter_day("holydays", weekday, holiday), Ok(weekday > 5 || holiday));
            assert_eq!(filter_day("All", weekday, holiday), Err(BotError::UnknownFilter));
        }
    }
}

#[test]
fn instants_are_written() {
    let t = at(946684799);
    assert_eq!(stamp_text(t, 0), "19991231-235959");
    assert_eq!(stamp_text(t, 32400), "20000101-085959");
    assert_eq!(month_day_text(t, 0), "12/31");
    assert_eq!(month_day_text(t, 1), "01/01");
    assert_eq!(month_day_time_text(t, -3600), "12/31 22:59");
    assert_eq!(stamp_text(at(-62198755200), 0), "-00010101-000000");
    assert_eq!(stamp_text(at(253402300800), 0), "+100000101-000000");
}

#[test]
fn instants_are_ordered_and_subtracted() {
    let a = Instant { secs: 8, nanos: 7 };
    let b = Instant { secs: 10, nanos: 5 };
    assert!(a.is_before(b));
    assert!(!b.is_before(a));
    assert!(!a.is_before(a));
    assert!(Instant { secs: 8, nanos: 6 }.is_before(a));
    assert_eq!(time_until(b, a), Some(Span { secs: 1, nanos: 999999998 }));
    assert_eq!(time_until(a, a), Some(Span { secs: 0, nanos: 0 }));
    assert_eq!(time_until(a, b), None);
    assert_eq!(a.plus_secs(5), Instant { secs: 13, nanos: 7 });
}

#[test]
fn zones_are_known_by_name() {
    assert_eq!(Zone::parse("Asia/Tokyo").unwrap().name(), "Asia/Tokyo");
    assert_eq!(Zone::parse("UTC").unwrap().name(), "UTC");
    assert_eq!(Zone::parse("Mars/Olympus").unwrap_err(), BotError::InvalidTimezone);
    assert_eq!(Zone::parse("asia/tokyo").unwrap_err(), BotError::InvalidTimezone);
}

#[test]
fn zones_are_ahead_of_utc() {
    let tokyo = Zone::parse("Asia/Tokyo").unwrap();
    let new_york = Zone::parse("America/New_York").unwrap();
    assert_eq!(tokyo.offset_at(at(1780272000)), 32400);
    assert_eq!(new_york.offset_at(at(1780272000)), -14400);
    assert_eq!(new_york.offset_at(at(1767225600)), -18000);
}

#[test]
fn local_hours_stand_for_instants() {
    let tokyo = Zone::parse("Asia/Tokyo").unwrap();
    assert_eq!(make_datetime(&tokyo, date(2026, 6, 1), 0), Ok(at(1780239600)));
    assert_eq!(make_datetime(&tokyo, date(2026, 6, 6), 21), Ok(at(1780747200)));
    assert_eq!(make_datetime(&tokyo, date(2026, 6, 6), 24), Err(BotError::InvalidHour));
    let utc = Zone::parse("UTC").unwrap();
    assert_eq!(make_datetime(&utc, date(1970, 1, 1), 1), Ok(at(3600)));
}

#[test]
fn local_hours_that_are_skipped_or_repeated_stand_for_none() {
    let new_york = Zone::parse("America/New_York").unwrap();
    assert_eq!(make_datetime(&new_york, date(2024, 3, 10), 2), Err(BotError::UnresolvedLocalTime));
    assert_eq!(make_datetime(&new_york, date(2024, 11, 3), 1), Err(BotError::UnresolvedLocalTime));
    assert!(make_datetime(&new_york, date(2024, 11, 3), 2).is_ok());
}

#[test]
fn local_hours_read_back() {
    let zone = Zone::parse("Australia/Lord_Howe").unwrap();
    for day in 1..29u32 {
        let t = make_datetime(&zone, date(2026, 2, day), 7).unwrap();
        let offset = zone.offset_at(t);
        assert_eq!(month_day_time_text(t, offset), format!("02/{:02} 07:00", day));
    }
}

#[test]
fn hours_are_resolved_by_what_the_zone_says() {
    assert_eq!(resolved_hour(5, Some(at(9))), Ok(at(9)));
    assert_eq!(resolved_hour(5, None), Err(BotError::UnresolvedLocalTime));
    assert_eq!(resolved_hour(24, Some(at(9))), Err(BotError::InvalidHour));
}
