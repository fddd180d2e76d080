use asg_discordbot::calendar::Date;
use asg_discordbot::candidates::{generate_schedule_dates, schedule_dates_at, ZonedDate};
use asg_discordbot::clock::Instant;
use asg_discordbot::embed::{make_error_embed, EmbedColour};
use asg_discordbot::errors::{BotError, CommandFailure, Rejection};
use asg_discordbot::options::{
    get_bool_opt, get_channel, get_int, get_int_opt, get_option, get_string, get_string_opt, CommandOption,
    OptionValue,
};
use asg_discordbot::reactions::{count_votes, emoji_position, find_winner, reaction_emoji, Reaction};
use asg_discordbot::schedule::{parse_schedule_request, plan_vote, schedule, schedule_at};
use asg_discordbot::vote::{announce, event_name_text, tally, CollectingList, CollectingStatus};
use asg_discordbot::zone::Zone;

/// 2026-05-01 00:00:00 UTC.
const MAY_FIRST: i64 = 1777593600;

/// 2026-06-05 15:00:00 UTC, which is midnight of June 6 in Tokyo.
const JUNE_SIXTH_TOKYO: i64 = 1780671600;

fn date(year: i32, month: u32, day: u32) -> Date {
    Date { year, month, day }
}

fn at(secs: i64) -> Instant {
    Instant { secs, nanos: 0 }
}

fn tokyo() -> Zone {
    Zone::parse("Asia/Tokyo").unwrap()
}

fn text(name: &str, value: &str) -> CommandOption {
    CommandOption { name: name.to_string(), value: OptionValue::Text(value.to_string()) }
}

fn number(name: &str, value: i64) -> CommandOption {
    CommandOption { name: name.to_string(), value: OptionValue::Integer(value) }
}

fn channel(name: &str, value: u64) -> CommandOption {
    CommandOption { name: name.to_string(), value: OptionValue::Channel(value) }
}

fn boolean(name: &str, value: bool) -> CommandOption {
    CommandOption { name: name.to_string(), value: OptionValue::Boolean(value) }
}

fn june_options() -> Vec<CommandOption> {
    vec![
        number("event_number", 12),
        text("start_date", "2026-06-01"),
        text("end_date", "2026/06/14"),
        channel("voice_channel", 77),
    ]
}

fn with(mut options: Vec<CommandOption>, option: CommandOption) -> Vec<CommandOption> {
    options.retain(|o| o.name != option.name);
    options.push(option);
    options
}

fn without(mut options: Vec<CommandOption>, name: &str) -> Vec<CommandOption> {
    options.retain(|o| o.name != name);
    options
}

fn june_failure(options: Vec<CommandOption>) -> CommandFailure {
    schedule_at(Some(5), 6, &options, &CollectingList::new(), "勉強会", at(MAY_FIRST), at(MAY_FIRST))
        .unwrap_err()
}

fn status(guild_id: u64, message_id: u64) -> CollectingStatus {
    CollectingStatus {
        guild_id,
        channel_id: 6,
        message_id,
        event_number: 12,
        author_text: "勉強会 第12回".to_string(),
        website_url: None,
        dates: vec![
            ZonedDate { date: date(2026, 6, 6), instant: at(JUNE_SIXTH_TOKYO) },
            ZonedDate { date: date(2026, 6, 7), instant: at(JUNE_SIXTH_TOKYO + 86400) },
            ZonedDate { date: date(2026, 6, 13), instant: at(JUNE_SIXTH_TOKYO + 7 * 86400) },
        ],
        time_range: (21, 23),
        timezone: tokyo(),
        voice_channel_id: 77,
    }
}

fn reaction(emoji: &str, count: u64) -> Reaction {
    Reaction { emoji: Some(emoji.to_string()), count }
}

#[test]
fn options_are_found_by_name() {
    let options = vec![text("a", "x"), number("b", 3), number("a", 9), boolean("c", true), channel("d", 8)];
    assert_eq!(get_option(&options, "b"), Some(&OptionValue::Integer(3)));
    assert_eq!(get_option(&options, "e"), None);
    assert_eq!(get_string_opt(&options, "a"), Some("x".to_string()));
    assert_eq!(get_int_opt(&options, "a"), None);
    assert_eq!(get_int_opt(&options, "b"), Some(3));
    assert_eq!(get_bool_opt(&options, "c"), Some(true));
    assert_eq!(get_bool_opt(&options, "d"), None);
    assert_eq!(get_string(&options, "a"), Ok("x".to_string()));
    assert_eq!(get_string(&options, "b"), Err(BotError::MissingOption("b")));
    assert_eq!(get_int(&options, "b"), Ok(3));
    assert_eq!(get_int(&options, "z"), Err(BotError::MissingOption("z")));
    assert_eq!(get_channel(&options, "d"), Ok(8));
    assert_eq!(get_channel(&options, "a"), Err(BotError::MissingOption("a")));
    assert_eq!(get_channel(&options, "a").unwrap_err().message(), "a is required");
}

#[test]
fn candidate_days_pass_the_filter_in_order() {
    let dates = schedule_dates_at(
        date(2026, 6, 1),
        date(2026, 6, 14),
        at(MAY_FIRST + 7 * 86400),
        "holydays",
        &tokyo(),
        at(MAY_FIRST),
    )
    .unwrap();
    let days: Vec<Date> = dates.iter().map(|d| d.date).collect();
    assert_eq!(days, vec![date(2026, 6, 6), date(2026, 6, 7), date(2026, 6, 13), date(2026, 6, 14)]);
    assert_eq!(dates[0].instant, at(JUNE_SIXTH_TOKYO));
    assert_eq!(dates[3].instant, at(JUNE_SIXTH_TOKYO + 8 * 86400));
}

#[test]
fn candidate_days_take_in_holidays_and_both_ends() {
    let dates = schedule_dates_at(
        date(2026, 9, 19),
        date(2026, 9, 24),
        at(MAY_FIRST),
        "holydays",
        &tokyo(),
        at(MAY_FIRST),
    )
    .unwrap();
    let days: Vec<u32> = dates.iter().map(|d| d.date.day).collect();
    assert_eq!(days, vec![19, 20, 21, 22, 23]);
    let all = schedule_dates_at(
        date(2026, 9, 19),
        date(2026, 9, 24),
        at(MAY_FIRST),
        "all",
        &tokyo(),
        at(MAY_FIRST),
    )
    .unwrap();
    assert_eq!(all.len(), 6);
}

#[test]
fn candidate_days_begin_after_the_vote() {
    let june_third = JUNE_SIXTH_TOKYO - 3 * 86400;
    let dates = schedule_dates_at(
        date(2026, 6, 1),
        date(2026, 6, 5),
        at(june_third),
        "all",
        &tokyo(),
        at(MAY_FIRST),
    )
    .unwrap();
    let days: Vec<u32> = dates.iter().map(|d| d.date.day).collect();
    assert_eq!(days, vec![4, 5]);
}

#[test]
fn candidate_days_must_be_in_order_and_a_week_away() {
    let june_first = JUNE_SIXTH_TOKYO - 5 * 86400;
    let week = 7 * 86400;
    let dates = |start: Date, end: Date, filter: &str, now: Instant| {
        schedule_dates_at(start, end, at(MAY_FIRST), filter, &tokyo(), now).map(|v| v.len())
    };
    let first = date(2026, 6, 1);
    let last = date(2026, 6, 2);
    assert_eq!(dates(first, first, "all", at(MAY_FIRST)), Err(BotError::EndNotAfterStart));
    assert_eq!(dates(last, first, "all", at(MAY_FIRST)), Err(BotError::EndNotAfterStart));
    assert_eq!(dates(first, last, "all", at(june_first - week)), Ok(2));
    let too_late = Instant { secs: june_first - week, nanos: 1 };
    assert_eq!(dates(first, last, "all", too_late), Err(BotError::OverlapsVoting));
    assert_eq!(dates(first, last, "none", at(MAY_FIRST)), Err(BotError::UnknownFilter));
}

#[test]
fn an_unknown_filter_does_not_matter_before_the_vote_ends() {
    let dates = schedule_dates_at(
        date(2026, 6, 1),
        date(2026, 6, 5),
        at(JUNE_SIXTH_TOKYO),
        "none",
        &tokyo(),
        at(MAY_FIRST),
    );
    assert_eq!(dates.unwrap().len(), 0);
}

#[test]
fn candidate_days_end_with_the_calendar() {
    let utc = Zone::parse("UTC").unwrap();
    for filter in ["all", "weekday", "weekend", "holydays"] {
        let dates = schedule_dates_at(
            date(262142, 12, 29),
            date(262142, 12, 31),
            at(MAY_FIRST),
            filter,
            &utc,
            at(MAY_FIRST),
        );
        assert_eq!(dates.unwrap_err(), BotError::DateGeneration);
    }
    let ok = schedule_dates_at(
        date(262142, 12, 28),
        date(262142, 12, 30),
        at(MAY_FIRST),
        "all",
        &utc,
        at(MAY_FIRST),
    );
    assert_eq!(ok.unwrap().len(), 3);
}

#[test]
fn candidate_days_without_a_midnight_are_not_offered() {
    let beirut = Zone::parse("Asia/Beirut").unwrap();
    let dates = schedule_dates_at(
        date(2026, 3, 25),
        date(2026, 4, 2),
        at(1767225600),
        "all",
        &beirut,
        at(1767225600),
    );
    assert_eq!(dates.unwrap_err(), BotError::UnresolvedLocalTime);
}

#[test]
fn candidate_days_follow_the_clock() {
    let past = generate_schedule_dates(
        date(2001, 6, 1),
        date(2001, 6, 14),
        at(MAY_FIRST),
        "all",
        &tokyo(),
    );
    assert_eq!(past.unwrap_err(), BotError::OverlapsVoting);
    let future = generate_schedule_dates(
        date(9000, 6, 1),
        date(9000, 6, 14),
        at(MAY_FIRST),
        "all",
        &tokyo(),
    );
    assert_eq!(future.unwrap().len(), 14);
}

#[test]
fn a_vote_is_laid_out() {
    let list = CollectingList::new();
    let options = with(june_options(), text("website_url", "https://example.org"));
    let plan = schedule_at(Some(5), 6, &options, &list, "勉強会", at(MAY_FIRST), at(MAY_FIRST + 1)).unwrap();
    assert_eq!(plan.collect_end_at, at(MAY_FIRST + 7 * 86400));
    assert_eq!(plan.reactions, vec!["1️⃣", "2️⃣", "3️⃣", "4️⃣"]);
    assert_eq!(plan.embed.title, "以下のリアクションからスケジュールを選択してください。");
    assert_eq!(plan.embed.author, Some("勉強会 第12回".to_string()));
    assert_eq!(plan.embed.description, None);
    assert_eq!(plan.embed.colour, Some(EmbedColour::Blue));
    let fields: Vec<(&str, &str, bool)> =
        plan.embed.fields.iter().map(|f| (f.name, f.value.as_str(), f.inline)).collect();
    assert_eq!(
        fields,
        vec![
            (
                "日時の候補",
                "1️⃣ `2026/06/06(土)`\n2️⃣ `2026/06/07(日)`\n3️⃣ `2026/06/13(土)`\n4️⃣ `2026/06/14(日)`",
                false
            ),
            ("時間", "21:00 - 23:00", true),
            ("投票期間", "05/01 09:00 〜 05/08 09:00", true),
            ("website", "https://example.org", false),
        ]
    );
    let status = plan.draft.open(99);
    assert_eq!(status.guild_id, 5);
    assert_eq!(status.channel_id, 6);
    assert_eq!(status.message_id, 99);
    assert_eq!(status.event_number, 12);
    assert_eq!(status.author_text, "勉強会 第12回");
    assert_eq!(status.website_url, Some("https://example.org".to_string()));
    assert_eq!(status.dates.len(), 4);
    assert_eq!(status.time_range, (21, 23));
    assert_eq!(status.timezone.name(), "Asia/Tokyo");
    assert_eq!(status.voice_channel_id, 77);
}

#[test]
fn a_vote_can_be_short_and_in_another_zone() {
    let options = with(june_options(), boolean("debug_vote", true));
    let options = with(options, text("timezone", "UTC"));
    let options = with(options, number("time_range_start", 9));
    let options = with(options, number("time_range_end", 10));
    let list = CollectingList::new();
    let plan = schedule_at(Some(5), 6, &options, &list, "勉強会", at(MAY_FIRST), at(MAY_FIRST)).unwrap();
    assert_eq!(plan.collect_end_at, at(MAY_FIRST + 180));
    assert_eq!(plan.embed.fields[1].value, "9:00 - 10:00");
    assert_eq!(plan.embed.fields[2].value, "05/01 00:00 〜 05/01 00:03");
    assert_eq!(plan.embed.fields.len(), 3);
    assert_eq!(plan.draft.dates[0].instant, at(JUNE_SIXTH_TOKYO + 9 * 3600));
}

#[test]
fn what_is_missing_or_not_understood_is_told() {
    let outside = schedule_at(
        None,
        6,
        &june_options(),
        &CollectingList::new(),
        "勉強会",
        at(MAY_FIRST),
        at(MAY_FIRST),
    );
    assert_eq!(outside.unwrap_err(), CommandFailure::Error(BotError::OutsideGuild));
    for name in ["event_number", "start_date", "end_date", "voice_channel"] {
        let failure = june_failure(without(june_options(), name));
        assert_eq!(failure, CommandFailure::Error(BotError::MissingOption(name)));
    }
    assert_eq!(
        june_failure(with(june_options(), text("start_date", "soon"))),
        CommandFailure::Error(BotError::InvalidDate)
    );
    assert_eq!(
        june_failure(with(june_options(), text("timezone", "Tokyo"))),
        CommandFailure::Error(BotError::InvalidTimezone)
    );
    assert_eq!(
        june_failure(with(june_options(), text("filter_type", "sundays"))),
        CommandFailure::Error(BotError::UnknownFilter)
    );
    assert_eq!(
        june_failure(with(june_options(), text("end_date", "2026-06-01"))),
        CommandFailure::Error(BotError::EndNotAfterStart)
    );
    assert_eq!(
        june_failure(with(june_options(), text("start_date", "2026-05-02"))),
        CommandFailure::Error(BotError::OverlapsVoting)
    );
}

#[test]
fn hours_must_be_in_order_and_within_a_day() {
    let rejected = CommandFailure::Rejected(Rejection::BadTimeRange);
    assert_eq!(june_failure(with(june_options(), number("time_range_start", 23))), rejected);
    assert_eq!(june_failure(with(june_options(), number("time_range_end", 24))), rejected);
    assert_eq!(june_failure(with(june_options(), number("time_range_start", -1))), rejected);
    assert_eq!(june_failure(with(june_options(), number("time_range_end", 21))), rejected);
    let wrapped = with(june_options(), number("time_range_end", 4294967296 + 22));
    let request = parse_schedule_request(Some(5), &wrapped).unwrap();
    assert_eq!(request.time_range, (21, 22));
    assert_eq!(request.filter_type, "holydays");
    assert_eq!(request.timezone.name(), "Asia/Tokyo");
    assert!(!request.debug_vote);
}

#[test]
fn votes_offer_one_day_at_least_and_twenty_at_most() {
    let none = with(june_options(), text("end_date", "2026-06-05"));
    assert_eq!(june_failure(none), CommandFailure::Rejected(Rejection::NoCandidates));
    let options = with(june_options(), text("filter_type", "all"));
    let many = with(options.clone(), text("end_date", "2026-06-21"));
    assert_eq!(june_failure(many), CommandFailure::Rejected(Rejection::TooManyCandidates));
    let full = with(options, text("end_date", "2026-06-20"));
    let list = CollectingList::new();
    let plan = schedule_at(Some(5), 6, &full, &list, "勉強会", at(MAY_FIRST), at(MAY_FIRST)).unwrap();
    assert_eq!(plan.reactions.len(), 20);
    assert_eq!(plan.reactions[19], "🇰");
}

#[test]
fn votes_are_planned_by_the_days_that_fit() {
    let request = || parse_schedule_request(Some(5), &june_options()).unwrap();
    let now = at(MAY_FIRST);
    let end = at(MAY_FIRST + 7 * 86400);
    let none = plan_vote(request(), 6, "勉強会", Vec::new(), now, end);
    assert_eq!(none.unwrap_err(), CommandFailure::Rejected(Rejection::NoCandidates));
    let day = ZonedDate { date: date(2026, 6, 6), instant: at(JUNE_SIXTH_TOKYO) };
    let many = plan_vote(request(), 6, "勉強会", vec![day; 21], now, end);
    assert_eq!(many.unwrap_err(), CommandFailure::Rejected(Rejection::TooManyCandidates));
    let one = plan_vote(request(), 6, "勉強会", vec![day], now, end).unwrap();
    assert_eq!(one.embed.fields[0].value, "1️⃣ `2026/06/06(土)`");
}

#[test]
fn a_guild_has_one_vote_at_a_time() {
    let mut list = CollectingList::new();
    list.push(status(5, 1));
    let refused = schedule_at(Some(5), 6, &june_options(), &list, "勉強会", at(MAY_FIRST), at(MAY_FIRST));
    assert_eq!(refused.unwrap_err(), CommandFailure::Rejected(Rejection::VoteInProgress));
    assert!(schedule_at(Some(4), 6, &june_options(), &list, "勉強会", at(MAY_FIRST), at(MAY_FIRST)).is_ok());
    list.take_oldest(Some(5)).unwrap();
    assert!(!list.is_collecting(5));
    assert!(schedule_at(Some(5), 6, &june_options(), &list, "勉強会", at(MAY_FIRST), at(MAY_FIRST)).is_ok());
}

#[test]
fn opening_votes_leaves_one_for_each_guild() {
    let mut list = CollectingList::new();
    for (guild_id, message_id) in [(5, 1), (5, 2), (4, 3), (5, 4), (4, 5)] {
        let now = at(MAY_FIRST);
        let plan = schedule_at(Some(guild_id), 6, &june_options(), &list, "勉強会", now, now);
        if let Ok(plan) = plan {
            list.push(plan.draft.open(message_id));
        }
    }
    let first = list.take_oldest(None).unwrap();
    let second = list.take_oldest(None).unwrap();
    assert_eq!((first.guild_id, first.message_id, first.dates.len()), (5, 1, 4));
    assert_eq!((second.guild_id, second.message_id, second.dates.len()), (4, 3, 4));
    assert_eq!(list.take_oldest(None).unwrap_err(), BotError::NoActiveVote);
}

#[test]
fn options_that_are_left_out_count_as_given_with_their_defaults() {
    let defaults = vec![
        text("timezone", "Asia/Tokyo"),
        text("filter_type", "holydays"),
        number("time_range_start", 21),
        number("time_range_end", 23),
        boolean("debug_vote", false),
    ];
    let now = at(MAY_FIRST);
    let list = CollectingList::new();
    let short = schedule_at(Some(5), 6, &june_options(), &list, "勉強会", now, now).unwrap();
    let mut options = june_options();
    for option in defaults {
        options = with(options, option);
        let full = schedule_at(Some(5), 6, &options, &list, "勉強会", now, now).unwrap();
        assert_eq!(full.embed, short.embed);
        assert_eq!(full.reactions, short.reactions);
        assert_eq!(full.collect_end_at, short.collect_end_at);
        assert_eq!(full.draft.dates, short.draft.dates);
        assert_eq!(full.draft.time_range, short.draft.time_range);
        assert_eq!(full.draft.timezone.name(), short.draft.timezone.name());
    }
}

#[test]
fn a_vote_that_is_opened_now_goes_by_the_clock() {
    let options = with(june_options(), text("start_date", "2001-06-01"));
    let list = CollectingList::new();
    let failure = schedule(Some(5), 6, &options, &list, "勉強会", at(MAY_FIRST)).unwrap_err();
    assert_eq!(failure, CommandFailure::Error(BotError::OverlapsVoting));
    let options = with(june_options(), text("start_date", "9000-06-01"));
    let options = with(options, text("end_date", "9000-06-08"));
    let plan = schedule(Some(5), 6, &options, &list, "勉強会", at(MAY_FIRST)).unwrap();
    assert_eq!(plan.draft.dates.len(), 3);
}

#[test]
fn open_votes_are_taken_in_order() {
    let mut list = CollectingList::new();
    assert_eq!(list.take_oldest(None).unwrap_err(), BotError::NoActiveVote);
    assert_eq!(list.take_latest(None).unwrap_err(), BotError::NoActiveVote);
    list.push(status(1, 10));
    list.push(status(2, 20));
    list.push(status(1, 11));
    list.push(status(3, 30));
    assert!(list.is_collecting(2));
    assert!(!list.is_collecting(4));
    assert_eq!(list.take_oldest(Some(4)).unwrap_err(), BotError::NoActiveVote);
    assert_eq!(list.take_oldest(Some(1)).unwrap().message_id, 10);
    assert_eq!(list.take_latest(None).unwrap().message_id, 30);
    assert_eq!(list.take_oldest(None).unwrap().message_id, 20);
    assert_eq!(list.take_latest(Some(1)).unwrap().message_id, 11);
    assert_eq!(list.take_latest(Some(1)).unwrap_err(), BotError::NoActiveVote);
}

#[test]
fn the_only_vote_of_a_guild_is_both_oldest_and_latest() {
    for guild in [1, 2] {
        let mut a = CollectingList::new();
        let mut b = CollectingList::new();
        for list in [&mut a, &mut b] {
            list.push(status(1, 10));
            list.push(status(2, 20));
        }
        let oldest = a.take_oldest(Some(guild)).unwrap();
        let latest = b.take_latest(Some(guild)).unwrap();
        assert_eq!(oldest.message_id, latest.message_id);
    }
}

#[test]
fn reactions_have_places() {
    assert_eq!(emoji_position("1️⃣"), Some(0));
    assert_eq!(emoji_position("🇦"), Some(9));
    assert_eq!(emoji_position("🇰"), Some(19));
    assert_eq!(emoji_position("1"), None);
    assert_eq!(emoji_position("🇱"), None);
    for i in 0..20 {
        assert_eq!(emoji_position(reaction_emoji(i)), Some(i));
    }
}

#[test]
fn votes_are_counted_without_the_bot() {
    let reactions = vec![
        reaction("2️⃣", 4),
        reaction("👍", 9),
        Reaction { emoji: None, count: 7 },
        reaction("1️⃣", 1),
        reaction("3️⃣", 0),
        reaction("5️⃣", 3),
    ];
    assert_eq!(count_votes(&reactions, 4), vec![0, 3, 0, 0]);
    assert_eq!(count_votes(&reactions, 0), Vec::<u64>::new());
    let twice = vec![reaction("1️⃣", 5), reaction("1️⃣", 3)];
    assert_eq!(count_votes(&twice, 1), vec![2]);
}

#[test]
fn the_last_of_the_most_chosen_days_wins() {
    assert_eq!(find_winner(&Vec::new()), None);
    assert_eq!(find_winner(&vec![0]), Some(0));
    assert_eq!(find_winner(&vec![1, 3, 2]), Some(1));
    assert_eq!(find_winner(&vec![3, 1, 3, 0]), Some(2));
    assert_eq!(find_winner(&vec![0, 0, 0]), Some(2));
}

#[test]
fn a_vote_is_added_up() {
    let mut vote = status(5, 1);
    vote.website_url = Some("https://example.org".to_string());
    let reactions = vec![reaction("1️⃣", 3), reaction("2️⃣", 5), reaction("3️⃣", 2)];
    let result = tally(&vote, &reactions, "勉強会").unwrap();
    assert_eq!(result.counts, vec![2, 4, 1]);
    assert_eq!(result.winner, 1);
    assert_eq!(result.embed.title, "以下の通りスケジュールが集計されました。");
    assert_eq!(result.embed.author, Some("勉強会 第12回".to_string()));
    assert_eq!(result.embed.colour, Some(EmbedColour::Blue));
    assert_eq!(result.embed.fields.len(), 1);
    assert_eq!(result.embed.fields[0].name, "スケジュールの集計結果");
    assert_eq!(
        result.embed.fields[0].value,
        "1️⃣ `2026/06/06(土)`: 2人\n2️⃣ `2026/06/07(日)`: **4人**\n3️⃣ `2026/06/13(土)`: 1人"
    );
    assert!(!result.embed.fields[0].inline);
    assert_eq!(result.event.name, "勉強会 第12回");
    assert_eq!(result.event.start_time, at(JUNE_SIXTH_TOKYO + 86400 + 21 * 3600));
    assert_eq!(result.event.end_time, at(JUNE_SIXTH_TOKYO + 86400 + 23 * 3600));
    assert_eq!(result.event.voice_channel_id, 77);
    assert_eq!(result.event.description, Some("website: https://example.org".to_string()));
}

#[test]
fn a_vote_without_votes_goes_to_the_last_day() {
    let result = tally(&status(5, 1), &Vec::new(), "勉強会").unwrap();
    assert_eq!(result.winner, 2);
    assert_eq!(result.event.description, None);
}

#[test]
fn a_vote_without_days_is_not_added_up() {
    let mut vote = status(5, 1);
    vote.dates = Vec::new();
    assert_eq!(tally(&vote, &Vec::new(), "勉強会").unwrap_err(), BotError::NothingToTally);
}

#[test]
fn a_vote_for_hours_that_do_not_exist_is_not_added_up() {
    let mut vote = status(5, 1);
    vote.time_range = (21, 24);
    assert_eq!(tally(&vote, &Vec::new(), "勉強会").unwrap_err(), BotError::InvalidHour);
    let mut vote = status(5, 1);
    vote.timezone = Zone::parse("America/New_York").unwrap();
    vote.dates = vec![ZonedDate { date: date(2024, 3, 10), instant: at(1710046800) }];
    vote.time_range = (2, 5);
    assert_eq!(tally(&vote, &Vec::new(), "勉強会").unwrap_err(), BotError::UnresolvedLocalTime);
}

#[test]
fn the_winning_day_is_announced() {
    let message = announce(&status(5, 1), 2, 4242);
    assert_eq!(message.content, "https://discord.com/events/5/4242");
    assert_eq!(message.embed.title, "次のイベントの日時は 06/13 21:00-23:00 です。");
    assert_eq!(message.embed.author, None);
    assert_eq!(message.embed.colour, None);
    assert!(message.embed.fields.is_empty());
}

#[test]
fn events_are_named_after_the_group() {
    assert_eq!(event_name_text("勉強会", 3), "勉強会 第3回");
    assert_eq!(event_name_text("", -1), " 第-1回");
}

#[test]
fn failures_are_answered() {
    let texts: Vec<(BotError, &str)> = vec![
        (BotError::OutsideGuild, "サーバー以外では使用できません。"),
        (BotError::MissingOption("minutes"), "minutes is required"),
        (BotError::MissingVariable("ASG_NAME"), "ASG_NAME is not set"),
        (BotError::InvalidDate, "日付は YYYY-MM-DD または YYYY/MM/DD で指定してください。"),
        (BotError::InvalidTimezone, "timezoneが不正です。"),
        (BotError::EndNotAfterStart, "end_dateはstart_dateより後の日付を指定してください。"),
        (
            BotError::OverlapsVoting,
            "投票期間とスケジュール期間が被っています。start_dateは現在時刻より7日以上後の日付を指定してください。",
        ),
        (BotError::DateGeneration, "日付の生成に失敗しました。"),
        (BotError::UnknownFilter, "filter_typeは all / weekday / weekend / holydays のいずれかです。"),
        (BotError::InvalidHour, "時刻が不正です。"),
        (BotError::UnresolvedLocalTime, "指定日時をタイムゾーンに変換できません。"),
        (BotError::NoActiveVote, "直近で行われている投票を見つけられませんでした。"),
        (BotError::NothingToTally, "集計対象のリアクションがありません。"),
        (
            BotError::MessageIdUnsupported,
            "Rust版ではmessage_id指定の復元集計は未対応です。直近の集計中投票を対象にしてください。",
        ),
    ];
    for (error, text) in texts {
        assert_eq!(error.message(), text);
        assert_eq!(
            CommandFailure::Error(error).reply_text(),
            format!("エラーが発生しました。\n`{}`", text)
        );
    }
}

#[test]
fn refusals_are_answered() {
    let texts: Vec<(Rejection, &str)> = vec![
        (Rejection::BadTimeRange, "開催時間の範囲が不正です。"),
        (Rejection::VoteInProgress, "現在集計中です。しばらくお待ちください。"),
        (Rejection::NoCandidates, "指定された条件に該当する日程が存在しませんでした。"),
        (Rejection::TooManyCandidates, "候補日が多すぎます。20個以下になるよう条件を絞ってください。"),
        (Rejection::OwnerOnly, "Bot ownerのみ実行できます。"),
        (Rejection::NonPositiveMinutes, "minutesは1以上を指定してください。"),
    ];
    for (rejection, text) in texts {
        assert_eq!(rejection.message(), text);
        assert_eq!(CommandFailure::Rejected(rejection).reply_text(), text);
    }
    let embed = make_error_embed("x");
    assert_eq!(embed.title, "エラー");
    assert_eq!(embed.description, Some("x".to_string()));
    assert_eq!(embed.colour, Some(EmbedColour::Red));
}
