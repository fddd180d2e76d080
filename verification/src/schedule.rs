//! Opening a vote: what a user asks for, what is refused, and what is posted.

use vstd::prelude::*;

use crate::calendar::Date;
use crate::candidates::{schedule_dates_at, ZonedDate};
use crate::clock::{month_day_time_text, utc_now, Instant, MAX_SECS};
use crate::date_text::{format_jp_date, parse_date_arg};
use crate::embed::{Embed, EmbedColour, EmbedField, EmbedView, FieldView};
use crate::errors::{BotError, CommandFailure, Rejection, COLLECT_DAYS};
use crate::options::{
    get_bool_opt, get_channel, get_int, get_int_opt, get_string, get_string_opt, CommandOption,
};
use crate::reactions::{reaction_emoji, MAX_REACTION_COUNT};
use crate::text::{decimal_text, joined_text};
use crate::vote::{event_name_text, CollectingList, CollectingStatus};
use crate::zone::Zone;

verus! {

/// A vote that a user asks for.
#[derive(Debug)]
pub struct ScheduleRequest {
    pub guild_id: u64,
    pub event_number: i64,
    pub start_date: Date,
    pub end_date: Date,
    pub timezone: Zone,
    pub filter_type: String,
    pub website_url: Option<String>,
    pub time_range: (u32, u32),
    pub debug_vote: bool,
    pub voice_channel_id: u64,
}

/// What a request holds.
#[verifier::ext_equal]
pub struct RequestView {
    pub guild_id: u64,
    pub event_number: i64,
    pub start_date: Date,
    pub end_date: Date,
    pub timezone: Seq<char>,
    pub filter_type: Seq<char>,
    pub website_url: Option<Seq<char>>,
    pub time_range: (u32, u32),
    pub debug_vote: bool,
    pub voice_channel_id: u64,
}

impl ScheduleRequest {
    /// What the request holds.
    pub open spec fn view(&self) -> RequestView {
        RequestView {
            guild_id: self.guild_id,
            event_number: self.event_number,
            start_date: self.start_date,
            end_date: self.end_date,
            timezone: self.timezone@,
            filter_type: self.filter_type@,
            website_url: crate::text::text_opt(self.website_url),
            time_range: self.time_range,
            debug_vote: self.debug_vote,
            voice_channel_id: self.voice_channel_id,
        }
    }
}

/// A date that an option gives.
pub open spec fn date_option(options: Seq<CommandOption>, name: &'static str) -> Result<
    Date,
    BotError,
> {
    match crate::options::text_value(options, name@) {
        None => Err(BotError::MissingOption(name)),
        Some(t) => crate::date_text::date_arg(t),
    }
}

/// A text that an option gives, or another where it is not given.
pub open spec fn text_option(
    options: Seq<CommandOption>,
    name: Seq<char>,
    other: Seq<char>,
) -> Seq<char> {
    match crate::options::text_value(options, name) {
        Some(t) => t,
        None => other,
    }
}

/// An hour that an option gives, or another where it is not given. Of a number
/// that has more than 32 bits, the lowest 32 count.
pub open spec fn hour_option(options: Seq<CommandOption>, name: Seq<char>, other: u32) -> u32 {
    match crate::options::int_value(options, name) {
        Some(n) => n as u32,
        None => other,
    }
}

/// Whether hours are in order and within a day.
pub open spec fn hours_in_order(hours: (u32, u32)) -> bool {
    hours.0 < hours.1 && hours.1 <= 23
}

/// The vote that options ask for. What is missing or not understood first, in
/// the order of the options, is what the request fails with.
pub open spec fn request_of(guild_id: Option<u64>, options: Seq<CommandOption>) -> Result<
    RequestView,
    CommandFailure,
> {
    let timezone = text_option(options, "timezone"@, "Asia/Tokyo"@);
    let hours = (
        hour_option(options, "time_range_start"@, 21),
        hour_option(options, "time_range_end"@, 23),
    );
    if guild_id is None {
        Err(CommandFailure::Error(BotError::OutsideGuild))
    } else if crate::options::int_value(options, "event_number"@) is None {
        Err(CommandFailure::Error(BotError::MissingOption("event_number")))
    } else if date_option(options, "start_date") is Err {
        Err(CommandFailure::Error(date_option(options, "start_date")->Err_0))
    } else if date_option(options, "end_date") is Err {
        Err(CommandFailure::Error(date_option(options, "end_date")->Err_0))
    } else if !crate::zone::zone_known(timezone) {
        Err(CommandFailure::Error(BotError::InvalidTimezone))
    } else if crate::options::channel_value(options, "voice_channel"@) is None {
        Err(CommandFailure::Error(BotError::MissingOption("voice_channel")))
    } else if !hours_in_order(hours) {
        Err(CommandFailure::Rejected(Rejection::BadTimeRange))
    } else {
        Ok(
            RequestView {
                guild_id: guild_id->0,
                event_number: crate::options::int_value(options, "event_number"@)->0,
                start_date: date_option(options, "start_date")->Ok_0,
                end_date: date_option(options, "end_date")->Ok_0,
                timezone,
                filter_type: text_option(options, "filter_type"@, "holydays"@),
                website_url: crate::options::text_value(options, "website_url"@),
                time_range: hours,
                debug_vote: crate::options::bool_value(options, "debug_vote"@) == Some(true),
                voice_channel_id: crate::options::channel_value(options, "voice_channel"@)->0,
            },
        )
    }
}

/// What a reading of options holds.
pub open spec fn request_view(r: Result<ScheduleRequest, CommandFailure>) -> Result<
    RequestView,
    CommandFailure,
> {
    match r {
        Ok(q) => Ok(q@),
        Err(e) => Err(e),
    }
}

/// A date that an option gives.
fn get_date(options: &Vec<CommandOption>, name: &'static str) -> (r: Result<Date, BotError>)
    ensures
        r == date_option(options@, name),
        r matches Ok(d) ==> d.valid(),
{
    match get_string(options, name) {
        Ok(text) => parse_date_arg(text.as_str()),
        Err(e) => Err(e),
    }
}

/// A text that an option gives, or another where it is not given.
fn get_string_or(options: &Vec<CommandOption>, name: &str, other: &str) -> (r: String)
    ensures
        r@ == text_option(options@, name@, other@),
{
    match get_string_opt(options, name) {
        Some(text) => text,
        None => String::from_str(other),
    }
}

/// An hour that an option gives, or another where it is not given.
fn get_hour_or(options: &Vec<CommandOption>, name: &str, other: u32) -> (r: u32)
    ensures
        r == hour_option(options@, name@, other),
{
    match get_int_opt(options, name) {
        Some(n) => #[verifier::truncate]
        (n as u32),
        None => other,
    }
}

/// Whether a command failed because it names no time zone.
pub open spec fn names_no_zone<T>(r: Result<T, CommandFailure>) -> bool {
    r == Err::<T, CommandFailure>(CommandFailure::Error(BotError::InvalidTimezone))
}

/// Reads what a user asks for. The time zone that is taken where none is given
/// is always understood.
pub fn parse_schedule_request(guild_id: Option<u64>, options: &Vec<CommandOption>) -> (r: Result<
    ScheduleRequest,
    CommandFailure,
>)
    ensures
        request_view(r) == request_of(guild_id, options@),
        r matches Ok(q) ==> request_of(guild_id, options@) == Ok::<RequestView, CommandFailure>(q@),
        r matches Err(f) ==> request_of(guild_id, options@) == Err::<RequestView, CommandFailure>(
            f,
        ),
        r matches Ok(q) ==> q.start_date.valid() && q.end_date.valid() && hours_in_order(
            q.time_range,
        ),
        crate::options::text_value(options@, "timezone"@) is None ==> !names_no_zone(r),
{
    let guild_id: u64 = match guild_id {
        Some(g) => g,
        None => {
            return Err(CommandFailure::Error(BotError::OutsideGuild));
        },
    };
    let event_number: i64 = match get_int(options, "event_number") {
        Ok(n) => n,
        Err(e) => {
            return Err(CommandFailure::Error(e));
        },
    };
    let start_date = match get_date(options, "start_date") {
        Ok(d) => d,
        Err(e) => {
            return Err(CommandFailure::Error(e));
        },
    };
    let end_date = match get_date(options, "end_date") {
        Ok(d) => d,
        Err(e) => {
            return Err(CommandFailure::Error(e));
        },
    };
    let zone_name = get_string_or(options, "timezone", "Asia/Tokyo");
    let timezone = match Zone::parse(zone_name.as_str()) {
        Ok(z) => z,
        Err(e) => {
            return Err(CommandFailure::Error(e));
        },
    };
    let filter_type = get_string_or(options, "filter_type", "holydays");
    let website_url = get_string_opt(options, "website_url");
    let time_range_start: u32 = get_hour_or(options, "time_range_start", 21);
    let time_range_end: u32 = get_hour_or(options, "time_range_end", 23);
    let debug_vote = match get_bool_opt(options, "debug_vote") {
        Some(b) => b,
        None => false,
    };
    let voice_channel_id: u64 = match get_channel(options, "voice_channel") {
        Ok(c) => c,
        Err(e) => {
            return Err(CommandFailure::Error(e));
        },
    };
    if time_range_start >= time_range_end || time_range_end > 23 {
        return Err(CommandFailure::Rejected(Rejection::BadTimeRange));
    }
    Ok(
        ScheduleRequest {
            guild_id,
            event_number,
            start_date,
            end_date,
            timezone,
            filter_type,
            website_url,
            time_range: (time_range_start, time_range_end),
            debug_vote,
            voice_channel_id,
        },
    )
}

/// The seconds that a vote is open for: a week, or three minutes.
pub open spec fn vote_secs(debug_vote: bool) -> int {
    if debug_vote {
        180
    } else {
        COLLECT_DAYS * 86400
    }
}

/// A vote that is about to be posted: what to post, with which reactions, when
/// to add it up, and what to remember of it.
#[derive(Debug)]
pub struct SchedulePlan {
    pub embed: Embed,
    pub reactions: Vec<&'static str>,
    pub collect_end_at: Instant,
    pub draft: VoteDraft,
}

/// A vote whose message is not posted yet.
#[derive(Debug)]
pub struct VoteDraft {
    pub guild_id: u64,
    pub channel_id: u64,
    pub event_number: i64,
    pub author_text: String,
    pub website_url: Option<String>,
    pub dates: Vec<ZonedDate>,
    pub time_range: (u32, u32),
    pub timezone: Zone,
    pub voice_channel_id: u64,
}

/// The line of a candidate day.
pub open spec fn candidate_line(i: int, day: ZonedDate) -> Seq<char> {
    crate::reactions::emoji(i) + " `"@ + crate::date_text::jp_date(day.date) + "`"@
}

/// The lines of the candidate days.
pub open spec fn candidate_lines(dates: Seq<ZonedDate>) -> Seq<Seq<char>> {
    Seq::new(dates.len(), |i: int| candidate_line(i, dates[i]))
}

/// The hours of an event, as in 21:00 - 23:00.
pub open spec fn hours_text(hours: (u32, u32)) -> Seq<char> {
    crate::text::decimal(hours.0 as nat) + ":00 - "@ + crate::text::decimal(hours.1 as nat)
        + ":00"@
}

/// The local date and time of an instant, as in 06/01 21:05.
pub open spec fn local_time_text(zone: Seq<char>, t: Instant) -> Seq<char> {
    crate::clock::month_day_time(t.secs + crate::zone::zone_offset(zone, t.secs as int))
}

/// The time that a vote is open for.
pub open spec fn period_text(zone: Seq<char>, from: Instant, to: Instant) -> Seq<char> {
    local_time_text(zone, from) + " 〜 "@ + local_time_text(zone, to)
}

/// The fields of the message of a vote.
pub open spec fn vote_fields(
    q: RequestView,
    dates: Seq<ZonedDate>,
    now: Instant,
    collect_end: Instant,
) -> Seq<FieldView> {
    let fields = seq![
        FieldView {
            name: "日時の候補"@,
            value: crate::text::joined(candidate_lines(dates), "\n"@),
            inline: false,
        },
        FieldView { name: "時間"@, value: hours_text(q.time_range), inline: true },
        FieldView {
            name: "投票期間"@,
            value: period_text(q.timezone, now, collect_end),
            inline: true,
        },
    ];
    match q.website_url {
        Some(url) => fields.push(FieldView { name: "website"@, value: url, inline: false }),
        None => fields,
    }
}

/// The message of a vote.
pub open spec fn vote_embed(
    author: Seq<char>,
    q: RequestView,
    dates: Seq<ZonedDate>,
    now: Instant,
    collect_end: Instant,
) -> EmbedView {
    EmbedView {
        title: "以下のリアクションからスケジュールを選択してください。"@,
        author: Some(author),
        description: None,
        fields: vote_fields(q, dates, now, collect_end),
        colour: Some(EmbedColour::Blue),
    }
}

impl SchedulePlan {
    /// Whether the plan carries out a request that offers these days.
    pub open spec fn carries_out(
        &self,
        q: RequestView,
        channel_id: u64,
        asg_name: Seq<char>,
        dates: Seq<ZonedDate>,
        now: Instant,
    ) -> bool {
        let author = crate::vote::event_name(asg_name, q.event_number as int);
        &&& self.collect_end_at == now.later(vote_secs(q.debug_vote))
        &&& self.collect_end_at.in_range()
        &&& self.embed@ == vote_embed(author, q, dates, now, self.collect_end_at)
        &&& self.reactions.len() == dates.len()
        &&& forall|i: int|
            0 <= i < dates.len() ==> (#[trigger] self.reactions[i])@ == crate::reactions::emoji(i)
        &&& self.draft.guild_id == q.guild_id
        &&& self.draft.channel_id == channel_id
        &&& self.draft.event_number == q.event_number
        &&& self.draft.author_text@ == author
        &&& crate::text::text_opt(self.draft.website_url) == q.website_url
        &&& self.draft.dates@ == dates
        &&& self.draft.time_range == q.time_range
        &&& self.draft.timezone@ == q.timezone
        &&& self.draft.voice_channel_id == q.voice_channel_id
    }
}

impl VoteDraft {
    /// Whether the vote has as many candidate days as it can have, and each is
    /// a day of the vote's time zone.
    pub open spec fn well_formed(&self) -> bool {
        &&& 1 <= self.dates.len() <= MAX_REACTION_COUNT
        &&& hours_in_order(self.time_range)
        &&& forall|i: int|
            0 <= i < self.dates.len() ==> (#[trigger] self.dates[i]).is_day_of(self.timezone@)
    }

    /// The open vote, once its message is posted.
    pub open spec fn opened(self, message_id: u64) -> CollectingStatus {
        CollectingStatus {
            guild_id: self.guild_id,
            channel_id: self.channel_id,
            message_id,
            event_number: self.event_number,
            author_text: self.author_text,
            website_url: self.website_url,
            dates: self.dates,
            time_range: self.time_range,
            timezone: self.timezone,
            voice_channel_id: self.voice_channel_id,
        }
    }

    /// The open vote, once its message is posted.
    pub fn open(self, message_id: u64) -> (r: CollectingStatus)
        ensures
            self.well_formed() ==> r.well_formed(),
            r == self.opened(message_id),
    {
        CollectingStatus {
            guild_id: self.guild_id,
            channel_id: self.channel_id,
            message_id,
            event_number: self.event_number,
            author_text: self.author_text,
            website_url: self.website_url,
            dates: self.dates,
            time_range: self.time_range,
            timezone: self.timezone,
            voice_channel_id: self.voice_channel_id,
        }
    }
}

/// The lines of the candidate days, joined.
fn candidate_text(dates: &Vec<ZonedDate>) -> (r: String)
    requires
        dates.len() <= MAX_REACTION_COUNT,
        forall|i: int| 0 <= i < dates.len() ==> (#[trigger] dates[i]).date.valid(),
    ensures
        r@ == crate::text::joined(candidate_lines(dates@), "\n"@),
{
    let mut lines: Vec<String> = Vec::new();
    let mut i: usize = 0;
    while i < dates.len()
        invariant
            i <= dates.len() <= MAX_REACTION_COUNT,
            forall|j: int| 0 <= j < dates.len() ==> (#[trigger] dates[j]).date.valid(),
            lines.len() == i,
            forall|j: int| 0 <= j < i ==> (#[trigger] lines[j])@ == candidate_line(j, dates[j]),
        decreases dates.len() - i,
    {
        lines.push(
            String::from_str(reaction_emoji(i)).concat(" `").concat(
                format_jp_date(dates[i].date).as_str(),
            ).concat("`"),
        );
        i = i + 1;
    }
    assert(crate::text::texts(lines@) =~= candidate_lines(dates@));
    joined_text(&lines, "\n")
}

/// The time that a vote is open for.
fn make_period_text(zone: &Zone, from: Instant, to: Instant) -> (r: String)
    requires
        from.in_range(),
        to.in_range(),
    ensures
        r@ == period_text(zone@, from, to),
{
    let from_offset: i32 = zone.offset_at(from);
    let to_offset: i32 = zone.offset_at(to);
    month_day_time_text(from, from_offset).concat(" 〜 ").concat(
        month_day_time_text(to, to_offset).as_str(),
    )
}

/// The message of a vote.
fn make_vote_embed(
    author: &str,
    q: &ScheduleRequest,
    dates: &Vec<ZonedDate>,
    now: Instant,
    collect_end: Instant,
) -> (r: Embed)
    requires
        dates.len() <= MAX_REACTION_COUNT,
        forall|i: int| 0 <= i < dates.len() ==> (#[trigger] dates[i]).date.valid(),
        now.in_range(),
        collect_end.in_range(),
    ensures
        r@ == vote_embed(author@, q@, dates@, now, collect_end),
{
    let mut fields: Vec<EmbedField> = Vec::new();
    fields.push(EmbedField { name: "日時の候補", value: candidate_text(dates), inline: false });
    let hours = decimal_text(q.time_range.0 as u64).concat(":00 - ").concat(
        decimal_text(q.time_range.1 as u64).as_str(),
    ).concat(":00");
    fields.push(EmbedField { name: "時間", value: hours, inline: true });
    fields.push(
        EmbedField {
            name: "投票期間",
            value: make_period_text(&q.timezone, now, collect_end),
            inline: true,
        },
    );
    if let Some(url) = &q.website_url {
        fields.push(EmbedField { name: "website", value: url.clone(), inline: false });
    }
    let embed = Embed {
        title: String::from_str("以下のリアクションからスケジュールを選択してください。"),
        author: Some(String::from_str(author)),
        description: None,
        fields,
        colour: Some(EmbedColour::Blue),
    };
    assert(embed@.fields =~= vote_fields(q@, dates@, now, collect_end));
    embed
}

/// The reactions for a number of candidate days.
fn first_reactions(n: usize) -> (r: Vec<&'static str>)
    requires
        n <= MAX_REACTION_COUNT,
    ensures
        r.len() == n,
        forall|i: int| 0 <= i < n ==> (#[trigger] r[i])@ == crate::reactions::emoji(i),
{
    let mut reactions: Vec<&'static str> = Vec::new();
    let mut i: usize = 0;
    while i < n
        invariant
            i <= n <= MAX_REACTION_COUNT,
            reactions.len() == i,
            forall|j: int|
                0 <= j < i ==> (#[trigger] reactions[j])@ == crate::reactions::emoji(j),
        decreases n - i,
    {
        reactions.push(reaction_emoji(i));
        i = i + 1;
    }
    reactions
}

/// Whether days are days of a time zone.
pub open spec fn all_days_of(dates: Seq<ZonedDate>, zone: Seq<char>) -> bool {
    forall|i: int| 0 <= i < dates.len() ==> (#[trigger] dates[i]).is_day_of(zone)
}

/// The plan of a vote that is opened, by the days that it could offer.
pub fn plan_vote(
    q: ScheduleRequest,
    channel_id: u64,
    asg_name: &str,
    dates: Vec<ZonedDate>,
    now: Instant,
    collect_end_at: Instant,
) -> (r: Result<SchedulePlan, CommandFailure>)
    requires
        hours_in_order(q.time_range),
        forall|i: int| 0 <= i < dates.len() ==> (#[trigger] dates[i]).valid(),
        now.in_range(),
        collect_end_at.in_range(),
        collect_end_at == now.later(vote_secs(q.debug_vote)),
    ensures
        dates.len() == 0 ==> r == Err::<SchedulePlan, CommandFailure>(
            CommandFailure::Rejected(Rejection::NoCandidates),
        ),
        dates.len() > MAX_REACTION_COUNT ==> r == Err::<SchedulePlan, CommandFailure>(
            CommandFailure::Rejected(Rejection::TooManyCandidates),
        ),
        1 <= dates.len() <= MAX_REACTION_COUNT ==> {
            &&& r matches Ok(plan)
            &&& plan.carries_out(q@, channel_id, asg_name@, dates@, now)
            &&& plan.draft.dates@ == dates@
            &&& plan.collect_end_at == collect_end_at
            &&& all_days_of(dates@, q.timezone@) ==> plan.draft.well_formed()
        },
{
    if dates.len() == 0 {
        return Err(CommandFailure::Rejected(Rejection::NoCandidates));
    }
    if dates.len() > MAX_REACTION_COUNT {
        return Err(CommandFailure::Rejected(Rejection::TooManyCandidates));
    }
    proof {
        assert forall|i: int| 0 <= i < dates.len() implies (#[trigger] dates[i]).date.valid() by {
            assert(dates[i].valid());
        }
    }
    let author_text = event_name_text(asg_name, q.event_number);
    let embed = make_vote_embed(author_text.as_str(), &q, &dates, now, collect_end_at);
    let reactions = first_reactions(dates.len());
    Ok(
        SchedulePlan {
            embed,
            reactions,
            collect_end_at,
            draft: VoteDraft {
                guild_id: q.guild_id,
                channel_id,
                event_number: q.event_number,
                author_text,
                website_url: q.website_url,
                dates,
                time_range: q.time_range,
                timezone: q.timezone,
                voice_channel_id: q.voice_channel_id,
            },
        },
    )
}

/// What a command that opens a vote comes to, by the open votes and by what
/// the clock says when the vote opens and when its days are laid out.
pub open spec fn is_schedule_outcome(
    r: Result<SchedulePlan, CommandFailure>,
    guild_id: Option<u64>,
    channel_id: u64,
    options: Seq<CommandOption>,
    votes: Seq<CollectingStatus>,
    asg_name: Seq<char>,
    now: Instant,
    check_now: Instant,
) -> bool {
    match request_of(guild_id, options) {
        Err(f) => r == Err::<SchedulePlan, CommandFailure>(f),
        Ok(q) => if crate::vote::has_vote(votes, Some(q.guild_id)) {
            r == Err::<SchedulePlan, CommandFailure>(
                CommandFailure::Rejected(Rejection::VoteInProgress),
            )
        } else {
            match crate::candidates::schedule_dates(
                q.start_date,
                q.end_date,
                now.later(vote_secs(q.debug_vote)),
                q.filter_type,
                q.timezone,
                check_now,
            ) {
                Err(e) => r == Err::<SchedulePlan, CommandFailure>(CommandFailure::Error(e)),
                Ok(dates) => if dates.len() == 0 {
                    r == Err::<SchedulePlan, CommandFailure>(
                        CommandFailure::Rejected(Rejection::NoCandidates),
                    )
                } else if dates.len() > MAX_REACTION_COUNT {
                    r == Err::<SchedulePlan, CommandFailure>(
                        CommandFailure::Rejected(Rejection::TooManyCandidates),
                    )
                } else {
                    &&& r matches Ok(plan)
                    &&& plan.carries_out(q, channel_id, asg_name, dates, now)
                    &&& plan.draft.well_formed()
                },
            }
        },
    }
}

/// What a command that opens a vote comes to, by what the clock says.
pub fn schedule_at(
    guild_id: Option<u64>,
    channel_id: u64,
    options: &Vec<CommandOption>,
    collecting: &CollectingList,
    asg_name: &str,
    now: Instant,
    check_now: Instant,
) -> (r: Result<SchedulePlan, CommandFailure>)
    requires
        now.in_range(),
        now.secs + COLLECT_DAYS * 86400 <= MAX_SECS,
        check_now.in_range(),
    ensures
        is_schedule_outcome(
            r,
            guild_id,
            channel_id,
            options@,
            collecting@,
            asg_name@,
            now,
            check_now,
        ),
        crate::options::text_value(options@, "timezone"@) is None ==> !names_no_zone(r),
{
    let q = match parse_schedule_request(guild_id, options) {
        Ok(q) => q,
        Err(f) => {
            return Err(f);
        },
    };
    if collecting.is_collecting(q.guild_id) {
        return Err(CommandFailure::Rejected(Rejection::VoteInProgress));
    }
    let open_secs: u32 = if q.debug_vote {
        180
    } else {
        604800
    };
    let collect_end_at = now.plus_secs(open_secs);
    let dates = match schedule_dates_at(
        q.start_date,
        q.end_date,
        collect_end_at,
        q.filter_type.as_str(),
        &q.timezone,
        check_now,
    ) {
        Ok(dates) => dates,
        Err(e) => {
            return Err(CommandFailure::Error(e));
        },
    };
    plan_vote(q, channel_id, asg_name, dates, now, collect_end_at)
}

/// What a command that opens a vote now comes to. The clock is read once more
/// when the days are laid out.
pub fn schedule(
    guild_id: Option<u64>,
    channel_id: u64,
    options: &Vec<CommandOption>,
    collecting: &CollectingList,
    asg_name: &str,
    now: Instant,
) -> (r: Result<SchedulePlan, CommandFailure>)
    requires
        now.in_range(),
        now.secs + COLLECT_DAYS * 86400 <= MAX_SECS,
    ensures
        exists|check_now: Instant|
            check_now.in_range() && check_now.secs >= 0 && #[trigger] is_schedule_outcome(
                r,
                guild_id,
                channel_id,
                options@,
                collecting@,
                asg_name@,
                now,
                check_now,
            ),
        crate::options::text_value(options@, "timezone"@) is None ==> !names_no_zone(r),
{
    let check_now = utc_now();
    schedule_at(guild_id, channel_id, options, collecting, asg_name, now, check_now)
}

/// While a vote of a guild is open, no other vote of the guild is opened.
pub proof fn open_vote_refuses_another(
    r: Result<SchedulePlan, CommandFailure>,
    guild_id: Option<u64>,
    channel_id: u64,
    options: Seq<CommandOption>,
    votes: Seq<CollectingStatus>,
    asg_name: Seq<char>,
    now: Instant,
    check_now: Instant,
)
    requires
        is_schedule_outcome(
            r,
            guild_id,
            channel_id,
            options,
            votes,
            asg_name,
            now,
            check_now,
        ),
        guild_id is Some,
        crate::vote::has_vote(votes, guild_id),
    ensures
        r is Err,
        request_of(guild_id, options) is Ok ==> r == Err::<SchedulePlan, CommandFailure>(
            CommandFailure::Rejected(Rejection::VoteInProgress),
        ),
{
}

/// The open votes once a command that opens a vote is carried out: with the
/// vote that it opened, where it opened one.
pub open spec fn votes_after(
    votes: Seq<CollectingStatus>,
    r: Result<SchedulePlan, CommandFailure>,
    message_id: u64,
) -> Seq<CollectingStatus> {
    match r {
        Ok(plan) => votes.push(plan.draft.opened(message_id)),
        Err(_) => votes,
    }
}

/// Whether each vote offers between one day and as many as there are reactions,
/// and each is a day of the vote's time zone.
pub open spec fn all_well_formed(votes: Seq<CollectingStatus>) -> bool {
    forall|i: int| 0 <= i < votes.len() ==> (#[trigger] votes[i]).well_formed()
}

/// Whatever a command that opens a vote asks for and comes to, no guild has two
/// open votes after it where none had two before, and each open vote is well
/// formed where each was.
pub proof fn scheduling_keeps_votes_in_order(
    r: Result<SchedulePlan, CommandFailure>,
    guild_id: Option<u64>,
    channel_id: u64,
    options: Seq<CommandOption>,
    votes: Seq<CollectingStatus>,
    asg_name: Seq<char>,
    now: Instant,
    check_now: Instant,
    message_id: u64,
)
    requires
        is_schedule_outcome(
            r,
            guild_id,
            channel_id,
            options,
            votes,
            asg_name,
            now,
            check_now,
        ),
        crate::vote::one_vote_per_guild(votes),
    ensures
        crate::vote::one_vote_per_guild(votes_after(votes, r, message_id)),
        all_well_formed(votes) ==> all_well_formed(votes_after(votes, r, message_id)),
{
    if let Ok(plan) = r {
        let opened = plan.draft.opened(message_id);
        crate::vote::opening_keeps_one_vote_per_guild(votes, opened);
    }
}

/// Whether two lists of options give an option alike.
pub open spec fn given_alike(
    a: Seq<CommandOption>,
    b: Seq<CommandOption>,
    name: Seq<char>,
) -> bool {
    crate::options::option_value(a, name) == crate::options::option_value(b, name)
}

/// Whether a list of options leaves an option out.
pub open spec fn leaves_out(options: Seq<CommandOption>, name: Seq<char>) -> bool {
    crate::options::option_value(options, name) is None
}

/// Whether two lists of options ask for the same vote: they give the same
/// options, but for some that the first leaves out and the second gives the
/// default of.
pub open spec fn same_but_for_defaults(a: Seq<CommandOption>, b: Seq<CommandOption>) -> bool {
    &&& given_alike(a, b, "event_number"@)
    &&& given_alike(a, b, "start_date"@)
    &&& given_alike(a, b, "end_date"@)
    &&& given_alike(a, b, "voice_channel"@)
    &&& given_alike(a, b, "website_url"@)
    &&& given_alike(a, b, "timezone"@) || (leaves_out(a, "timezone"@)
        && crate::options::text_value(b, "timezone"@) == Some("Asia/Tokyo"@))
    &&& given_alike(a, b, "filter_type"@) || (leaves_out(a, "filter_type"@)
        && crate::options::text_value(b, "filter_type"@) == Some("holydays"@))
    &&& given_alike(a, b, "time_range_start"@) || (leaves_out(a, "time_range_start"@)
        && crate::options::int_value(b, "time_range_start"@) == Some(21i64))
    &&& given_alike(a, b, "time_range_end"@) || (leaves_out(a, "time_range_end"@)
        && crate::options::int_value(b, "time_range_end"@) == Some(23i64))
    &&& given_alike(a, b, "debug_vote"@) || (leaves_out(a, "debug_vote"@)
        && crate::options::bool_value(b, "debug_vote"@) == Some(false))
}

/// Options that are left out count as given with their defaults.
pub proof fn options_left_out_have_defaults(
    guild_id: Option<u64>,
    a: Seq<CommandOption>,
    b: Seq<CommandOption>,
)
    requires
        same_but_for_defaults(a, b),
    ensures
        request_of(guild_id, a) == request_of(guild_id, b),
{
}

/// Whether two plans post the same message with the same reactions, are added
/// up at the same time, and remember the same vote.
pub open spec fn same_plan(a: SchedulePlan, b: SchedulePlan) -> bool {
    &&& a.embed@ == b.embed@
    &&& a.reactions.len() == b.reactions.len()
    &&& forall|i: int|
        0 <= i < a.reactions.len() ==> (#[trigger] a.reactions[i])@ == b.reactions[i]@
    &&& a.collect_end_at == b.collect_end_at
    &&& a.draft.guild_id == b.draft.guild_id
    &&& a.draft.channel_id == b.draft.channel_id
    &&& a.draft.event_number == b.draft.event_number
    &&& a.draft.author_text@ == b.draft.author_text@
    &&& crate::text::text_opt(a.draft.website_url) == crate::text::text_opt(b.draft.website_url)
    &&& a.draft.dates@ == b.draft.dates@
    &&& a.draft.time_range == b.draft.time_range
    &&& a.draft.timezone@ == b.draft.timezone@
    &&& a.draft.voice_channel_id == b.draft.voice_channel_id
}

/// Two commands that ask for the same vote in the same place, with the same
/// votes open and the same time on the clock, come to the same.
pub proof fn same_requests_come_to_the_same(
    r: Result<SchedulePlan, CommandFailure>,
    s: Result<SchedulePlan, CommandFailure>,
    guild_id: Option<u64>,
    channel_id: u64,
    a: Seq<CommandOption>,
    b: Seq<CommandOption>,
    votes: Seq<CollectingStatus>,
    asg_name: Seq<char>,
    now: Instant,
    check_now: Instant,
)
    requires
        same_but_for_defaults(a, b),
        is_schedule_outcome(r, guild_id, channel_id, a, votes, asg_name, now, check_now),
        is_schedule_outcome(s, guild_id, channel_id, b, votes, asg_name, now, check_now),
    ensures
        match r {
            Ok(p) => s matches Ok(q) && same_plan(p, q),
            Err(f) => s == Err::<SchedulePlan, CommandFailure>(f),
        },
{
    options_left_out_have_defaults(guild_id, a, b);
}

/// A vote that is opened is of a guild that had none, and offers between one
/// day and as many as there are reactions, each of which lies between the days
/// that were asked for, begins after the vote ends, and passes the filter. The
/// first day that was asked for begins a week from then or later.
pub proof fn opened_votes_offer_what_was_asked_for(
    plan: SchedulePlan,
    guild_id: Option<u64>,
    channel_id: u64,
    options: Seq<CommandOption>,
    votes: Seq<CollectingStatus>,
    asg_name: Seq<char>,
    now: Instant,
    check_now: Instant,
)
    requires
        is_schedule_outcome(
            Ok(plan),
            guild_id,
            channel_id,
            options,
            votes,
            asg_name,
            now,
            check_now,
        ),
        request_of(guild_id, options) matches Ok(q) && q.start_date.valid(),
    ensures
        !crate::vote::has_vote(votes, Some(plan.draft.guild_id)),
        1 <= plan.draft.dates.len() <= MAX_REACTION_COUNT,
        request_of(guild_id, options) matches Ok(q) && (crate::zone::local_hour(
            q.timezone,
            q.start_date,
            0,
        ) matches Ok(t) && check_now.at() + COLLECT_DAYS * crate::candidates::day_nanos()
            <= t.at()),
        request_of(guild_id, options) matches Ok(q) && forall|i: int|
            0 <= i < plan.draft.dates.len() ==> crate::candidates::offers(
                (#[trigger] plan.draft.dates[i]).date,
                q.start_date,
                q.end_date,
                plan.collect_end_at,
                q.filter_type,
                q.timezone,
            ),
{
    let q = request_of(guild_id, options)->Ok_0;
    let end = now.later(vote_secs(q.debug_vote));
    crate::candidates::offered_days_are_found_in_order(
        q.start_date,
        q.end_date,
        end,
        q.filter_type,
        q.timezone,
    );
    let days = crate::candidates::scan_days(
        q.start_date,
        q.end_date,
        end,
        q.filter_type,
        q.timezone,
    )->Ok_0;
    assert(plan.draft.dates@ == days);
}

/// What a request holds is all of it.
pub proof fn requests_hold_all_their_parts(q: ScheduleRequest)
    ensures
        q@.guild_id == q.guild_id,
        q@.event_number == q.event_number,
        q@.start_date == q.start_date,
        q@.end_date == q.end_date,
        q@.timezone == q.timezone@,
        q@.filter_type == q.filter_type@,
        q.website_url is Some ==> q@.website_url == Some(q.website_url->0@),
        q.website_url is None ==> q@.website_url is None,
        q@.time_range == q.time_range,
        q@.debug_vote == q.debug_vote,
        q@.voice_channel_id == q.voice_channel_id,
{
}

/// A vote is understood if and only if it is asked for in a guild, with a number,
/// two dates, a voice channel, a time zone that is known where one is given, and
/// hours of one day of which the first is earlier. It is then the one that the
/// options ask for.
pub proof fn requests_are_understood_where_options_suffice(
    guild_id: Option<u64>,
    options: Seq<CommandOption>,
)
    ensures
        ({
            let number = crate::options::int_value(options, "event_number"@);
            let first = crate::options::text_value(options, "start_date"@);
            let last = crate::options::text_value(options, "end_date"@);
            let channel = crate::options::channel_value(options, "voice_channel"@);
            let zone = crate::options::text_value(options, "timezone"@);
            let filter = crate::options::text_value(options, "filter_type"@);
            let from = crate::options::int_value(options, "time_range_start"@);
            let to = crate::options::int_value(options, "time_range_end"@);
            let from_hour: u32 = if from is Some { from->0 as u32 } else { 21 };
            let to_hour: u32 = if to is Some { to->0 as u32 } else { 23 };
            let r = request_of(guild_id, options);
            &&& r is Ok <==> {
                &&& guild_id is Some && number is Some && channel is Some
                &&& first is Some && crate::date_text::date_arg(first->0) is Ok
                &&& last is Some && crate::date_text::date_arg(last->0) is Ok
                &&& zone is Some ==> crate::zone::zone_known(zone->0)
                &&& zone is None ==> crate::zone::zone_known("Asia/Tokyo"@)
                &&& from_hour < to_hour && to_hour <= 23
            }
            &&& r matches Ok(q) ==> {
                &&& q.guild_id == guild_id->0
                &&& q.event_number == number->0
                &&& crate::date_text::date_arg(first->0) == Ok::<Date, BotError>(q.start_date)
                &&& crate::date_text::date_arg(last->0) == Ok::<Date, BotError>(q.end_date)
                &&& zone is Some ==> q.timezone == zone->0
                &&& zone is None ==> q.timezone == "Asia/Tokyo"@
                &&& filter is Some ==> q.filter_type == filter->0
                &&& filter is None ==> q.filter_type == "holydays"@
                &&& q.website_url == crate::options::text_value(options, "website_url"@)
                &&& q.time_range.0 == from_hour && q.time_range.1 == to_hour
                &&& q.debug_vote <==> crate::options::bool_value(options, "debug_vote"@) == Some(
                    true,
                )
                &&& q.voice_channel_id == channel->0
            }
        }),
{
}

/// A request fails with the first thing that is wrong with it.
pub proof fn requests_fail_for_the_first_reason(guild_id: Option<u64>, options: Seq<CommandOption>)
    ensures
        ({
            let number = crate::options::int_value(options, "event_number"@);
            let first = crate::options::text_value(options, "start_date"@);
            let last = crate::options::text_value(options, "end_date"@);
            let channel = crate::options::channel_value(options, "voice_channel"@);
            let first_ok = first is Some && crate::date_text::date_arg(first->0) is Ok;
            let last_ok = last is Some && crate::date_text::date_arg(last->0) is Ok;
            let r = request_of(guild_id, options);
            &&& guild_id is None ==> r == Err::<RequestView, CommandFailure>(
                CommandFailure::Error(BotError::OutsideGuild),
            )
            &&& guild_id is Some && number is None ==> r == Err::<RequestView, CommandFailure>(
                CommandFailure::Error(BotError::MissingOption("event_number")),
            )
            &&& guild_id is Some && number is Some && first is None ==> r == Err::<
                RequestView,
                CommandFailure,
            >(CommandFailure::Error(BotError::MissingOption("start_date")))
            &&& guild_id is Some && number is Some && first_ok && last is None ==> r == Err::<
                RequestView,
                CommandFailure,
            >(CommandFailure::Error(BotError::MissingOption("end_date")))
            &&& guild_id is Some && number is Some && (first is Some && !first_ok || first_ok
                && last is Some && !last_ok) ==> r is Err && r->Err_0 is Error
            &&& r == Err::<RequestView, CommandFailure>(
                CommandFailure::Error(BotError::InvalidDate),
            ) ==> first is Some && !first_ok || last is Some && !last_ok
            &&& r == Err::<RequestView, CommandFailure>(
                CommandFailure::Error(BotError::InvalidTimezone),
            ) ==> first_ok && last_ok && !crate::zone::zone_known(
                if crate::options::text_value(options, "timezone"@) is Some {
                    crate::options::text_value(options, "timezone"@)->0
                } else {
                    "Asia/Tokyo"@
                },
            )
            &&& r == Err::<RequestView, CommandFailure>(
                CommandFailure::Error(BotError::MissingOption("voice_channel")),
            ) ==> channel is None || first is None || last is None || number is None
            &&& r == Err::<RequestView, CommandFailure>(
                CommandFailure::Rejected(Rejection::BadTimeRange),
            ) ==> guild_id is Some && number is Some && first_ok && last_ok && channel is Some
        }),
{
    assert forall|t: Seq<char>| (#[trigger] crate::date_text::date_arg(t)) is Err implies
        crate::date_text::date_arg(t)->Err_0 == BotError::InvalidDate by {
        crate::date_text::dates_are_read_where_a_form_reads_one(t);
    }
}

/// A candidate day is shown behind its own reaction.
pub proof fn candidate_days_are_shown_behind_their_reactions(
    dates: Seq<ZonedDate>,
    i: int,
)
    requires
        0 <= i < dates.len(),
    ensures
        ({
            let line = candidate_lines(dates)[i];
            let k = crate::reactions::emoji(i).len() as int;
            &&& candidate_lines(dates).len() == dates.len()
            &&& line == candidate_line(i, dates[i])
            &&& line.take(k) == crate::reactions::emoji(i)
            &&& line[k] == ' ' && line[k + 1] == '`' && line.last() == '`'
            &&& line.subrange(k + 2, line.len() - 1) == crate::date_text::jp_date(dates[i].date)
        }),
{
    let line = candidate_lines(dates)[i];
    let k = crate::reactions::emoji(i).len() as int;
    reveal_strlit(" `");
    reveal_strlit("`");
    assert(" `"@.len() == 2 && "`"@.len() == 1);
    assert(line.take(k) =~= crate::reactions::emoji(i));
    assert(line.subrange(k + 2, line.len() - 1) =~= crate::date_text::jp_date(dates[i].date));
}

/// The message of a vote shows every candidate day on a line, the hours, the time
/// that the vote is open for in its time zone, and the website where one is given.
pub proof fn messages_show_days_hours_and_period(
    author: Seq<char>,
    q: RequestView,
    dates: Seq<ZonedDate>,
    now: Instant,
    collect_end: Instant,
)
    ensures
        ({
            let e = vote_embed(author, q, dates, now, collect_end);
            let from = now.secs + crate::zone::zone_offset(q.timezone, now.secs as int);
            let to = collect_end.secs + crate::zone::zone_offset(
                q.timezone,
                collect_end.secs as int,
            );
            &&& e.author == Some(author)
            &&& e.fields.len() == (if q.website_url is Some { 4int } else { 3int })
            &&& e.fields[0].value == crate::text::joined(candidate_lines(dates), "\n"@)
            &&& e.fields[1].value == crate::text::decimal(q.time_range.0 as nat) + ":00 - "@
                + crate::text::decimal(q.time_range.1 as nat) + ":00"@
            &&& e.fields[2].value == crate::clock::month_day_time(from) + " 〜 "@
                + crate::clock::month_day_time(to)
            &&& q.website_url is Some ==> e.fields[3].value == q.website_url->0
        }),
{
}

/// A plan keeps what was asked for: every day that could be offered, with its
/// reaction, a week of voting or three minutes, and the guild, the channel, the
/// number, the website, the hours, the time zone and the voice channel.
pub proof fn plans_keep_what_was_asked_for(
    plan: SchedulePlan,
    q: RequestView,
    channel_id: u64,
    asg_name: Seq<char>,
    dates: Seq<ZonedDate>,
    now: Instant,
)
    requires
        plan.carries_out(q, channel_id, asg_name, dates, now),
        now.in_range(),
    ensures
        q.debug_vote ==> plan.collect_end_at.secs == now.secs + 3 * 60,
        !q.debug_vote ==> plan.collect_end_at.secs == now.secs + 7 * 24 * 60 * 60,
        plan.collect_end_at.nanos == now.nanos,
        plan.reactions.len() == dates.len(),
        forall|i: int|
            0 <= i < dates.len() ==> (#[trigger] plan.reactions[i])@ == crate::reactions::emoji(i),
        plan.embed@ == vote_embed(
            crate::vote::event_name(asg_name, q.event_number as int),
            q,
            dates,
            now,
            plan.collect_end_at,
        ),
        plan.draft.dates@ == dates,
        plan.draft.guild_id == q.guild_id,
        plan.draft.channel_id == channel_id,
        plan.draft.event_number == q.event_number,
        plan.draft.author_text@ == crate::vote::event_name(asg_name, q.event_number as int),
        q.website_url is Some ==> plan.draft.website_url is Some && plan.draft.website_url->0@
            == q.website_url->0,
        q.website_url is None ==> plan.draft.website_url is None,
        plan.draft.time_range == q.time_range,
        plan.draft.timezone@ == q.timezone,
        plan.draft.voice_channel_id == q.voice_channel_id,
{
}

/// Once its message is posted, an open vote keeps all that was planned.
pub proof fn open_votes_keep_what_was_planned(draft: VoteDraft, message_id: u64)
    ensures
        ({
            let status = draft.opened(message_id);
            &&& status.guild_id == draft.guild_id
            &&& status.channel_id == draft.channel_id
            &&& status.message_id == message_id
            &&& status.event_number == draft.event_number
            &&& status.author_text == draft.author_text
            &&& status.website_url == draft.website_url
            &&& status.dates == draft.dates
            &&& status.time_range == draft.time_range
            &&& status.timezone == draft.timezone
            &&& status.voice_channel_id == draft.voice_channel_id
        }),
{
}

/// A vote is opened if and only if it is understood, the guild has none open, and
/// the days that can be laid out are one at the least and twenty at the most. It
/// then carries out the request with exactly those days, and each other outcome
/// has its own answer.
pub proof fn votes_are_opened_wherever_they_can_be(
    r: Result<SchedulePlan, CommandFailure>,
    guild_id: Option<u64>,
    channel_id: u64,
    options: Seq<CommandOption>,
    votes: Seq<CollectingStatus>,
    asg_name: Seq<char>,
    now: Instant,
    check_now: Instant,
    q: RequestView,
)
    requires
        is_schedule_outcome(
            r,
            guild_id,
            channel_id,
            options,
            votes,
            asg_name,
            now,
            check_now,
        ),
        request_of(guild_id, options) == Ok::<RequestView, CommandFailure>(q),
        now.in_range(),
        now.secs + 7 * 86400 <= MAX_SECS,
    ensures
        ({
            let close = Instant {
                secs: (now.secs + if q.debug_vote { 180int } else { 604800int }) as i64,
                nanos: now.nanos,
            };
            let days = crate::candidates::schedule_dates(
                q.start_date,
                q.end_date,
                close,
                q.filter_type,
                q.timezone,
                check_now,
            );
            let busy = exists|i: int|
                0 <= i < votes.len() && (#[trigger] votes[i]).guild_id == q.guild_id;
            &&& r is Ok <==> !busy && days is Ok && 1 <= days->Ok_0.len() <= 20
            &&& r matches Ok(plan) ==> plan.carries_out(
                q,
                channel_id,
                asg_name,
                days->Ok_0,
                now,
            )
            &&& busy ==> r == Err::<SchedulePlan, CommandFailure>(
                CommandFailure::Rejected(Rejection::VoteInProgress),
            )
            &&& !busy && days is Err ==> r == Err::<SchedulePlan, CommandFailure>(
                CommandFailure::Error(days->Err_0),
            )
            &&& !busy && days is Ok && days->Ok_0.len() == 0 ==> r == Err::<
                SchedulePlan,
                CommandFailure,
            >(CommandFailure::Rejected(Rejection::NoCandidates))
            &&& !busy && days is Ok && days->Ok_0.len() > 20 ==> r == Err::<
                SchedulePlan,
                CommandFailure,
            >(CommandFailure::Rejected(Rejection::TooManyCandidates))
        }),
{
    crate::vote::votes_are_found_by_guild(votes, q.guild_id, 0);
}

} // verus!
