//! Open votes, and how a vote is added up.

use vstd::prelude::*;

use crate::candidates::ZonedDate;
use crate::clock::{month_day_text, Instant};
use crate::date_text::format_jp_date;
use crate::embed::{Embed, EmbedColour, EmbedField, EmbedView, FieldView};
use crate::errors::BotError;
use crate::reactions::{count_votes, find_winner, reaction_emoji, Reaction, MAX_REACTION_COUNT};
use crate::text::{decimal_text, joined_text, signed_decimal_text};
use crate::zone::{make_datetime, Zone};

verus! {

/// An open vote.
#[derive(Debug)]
pub struct CollectingStatus {
    pub guild_id: u64,
    pub channel_id: u64,
    pub message_id: u64,
    pub event_number: i64,
    pub author_text: String,
    pub website_url: Option<String>,
    pub dates: Vec<ZonedDate>,
    pub time_range: (u32, u32),
    pub timezone: Zone,
    pub voice_channel_id: u64,
}

impl CollectingStatus {
    /// Whether the vote has no more candidate days than there are reactions,
    /// and each exists.
    pub open spec fn valid(&self) -> bool {
        &&& self.dates.len() <= MAX_REACTION_COUNT
        &&& forall|i: int| 0 <= i < self.dates.len() ==> (#[trigger] self.dates[i]).valid()
    }

    /// Whether the vote is valid, has candidate days, and each is a day of the
    /// vote's time zone.
    pub open spec fn well_formed(&self) -> bool {
        &&& self.valid()
        &&& 1 <= self.dates.len()
        &&& forall|i: int|
            0 <= i < self.dates.len() ==> (#[trigger] self.dates[i]).is_day_of(self.timezone@)
    }

    /// Whether the vote is one of a guild, where a guild is given.
    pub open spec fn is_of(&self, guild: Option<u64>) -> bool {
        guild matches Some(g) ==> self.guild_id == g
    }
}

/// The open votes, in the order in which they were opened.
#[derive(Debug)]
pub struct CollectingList {
    votes: Vec<CollectingStatus>,
}

/// Whether the vote at a place is the first one of a guild.
pub open spec fn is_oldest(votes: Seq<CollectingStatus>, guild: Option<u64>, i: int) -> bool {
    &&& 0 <= i < votes.len()
    &&& votes[i].is_of(guild)
    &&& forall|j: int| 0 <= j < i ==> !(#[trigger] votes[j]).is_of(guild)
}

/// Whether the vote at a place is the last one of a guild.
pub open spec fn is_latest(votes: Seq<CollectingStatus>, guild: Option<u64>, i: int) -> bool {
    &&& 0 <= i < votes.len()
    &&& votes[i].is_of(guild)
    &&& forall|j: int| i < j < votes.len() ==> !(#[trigger] votes[j]).is_of(guild)
}

/// Whether a vote of a guild is open.
pub open spec fn has_vote(votes: Seq<CollectingStatus>, guild: Option<u64>) -> bool {
    exists|i: int| 0 <= i < votes.len() && (#[trigger] votes[i]).is_of(guild)
}

/// Whether no guild has two open votes.
pub open spec fn one_vote_per_guild(votes: Seq<CollectingStatus>) -> bool {
    forall|i: int, j: int|
        0 <= i < j < votes.len() ==> (#[trigger] votes[i]).guild_id != (
        #[trigger] votes[j]).guild_id
}

impl CollectingList {
    /// The open votes, in the order in which they were opened.
    pub closed spec fn view(&self) -> Seq<CollectingStatus> {
        self.votes@
    }

    /// No open votes.
    pub fn new() -> (r: CollectingList)
        ensures
            r@ == Seq::<CollectingStatus>::empty(),
    {
        CollectingList { votes: Vec::new() }
    }

    /// Whether a vote of a guild is open.
    pub fn is_collecting(&self, guild_id: u64) -> (r: bool)
        ensures
            r == has_vote(self@, Some(guild_id)),
    {
        let mut i: usize = 0;
        while i < self.votes.len()
            invariant
                forall|j: int| 0 <= j < i ==> !(#[trigger] self@[j]).is_of(Some(guild_id)),
            decreases self.votes.len() - i,
        {
            if self.votes[i].guild_id == guild_id {
                assert(self@[i as int].is_of(Some(guild_id)));
                return true;
            }
            i = i + 1;
        }
        false
    }

    /// Adds a vote that was opened.
    pub fn push(&mut self, status: CollectingStatus)
        ensures
            final(self)@ == old(self)@.push(status),
    {
        self.votes.push(status);
    }

    /// Takes out the first open vote of a guild, or of any guild where none is
    /// given.
    pub fn take_oldest(&mut self, guild: Option<u64>) -> (r: Result<CollectingStatus, BotError>)
        ensures
            r is Ok <==> has_vote(old(self)@, guild),
            r matches Ok(status) ==> exists|i: int| #[trigger]
                is_oldest(old(self)@, guild, i) && status == old(self)@[i] && final(self)@ == old(
                    self,
                )@.remove(i),
            r matches Err(e) ==> e == BotError::NoActiveVote && final(self)@ == old(self)@,
    {
        let mut i: usize = 0;
        while i < self.votes.len()
            invariant
                self@ == old(self)@,
                forall|j: int| 0 <= j < i ==> !(#[trigger] self@[j]).is_of(guild),
            decreases self.votes.len() - i,
        {
            let found = match guild {
                Some(g) => self.votes[i].guild_id == g,
                None => true,
            };
            if found {
                assert(is_oldest(old(self)@, guild, i as int));
                return Ok(self.votes.remove(i));
            }
            i = i + 1;
        }
        Err(BotError::NoActiveVote)
    }

    /// Takes out the last open vote of a guild, or of any guild where none is
    /// given.
    pub fn take_latest(&mut self, guild: Option<u64>) -> (r: Result<CollectingStatus, BotError>)
        ensures
            r is Ok <==> has_vote(old(self)@, guild),
            r matches Ok(status) ==> exists|i: int| #[trigger]
                is_latest(old(self)@, guild, i) && status == old(self)@[i] && final(self)@ == old(
                    self,
                )@.remove(i),
            r matches Err(e) ==> e == BotError::NoActiveVote && final(self)@ == old(self)@,
    {
        let mut i: usize = self.votes.len();
        while i > 0
            invariant
                i <= self.votes.len(),
                self@ == old(self)@,
                forall|j: int| i <= j < self@.len() ==> !(#[trigger] self@[j]).is_of(guild),
            decreases i,
        {
            i = i - 1;
            let found = match guild {
                Some(g) => self.votes[i].guild_id == g,
                None => true,
            };
            if found {
                assert(is_latest(old(self)@, guild, i as int));
                return Ok(self.votes.remove(i));
            }
        }
        Err(BotError::NoActiveVote)
    }
}

/// Opening a vote where the guild has none leaves at most one per guild.
pub proof fn opening_keeps_one_vote_per_guild(
    votes: Seq<CollectingStatus>,
    status: CollectingStatus,
)
    requires
        one_vote_per_guild(votes),
        !has_vote(votes, Some(status.guild_id)),
    ensures
        one_vote_per_guild(votes.push(status)),
        has_vote(votes.push(status), Some(status.guild_id)),
{
    let more = votes.push(status);
    assert forall|i: int, j: int| 0 <= i < j < more.len() implies (#[trigger] more[i]).guild_id != (
    #[trigger] more[j]).guild_id by {
        assert(more[i] == votes[i]);
        if j == votes.len() {
            assert(!votes[i].is_of(Some(status.guild_id)));
        }
    }
    assert(more[votes.len() as int].is_of(Some(status.guild_id)));
}

/// Taking a vote out leaves at most one per guild, and none of the guild that
/// it was of: that guild can open a vote again.
pub proof fn taking_ends_the_vote_of_the_guild(votes: Seq<CollectingStatus>, i: int)
    requires
        one_vote_per_guild(votes),
        0 <= i < votes.len(),
    ensures
        one_vote_per_guild(votes.remove(i)),
        !has_vote(votes.remove(i), Some(votes[i].guild_id)),
{
    let fewer = votes.remove(i);
    assert forall|a: int, b: int| 0 <= a < b < fewer.len() implies (
    #[trigger] fewer[a]).guild_id != (#[trigger] fewer[b]).guild_id by {
        let a2 = if a < i { a } else { a + 1 };
        let b2 = if b < i { b } else { b + 1 };
        assert(fewer[a] == votes[a2] && fewer[b] == votes[b2]);
    }
    assert forall|a: int| 0 <= a < fewer.len() implies !(#[trigger] fewer[a]).is_of(
        Some(votes[i].guild_id),
    ) by {
        let a2 = if a < i { a } else { a + 1 };
        assert(fewer[a] == votes[a2]);
    }
}

/// Where no guild has two open votes, the first and the last open vote of a
/// guild are the same.
pub proof fn oldest_is_latest(votes: Seq<CollectingStatus>, guild: u64, i: int, j: int)
    requires
        one_vote_per_guild(votes),
        is_oldest(votes, Some(guild), i),
        is_latest(votes, Some(guild), j),
    ensures
        i == j,
{
}

/// Votes are told apart by their guild alone, and where no guild is given every
/// vote is meant.
pub proof fn votes_are_found_by_guild(votes: Seq<CollectingStatus>, guild: u64, i: int)
    ensures
        has_vote(votes, Some(guild)) <==> exists|j: int|
            0 <= j < votes.len() && (#[trigger] votes[j]).guild_id == guild,
        has_vote(votes, None) <==> votes.len() > 0,
        is_oldest(votes, Some(guild), i) <==> 0 <= i < votes.len() && votes[i].guild_id == guild
            && forall|j: int| 0 <= j < i ==> (#[trigger] votes[j]).guild_id != guild,
        is_latest(votes, Some(guild), i) <==> 0 <= i < votes.len() && votes[i].guild_id == guild
            && forall|j: int| i < j < votes.len() ==> (#[trigger] votes[j]).guild_id != guild,
        is_oldest(votes, None, i) <==> i == 0 && votes.len() > 0,
        is_latest(votes, None, i) <==> i == votes.len() - 1 && votes.len() > 0,
{
    if has_vote(votes, Some(guild)) {
        let j = choose|j: int| 0 <= j < votes.len() && (#[trigger] votes[j]).is_of(Some(guild));
        assert(votes[j].guild_id == guild);
    }
    if exists|j: int| 0 <= j < votes.len() && (#[trigger] votes[j]).guild_id == guild {
        let j = choose|j: int| 0 <= j < votes.len() && (#[trigger] votes[j]).guild_id == guild;
        assert(votes[j].is_of(Some(guild)));
    }
    if votes.len() > 0 {
        assert(votes[0].is_of(None));
        assert(votes[votes.len() - 1].is_of(None));
    }
    assert forall|j: int| 0 <= j < votes.len() implies (#[trigger] votes[j]).is_of(Some(guild)) == (
    votes[j].guild_id == guild) by {
    }
    assert forall|j: int| 0 <= j < i < votes.len() implies (#[trigger] votes[j]).is_of(None) by {
    }
}

/// The name of an event: the name of the group and the number of the event.
pub open spec fn event_name(asg_name: Seq<char>, event_number: int) -> Seq<char> {
    asg_name + " 第"@ + crate::text::signed_decimal(event_number) + "回"@
}

/// The name of an event.
pub fn event_name_text(asg_name: &str, event_number: i64) -> (r: String)
    ensures
        r@ == event_name(asg_name@, event_number as int),
        r@ == asg_name@ + " 第"@ + crate::text::signed_decimal(event_number as int) + "回"@,
{
    String::from_str(asg_name).concat(" 第").concat(
        signed_decimal_text(event_number).as_str(),
    ).concat("回")
}

/// The line of a candidate day in the result of a vote.
pub open spec fn result_line(i: int, day: ZonedDate, count: int, won: bool) -> Seq<char> {
    if won {
        crate::reactions::emoji(i) + " `"@ + crate::date_text::jp_date(day.date) + "`: **"@
            + crate::text::decimal(count as nat) + "人**"@
    } else {
        crate::reactions::emoji(i) + " `"@ + crate::date_text::jp_date(day.date) + "`: "@
            + crate::text::decimal(count as nat) + "人"@
    }
}

/// The line of a candidate day in the result of a vote.
fn result_line_text(i: usize, day: ZonedDate, count: u64, won: bool) -> (r: String)
    requires
        i < MAX_REACTION_COUNT,
        day.date.valid(),
    ensures
        r@ == result_line(i as int, day, count as int, won),
{
    let start = String::from_str(reaction_emoji(i)).concat(" `").concat(
        format_jp_date(day.date).as_str(),
    );
    if won {
        start.concat("`: **").concat(decimal_text(count).as_str()).concat("人**")
    } else {
        start.concat("`: ").concat(decimal_text(count).as_str()).concat("人")
    }
}

/// The lines of the result of a vote.
pub open spec fn result_lines(dates: Seq<ZonedDate>, counts: Seq<u64>, winner: int) -> Seq<
    Seq<char>,
> {
    Seq::new(dates.len(), |i: int| result_line(i, dates[i], counts[i] as int, i == winner))
}

/// The embed that shows the result of a vote.
pub open spec fn result_embed(
    author: Seq<char>,
    dates: Seq<ZonedDate>,
    counts: Seq<u64>,
    winner: int,
) -> EmbedView {
    EmbedView {
        title: "以下の通りスケジュールが集計されました。"@,
        author: Some(author),
        description: None,
        fields: seq![
            FieldView {
                name: "スケジュールの集計結果"@,
                value: crate::text::joined(result_lines(dates, counts, winner), "\n"@),
                inline: false,
            },
        ],
        colour: Some(EmbedColour::Blue),
    }
}

/// The embed that shows the result of a vote.
fn make_result_embed(
    author: &str,
    dates: &Vec<ZonedDate>,
    counts: &Vec<u64>,
    winner: usize,
) -> (r: Embed)
    requires
        dates.len() <= MAX_REACTION_COUNT,
        dates.len() == counts.len(),
        forall|i: int| 0 <= i < dates.len() ==> (#[trigger] dates[i]).date.valid(),
    ensures
        r@ == result_embed(author@, dates@, counts@, winner as int),
{
    let mut lines: Vec<String> = Vec::new();
    let mut i: usize = 0;
    while i < dates.len()
        invariant
            i <= dates.len() == counts.len(),
            dates.len() <= MAX_REACTION_COUNT,
            forall|j: int| 0 <= j < dates.len() ==> (#[trigger] dates[j]).date.valid(),
            lines.len() == i,
            forall|j: int|
                0 <= j < i ==> (#[trigger] lines[j])@ == result_line(
                    j,
                    dates[j],
                    counts[j] as int,
                    j == winner,
                ),
        decreases dates.len() - i,
    {
        lines.push(result_line_text(i, dates[i], counts[i], i == winner));
        i = i + 1;
    }
    proof {
        assert(crate::text::texts(lines@) =~= result_lines(dates@, counts@, winner as int));
    }
    let mut fields: Vec<EmbedField> = Vec::new();
    fields.push(
        EmbedField {
            name: "スケジュールの集計結果",
            value: joined_text(&lines, "\n"),
            inline: false,
        },
    );
    let embed = Embed {
        title: String::from_str("以下の通りスケジュールが集計されました。"),
        author: Some(String::from_str(author)),
        description: None,
        fields,
        colour: Some(EmbedColour::Blue),
    };
    assert(embed@.fields =~= result_embed(author@, dates@, counts@, winner as int).fields);
    embed
}

/// An event that is to be created.
#[derive(Debug)]
pub struct NewEvent {
    pub name: String,
    pub start_time: Instant,
    pub end_time: Instant,
    pub voice_channel_id: u64,
    pub description: Option<String>,
}

/// The result of a vote.
#[derive(Debug)]
pub struct VoteResult {
    pub counts: Vec<u64>,
    pub winner: usize,
    pub embed: Embed,
    pub event: NewEvent,
}

/// The description of an event: its website, where it has one.
pub open spec fn event_description(website_url: Option<Seq<char>>) -> Option<Seq<char>> {
    match website_url {
        Some(url) => Some("website: "@ + url),
        None => None,
    }
}

impl NewEvent {
    /// Whether the event is the one that a vote decided on: named after the
    /// group, on the winning day, at the hours that the vote was opened for.
    pub open spec fn is_decided_by(
        &self,
        asg_name: Seq<char>,
        status: &CollectingStatus,
        day: ZonedDate,
    ) -> bool {
        &&& self.name@ == event_name(asg_name, status.event_number as int)
        &&& crate::zone::local_hour(status.timezone@, day.date, status.time_range.0 as int) == Ok::<
            Instant,
            BotError,
        >(self.start_time)
        &&& crate::zone::local_hour(status.timezone@, day.date, status.time_range.1 as int) == Ok::<
            Instant,
            BotError,
        >(self.end_time)
        &&& crate::zone::is_local_hour(
            status.timezone@,
            self.start_time,
            day.date,
            status.time_range.0 as int,
        )
        &&& crate::zone::is_local_hour(
            status.timezone@,
            self.end_time,
            day.date,
            status.time_range.1 as int,
        )
        &&& self.voice_channel_id == status.voice_channel_id
        &&& crate::text::text_opt(self.description) == event_description(
            crate::text::text_opt(status.website_url),
        )
    }
}

/// The votes for the candidate days of a vote.
pub open spec fn are_votes(counts: Seq<u64>, reactions: Seq<Reaction>, n: int) -> bool {
    &&& counts.len() == n
    &&& forall|i: int|
        0 <= i < n ==> #[trigger] counts[i] == crate::reactions::votes_for(
            reactions,
            crate::reactions::emoji(i),
        )
}

/// The first error among those of two hours of a day, where there is one.
pub open spec fn hours_error(zone: Seq<char>, day: ZonedDate, hours: (u32, u32)) -> Option<
    BotError,
> {
    match crate::zone::local_hour(zone, day.date, hours.0 as int) {
        Err(e) => Some(e),
        Ok(_) => match crate::zone::local_hour(zone, day.date, hours.1 as int) {
            Err(e) => Some(e),
            Ok(_) => None,
        },
    }
}

/// Adds up a vote by the reactions under its message.
pub fn tally(status: &CollectingStatus, reactions: &Vec<Reaction>, asg_name: &str) -> (r: Result<
    VoteResult,
    BotError,
>)
    requires
        status.valid(),
    ensures
        status.dates.len() == 0 ==> (r matches Err(e) && e == BotError::NothingToTally),
        status.dates.len() > 0 ==> exists|counts: Seq<u64>, w: int|
            #![trigger crate::reactions::wins(counts, w)]
            {
                &&& are_votes(counts, reactions@, status.dates.len() as int)
                &&& crate::reactions::wins(counts, w)
                &&& match hours_error(status.timezone@, status.dates[w], status.time_range) {
                    Some(e) => r matches Err(x) && x == e,
                    None => {
                        &&& r matches Ok(v)
                        &&& v.counts@ == counts
                        &&& v.winner == w
                        &&& v.embed@ == result_embed(
                            status.author_text@,
                            status.dates@,
                            counts,
                            w,
                        )
                        &&& v.event.is_decided_by(asg_name@, status, status.dates[w])
                    },
                }
            },
{
    let counts = count_votes(reactions, status.dates.len());
    let winner: usize = match find_winner(&counts) {
        Some(w) => w,
        None => {
            return Err(BotError::NothingToTally);
        },
    };
    proof {
        assert(are_votes(counts@, reactions@, status.dates.len() as int));
        assert(crate::reactions::wins(counts@, winner as int));
        assert(status.dates[winner as int].valid());
    }
    let event_date = status.dates[winner];
    let start_time = match make_datetime(&status.timezone, event_date.date, status.time_range.0) {
        Ok(t) => t,
        Err(e) => {
            return Err(e);
        },
    };
    let end_time = match make_datetime(&status.timezone, event_date.date, status.time_range.1) {
        Ok(t) => t,
        Err(e) => {
            return Err(e);
        },
    };
    proof {
        assert forall|i: int| 0 <= i < status.dates.len() implies (
        #[trigger] status.dates[i]).date.valid() by {
            assert(status.dates[i].valid());
        }
    }
    let embed = make_result_embed(status.author_text.as_str(), &status.dates, &counts, winner);
    let description = match &status.website_url {
        Some(url) => Some(String::from_str("website: ").concat(url.as_str())),
        None => None,
    };
    Ok(
        VoteResult {
            counts,
            winner,
            embed,
            event: NewEvent {
                name: event_name_text(asg_name, status.event_number),
                start_time,
                end_time,
                voice_channel_id: status.voice_channel_id,
                description,
            },
        },
    )
}

/// The message that tells a channel of an event.
#[derive(Debug)]
pub struct Announcement {
    pub content: String,
    pub embed: Embed,
}

/// The address of an event.
pub open spec fn event_url(guild_id: u64, event_id: u64) -> Seq<char> {
    "https://discord.com/events/"@ + crate::text::decimal(guild_id as nat) + "/"@
        + crate::text::decimal(event_id as nat)
}

/// The title that tells the day and the hours of an event.
pub open spec fn announcement_title(month_day: Seq<char>, hours: (u32, u32)) -> Seq<char> {
    "次のイベントの日時は "@ + month_day + " "@ + crate::text::decimal(hours.0 as nat) + ":00-"@
        + crate::text::decimal(hours.1 as nat) + ":00 です。"@
}

/// Month and day at which a day begins in a time zone.
pub open spec fn day_text(zone: Seq<char>, day: ZonedDate) -> Seq<char> {
    crate::clock::month_day(
        day.instant.secs + crate::zone::zone_offset(zone, day.instant.secs as int),
    )
}

/// The message that tells a channel of the event that a vote decided on.
pub fn announce(status: &CollectingStatus, winner: usize, event_id: u64) -> (r: Announcement)
    requires
        status.valid(),
        winner < status.dates.len(),
    ensures
        r.content@ == event_url(status.guild_id, event_id),
        r.content@ == "https://discord.com/events/"@ + crate::text::decimal(
            status.guild_id as nat,
        ) + "/"@ + crate::text::decimal(event_id as nat),
        r.embed.title@ == "次のイベントの日時は "@ + day_text(
            status.timezone@,
            status.dates[winner as int],
        ) + " "@ + crate::text::decimal(status.time_range.0 as nat) + ":00-"@
            + crate::text::decimal(status.time_range.1 as nat) + ":00 です。"@,
        r.embed@ == (EmbedView {
            title: announcement_title(
                day_text(status.timezone@, status.dates[winner as int]),
                status.time_range,
            ),
            author: None,
            description: None,
            fields: seq![],
            colour: None,
        }),
{
    let day = status.dates[winner];
    assert(day.valid());
    let offset: i32 = status.timezone.offset_at(day.instant);
    let title = String::from_str("次のイベントの日時は ").concat(
        month_day_text(day.instant, offset).as_str(),
    ).concat(" ").concat(decimal_text(status.time_range.0 as u64).as_str()).concat(
        ":00-",
    ).concat(decimal_text(status.time_range.1 as u64).as_str()).concat(":00 です。");
    let content = String::from_str("https://discord.com/events/").concat(
        decimal_text(status.guild_id).as_str(),
    ).concat("/").concat(decimal_text(event_id).as_str());
    Announcement {
        content,
        embed: Embed {
            title,
            author: None,
            description: None,
            fields: Vec::new(),
            colour: None,
        },
    }
}

/// The month and the day that are announced are those of the day that won.
pub proof fn announced_day_is_the_winning_day(zone: Seq<char>, day: ZonedDate)
    requires
        day.is_day_of(zone),
    ensures
        day_text(zone, day) == crate::text::padded(day.date.month as nat, 2) + "/"@
            + crate::text::padded(day.date.day as nat, 2),
{
    crate::clock::full_hour_reads_back(day.date, 0);
}

/// The name of an event is that of the group, a mark, the number of the event
/// and another mark.
pub proof fn event_names_tell_group_and_number(asg_name: Seq<char>, event_number: int)
    ensures
        ({
            let name = event_name(asg_name, event_number);
            let p = asg_name.len() as int;
            &&& name.len() == p + 3 + crate::text::signed_decimal(event_number).len()
            &&& name.take(p) == asg_name
            &&& name[p] == ' ' && name[p + 1] == '第' && name.last() == '回'
            &&& name.subrange(p + 2, name.len() - 1) == crate::text::signed_decimal(event_number)
        }),
{
    let name = event_name(asg_name, event_number);
    let p = asg_name.len() as int;
    reveal_strlit(" 第");
    reveal_strlit("回");
    assert(" 第"@.len() == 2 && "回"@.len() == 1);
    assert(name.take(p) =~= asg_name);
    assert(name.subrange(p + 2, name.len() - 1) =~= crate::text::signed_decimal(event_number));
}

/// In the result each candidate day has the line that it had in the vote, and
/// behind it its own votes, which stand out where it won.
pub proof fn results_show_the_votes_of_each_day(
    dates: Seq<ZonedDate>,
    counts: Seq<u64>,
    winner: int,
    author: Seq<char>,
    i: int,
)
    requires
        0 <= i < dates.len(),
        dates.len() == counts.len(),
    ensures
        ({
            let e = result_embed(author, dates, counts, winner);
            let lines = result_lines(dates, counts, winner);
            let votes = crate::text::decimal(counts[i] as nat) + "人"@;
            &&& lines.len() == dates.len()
            &&& i != winner ==> lines[i] == crate::schedule::candidate_line(i, dates[i]) + ": "@
                + votes
            &&& i == winner ==> lines[i] == crate::schedule::candidate_line(i, dates[i]) + ": **"@
                + votes + "**"@
            &&& e.fields.len() == 1
            &&& e.fields[0].value == crate::text::joined(lines, "\n"@)
            &&& e.author == Some(author)
        }),
{
    reveal_strlit("`");
    reveal_strlit(": ");
    reveal_strlit(": **");
    reveal_strlit("`: ");
    reveal_strlit("`: **");
    reveal_strlit("人");
    reveal_strlit("**");
    reveal_strlit("人**");
    assert("`"@ + ": "@ =~= "`: "@);
    assert("`"@ + ": **"@ =~= "`: **"@);
    assert("人"@ + "**"@ =~= "人**"@);
    let lines = result_lines(dates, counts, winner);
    let votes = crate::text::decimal(counts[i] as nat) + "人"@;
    if i == winner {
        assert(lines[i] =~= crate::schedule::candidate_line(i, dates[i]) + ": **"@ + votes
            + "**"@);
    } else {
        assert(lines[i] =~= crate::schedule::candidate_line(i, dates[i]) + ": "@ + votes);
    }
}

/// The votes for a day are those for its own reaction.
pub proof fn days_have_the_votes_of_their_reactions(
    counts: Seq<u64>,
    reactions: Seq<Reaction>,
    n: int,
)
    requires
        0 <= n,
    ensures
        are_votes(counts, reactions, n) <==> counts.len() == n && forall|i: int|
            0 <= i < n ==> #[trigger] counts[i] == crate::reactions::votes_for(
                reactions,
                crate::reactions::emoji(i),
            ),
{
}

/// The event that a vote decides on is named after the group and the number that
/// was asked for, lies on the winning day from the first hour to the second, is
/// in the voice channel that was asked for, and tells of the website, where there
/// is one.
pub proof fn events_are_as_the_vote_asked_for(
    new: NewEvent,
    asg_name: Seq<char>,
    status: CollectingStatus,
    day: ZonedDate,
)
    requires
        new.is_decided_by(asg_name, &status, day),
    ensures
        ({
            let zone = status.timezone@;
            let midnight = (day.date.day_number() - 719163) * 86400;
            let starts = crate::zone::zone_instant(zone, midnight + status.time_range.0 * 3600);
            let ends = crate::zone::zone_instant(zone, midnight + status.time_range.1 * 3600);
            &&& new.name@ == asg_name + " 第"@ + crate::text::signed_decimal(
                status.event_number as int,
            ) + "回"@
            &&& status.time_range.0 < 24 && status.time_range.1 < 24
            &&& starts is Some && new.start_time.secs == starts->0 as i64 && new.start_time.nanos
                == 0
            &&& ends is Some && new.end_time.secs == ends->0 as i64 && new.end_time.nanos == 0
            &&& new.start_time.secs + crate::zone::zone_offset(zone, new.start_time.secs as int)
                == midnight + status.time_range.0 * 3600
            &&& new.end_time.secs + crate::zone::zone_offset(zone, new.end_time.secs as int)
                == midnight + status.time_range.1 * 3600
            &&& new.voice_channel_id == status.voice_channel_id
            &&& status.website_url is Some ==> new.description is Some && new.description->0@
                == "website: "@ + status.website_url->0@
            &&& status.website_url is None ==> new.description is None
        }),
{
}

/// A vote is added up wherever the time zone has both hours on the winning day,
/// and fails with the first hour that it does not have.
pub proof fn hours_fail_where_the_zone_lacks_them(
    zone: Seq<char>,
    day: ZonedDate,
    hours: (u32, u32),
)
    requires
        hours.0 < 24,
        hours.1 < 24,
    ensures
        ({
            let midnight = (day.date.day_number() - 719163) * 86400;
            hours_error(zone, day, hours) == if crate::zone::zone_instant(
                zone,
                midnight + hours.0 * 3600,
            ) is Some && crate::zone::zone_instant(zone, midnight + hours.1 * 3600) is Some {
                None
            } else {
                Some(BotError::UnresolvedLocalTime)
            }
        }),
{
}

/// The address of an event is made of the guild and the event, and no two events
/// have the same. The announcement tells the day and both hours.
pub proof fn announcements_tell_the_event_and_its_hours(
    guild_id: u64,
    a: u64,
    b: u64,
    month_day: Seq<char>,
    hours: (u32, u32),
)
    ensures
        event_url(guild_id, a) == "https://discord.com/events/"@ + crate::text::decimal(
            guild_id as nat,
        ) + "/"@ + crate::text::decimal(a as nat),
        event_url(guild_id, a) == event_url(guild_id, b) ==> a == b,
        announcement_title(month_day, hours) == "次のイベントの日時は "@ + month_day + " "@
            + crate::text::decimal(hours.0 as nat) + ":00-"@ + crate::text::decimal(hours.1 as nat)
            + ":00 です。"@,
{
    let head = "https://discord.com/events/"@ + crate::text::decimal(guild_id as nat) + "/"@;
    let x = event_url(guild_id, a);
    let y = event_url(guild_id, b);
    assert(x.skip(head.len() as int) =~= crate::text::decimal(a as nat));
    assert(y.skip(head.len() as int) =~= crate::text::decimal(b as nat));
    if x == y {
        crate::text::decimal_is_injective(a as nat, b as nat);
    }
}

} // verus!
