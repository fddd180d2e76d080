//! The commands of the bot: what is registered, and what each decides before
//! anything is sent or recorded.

use vstd::prelude::*;

use crate::clock::{stamp_text, Instant, Span};
use crate::errors::{BotError, CommandFailure, Rejection};
use crate::options::{
    get_channel, get_int, get_string_opt, CommandOption, OptionValue,
};
use crate::text::same_text;
use crate::vote::{CollectingList, CollectingStatus};

verus! {

/// The answer to a command that adds up a vote.
pub const ADDUP_STARTED: &'static str = "集計を開始します。";

/// The answer to a command that stops the bot.
pub const STOPPING: &'static str = "Botを終了します。";

/// The answer to a command that records.
pub const RECORDING_STARTED: &'static str = "録音を開始します。";

/// The type of an option.
#[derive(Clone, Copy, Debug, PartialEq, Eq, Structural)]
pub enum OptionKind {
    Text,
    Integer,
    Boolean,
    Channel,
}

/// An option of a command.
#[derive(Clone, Copy, Debug, PartialEq, Eq)]
pub struct OptionDef {
    pub kind: OptionKind,
    pub name: &'static str,
    pub description: &'static str,
    pub required: bool,
}

/// A command.
#[derive(Clone, Debug, PartialEq, Eq)]
pub struct CommandDef {
    pub name: &'static str,
    pub description: &'static str,
    pub options: Vec<OptionDef>,
}

/// What an option of a command holds.
#[verifier::ext_equal]
pub struct OptionDefView {
    pub kind: OptionKind,
    pub name: Seq<char>,
    pub description: Seq<char>,
    pub required: bool,
}

/// What a command holds.
#[verifier::ext_equal]
pub struct CommandDefView {
    pub name: Seq<char>,
    pub description: Seq<char>,
    pub options: Seq<OptionDefView>,
}

impl OptionDef {
    /// What the option holds.
    pub open spec fn view(&self) -> OptionDefView {
        OptionDefView {
            kind: self.kind,
            name: self.name@,
            description: self.description@,
            required: self.required,
        }
    }
}

impl CommandDef {
    /// What the command holds.
    pub open spec fn view(&self) -> CommandDefView {
        CommandDefView {
            name: self.name@,
            description: self.description@,
            options: Seq::new(self.options@.len(), |i: int| self.options@[i].view()),
        }
    }
}

/// An option.
pub open spec fn option_def(
    kind: OptionKind,
    name: Seq<char>,
    description: Seq<char>,
    required: bool,
) -> OptionDefView {
    OptionDefView { kind, name, description, required }
}

/// An option that takes a text.
fn str_option(name: &'static str, description: &'static str, required: bool) -> (r: OptionDef)
    ensures
        r@ == option_def(OptionKind::Text, name@, description@, required),
{
    OptionDef { kind: OptionKind::Text, name, description, required }
}

/// An option that takes a number.
fn int_option(name: &'static str, description: &'static str, required: bool) -> (r: OptionDef)
    ensures
        r@ == option_def(OptionKind::Integer, name@, description@, required),
{
    OptionDef { kind: OptionKind::Integer, name, description, required }
}

/// An option that takes a truth value.
fn bool_option(name: &'static str, description: &'static str, required: bool) -> (r: OptionDef)
    ensures
        r@ == option_def(OptionKind::Boolean, name@, description@, required),
{
    OptionDef { kind: OptionKind::Boolean, name, description, required }
}

/// An option that takes a channel.
fn channel_option(name: &'static str, description: &'static str, required: bool) -> (r: OptionDef)
    ensures
        r@ == option_def(OptionKind::Channel, name@, description@, required),
{
    OptionDef { kind: OptionKind::Channel, name, description, required }
}

/// The command that opens a vote.
pub open spec fn schedule_def() -> CommandDefView {
    CommandDefView {
        name: "schedule"@,
        description: "投票を開始し、集計後にイベントを作成します。"@,
        options: seq![
            option_def(OptionKind::Integer, "event_number"@, "イベントの回数"@, true),
            option_def(
                OptionKind::Text,
                "start_date"@,
                "候補期間の開始日。例: 2026-06-01"@,
                true,
            ),
            option_def(
                OptionKind::Text,
                "end_date"@,
                "候補期間の終了日。例: 2026-06-30"@,
                true,
            ),
            option_def(
                OptionKind::Channel,
                "voice_channel"@,
                "イベントと録音に使うボイスチャンネル"@,
                true,
            ),
            option_def(
                OptionKind::Text,
                "timezone"@,
                "タイムゾーン。既定: Asia/Tokyo"@,
                false,
            ),
            option_def(
                OptionKind::Text,
                "filter_type"@,
                "all / weekday / weekend / holydays。既定: holydays"@,
                false,
            ),
            option_def(OptionKind::Text, "website_url"@, "イベントのWebサイトURL"@, false),
            option_def(OptionKind::Integer, "time_range_start"@, "開始時刻。既定: 21"@, false),
            option_def(OptionKind::Integer, "time_range_end"@, "終了時刻。既定: 23"@, false),
            option_def(
                OptionKind::Boolean,
                "debug_vote"@,
                "投票期間を3分に短縮します。"@,
                false,
            ),
        ],
    }
}

/// The command that adds up a vote.
pub open spec fn addup_def() -> CommandDefView {
    CommandDefView {
        name: "addup"@,
        description: "直近または指定メッセージの投票を手動で集計します。"@,
        options: seq![
            option_def(OptionKind::Text, "message_id"@, "集計する投票メッセージID"@, false),
        ],
    }
}

/// The command that records.
pub open spec fn record_def() -> CommandDefView {
    CommandDefView {
        name: "record"@,
        description: "指定ボイスチャンネルを今すぐ録音し、文字起こしをtxt保存します。"@,
        options: seq![
            option_def(
                OptionKind::Channel,
                "voice_channel"@,
                "録音するボイスチャンネル"@,
                true,
            ),
            option_def(OptionKind::Integer, "minutes"@, "録音分数"@, true),
        ],
    }
}

/// The command that stops the bot.
pub open spec fn stop_def() -> CommandDefView {
    CommandDefView {
        name: "stop"@,
        description: "Botを終了します。Bot ownerのみ。"@,
        options: seq![],
    }
}

/// The commands of the bot.
pub open spec fn command_defs() -> Seq<CommandDefView> {
    seq![schedule_def(), addup_def(), record_def(), stop_def()]
}

/// The command that opens a vote.
fn make_schedule_def() -> (r: CommandDef)
    ensures
        r@ == schedule_def(),
{
    let mut options: Vec<OptionDef> = Vec::new();
    options.push(int_option("event_number", "イベントの回数", true));
    options.push(str_option("start_date", "候補期間の開始日。例: 2026-06-01", true));
    options.push(str_option("end_date", "候補期間の終了日。例: 2026-06-30", true));
    options.push(
        channel_option("voice_channel", "イベントと録音に使うボイスチャンネル", true),
    );
    options.push(str_option("timezone", "タイムゾーン。既定: Asia/Tokyo", false));
    options.push(
        str_option(
            "filter_type",
            "all / weekday / weekend / holydays。既定: holydays",
            false,
        ),
    );
    options.push(str_option("website_url", "イベントのWebサイトURL", false));
    options.push(int_option("time_range_start", "開始時刻。既定: 21", false));
    options.push(int_option("time_range_end", "終了時刻。既定: 23", false));
    options.push(bool_option("debug_vote", "投票期間を3分に短縮します。", false));
    let def = CommandDef {
        name: "schedule",
        description: "投票を開始し、集計後にイベントを作成します。",
        options,
    };
    assert(def@.options =~= schedule_def().options);
    def
}

/// The commands of the bot.
pub fn command_definitions() -> (r: Vec<CommandDef>)
    ensures
        r.len() == command_defs().len(),
        forall|i: int| 0 <= i < r.len() ==> (#[trigger] r[i])@ == command_defs()[i],
{
    let mut addup_options: Vec<OptionDef> = Vec::new();
    addup_options.push(str_option("message_id", "集計する投票メッセージID", false));
    let addup = CommandDef {
        name: "addup",
        description: "直近または指定メッセージの投票を手動で集計します。",
        options: addup_options,
    };
    let mut record_options: Vec<OptionDef> = Vec::new();
    record_options.push(channel_option("voice_channel", "録音するボイスチャンネル", true));
    record_options.push(int_option("minutes", "録音分数", true));
    let record = CommandDef {
        name: "record",
        description: "指定ボイスチャンネルを今すぐ録音し、文字起こしをtxt保存します。",
        options: record_options,
    };
    let stop = CommandDef {
        name: "stop",
        description: "Botを終了します。Bot ownerのみ。",
        options: Vec::new(),
    };
    proof {
        assert(addup@.options =~= addup_def().options);
        assert(record@.options =~= record_def().options);
        assert(stop@.options =~= stop_def().options);
    }
    let mut commands: Vec<CommandDef> = Vec::new();
    commands.push(make_schedule_def());
    commands.push(addup);
    commands.push(record);
    commands.push(stop);
    commands
}

/// A command that a user gave.
#[derive(Clone, Copy, Debug, PartialEq, Eq, Structural)]
pub enum CommandName {
    Schedule,
    Addup,
    Stop,
    Record,
}

/// The command of a name, where there is one.
pub open spec fn command_of(name: Seq<char>) -> Option<CommandName> {
    if name == "schedule"@ {
        Some(CommandName::Schedule)
    } else if name == "addup"@ {
        Some(CommandName::Addup)
    } else if name == "stop"@ {
        Some(CommandName::Stop)
    } else if name == "record"@ {
        Some(CommandName::Record)
    } else {
        None
    }
}

/// The command of a name, where there is one.
pub fn command_named(name: &str) -> (r: Option<CommandName>)
    ensures
        r == command_of(name@),
{
    if same_text(name, "schedule") {
        Some(CommandName::Schedule)
    } else if same_text(name, "addup") {
        Some(CommandName::Addup)
    } else if same_text(name, "stop") {
        Some(CommandName::Stop)
    } else if same_text(name, "record") {
        Some(CommandName::Record)
    } else {
        None
    }
}

/// The names that are understood are those that are registered.
pub proof fn registered_commands_are_understood(name: Seq<char>)
    ensures
        command_of(name) is Some <==> exists|i: int|
            0 <= i < command_defs().len() && (#[trigger] command_defs()[i]).name == name,
{
    assert(command_defs()[0].name == "schedule"@);
    assert(command_defs()[1].name == "addup"@);
    assert(command_defs()[2].name == "record"@);
    assert(command_defs()[3].name == "stop"@);
}

/// Whether a value is of the type of an option.
pub open spec fn is_of_kind(value: OptionValue, kind: OptionKind) -> bool {
    match kind {
        OptionKind::Text => value is Text,
        OptionKind::Integer => value is Integer,
        OptionKind::Boolean => value is Boolean,
        OptionKind::Channel => value is Channel,
    }
}

/// Whether options are given as a command asks for: each that is required, and
/// each of its type.
pub open spec fn given_as_registered(options: Seq<CommandOption>, def: CommandDefView) -> bool {
    forall|i: int|
        #![trigger def.options[i]]
        0 <= i < def.options.len() ==> {
            let value = crate::options::option_value(options, def.options[i].name);
            &&& def.options[i].required ==> value is Some
            &&& value matches Some(v) ==> is_of_kind(v, def.options[i].kind)
        }
}

/// A vote that is asked for with the options that are registered is not refused
/// for a missing option.
pub proof fn registered_options_suffice_to_schedule(
    guild_id: Option<u64>,
    options: Seq<CommandOption>,
)
    requires
        given_as_registered(options, schedule_def()),
    ensures
        crate::schedule::request_of(guild_id, options) matches Err(f) ==> !(f matches
            CommandFailure::Error(e) && e is MissingOption),
{
    let def = schedule_def();
    assert(def.options[0].name == "event_number"@);
    assert(def.options[1].name == "start_date"@);
    assert(def.options[2].name == "end_date"@);
    assert(def.options[3].name == "voice_channel"@);
}

/// A recording that a user asks for.
#[derive(Clone, Copy, Debug, PartialEq, Eq, Structural)]
pub struct RecordRequest {
    pub guild_id: u64,
    pub voice_channel_id: u64,
    pub minutes: i64,
}

/// What a command that records comes to.
pub open spec fn record_request_of(
    guild_id: Option<u64>,
    options: Seq<CommandOption>,
) -> Result<RecordRequest, CommandFailure> {
    let channel = crate::options::channel_value(options, "voice_channel"@);
    let minutes = crate::options::int_value(options, "minutes"@);
    if guild_id is None {
        Err(CommandFailure::Error(BotError::OutsideGuild))
    } else if channel is None {
        Err(CommandFailure::Error(BotError::MissingOption("voice_channel")))
    } else if minutes is None {
        Err(CommandFailure::Error(BotError::MissingOption("minutes")))
    } else if minutes->0 <= 0 {
        Err(CommandFailure::Rejected(Rejection::NonPositiveMinutes))
    } else {
        Ok(
            RecordRequest {
                guild_id: guild_id->0,
                voice_channel_id: channel->0,
                minutes: minutes->0,
            },
        )
    }
}

/// What a command that records comes to.
pub fn record_now(guild_id: Option<u64>, options: &Vec<CommandOption>) -> (r: Result<
    RecordRequest,
    CommandFailure,
>)
    ensures
        r == record_request_of(guild_id, options@),
        r is Ok <==> guild_id is Some && crate::options::channel_value(
            options@,
            "voice_channel"@,
        ) is Some && crate::options::int_value(options@, "minutes"@) is Some
            && crate::options::int_value(options@, "minutes"@)->0 > 0,
        r matches Ok(q) ==> guild_id == Some(q.guild_id) && crate::options::channel_value(
            options@,
            "voice_channel"@,
        ) == Some(q.voice_channel_id) && crate::options::int_value(options@, "minutes"@) == Some(
            q.minutes,
        ),
{
    let guild_id: u64 = match guild_id {
        Some(g) => g,
        None => {
            return Err(CommandFailure::Error(BotError::OutsideGuild));
        },
    };
    let voice_channel_id: u64 = match get_channel(options, "voice_channel") {
        Ok(c) => c,
        Err(e) => {
            return Err(CommandFailure::Error(e));
        },
    };
    let minutes: i64 = match get_int(options, "minutes") {
        Ok(n) => n,
        Err(e) => {
            return Err(CommandFailure::Error(e));
        },
    };
    if minutes <= 0 {
        return Err(CommandFailure::Rejected(Rejection::NonPositiveMinutes));
    }
    Ok(RecordRequest { guild_id, voice_channel_id, minutes })
}

/// A recording that is asked for with the options that are registered is
/// refused outside of a guild and for its length only.
pub proof fn registered_options_suffice_to_record(guild_id: u64, options: Seq<CommandOption>)
    requires
        given_as_registered(options, record_def()),
    ensures
        record_request_of(Some(guild_id), options) is Ok <==> crate::options::int_value(
            options,
            "minutes"@,
        )->0 > 0,
{
    let def = record_def();
    assert(def.options[0].name == "voice_channel"@);
    assert(def.options[1].name == "minutes"@);
}

/// The most minutes whose seconds can be counted.
pub const MAX_MINUTES: i64 = 307445734561825860;

/// The length of a recording of a number of minutes.
pub fn recording_length(minutes: i64) -> (r: Span)
    requires
        0 <= minutes <= MAX_MINUTES,
    ensures
        r.secs == minutes * 60,
        r.nanos == 0,
{
    Span { secs: (minutes as u64) * 60, nanos: 0 }
}

/// The label of a recording that a user asked for.
pub open spec fn manual_label(secs: int) -> Seq<char> {
    "manual-"@ + crate::clock::stamp(secs)
}

/// The label of a recording that a user asked for, by the time that it starts
/// at and the machine's offset from UTC in seconds.
pub fn manual_label_text(t: Instant, offset: i32) -> (r: String)
    requires
        t.in_range(),
        -86400 < offset < 86400,
    ensures
        r@ == manual_label(t.secs + offset),
        r@ == "manual-"@ + crate::clock::stamp(t.secs + offset),
{
    String::from_str("manual-").concat(stamp_text(t, offset).as_str())
}

/// The answer once a transcript is saved.
pub fn saved_reply(path: &str) -> (r: String)
    ensures
        r@ == "文字起こしを保存しました: `"@ + path@ + "`"@,
{
    String::from_str("文字起こしを保存しました: `").concat(path).concat("`")
}

/// The answer where a recording or its transcription failed.
pub fn recording_failed_reply(error: &str) -> (r: String)
    ensures
        r@ == "録音または文字起こしに失敗しました: `"@ + error@ + "`"@,
{
    String::from_str("録音または文字起こしに失敗しました: `").concat(error).concat("`")
}

/// Whether a user may stop the bot: the owner, or everyone where no owner is
/// set.
pub open spec fn may_stop(owner_id: Option<u64>, user_id: u64) -> bool {
    owner_id matches Some(owner) ==> owner == user_id
}

/// Whether a user may stop the bot.
pub fn stop(owner_id: Option<u64>, user_id: u64) -> (r: Result<(), CommandFailure>)
    ensures
        r is Ok <==> owner_id is None || owner_id->0 == user_id,
        r == (if may_stop(owner_id, user_id) {
            Ok::<(), CommandFailure>(())
        } else {
            Err::<(), CommandFailure>(CommandFailure::Rejected(Rejection::OwnerOnly))
        }),
{
    if let Some(owner) = owner_id {
        if user_id != owner {
            return Err(CommandFailure::Rejected(Rejection::OwnerOnly));
        }
    }
    Ok(())
}

/// The vote that a user wants added up: the latest one that is open in the
/// guild, or in any guild where the command was given outside of one. A vote
/// cannot be named by its message.
pub fn addup(
    options: &Vec<CommandOption>,
    collecting: &mut CollectingList,
    guild_id: Option<u64>,
) -> (r: Result<CollectingStatus, BotError>)
    ensures
        crate::options::text_value(options@, "message_id"@) is Some ==> r == Err::<
            CollectingStatus,
            BotError,
        >(BotError::MessageIdUnsupported),
        crate::options::text_value(options@, "message_id"@) is None && !crate::vote::has_vote(
            old(collecting)@,
            guild_id,
        ) ==> r == Err::<CollectingStatus, BotError>(BotError::NoActiveVote),
        crate::options::text_value(options@, "message_id"@) is None && crate::vote::has_vote(
            old(collecting)@,
            guild_id,
        ) ==> r is Ok,
        r matches Ok(status) ==> exists|i: int| #[trigger]
            crate::vote::is_latest(old(collecting)@, guild_id, i) && status == old(collecting)@[i]
                && final(collecting)@ == old(collecting)@.remove(i),
        r is Err ==> final(collecting)@ == old(collecting)@,
{
    if get_string_opt(options, "message_id").is_some() {
        return Err(BotError::MessageIdUnsupported);
    }
    collecting.take_latest(guild_id)
}

/// A recording is made wherever it is asked for in a guild, in a channel and for
/// a minute or more, and it is the one asked for.
pub proof fn recordings_are_made_as_asked_for(guild_id: Option<u64>, options: Seq<CommandOption>)
    ensures
        ({
            let channel = crate::options::channel_value(options, "voice_channel"@);
            let minutes = crate::options::int_value(options, "minutes"@);
            let r = record_request_of(guild_id, options);
            &&& guild_id is Some && channel is Some && minutes is Some && minutes->0 >= 1
                ==> r == Ok::<RecordRequest, CommandFailure>(
                RecordRequest {
                    guild_id: guild_id->0,
                    voice_channel_id: channel->0,
                    minutes: minutes->0,
                },
            )
            &&& guild_id is None ==> r == Err::<RecordRequest, CommandFailure>(
                CommandFailure::Error(BotError::OutsideGuild),
            )
            &&& guild_id is Some && channel is Some && minutes is Some && minutes->0 < 1
                ==> r == Err::<RecordRequest, CommandFailure>(
                CommandFailure::Rejected(Rejection::NonPositiveMinutes),
            )
            &&& guild_id is Some && (channel is None || minutes is None) ==> r is Err && r->Err_0
                is Error && r->Err_0->Error_0 is MissingOption
        }),
{
}

/// The owner may stop the bot and, where one is set, nobody else.
pub proof fn only_the_owner_may_stop(owner: u64, user: u64)
    ensures
        may_stop(None, user),
        may_stop(Some(owner), user) <==> owner == user,
{
}

} // verus!
