//! What a command can fail with, and the text that a user is answered with.

use vstd::prelude::*;

use crate::text::signed_decimal_text;

verus! {

/// The days that a vote is open for, and that lie between now and the first
/// candidate day at the least.
pub const COLLECT_DAYS: i64 = 7;

/// A command that could not be carried out.
#[derive(Clone, Copy, Debug, PartialEq, Eq)]
pub enum BotError {
    /// The command was given outside of a guild.
    OutsideGuild,
    /// An option that the command needs is missing or of another type.
    MissingOption(&'static str),
    /// An environment variable that is needed is not set.
    MissingVariable(&'static str),
    /// A text is not a date.
    InvalidDate,
    /// A text is not the name of a time zone.
    InvalidTimezone,
    /// The last candidate day does not lie after the first.
    EndNotAfterStart,
    /// The first candidate day lies before the end of a vote that starts now.
    OverlapsVoting,
    /// The calendar ends within the candidate days.
    DateGeneration,
    /// A text is not the name of a day filter.
    UnknownFilter,
    /// An hour lies outside of the day.
    InvalidHour,
    /// A local time does not exist, or occurs twice, in its time zone.
    UnresolvedLocalTime,
    /// No vote is open.
    NoActiveVote,
    /// A vote has no candidate days.
    NothingToTally,
    /// A vote cannot be named by its message.
    MessageIdUnsupported,
}

/// A request that is understood and refused.
#[derive(Clone, Copy, Debug, PartialEq, Eq)]
pub enum Rejection {
    /// The hours of the event are not in order or not within a day.
    BadTimeRange,
    /// A vote is open in the guild.
    VoteInProgress,
    /// No day fits.
    NoCandidates,
    /// More days fit than there are reactions.
    TooManyCandidates,
    /// The user is not the owner of the bot.
    OwnerOnly,
    /// A recording would have no length.
    NonPositiveMinutes,
}

/// Why a command was not carried out.
#[derive(Clone, Copy, Debug, PartialEq, Eq)]
pub enum CommandFailure {
    Error(BotError),
    Rejected(Rejection),
}

impl BotError {
    /// The text of an error.
    pub open spec fn text(self) -> Seq<char> {
        match self {
            BotError::OutsideGuild => "サーバー以外では使用できません。"@,
            BotError::MissingOption(name) => name@ + " is required"@,
            BotError::MissingVariable(name) => name@ + " is not set"@,
            BotError::InvalidDate =>
                "日付は YYYY-MM-DD または YYYY/MM/DD で指定してください。"@,
            BotError::InvalidTimezone => "timezoneが不正です。"@,
            BotError::EndNotAfterStart =>
                "end_dateはstart_dateより後の日付を指定してください。"@,
            BotError::OverlapsVoting =>
                "投票期間とスケジュール期間が被っています。start_dateは現在時刻より"@
                    + crate::text::signed_decimal(COLLECT_DAYS as int)
                    + "日以上後の日付を指定してください。"@,
            BotError::DateGeneration => "日付の生成に失敗しました。"@,
            BotError::UnknownFilter =>
                "filter_typeは all / weekday / weekend / holydays のいずれかです。"@,
            BotError::InvalidHour => "時刻が不正です。"@,
            BotError::UnresolvedLocalTime => "指定日時をタイムゾーンに変換できません。"@,
            BotError::NoActiveVote =>
                "直近で行われている投票を見つけられませんでした。"@,
            BotError::NothingToTally => "集計対象のリアクションがありません。"@,
            BotError::MessageIdUnsupported =>
                "Rust版ではmessage_id指定の復元集計は未対応です。直近の集計中投票を対象にしてください。"@,
        }
    }

    /// The text of an error.
    pub fn message(&self) -> (r: String)
        ensures
            r@ == self.text(),
    {
        match self {
            BotError::OutsideGuild => String::from_str("サーバー以外では使用できません。"),
            BotError::MissingOption(name) => String::from_str(name).concat(" is required"),
            BotError::MissingVariable(name) => String::from_str(name).concat(" is not set"),
            BotError::InvalidDate => String::from_str(
                "日付は YYYY-MM-DD または YYYY/MM/DD で指定してください。",
            ),
            BotError::InvalidTimezone => String::from_str("timezoneが不正です。"),
            BotError::EndNotAfterStart => String::from_str(
                "end_dateはstart_dateより後の日付を指定してください。",
            ),
            BotError::OverlapsVoting => String::from_str(
                "投票期間とスケジュール期間が被っています。start_dateは現在時刻より",
            ).concat(signed_decimal_text(COLLECT_DAYS).as_str()).concat(
                "日以上後の日付を指定してください。",
            ),
            BotError::DateGeneration => String::from_str("日付の生成に失敗しました。"),
            BotError::UnknownFilter => String::from_str(
                "filter_typeは all / weekday / weekend / holydays のいずれかです。",
            ),
            BotError::InvalidHour => String::from_str("時刻が不正です。"),
            BotError::UnresolvedLocalTime => String::from_str(
                "指定日時をタイムゾーンに変換できません。",
            ),
            BotError::NoActiveVote => String::from_str(
                "直近で行われている投票を見つけられませんでした。",
            ),
            BotError::NothingToTally => String::from_str("集計対象のリアクションがありません。"),
            BotError::MessageIdUnsupported => String::from_str(
                "Rust版ではmessage_id指定の復元集計は未対応です。直近の集計中投票を対象にしてください。",
            ),
        }
    }
}

impl Rejection {
    /// The text of a refusal.
    pub open spec fn text(self) -> Seq<char> {
        match self {
            Rejection::BadTimeRange => "開催時間の範囲が不正です。"@,
            Rejection::VoteInProgress => "現在集計中です。しばらくお待ちください。"@,
            Rejection::NoCandidates =>
                "指定された条件に該当する日程が存在しませんでした。"@,
            Rejection::TooManyCandidates =>
                "候補日が多すぎます。20個以下になるよう条件を絞ってください。"@,
            Rejection::OwnerOnly => "Bot ownerのみ実行できます。"@,
            Rejection::NonPositiveMinutes => "minutesは1以上を指定してください。"@,
        }
    }

    /// The text of a refusal.
    pub fn message(&self) -> (r: String)
        ensures
            r@ == self.text(),
    {
        match self {
            Rejection::BadTimeRange => String::from_str("開催時間の範囲が不正です。"),
            Rejection::VoteInProgress => String::from_str(
                "現在集計中です。しばらくお待ちください。",
            ),
            Rejection::NoCandidates => String::from_str(
                "指定された条件に該当する日程が存在しませんでした。",
            ),
            Rejection::TooManyCandidates => String::from_str(
                "候補日が多すぎます。20個以下になるよう条件を絞ってください。",
            ),
            Rejection::OwnerOnly => String::from_str("Bot ownerのみ実行できます。"),
            Rejection::NonPositiveMinutes => String::from_str(
                "minutesは1以上を指定してください。",
            ),
        }
    }
}

/// The answer to a command that failed with a given text.
pub open spec fn failure_reply(message: Seq<char>) -> Seq<char> {
    "エラーが発生しました。\n`"@ + message + "`"@
}

/// The answer to a command that failed with a given text.
pub fn failure_reply_text(message: &str) -> (r: String)
    ensures
        r@ == failure_reply(message@),
        r@ == "エラーが発生しました。\n`"@ + message@ + "`"@,
{
    String::from_str("エラーが発生しました。\n`").concat(message).concat("`")
}

impl CommandFailure {
    /// What a user is answered: a refusal as it is, an error with a remark
    /// that it is one.
    pub open spec fn reply(self) -> Seq<char> {
        match self {
            CommandFailure::Error(e) => failure_reply(e.text()),
            CommandFailure::Rejected(r) => r.text(),
        }
    }

    /// What a user is answered.
    pub fn reply_text(&self) -> (r: String)
        ensures
            r@ == self.reply(),
    {
        match self {
            CommandFailure::Error(e) => failure_reply_text(e.message().as_str()),
            CommandFailure::Rejected(r) => r.message(),
        }
    }
}

/// What is missing is told by its name, and every error is answered in full.
pub proof fn errors_tell_what_is_missing(name: &'static str, e: BotError, r: Rejection)
    ensures
        BotError::MissingOption(name).text() == name@ + " is required"@,
        BotError::MissingVariable(name).text() == name@ + " is not set"@,
        CommandFailure::Error(e).reply() == "エラーが発生しました。\n`"@ + e.text() + "`"@,
        CommandFailure::Rejected(r).reply() == r.text(),
{
}

} // verus!
