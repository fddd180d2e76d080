//! The settings of the bot, and how they follow from the environment.

use vstd::prelude::*;

use crate::errors::BotError;

verus! {

/// The settings of the bot.
#[derive(Clone, Debug)]
pub struct BotConfig {
    /// The name of the group. Names of events start with it.
    pub asg_name: String,
    /// The user who may stop the bot, where it is not everyone.
    pub owner_id: Option<u64>,
    /// The key of the transcription service.
    pub openai_api_key: Option<String>,
    /// The model that transcribes.
    pub transcription_model: String,
    /// The directory for recordings and transcripts.
    pub recordings_dir: String,
}

/// The environment variables that the bot reads, as far as they are set.
#[derive(Clone, Debug)]
pub struct Environment {
    pub discord_token: Option<String>,
    pub asg_name: Option<String>,
    pub bot_owner_id: Option<String>,
    pub openai_api_key: Option<String>,
    pub openai_transcription_model: Option<String>,
    pub recordings_dir: Option<String>,
}

/// A text without a plus sign in front.
pub open spec fn without_plus(s: Seq<char>) -> Seq<char> {
    if s.len() > 0 && s[0] == '+' {
        s.skip(1)
    } else {
        s
    }
}

/// The number that a text stands for: decimal digits, one at least, with or
/// without a plus sign in front, and not too large for 64 bits.
pub open spec fn number_of(s: Seq<char>) -> Option<u64> {
    let digits = without_plus(s);
    if digits.len() > 0 && crate::text::all_digits(digits) && crate::text::digits_value(digits)
        <= u64::MAX {
        Some(crate::text::digits_value(digits) as u64)
    } else {
        None
    }
}

/// The number of a text is no less than that of the digits in front.
proof fn lemma_more_digits(s: Seq<char>, n: int)
    requires
        0 <= n <= s.len(),
    ensures
        crate::text::digits_value(s.take(n)) <= crate::text::digits_value(s),
    decreases s.len() - n,
{
    if n == s.len() {
        assert(s.take(n) =~= s);
    } else {
        lemma_more_digits(s, n + 1);
        assert(s.take(n + 1).drop_last() =~= s.take(n));
    }
}

/// The number that a text stands for, where it does.
pub fn parse_number(text: &str) -> (r: Option<u64>)
    ensures
        r == number_of(text@),
{
    let len: usize = text.unicode_len();
    let start: usize = if len > 0 && text.get_char(0) == '+' {
        1
    } else {
        0
    };
    let ghost digits = without_plus(text@);
    if start == len {
        return None;
    }
    let mut i: usize = start;
    let mut value: u64 = 0;
    proof {
        assert(digits.take(0) =~= Seq::<char>::empty());
    }
    while i < len
        invariant
            start <= i <= len,
            len == text@.len(),
            digits == without_plus(text@),
            digits.len() == len - start,
            forall|j: int| 0 <= j < digits.len() ==> #[trigger] digits[j] == text@[j + start],
            forall|j: int| 0 <= j < i - start ==> '0' <= #[trigger] digits[j] <= '9',
            value == crate::text::digits_value(digits.take(i - start)),
        decreases len - i,
    {
        let c = text.get_char(i);
        assert(c == digits[i - start]);
        if c < '0' || c > '9' {
            return None;
        }
        let digit: u64 = (c as u32 - 48) as u64;
        proof {
            lemma_more_digits(digits, i - start + 1);
            assert(digits.take(i - start + 1).drop_last() =~= digits.take(i - start));
        }
        if value > (u64::MAX - digit) / 10 {
            assert(value * 10 + digit > u64::MAX);
            return None;
        }
        value = value * 10 + digit;
        i = i + 1;
    }
    assert(digits.take(len - start) =~= digits);
    Some(value)
}

/// A text, or another where there is none.
pub open spec fn text_or(s: Option<String>, other: Seq<char>) -> Seq<char> {
    match s {
        Some(t) => t@,
        None => other,
    }
}

/// A text, or another where there is none.
fn string_or(s: Option<String>, other: &str) -> (r: String)
    ensures
        r@ == text_or(s, other@),
        s is Some ==> r == s->0,
        s is None ==> r@ == other@,
{
    match s {
        Some(t) => t,
        None => String::from_str(other),
    }
}

/// The token of the bot and its settings, as the environment gives them. The
/// token and the name of the group are needed; a setting of an owner that is no
/// number counts as none.
pub fn load_config(env: Environment) -> (r: Result<(String, BotConfig), BotError>)
    ensures
        env.discord_token is None ==> r == Err::<(String, BotConfig), BotError>(
            BotError::MissingVariable("DISCORD_TOKEN"),
        ),
        env.discord_token is Some && env.asg_name is None ==> r == Err::<
            (String, BotConfig),
            BotError,
        >(BotError::MissingVariable("ASG_NAME")),
        env.discord_token is Some && env.asg_name is Some ==> {
            &&& r matches Ok((token, config))
            &&& token == env.discord_token->0
            &&& config.asg_name == env.asg_name->0
            &&& config.owner_id == (match env.bot_owner_id {
                Some(id) => number_of(id@),
                None => None,
            })
            &&& config.openai_api_key == env.openai_api_key
            &&& config.transcription_model@ == text_or(
                env.openai_transcription_model,
                "whisper-1"@,
            )
            &&& config.recordings_dir@ == text_or(env.recordings_dir, "recordings"@)
            &&& env.openai_transcription_model is Some ==> config.transcription_model
                == env.openai_transcription_model->0
            &&& env.openai_transcription_model is None ==> config.transcription_model@
                == "whisper-1"@
            &&& env.recordings_dir is Some ==> config.recordings_dir == env.recordings_dir->0
            &&& env.recordings_dir is None ==> config.recordings_dir@ == "recordings"@
        },
{
    let token = match env.discord_token {
        Some(t) => t,
        None => {
            return Err(BotError::MissingVariable("DISCORD_TOKEN"));
        },
    };
    let asg_name = match env.asg_name {
        Some(t) => t,
        None => {
            return Err(BotError::MissingVariable("ASG_NAME"));
        },
    };
    let owner_id = match env.bot_owner_id {
        Some(id) => parse_number(id.as_str()),
        None => None,
    };
    Ok(
        (
            token,
            BotConfig {
                asg_name,
                owner_id,
                openai_api_key: env.openai_api_key,
                transcription_model: string_or(env.openai_transcription_model, "whisper-1"),
                recordings_dir: string_or(env.recordings_dir, "recordings"),
            },
        ),
    )
}

/// No text but digits, one at least, stands for a number. A digit stands for
/// itself, one more digit makes a number ten times as large and adds the digit,
/// as long as 64 bits can hold that, and one plus sign in front changes nothing.
pub proof fn numbers_are_read_digit_by_digit(s: Seq<char>, c: char)
    ensures
        number_of(Seq::<char>::empty()) is None,
        number_of(seq!['+']) is None,
        !('0' <= c <= '9') ==> number_of(s.push(c)) is None,
        '0' <= c <= '9' ==> number_of(seq![c]) == Some((c as int - '0' as int) as u64),
        '0' <= c <= '9' && s.len() > 0 && s != seq!['+'] ==> number_of(s.push(c)) == (match number_of(
            s,
        ) {
            Some(n) => if n * 10 + (c as int - '0' as int) <= u64::MAX {
                Some((n * 10 + (c as int - '0' as int)) as u64)
            } else {
                None
            },
            None => None,
        }),
        s.len() > 0 && s[0] != '+' ==> number_of(seq!['+'] + s) == number_of(s),
        s.len() > 0 && s[0] == '+' ==> number_of(seq!['+'] + s) is None,
{
    let t = s.push(c);
    let one = seq![c];
    assert(seq!['+'].skip(1) =~= Seq::<char>::empty());
    assert((seq!['+'] + s).skip(1) =~= s);
    if '0' <= c <= '9' {
        assert(without_plus(one) == one);
        assert(one =~= Seq::<char>::empty().push(c));
        crate::text::digits_count_by_place(Seq::<char>::empty(), c);
        assert(crate::text::all_digits(one));
    }
    if s.len() > 0 {
        let front = without_plus(s);
        assert(without_plus(t) =~= front.push(c));
        if '0' <= c <= '9' {
            crate::text::digits_count_by_place(front, c);
            if crate::text::all_digits(front) {
                assert(crate::text::all_digits(front.push(c)));
            }
            if crate::text::all_digits(front.push(c)) {
                assert forall|i: int| 0 <= i < front.len() implies '0' <= #[trigger] front[i]
                    <= '9' by {
                    assert(front.push(c)[i] == front[i]);
                }
            }
            if s != seq!['+'] && front.len() == 0 {
                assert(s =~= seq!['+']);
            }
        } else {
            assert(front.push(c)[front.len() as int] == c);
        }
    } else {
        assert(t =~= one);
        if c == '+' {
            assert(without_plus(t) =~= Seq::<char>::empty());
        } else {
            assert(without_plus(t)[0] == c || ('0' <= c <= '9'));
        }
    }
}

/// A number that is written in decimal, with or without a plus sign, stands
/// for itself.
pub proof fn written_number_is_read(n: u64)
    ensures
        number_of(crate::text::decimal(n as nat)) == Some(n),
        number_of(seq!['+'] + crate::text::decimal(n as nat)) == Some(n),
{
    let digits = crate::text::decimal(n as nat);
    crate::text::lemma_decimal_digits(n as nat);
    crate::text::decimal_reads_back(n as nat);
    assert('0' <= digits[0]);
    assert((seq!['+'] + digits).skip(1) =~= digits);
}

} // verus!
