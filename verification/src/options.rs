//! The options that a user gave a command.

use vstd::prelude::*;

use crate::errors::BotError;
use crate::text::same_text;

verus! {

/// The value of an option.
#[derive(Clone, Debug, PartialEq, Eq)]
pub enum OptionValue {
    Text(String),
    Integer(i64),
    Boolean(bool),
    Channel(u64),
    /// A value of another type, which no command reads.
    Other,
}

/// An option that a user gave.
#[derive(Clone, Debug, PartialEq, Eq)]
pub struct CommandOption {
    pub name: String,
    pub value: OptionValue,
}

/// The value of the first option of a name.
pub open spec fn option_value(options: Seq<CommandOption>, name: Seq<char>) -> Option<OptionValue>
    decreases options.len(),
{
    if options.len() == 0 {
        None
    } else if options[0].name@ == name {
        Some(options[0].value)
    } else {
        option_value(options.skip(1), name)
    }
}

/// The text of an option.
pub open spec fn text_value(options: Seq<CommandOption>, name: Seq<char>) -> Option<Seq<char>> {
    match option_value(options, name) {
        Some(OptionValue::Text(t)) => Some(t@),
        _ => None,
    }
}

/// The number of an option.
pub open spec fn int_value(options: Seq<CommandOption>, name: Seq<char>) -> Option<i64> {
    match option_value(options, name) {
        Some(OptionValue::Integer(n)) => Some(n),
        _ => None,
    }
}

/// The truth value of an option.
pub open spec fn bool_value(options: Seq<CommandOption>, name: Seq<char>) -> Option<bool> {
    match option_value(options, name) {
        Some(OptionValue::Boolean(b)) => Some(b),
        _ => None,
    }
}

/// The channel of an option.
pub open spec fn channel_value(options: Seq<CommandOption>, name: Seq<char>) -> Option<u64> {
    match option_value(options, name) {
        Some(OptionValue::Channel(c)) => Some(c),
        _ => None,
    }
}

/// The value of the first option of a name.
pub fn get_option<'a>(options: &'a Vec<CommandOption>, name: &str) -> (r: Option<&'a OptionValue>)
    ensures
        match r {
            Some(v) => option_value(options@, name@) == Some(*v),
            None => option_value(options@, name@) is None,
        },
{
    let mut i: usize = 0;
    assert(options@.skip(0) =~= options@);
    while i < options.len()
        invariant
            i <= options.len(),
            option_value(options@, name@) == option_value(options@.skip(i as int), name@),
        decreases options.len() - i,
    {
        assert(options@.skip(i as int)[0] == options@[i as int]);
        assert(options@.skip(i as int).skip(1) =~= options@.skip(i + 1));
        if same_text(options[i].name.as_str(), name) {
            return Some(&options[i].value);
        }
        i = i + 1;
    }
    None
}

/// The text of an option, where it is given.
pub fn get_string_opt(options: &Vec<CommandOption>, name: &str) -> (r: Option<String>)
    ensures
        crate::text::text_opt(r) == text_value(options@, name@),
{
    match get_option(options, name) {
        Some(OptionValue::Text(value)) => Some(value.clone()),
        _ => None,
    }
}

/// The number of an option, where it is given.
pub fn get_int_opt(options: &Vec<CommandOption>, name: &str) -> (r: Option<i64>)
    ensures
        r == int_value(options@, name@),
{
    match get_option(options, name) {
        Some(OptionValue::Integer(value)) => Some(*value),
        _ => None,
    }
}

/// The truth value of an option, where it is given.
pub fn get_bool_opt(options: &Vec<CommandOption>, name: &str) -> (r: Option<bool>)
    ensures
        r == bool_value(options@, name@),
{
    match get_option(options, name) {
        Some(OptionValue::Boolean(value)) => Some(*value),
        _ => None,
    }
}

/// The text of an option that is needed.
pub fn get_string(options: &Vec<CommandOption>, name: &'static str) -> (r: Result<String, BotError>)
    ensures
        r is Ok <==> text_value(options@, name@) is Some,
        r matches Ok(s) ==> text_value(options@, name@) == Some(s@),
        r matches Err(e) ==> e == BotError::MissingOption(name),
{
    match get_string_opt(options, name) {
        Some(value) => Ok(value),
        None => Err(BotError::MissingOption(name)),
    }
}

/// The number of an option that is needed.
pub fn get_int(options: &Vec<CommandOption>, name: &'static str) -> (r: Result<i64, BotError>)
    ensures
        r is Ok <==> int_value(options@, name@) is Some,
        r matches Ok(n) ==> int_value(options@, name@) == Some(n),
        r matches Err(e) ==> e == BotError::MissingOption(name),
{
    match get_int_opt(options, name) {
        Some(value) => Ok(value),
        None => Err(BotError::MissingOption(name)),
    }
}

/// The channel of an option that is needed.
pub fn get_channel(options: &Vec<CommandOption>, name: &'static str) -> (r: Result<u64, BotError>)
    ensures
        r is Ok <==> channel_value(options@, name@) is Some,
        r matches Ok(c) ==> channel_value(options@, name@) == Some(c),
        r matches Err(e) ==> e == BotError::MissingOption(name),
{
    match get_option(options, name) {
        Some(OptionValue::Channel(value)) => Ok(*value),
        _ => Err(BotError::MissingOption(name)),
    }
}

/// The value of an option is that of the first option of its name, wherever it
/// stands.
pub proof fn the_first_option_of_a_name_counts(
    options: Seq<CommandOption>,
    name: Seq<char>,
    k: int,
)
    requires
        0 <= k < options.len(),
        options[k].name@ == name,
        forall|j: int| 0 <= j < k ==> (#[trigger] options[j]).name@ != name,
    ensures
        option_value(options, name) == Some(options[k].value),
    decreases k,
{
    if k > 0 {
        assert(options[0].name@ != name);
        assert forall|j: int| 0 <= j < k - 1 implies (#[trigger] options.skip(1)[j]).name@ != name by {
            assert(options.skip(1)[j] == options[j + 1]);
        }
        the_first_option_of_a_name_counts(options.skip(1), name, k - 1);
    }
}

/// An option that is not given has no value.
pub proof fn options_not_given_have_no_value(options: Seq<CommandOption>, name: Seq<char>)
    requires
        forall|j: int| 0 <= j < options.len() ==> (#[trigger] options[j]).name@ != name,
    ensures
        option_value(options, name) is None,
    decreases options.len(),
{
    if options.len() > 0 {
        assert(options[0].name@ != name);
        assert forall|j: int| 0 <= j < options.skip(1).len() implies (
        #[trigger] options.skip(1)[j]).name@ != name by {
            assert(options.skip(1)[j] == options[j + 1]);
        }
        options_not_given_have_no_value(options.skip(1), name);
    }
}

/// An option is read as what it is, and as nothing else.
pub proof fn options_are_read_by_type(options: Seq<CommandOption>, name: Seq<char>)
    ensures
        ({
            let value = option_value(options, name);
            &&& value is Some && value->0 is Text ==> text_value(options, name) == Some(
                value->0->Text_0@,
            )
            &&& !(value is Some && value->0 is Text) ==> text_value(options, name) is None
            &&& value is Some && value->0 is Integer ==> int_value(options, name) == Some(
                value->0->Integer_0,
            )
            &&& !(value is Some && value->0 is Integer) ==> int_value(options, name) is None
            &&& value is Some && value->0 is Boolean ==> bool_value(options, name) == Some(
                value->0->Boolean_0,
            )
            &&& !(value is Some && value->0 is Boolean) ==> bool_value(options, name) is None
            &&& value is Some && value->0 is Channel ==> channel_value(options, name) == Some(
                value->0->Channel_0,
            )
            &&& !(value is Some && value->0 is Channel) ==> channel_value(options, name) is None
        }),
{
}

} // verus!
