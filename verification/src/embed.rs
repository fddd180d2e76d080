//! Message embeds, as plain values.

use vstd::prelude::*;

verus! {

/// The colour of an embed.
#[derive(Clone, Copy, Debug, PartialEq, Eq, Structural)]
pub enum EmbedColour {
    Blue,
    Red,
}

/// A field of an embed.
#[derive(Clone, Debug, PartialEq, Eq)]
pub struct EmbedField {
    pub name: &'static str,
    pub value: String,
    pub inline: bool,
}

/// An embed.
#[derive(Clone, Debug, PartialEq, Eq)]
pub struct Embed {
    pub title: String,
    pub author: Option<String>,
    pub description: Option<String>,
    pub fields: Vec<EmbedField>,
    pub colour: Option<EmbedColour>,
}

/// What a field holds.
#[verifier::ext_equal]
pub struct FieldView {
    pub name: Seq<char>,
    pub value: Seq<char>,
    pub inline: bool,
}

/// What an embed holds.
#[verifier::ext_equal]
pub struct EmbedView {
    pub title: Seq<char>,
    pub author: Option<Seq<char>>,
    pub description: Option<Seq<char>>,
    pub fields: Seq<FieldView>,
    pub colour: Option<EmbedColour>,
}

impl EmbedField {
    /// What the field holds.
    pub open spec fn view(&self) -> FieldView {
        FieldView { name: self.name@, value: self.value@, inline: self.inline }
    }
}

impl Embed {
    /// What the embed holds.
    pub open spec fn view(&self) -> EmbedView {
        EmbedView {
            title: self.title@,
            author: crate::text::text_opt(self.author),
            description: crate::text::text_opt(self.description),
            fields: Seq::new(self.fields@.len(), |i: int| self.fields@[i].view()),
            colour: self.colour,
        }
    }
}

/// The embed that tells a user why a command was not carried out.
pub open spec fn error_embed(message: Seq<char>) -> EmbedView {
    EmbedView {
        title: "エラー"@,
        author: None,
        description: Some(message),
        fields: seq![],
        colour: Some(EmbedColour::Red),
    }
}

/// The embed that tells a user why a command was not carried out.
pub fn make_error_embed(message: &str) -> (r: Embed)
    ensures
        r@ == error_embed(message@),
        r.description is Some && r.description->0@ == message@,
{
    Embed {
        title: String::from_str("エラー"),
        author: None,
        description: Some(String::from_str(message)),
        fields: Vec::new(),
        colour: Some(EmbedColour::Red),
    }
}

/// What an embed holds is all of it: its texts, its colour, and each field at its
/// place.
pub proof fn embeds_hold_all_their_parts(embed: Embed, i: int)
    ensures
        embed@.title == embed.title@,
        embed.author is Some ==> embed@.author == Some(embed.author->0@),
        embed.author is None ==> embed@.author is None,
        embed.description is Some ==> embed@.description == Some(embed.description->0@),
        embed.description is None ==> embed@.description is None,
        embed@.colour == embed.colour,
        embed@.fields.len() == embed.fields@.len(),
        0 <= i < embed.fields@.len() ==> embed@.fields[i].name == embed.fields@[i].name@
            && embed@.fields[i].value == embed.fields@[i].value@ && embed@.fields[i].inline
            == embed.fields@[i].inline,
{
}

} // verus!
