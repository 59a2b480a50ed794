//! Discord notification payloads.
//!
//! Sending is a best-effort external call made by the process entry point;
//! the library builds the payload values.

use vstd::prelude::*;
use crate::clock::now_rfc3339;

verus! {

/// One field of an embed: a name, a value, and whether it sits inline.
#[derive(Debug, Clone, PartialEq)]
pub struct EmbedField {
    pub name: String,
    pub value: String,
    pub inline: bool,
}

impl EmbedField {
    /// A block field.
    pub fn new(name: String, value: String) -> (r: EmbedField)
        ensures
            r.name == name,
            r.value == value,
            !r.inline,
    {
        EmbedField { name, value, inline: false }
    }

    /// The same field, set inline.
    pub fn inline(self) -> (r: EmbedField)
        ensures
            r.name == self.name,
            r.value == self.value,
            r.inline,
    {
        EmbedField { inline: true, ..self }
    }
}

/// One rich embed: a title, a color, optional description, and fields.
#[derive(Debug, Clone, PartialEq)]
pub struct DiscordEmbed {
    pub title: String,
    pub description: Option<String>,
    /// The accent color as a packed RGB number.
    pub color: i32,
    pub fields: Vec<EmbedField>,
    /// Creation time as RFC 3339 text.
    pub timestamp: String,
}

impl DiscordEmbed {
    /// A bare embed stamped with the wall clock.
    pub fn new(title: String, color: i32) -> (r: DiscordEmbed)
        ensures
            r.title == title,
            r.description is None,
            r.color == color,
            r.fields@ == Seq::<EmbedField>::empty(),
    {
        DiscordEmbed { title, description: None, color, fields: Vec::new(), timestamp: now_rfc3339() }
    }

    /// The same embed with a description.
    pub fn with_description(self, desc: String) -> (r: DiscordEmbed)
        ensures
            r.title == self.title,
            r.description == Some(desc),
            r.color == self.color,
            r.fields == self.fields,
            r.timestamp == self.timestamp,
    {
        DiscordEmbed { description: Some(desc), ..self }
    }

    /// The same embed with one more field at the end.
    pub fn add_field(self, field: EmbedField) -> (r: DiscordEmbed)
        ensures
            r.title == self.title,
            r.description == self.description,
            r.color == self.color,
            r.fields@ == self.fields@.push(field),
            r.timestamp == self.timestamp,
    {
        let mut fields = self.fields;
        fields.push(field);
        DiscordEmbed { fields, ..self }
    }
}

/// One webhook payload: plain text, or one or more embeds.
#[derive(Debug, Clone, PartialEq)]
pub struct DiscordWebhook {
    pub content: Option<String>,
    pub embeds: Vec<DiscordEmbed>,
}

impl DiscordWebhook {
    /// A plain text message.
    pub fn simple(content: &str) -> (r: DiscordWebhook)
        ensures
            r.content matches Some(c) && c@ == content@,
            r.embeds@ == Seq::<DiscordEmbed>::empty(),
    {
        DiscordWebhook { content: Some(String::from_str(content)), embeds: Vec::new() }
    }

    /// A message of one embed.
    pub fn embed(embed: DiscordEmbed) -> (r: DiscordWebhook)
        ensures
            r.content is None,
            r.embeds@ == seq![embed],
    {
        let mut embeds: Vec<DiscordEmbed> = Vec::new();
        embeds.push(embed);
        proof {
            assert(embeds@ =~= seq![embed]);
        }
        DiscordWebhook { content: None, embeds }
    }

    /// A message of several embeds.
    pub fn embeds(embeds: Vec<DiscordEmbed>) -> (r: DiscordWebhook)
        ensures
            r.content is None,
            r.embeds == embeds,
    {
        DiscordWebhook { content: None, embeds }
    }
}

} // verus!
