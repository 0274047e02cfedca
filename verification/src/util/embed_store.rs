//! The embeds that the bot sends, as plain values.

use vstd::prelude::*;
use vstd::string::*;

use crate::text::{channel_mention, push_channel_mention};

verus! {

/// The author line of an embed.
#[derive(Debug, Clone)]
pub struct EmbedAuthor {
    pub name: String,
    pub icon_url: Option<String>,
}

/// A named field of an embed.
#[derive(Debug, Clone)]
pub struct EmbedField {
    pub name: String,
    pub value: String,
    pub inline: bool,
}

/// A rich message: author, title, description, colour and fields.
#[derive(Debug, Clone)]
pub struct Embed {
    pub author: Option<EmbedAuthor>,
    pub title: String,
    pub description: String,
    pub colour: u32,
    pub fields: Vec<EmbedField>,
}

/// The user who opened a ticket, as the ticket embed shows them.
#[derive(Debug, Clone)]
pub struct TicketAuthor {
    pub name: String,
    pub avatar_url: Option<String>,
}

/// The embeds of the ticket system.
#[derive(Debug, Clone)]
pub enum TicketEmbed {
    /// The ticket channel (its id) was created.
    Success(u64),
    /// The opening message of a ticket channel.
    Description { author: TicketAuthor, title: String, description: String },
    /// No ticket could be created.
    Failure,
}

/// Builds the embeds of the ticket system.
pub struct EmbedStore;

/// Discord's colour of red, `0xE74C3C`.
pub const RED: u32 = 0xE74C3C;

/// The colour with the channels `r`, `g`, `b`.
pub open spec fn rgb(r: u8, g: u8, b: u8) -> u32 {
    (r * 65536 + g * 256 + b) as u32
}

/// The green of tickets: `rgb(73, 248, 22)`.
pub open spec fn ticket_green() -> u32 {
    rgb(73, 248, 22)
}

/// The colour with the channels `r`, `g`, `b`.
pub fn colour_from_rgb(r: u8, g: u8, b: u8) -> (c: u32)
    ensures
        c == rgb(r, g, b),
{
    (r as u32) * 65536 + (g as u32) * 256 + (b as u32)
}

/// Whether `e` is the embed that reports that no ticket could be created.
pub open spec fn is_failure_embed(e: Embed) -> bool {
    &&& e.author is None
    &&& e.title@ == "Error"@
    &&& e.description@ == "Error creating a ticket for you!"@
    &&& e.colour == RED
    &&& e.fields@.len() == 0
}

/// Whether `e` is the embed that sends the user to the ticket channel `channel`.
pub open spec fn is_success_embed(e: Embed, channel: u64) -> bool {
    &&& e.author is None
    &&& e.title@ == "New Ticket"@
    &&& e.description@ == "Please go to "@ + channel_mention(channel as nat)
    &&& e.colour == ticket_green()
    &&& e.fields@.len() == 0
}

/// Whether `e` is the opening embed of a ticket by `author` with `title`
/// and `description`.
pub open spec fn is_description_embed(
    e: Embed,
    author: TicketAuthor,
    title: Seq<char>,
    description: Seq<char>,
) -> bool {
    &&& e.author matches Some(a) && a.name@ == author.name@ && match (a.icon_url, author.avatar_url) {
        (Some(u), Some(v)) => u@ == v@,
        (None, None) => true,
        _ => false,
    }
    &&& e.title@ == title
    &&& e.description@ == description
    &&& e.colour == ticket_green()
    &&& e.fields@.len() == 0
}

/// Whether `e` is the embed for the ticket state `state`.
pub open spec fn is_ticket_embed(e: Embed, state: TicketEmbed) -> bool {
    match state {
        TicketEmbed::Success(channel) => is_success_embed(e, channel),
        TicketEmbed::Description { author, title, description } => is_description_embed(
            e,
            author,
            title@,
            description@,
        ),
        TicketEmbed::Failure => is_failure_embed(e),
    }
}

impl EmbedStore {
    /// The embed for the ticket state `state`.
    pub fn ticket(state: TicketEmbed) -> (e: Embed)
        ensures
            is_ticket_embed(e, state),
    {
        match state {
            TicketEmbed::Success(channel) => Self::ticket_success(channel),
            TicketEmbed::Failure => Self::ticket_failure(),
            TicketEmbed::Description { author, title, description } => {
                let author = EmbedAuthor { name: author.name, icon_url: author.avatar_url };
                Embed {
                    author: Some(author),
                    title,
                    description,
                    colour: colour_from_rgb(73, 248, 22),
                    fields: Vec::new(),
                }
            },
        }
    }

    /// The embed that reports that no ticket could be created.
    pub fn ticket_failure() -> (e: Embed)
        ensures
            is_failure_embed(e),
    {
        Embed {
            author: None,
            title: String::from_str("Error"),
            description: String::from_str("Error creating a ticket for you!"),
            colour: RED,
            fields: Vec::new(),
        }
    }

    /// The embed that sends the user to the ticket channel `channel`.
    pub fn ticket_success(channel: u64) -> (e: Embed)
        ensures
            is_success_embed(e, channel),
    {
        let mut description = String::from_str("Please go to ");
        push_channel_mention(&mut description, channel);
        Embed {
            author: None,
            title: String::from_str("New Ticket"),
            description,
            colour: colour_from_rgb(73, 248, 22),
            fields: Vec::new(),
        }
    }
}

} // verus!
