//! What the command framework's hooks decide: replies to refused commands
//! and the report of a command that failed.

use vstd::prelude::*;
use vstd::string::*;

use crate::text::{decimal, push_decimal};
use crate::util::embed_store::{Embed, EmbedField};

verus! {

/// The permission bit `KICK_MEMBERS`.
pub const KICK_MEMBERS: u64 = 2;

/// The permission bit `BAN_MEMBERS`.
pub const BAN_MEMBERS: u64 = 4;

/// The permission bit `ADMINISTRATOR`.
pub const ADMINISTRATOR: u64 = 8;

/// The permission bit `MANAGE_MESSAGES`.
pub const MANAGE_MESSAGES: u64 = 8192;

/// Why the framework refused to run a command, as far as the bot tells the
/// reasons apart.
#[derive(Debug, Clone, Copy, PartialEq, Eq, Structural)]
pub enum DispatchFailure {
    /// The author lacks the permissions with these bits.
    LackingPermissions(u64),
    /// Fewer arguments than the command needs.
    NotEnoughArguments { min: u16, given: usize },
    /// The command is for the bot's owners.
    OnlyForOwners,
    /// The message came from a bot.
    IgnoredBot,
    /// Any other reason.
    Other,
}

/// What the bot does about a refused command.
#[derive(Debug, Clone)]
pub enum DispatchReply {
    /// Says this in the channel.
    Say(String),
    /// Says nothing.
    Silent,
    /// Logs the reason as unhandled.
    Unhandled,
}

/// The text said about a refused command, if any; `None` where the bot says
/// nothing.
pub open spec fn dispatch_message(failure: DispatchFailure) -> Option<Seq<char>> {
    match failure {
        DispatchFailure::LackingPermissions(bits) => if bits == ADMINISTRATOR {
            Some("Not for you!"@)
        } else if bits == MANAGE_MESSAGES {
            Some(
                "You can't execute this command because you aren't a moderator! (Manage Messages permission)"@,
            )
        } else if bits == BAN_MEMBERS {
            Some(
                "You can't execute this command because you aren't a moderator! (Ban Members permission)"@,
            )
        } else if bits == KICK_MEMBERS {
            Some(
                "You can't execute this command because you aren't a moderator! (Kick Members permission)"@,
            )
        } else {
            None
        },
        DispatchFailure::NotEnoughArguments { min, given } => Some(
            "Args required: "@ + decimal(min as nat) + ". Args given: "@ + decimal(given as nat),
        ),
        DispatchFailure::OnlyForOwners => Some("This is a bot dev only command!"@),
        _ => None,
    }
}

/// Whether the bot stays silent about `failure` (rather than logging it).
pub open spec fn dispatch_silent(failure: DispatchFailure) -> bool {
    failure == DispatchFailure::IgnoredBot
}

/// What the bot does about a command that the framework refused: a reply
/// for missing moderator permissions (only for exactly one of the four
/// permissions it names), too few arguments or an owners-only command;
/// silence for a bot's message; a log line for anything else.
pub fn dispatch_error_reply(failure: DispatchFailure) -> (r: DispatchReply)
    ensures
        match dispatch_message(failure) {
            Some(m) => r matches DispatchReply::Say(s) && s@ == m,
            None => if dispatch_silent(failure) {
                r is Silent
            } else {
                r is Unhandled
            },
        },
{
    match failure {
        DispatchFailure::LackingPermissions(bits) => {
            if bits == ADMINISTRATOR {
                DispatchReply::Say(String::from_str("Not for you!"))
            } else if bits == MANAGE_MESSAGES {
                DispatchReply::Say(
                    String::from_str(
                        "You can't execute this command because you aren't a moderator! (Manage Messages permission)",
                    ),
                )
            } else if bits == BAN_MEMBERS {
                DispatchReply::Say(
                    String::from_str(
                        "You can't execute this command because you aren't a moderator! (Ban Members permission)",
                    ),
                )
            } else if bits == KICK_MEMBERS {
                DispatchReply::Say(
                    String::from_str(
                        "You can't execute this command because you aren't a moderator! (Kick Members permission)",
                    ),
                )
            } else {
                DispatchReply::Unhandled
            }
        },
        DispatchFailure::NotEnoughArguments { min, given } => {
            let mut s = String::from_str("Args required: ");
            push_decimal(&mut s, min as u64);
            s.append(". Args given: ");
            push_decimal(&mut s, given as u64);
            DispatchReply::Say(s)
        },
        DispatchFailure::OnlyForOwners => DispatchReply::Say(
            String::from_str("This is a bot dev only command!"),
        ),
        DispatchFailure::IgnoredBot => DispatchReply::Silent,
        DispatchFailure::Other => DispatchReply::Unhandled,
    }
}

/// The embed that reports a failed command: its name and the error's
/// debug text.
pub fn command_error_embed(command_name: &str, error_debug: &str) -> (e: Embed)
    ensures
        e.author is None,
        e.title@ == "Aw Snap!"@,
        e.description@ == "Looks like the bot encountered an error! \n"@,
        e.colour == 0xff69b4,
        e.fields@.len() == 2,
        e.fields@[0].name@ == "Command Name"@,
        e.fields@[0].value@ == command_name@,
        !e.fields@[0].inline,
        e.fields@[1].name@ == "Error"@,
        e.fields@[1].value@ == "```"@ + error_debug@ + " \n```"@,
        !e.fields@[1].inline,
{
    let mut error_text = String::from_str("```");
    error_text.append(error_debug);
    error_text.append(" \n```");
    let mut fields: Vec<EmbedField> = Vec::new();
    fields.push(
        EmbedField {
            name: String::from_str("Command Name"),
            value: String::from_str(command_name),
            inline: false,
        },
    );
    fields.push(EmbedField { name: String::from_str("Error"), value: error_text, inline: false });
    Embed {
        author: None,
        title: String::from_str("Aw Snap!"),
        description: String::from_str("Looks like the bot encountered an error! \n"),
        colour: 0xff69b4,
        fields,
    }
}

} // verus!
