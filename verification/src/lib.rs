//! Decision and formatting logic of the Beep Discord bot: dice rolls, guild
//! prefixes, guild-configuration decoding, embeds and command replies.

pub mod draws;
pub mod text;
pub mod commands;
pub mod util;
