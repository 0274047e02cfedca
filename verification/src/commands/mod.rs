//! What the bot's chat commands decide and answer.

pub mod dice;
pub mod config;
pub mod hooks;
pub mod moderation;
pub mod ticket;
