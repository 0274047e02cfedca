//! The bot's configuration, its stores and what it sends.

pub mod config;
pub mod database_store;
pub mod managers;
pub mod permission;
pub mod embed_store;
pub mod handler;
