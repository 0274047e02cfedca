//! What the guild-configuration collection answers, decoded: which field a
//! key reads and what a fetched document yields for it.

use vstd::prelude::*;

use crate::text::parse_unsigned;
use crate::util::managers::Database;
use crate::util::permission::{PermissionOverwriteData, PermissionOverwriteKey};

verus! {

/// A question to one of the bot's collections: the document `id`, the field `key`.
#[allow(inconsistent_fields)]
#[derive(Debug, Clone, Copy, PartialEq, Eq, Structural)]
pub enum DatabaseCollections {
    GuildConfig { id: u64, key: GuildConfigKey },
    PermissionOverwrites { id: u64, key: PermissionOverwriteKey },
    Tickets { id: u64, key: TicketKey },
}

/// A field of a guild's configuration document.
#[derive(Debug, Clone, Copy, PartialEq, Eq, Structural)]
pub enum GuildConfigKey {
    Id,
    DefaultRole,
    Prefix,
    ModerationRole,
    TicketCategory,
}

/// A value read from a guild's configuration document, ids as plain integers.
#[derive(Debug, Clone)]
pub enum GuildConfigData {
    Id(u64),
    DefaultRole(u64),
    Prefix(String),
    ModerationRole(u64),
    TicketCategory(u64),
}

/// A field of a ticket document.
#[derive(Debug, Clone, Copy, PartialEq, Eq, Structural)]
pub enum TicketKey {
    Id,
    Guild,
    Channel,
    Author,
    Title,
    Description,
}

/// A value read from a ticket document, ids as plain integers.
#[derive(Debug, Clone)]
pub enum TicketData {
    Id(u64),
    Guild(u64),
    Channel(u64),
    Author(u64),
    Title(String),
    Description(String),
}

/// The answer of the store to a [`DatabaseCollections`] question.
#[derive(Debug, Clone)]
pub enum StoreResult {
    Guild(GuildConfigData),
    PermissionOverwrite(PermissionOverwriteData),
    Ticket(TicketData),
    Nothing,
}

/// The value of a document's field, as far as the bot reads it.
#[derive(Debug, Clone)]
pub enum FieldValue {
    /// A 64-bit integer.
    Int64(i64),
    /// A string.
    Text(String),
    /// Any other kind of value.
    Other,
}

/// What a query for one field of one document came back with.
#[derive(Debug, Clone)]
pub enum Lookup {
    /// The query itself failed.
    Failed,
    /// No document matched.
    NoDocument,
    /// A document matched; it holds the field or not.
    Document(Option<FieldValue>),
}

/// The name of the document field that `key` reads.
pub open spec fn field_name(key: GuildConfigKey) -> Seq<char> {
    match key {
        GuildConfigKey::Id => "_id"@,
        GuildConfigKey::DefaultRole => "default_role"@,
        GuildConfigKey::Prefix => "prefix"@,
        GuildConfigKey::ModerationRole => "moderation_role"@,
        GuildConfigKey::TicketCategory => "ticket_category"@,
    }
}

/// The integer that a lookup found, if it found one.
pub open spec fn found_int(lookup: Lookup) -> Option<i64> {
    match lookup {
        Lookup::Document(Some(FieldValue::Int64(v))) => Some(v),
        _ => None,
    }
}

/// The string that a lookup found, if it found one.
pub open spec fn found_text(lookup: Lookup) -> Option<String> {
    match lookup {
        Lookup::Document(Some(FieldValue::Text(s))) => Some(s),
        _ => None,
    }
}

/// An id stored as a 64-bit signed integer, read as an unsigned one (its
/// bits kept).
pub open spec fn stored_id(v: i64) -> u64 {
    v as u64
}

/// The id that a lookup found as a string of decimal digits (`u64` grammar).
pub open spec fn found_text_id(lookup: Lookup) -> Option<nat> {
    match found_text(lookup) {
        Some(s) => parse_unsigned(s@, u64::MAX as nat),
        None => None,
    }
}

/// What the guild-configuration store answers for `key`, given what the
/// query for its field found: roles are integer fields, the prefix is a
/// string field, the ticket category a string of digits; anything else,
/// a failed query or a missing document answers `StoreResult::Nothing`.
pub open spec fn spec_guild_config_result(key: GuildConfigKey, lookup: Lookup) -> StoreResult {
    match key {
        GuildConfigKey::DefaultRole => match found_int(lookup) {
            Some(v) => StoreResult::Guild(GuildConfigData::DefaultRole(stored_id(v))),
            None => StoreResult::Nothing,
        },
        GuildConfigKey::ModerationRole => match found_int(lookup) {
            Some(v) => StoreResult::Guild(GuildConfigData::ModerationRole(stored_id(v))),
            None => StoreResult::Nothing,
        },
        GuildConfigKey::Prefix => match found_text(lookup) {
            Some(s) => StoreResult::Guild(GuildConfigData::Prefix(s)),
            None => StoreResult::Nothing,
        },
        _ => match found_text_id(lookup) {
            Some(id) => StoreResult::Guild(GuildConfigData::TicketCategory(id as u64)),
            None => StoreResult::Nothing,
        },
    }
}

/// A ticket category recorded as the decimal text of its id reads back as
/// that id.
pub proof fn law_ticket_category_reads_back(id: u64, text: String)
    requires
        text@ == crate::text::decimal(id as nat),
    ensures
        spec_guild_config_result(
            GuildConfigKey::TicketCategory,
            Lookup::Document(Some(FieldValue::Text(text))),
        ) == StoreResult::Guild(GuildConfigData::TicketCategory(id)),
{
    crate::text::law_decimal_reads_back(id as nat, u64::MAX as nat);
}

/// A role recorded in a guild's configuration as the 64-bit integer `v`
/// reads back as the role with `v`'s bits, for every `v`, whether the store
/// is asked for the default role or for the moderation role.
pub proof fn law_recorded_role_reads_back(guild: u64, v: i64)
    ensures
        spec_get(
            DatabaseCollections::GuildConfig { id: guild, key: GuildConfigKey::DefaultRole },
            Lookup::Document(Some(FieldValue::Int64(v))),
        ) == StoreResult::Guild(GuildConfigData::DefaultRole(v as u64)),
        spec_get(
            DatabaseCollections::GuildConfig { id: guild, key: GuildConfigKey::ModerationRole },
            Lookup::Document(Some(FieldValue::Int64(v))),
        ) == StoreResult::Guild(GuildConfigData::ModerationRole(v as u64)),
{
}

/// Every role id survives being recorded as a 64-bit signed integer: the
/// role `role`, recorded as `role as i64`, reads back as the default role
/// `role` itself.
pub proof fn law_recorded_default_role_reads_back(guild: u64, role: u64)
    ensures
        spec_get(
            DatabaseCollections::GuildConfig { id: guild, key: GuildConfigKey::DefaultRole },
            Lookup::Document(Some(FieldValue::Int64(role as i64))),
        ) == StoreResult::Guild(GuildConfigData::DefaultRole(role)),
{
    let v = role as i64;
    assert(v as u64 == role) by (bit_vector)
        requires
            v == role as i64,
    ;
}

/// A failed query, a missing document or a missing field answers nothing,
/// whatever the key.
pub proof fn law_nothing_found_answers_nothing(key: GuildConfigKey)
    ensures
        spec_guild_config_result(key, Lookup::Failed) == StoreResult::Nothing,
        spec_guild_config_result(key, Lookup::NoDocument) == StoreResult::Nothing,
        spec_guild_config_result(key, Lookup::Document(None)) == StoreResult::Nothing,
{
}

/// Whether the store can answer `question`: only the guild configuration
/// can be read, and not for its `Id` key.
pub open spec fn answerable(question: DatabaseCollections) -> bool {
    question matches DatabaseCollections::GuildConfig { key, .. } && key != GuildConfigKey::Id
}

/// What the store answers to `question`, given what the query for it found.
pub open spec fn spec_get(question: DatabaseCollections, lookup: Lookup) -> StoreResult {
    match question {
        DatabaseCollections::GuildConfig { key, .. } => spec_guild_config_result(key, lookup),
        _ => StoreResult::Nothing,
    }
}

/// The store's answer to `question`, given what the query for the question's
/// field of the question's document found.
pub fn get(question: DatabaseCollections, lookup: Lookup) -> (r: StoreResult)
    requires
        answerable(question),
    ensures
        r == spec_get(question, lookup),
{
    match question {
        DatabaseCollections::GuildConfig { key, .. } => guild_config_result(key, lookup),
        _ => StoreResult::Nothing,
    }
}

/// The document field that `key` is read from.
pub fn guild_config_field(key: GuildConfigKey) -> (name: &'static str)
    requires
        key != GuildConfigKey::Id,
    ensures
        name@ == field_name(key),
{
    match key {
        GuildConfigKey::DefaultRole => "default_role",
        GuildConfigKey::Prefix => "prefix",
        GuildConfigKey::ModerationRole => "moderation_role",
        _ => "ticket_category",
    }
}

/// Reads an id that a lookup found as an integer field.
pub fn role_from_lookup(lookup: &Lookup) -> (r: Option<u64>)
    ensures
        r == (match found_int(*lookup) {
            Some(v) => Some(stored_id(v)),
            None => None::<u64>,
        }),
{
    match lookup {
        Lookup::Document(Some(FieldValue::Int64(v))) => Some(*v as u64),
        _ => None,
    }
}

/// The answer of the guild-configuration store for `key`, given what the
/// query for the field of `key` found.
pub fn guild_config_result(key: GuildConfigKey, lookup: Lookup) -> (r: StoreResult)
    requires
        key != GuildConfigKey::Id,
    ensures
        r == spec_guild_config_result(key, lookup),
{
    match key {
        GuildConfigKey::DefaultRole => match role_from_lookup(&lookup) {
            Some(role) => StoreResult::Guild(GuildConfigData::DefaultRole(role)),
            None => StoreResult::Nothing,
        },
        GuildConfigKey::ModerationRole => match role_from_lookup(&lookup) {
            Some(role) => StoreResult::Guild(GuildConfigData::ModerationRole(role)),
            None => StoreResult::Nothing,
        },
        GuildConfigKey::Prefix => match lookup {
            Lookup::Document(Some(FieldValue::Text(s))) => StoreResult::Guild(
                GuildConfigData::Prefix(s),
            ),
            _ => StoreResult::Nothing,
        },
        _ => match Database::guild_config_get_id(&lookup) {
            Some(id) => StoreResult::Guild(GuildConfigData::TicketCategory(id)),
            None => StoreResult::Nothing,
        },
    }
}

} // verus!
