use beep::util::database_store::{get, DatabaseCollections};
use beep::util::database_store::{
    guild_config_field, guild_config_result, role_from_lookup, FieldValue, GuildConfigData,
    GuildConfigKey, Lookup, StoreResult,
};
use beep::util::managers::Database;

fn found(v: FieldValue) -> Lookup {
    Lookup::Document(Some(v))
}

#[test]
fn fields_of_keys() {
    assert_eq!(guild_config_field(GuildConfigKey::DefaultRole), "default_role");
    assert_eq!(guild_config_field(GuildConfigKey::Prefix), "prefix");
    assert_eq!(guild_config_field(GuildConfigKey::ModerationRole), "moderation_role");
    assert_eq!(guild_config_field(GuildConfigKey::TicketCategory), "ticket_category");
}

#[test]
fn roles_come_from_integers() {
    let r = guild_config_result(GuildConfigKey::DefaultRole, found(FieldValue::Int64(42)));
    assert!(matches!(r, StoreResult::Guild(GuildConfigData::DefaultRole(42))));
    let r = guild_config_result(GuildConfigKey::ModerationRole, found(FieldValue::Int64(-2)));
    assert!(matches!(r, StoreResult::Guild(GuildConfigData::ModerationRole(v)) if v == u64::MAX - 1));
    let r = guild_config_result(GuildConfigKey::ModerationRole, found(FieldValue::Text("7".to_string())));
    assert!(matches!(r, StoreResult::Nothing));
    let r = guild_config_result(GuildConfigKey::DefaultRole, found(FieldValue::Text("42".to_string())));
    assert!(matches!(r, StoreResult::Nothing));
}

#[test]
fn prefix_comes_from_text() {
    let r = guild_config_result(GuildConfigKey::Prefix, found(FieldValue::Text("?".to_string())));
    assert!(matches!(r, StoreResult::Guild(GuildConfigData::Prefix(p)) if p == "?"));
    let r = guild_config_result(GuildConfigKey::Prefix, found(FieldValue::Int64(1)));
    assert!(matches!(r, StoreResult::Nothing));
}

#[test]
fn ticket_category_comes_from_digits() {
    let r = guild_config_result(GuildConfigKey::TicketCategory, found(FieldValue::Text("123456789012345678".to_string())));
    assert!(matches!(r, StoreResult::Guild(GuildConfigData::TicketCategory(123456789012345678))));
    let r = guild_config_result(GuildConfigKey::TicketCategory, found(FieldValue::Text("12a".to_string())));
    assert!(matches!(r, StoreResult::Nothing));
    let r = guild_config_result(GuildConfigKey::TicketCategory, found(FieldValue::Int64(12)));
    assert!(matches!(r, StoreResult::Nothing));
}

#[test]
fn nothing_found_answers_nothing() {
    for key in [GuildConfigKey::DefaultRole, GuildConfigKey::Prefix, GuildConfigKey::ModerationRole, GuildConfigKey::TicketCategory] {
        assert!(matches!(guild_config_result(key, Lookup::Failed), StoreResult::Nothing));
        assert!(matches!(guild_config_result(key, Lookup::NoDocument), StoreResult::Nothing));
        assert!(matches!(guild_config_result(key, Lookup::Document(None)), StoreResult::Nothing));
        assert!(matches!(guild_config_result(key, found(FieldValue::Other)), StoreResult::Nothing));
    }
}

#[test]
fn role_lookup() {
    assert_eq!(role_from_lookup(&found(FieldValue::Int64(7))), Some(7));
    assert_eq!(role_from_lookup(&found(FieldValue::Int64(-1))), Some(u64::MAX));
    assert_eq!(role_from_lookup(&found(FieldValue::Text("7".to_string()))), None);
    assert_eq!(role_from_lookup(&Lookup::NoDocument), None);
}

#[test]
fn guild_config_get_id_reads_digits() {
    assert_eq!(Database::guild_config_get_id(&found(FieldValue::Text("99".to_string()))), Some(99));
    assert_eq!(Database::guild_config_get_id(&found(FieldValue::Text("+99".to_string()))), Some(99));
    assert_eq!(Database::guild_config_get_id(&found(FieldValue::Text("-99".to_string()))), None);
    assert_eq!(Database::guild_config_get_id(&found(FieldValue::Int64(99))), None);
    assert_eq!(Database::guild_config_get_id(&Lookup::Failed), None);
}

#[test]
fn recorded_moderation_role_reads_back() {
    for role in [0u64, 42, i64::MAX as u64, u64::MAX] {
        let stored = beep::commands::config::moderation_role_value(role);
        let r = guild_config_result(GuildConfigKey::ModerationRole, found(FieldValue::Int64(stored)));
        assert!(matches!(r, StoreResult::Guild(GuildConfigData::ModerationRole(v)) if v == role));
    }
}

#[test]
fn get_answers_guild_config_questions() {
    for role in [5u64, u64::MAX] {
        let stored = beep::commands::config::moderation_role_value(role);
        let q = DatabaseCollections::GuildConfig { id: 1, key: GuildConfigKey::ModerationRole };
        assert!(matches!(get(q, found(FieldValue::Int64(stored))), StoreResult::Guild(GuildConfigData::ModerationRole(v)) if v == role));
    }
    let q = DatabaseCollections::GuildConfig { id: 1, key: GuildConfigKey::Prefix };
    assert!(matches!(get(q, Lookup::NoDocument), StoreResult::Nothing));
}
