use beep::commands::config::{apply_prefix_change, plan_prefix_change, PrefixChange};
use beep::util::config::BotConfig;
use beep::util::managers::{PrefixDocument, Prefixes};

fn config(default_prefix: &str) -> BotConfig {
    BotConfig {
        default_prefix: default_prefix.to_string(),
        invite_url: None,
        support_server_id: None,
        token: "SECRET-REDACTED".to_string(),
    }
}

#[test]
fn new_store_is_empty() {
    let p = Prefixes::new();
    assert_eq!(p.get(1), None);
    assert_eq!(p.prefix_for(Some(1)), None);
}

#[test]
fn set_then_get() {
    let mut p = Prefixes::new();
    p.set(10, "?".to_string());
    assert_eq!(p.get(10), Some("?".to_string()));
    assert_eq!(p.prefix_for(Some(10)), Some("?".to_string()));
    assert_eq!(p.get(11), None);
    p.set(10, "$".to_string());
    assert_eq!(p.get(10), Some("$".to_string()));
}

#[test]
fn reset_then_get() {
    let mut p = Prefixes::new();
    p.set(10, "?".to_string());
    p.set(20, "&".to_string());
    p.reset(10);
    assert_eq!(p.get(10), None);
    assert_eq!(p.get(20), Some("&".to_string()));
    p.reset(30);
    assert_eq!(p.get(30), None);
}

#[test]
fn direct_messages_have_no_prefix() {
    let mut p = Prefixes::new();
    p.set(0, "?".to_string());
    assert_eq!(p.prefix_for(None), None);
}

#[test]
fn load_later_document_wins() {
    let docs = vec![
        PrefixDocument::Read { guild_id: 1, prefix: "a".to_string() },
        PrefixDocument::Failed,
        PrefixDocument::Read { guild_id: 2, prefix: "b".to_string() },
        PrefixDocument::Read { guild_id: 1, prefix: "c".to_string() },
        PrefixDocument::Read { guild_id: -1, prefix: "d".to_string() },
    ];
    let p = Prefixes::load(&docs);
    assert_eq!(p.get(1), Some("c".to_string()));
    assert_eq!(p.get(2), Some("b".to_string()));
    assert_eq!(p.get(u64::MAX), Some("d".to_string()));
    assert_eq!(p.get(3), None);
    let empty = Prefixes::load(&vec![PrefixDocument::Failed]);
    assert_eq!(empty.get(1), None);
}

#[test]
fn plan_resets_on_reset_word_or_default() {
    let c = config("!");
    assert!(matches!(plan_prefix_change("`reset`".to_string(), &c), PrefixChange::Reset));
    assert!(matches!(plan_prefix_change("!".to_string(), &c), PrefixChange::Reset));
    assert!(matches!(plan_prefix_change("?".to_string(), &c), PrefixChange::Custom(p) if p == "?"));
    assert!(matches!(plan_prefix_change("reset".to_string(), &c), PrefixChange::Custom(p) if p == "reset"));
}

#[test]
fn recorded_change_applies() {
    let mut p = Prefixes::new();
    let reply = apply_prefix_change(&mut p, 5, PrefixChange::Custom("?".to_string()), true);
    assert_eq!(reply, "My prefix for this server is now: ?");
    assert_eq!(p.prefix_for(Some(5)), Some("?".to_string()));
    let reply = apply_prefix_change(&mut p, 5, PrefixChange::Reset, true);
    assert_eq!(reply, "My prefix for this server is now my default prefix");
    assert_eq!(p.prefix_for(Some(5)), None);
}

#[test]
fn unrecorded_change_keeps_prefixes() {
    let mut p = Prefixes::new();
    p.set(5, "?".to_string());
    let reply = apply_prefix_change(&mut p, 5, PrefixChange::Custom("$".to_string()), false);
    assert_eq!(reply, "Could not update the prefix for this server");
    assert_eq!(p.get(5), Some("?".to_string()));
    let reply = apply_prefix_change(&mut p, 5, PrefixChange::Reset, false);
    assert_eq!(reply, "Could not reset the prefix for this server");
    assert_eq!(p.get(5), Some("?".to_string()));
}

#[test]
fn default_prefix_is_never_recorded() {
    let c = config("!");
    let mut p = Prefixes::new();
    p.set(7, "?".to_string());
    let change = plan_prefix_change("!".to_string(), &c);
    apply_prefix_change(&mut p, 7, change, true);
    assert_eq!(p.get(7), None);
}
