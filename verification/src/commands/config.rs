//! The configuration commands: a guild's prefix, default role and
//! moderation role.

use vstd::prelude::*;
use vstd::string::*;

use crate::text::{push_role_mention, role_mention};
use crate::util::config::BotConfig;
use crate::util::database_store::{
    spec_get, stored_id, DatabaseCollections, FieldValue, GuildConfigData, GuildConfigKey, Lookup,
    StoreResult,
};
use crate::util::managers::{spec_prefix_for, Prefixes};

verus! {

/// What the `prefix` command does to a guild's prefix.
#[derive(Debug, Clone)]
pub enum PrefixChange {
    /// The guild uses this prefix from now on.
    Custom(String),
    /// The guild goes back to the default prefix.
    Reset,
}

/// Whether asking for `requested` means going back to the default prefix:
/// the word `` `reset` `` or the default prefix itself.
pub open spec fn asks_for_default(requested: Seq<char>, default_prefix: Seq<char>) -> bool {
    requested == "`reset`"@ || requested == default_prefix
}

/// The prefixes after a change that the store did (`stored`) or did not
/// record: an unrecorded change leaves them as they were.
pub open spec fn changed_prefixes(
    prefixes: Map<u64, Seq<char>>,
    guild: u64,
    change: PrefixChange,
    stored: bool,
) -> Map<u64, Seq<char>> {
    if !stored {
        prefixes
    } else {
        match change {
            PrefixChange::Custom(p) => prefixes.insert(guild, p@),
            PrefixChange::Reset => prefixes.remove(guild),
        }
    }
}

/// The `prefix` command's reply to a change that the store did (`stored`)
/// or did not record.
pub open spec fn prefix_reply(change: PrefixChange, stored: bool) -> Seq<char> {
    match (change, stored) {
        (PrefixChange::Custom(p), true) => "My prefix for this server is now: "@ + p@,
        (PrefixChange::Reset, true) => "My prefix for this server is now my default prefix"@,
        (PrefixChange::Custom(_), false) => "Could not update the prefix for this server"@,
        (PrefixChange::Reset, false) => "Could not reset the prefix for this server"@,
    }
}

/// The change that asking for `requested` makes, where `default_prefix` is
/// the bot's default prefix.
pub open spec fn spec_plan(requested: String, default_prefix: Seq<char>) -> PrefixChange {
    if asks_for_default(requested@, default_prefix) {
        PrefixChange::Reset
    } else {
        PrefixChange::Custom(requested)
    }
}

/// Any prefix asked for that is neither the word `` `reset` `` nor the
/// default prefix becomes the guild's own prefix once recorded, whatever its
/// length or characters; each of those two goes back to the default.
pub proof fn law_requested_prefix_is_recorded(
    prefixes: Map<u64, Seq<char>>,
    guild: u64,
    requested: String,
    default_prefix: Seq<char>,
)
    ensures
        requested@ != "`reset`"@ && requested@ != default_prefix ==> spec_plan(
            requested,
            default_prefix,
        ) == PrefixChange::Custom(requested) && changed_prefixes(
            prefixes,
            guild,
            spec_plan(requested, default_prefix),
            true,
        )[guild] == requested@,
        requested@ == "`reset`"@ || requested@ == default_prefix ==> spec_plan(
            requested,
            default_prefix,
        ) == PrefixChange::Reset,
{
}

/// The change that asking for the prefix `requested` makes.
pub fn plan_prefix_change(requested: String, config: &BotConfig) -> (c: PrefixChange)
    ensures
        c == spec_plan(requested, config.default_prefix@),
{
    let reset = String::from_str("`reset`");
    if requested != reset && requested != config.default_prefix {
        PrefixChange::Custom(requested)
    } else {
        PrefixChange::Reset
    }
}

/// Applies `change` to the prefixes of `guild` where the store recorded it
/// (`stored`), and gives the command's reply.
pub fn apply_prefix_change(prefixes: &mut Prefixes, guild: u64, change: PrefixChange, stored: bool) -> (reply: String)
    ensures
        final(prefixes)@ == changed_prefixes(old(prefixes)@, guild, change, stored),
        reply@ == prefix_reply(change, stored),
{
    match change {
        PrefixChange::Custom(p) => {
            if stored {
                let mut reply = String::from_str("My prefix for this server is now: ");
                reply.append(p.as_str());
                prefixes.set(guild, p);
                reply
            } else {
                String::from_str("Could not update the prefix for this server")
            }
        },
        PrefixChange::Reset => {
            if stored {
                prefixes.reset(guild);
                String::from_str("My prefix for this server is now my default prefix")
            } else {
                String::from_str("Could not reset the prefix for this server")
            }
        },
    }
}

/// The `default_role` command's reply once the store did (`stored`) or did
/// not record `role` as the guild's default role.
pub fn default_role_reply(role: u64, stored: bool) -> (reply: String)
    ensures
        stored ==> reply@ == "The default role for this server is now "@ + role_mention(role as nat),
        !stored ==> reply@ == "Could not update the default role for this server"@,
{
    if stored {
        let mut reply = String::from_str("The default role for this server is now ");
        push_role_mention(&mut reply, role);
        reply
    } else {
        String::from_str("Could not update the default role for this server")
    }
}

/// The value that the `moderation_role` command records for `role`: the
/// 64-bit integer with the role id's bits, the form in which the store's
/// readers find roles.
pub fn moderation_role_value(role: u64) -> (v: i64)
    ensures
        v == role as i64,
        stored_id(v) == role,
{
    let v = role as i64;
    assert(v as u64 == role) by (bit_vector)
        requires
            v == role as i64,
    ;
    v
}

/// A moderation role that the `moderation_role` command recorded for a
/// guild reads back from the store as that role, when the store is asked
/// for the guild's moderation role.
pub proof fn law_recorded_moderation_role_reads_back(guild: u64, role: u64, v: i64)
    requires
        v == role as i64,
    ensures
        spec_get(
            DatabaseCollections::GuildConfig { id: guild, key: GuildConfigKey::ModerationRole },
            Lookup::Document(Some(FieldValue::Int64(v))),
        ) == StoreResult::Guild(GuildConfigData::ModerationRole(role)),
{
    assert(v as u64 == role) by (bit_vector)
        requires
            v == role as i64,
    ;
}

/// The `moderation_role` command's reply once the store did (`stored`) or
/// did not record the value.
pub fn moderation_role_reply(stored: bool) -> (reply: &'static str)
    ensures
        stored ==> reply@ == "Updated the moderation role for this server"@,
        !stored ==> reply@ == "Could not update the moderation role for this server"@,
{
    if stored {
        "Updated the moderation role for this server"
    } else {
        "Could not update the moderation role for this server"
    }
}

/// A recorded custom prefix is the prefix that the guild's messages use
/// from then on.
pub proof fn law_recorded_prefix_applies(prefixes: Map<u64, Seq<char>>, guild: u64, prefix: String)
    ensures
        spec_prefix_for(
            changed_prefixes(prefixes, guild, PrefixChange::Custom(prefix), true),
            Some(guild),
        ) == Some(prefix@),
{
}

/// After a recorded reset the guild's messages use the default prefix
/// again (no prefix of its own applies).
pub proof fn law_recorded_reset_restores_default(prefixes: Map<u64, Seq<char>>, guild: u64)
    ensures
        spec_prefix_for(changed_prefixes(prefixes, guild, PrefixChange::Reset, true), Some(guild))
            is None,
{
}

/// A change that the store did not record changes no prefix.
pub proof fn law_unrecorded_change_keeps_prefixes(
    prefixes: Map<u64, Seq<char>>,
    guild: u64,
    change: PrefixChange,
)
    ensures
        changed_prefixes(prefixes, guild, change, false) == prefixes,
{
}

/// A change to one guild's prefix leaves the prefix of every other guild,
/// and of direct messages, as it was.
pub proof fn law_prefix_change_is_local(
    prefixes: Map<u64, Seq<char>>,
    guild: u64,
    other: Option<u64>,
    change: PrefixChange,
    stored: bool,
)
    requires
        other != Some(guild),
    ensures
        spec_prefix_for(changed_prefixes(prefixes, guild, change, stored), other)
            == spec_prefix_for(prefixes, other),
{
}

/// The `prefix` command never records the default prefix, nor the word
/// `` `reset` ``, as a guild's own prefix: asking for either resets it.
pub proof fn law_default_prefix_never_recorded(
    prefixes: Map<u64, Seq<char>>,
    guild: u64,
    requested: String,
    default_prefix: Seq<char>,
)
    ensures
        ({
            let after = changed_prefixes(
                prefixes,
                guild,
                spec_plan(requested, default_prefix),
                true,
            );
            after.contains_key(guild) ==> after[guild] != default_prefix && after[guild]
                != "`reset`"@
        }),
{
}

} // verus!
