//! What the bot decides on gateway events.

use vstd::prelude::*;
use vstd::string::*;

use crate::text::{decimal, push_decimal};
use crate::util::database_store::{GuildConfigData, StoreResult};

verus! {

/// Reacts to gateway events.
pub struct Handler;

/// The log line for a connected shard: `shard` holds the shard's index
/// (from 0) and the number of shards; the line counts shards from 1.
pub open spec fn ready_line_text(user_name: Seq<char>, shard: [u64; 2]) -> Seq<char> {
    user_name + " is connected on shard "@ + decimal((shard[0] + 1) as nat) + "/"@ + decimal(
        shard[1] as nat,
    ) + "!"@
}

/// The default role that the store's answer holds, if it holds one.
pub open spec fn spec_default_role(fetched: StoreResult) -> Option<u64> {
    match fetched {
        StoreResult::Guild(GuildConfigData::DefaultRole(role)) => Some(role),
        _ => None,
    }
}

impl Handler {
    /// The line logged when the bot is ready: only for a sharded connection.
    pub fn ready_line(user_name: &str, shard: Option<[u64; 2]>) -> (line: Option<String>)
        requires
            shard matches Some(s) ==> s[0] < u64::MAX,
        ensures
            match shard {
                Some(s) => line matches Some(l) && l@ == ready_line_text(user_name@, s),
                None => line is None,
            },
    {
        match shard {
            Some(s) => {
                let mut line = String::from_str(user_name);
                line.append(" is connected on shard ");
                push_decimal(&mut line, s[0] + 1);
                line.append("/");
                push_decimal(&mut line, s[1]);
                line.append("!");
                Some(line)
            },
            None => None,
        }
    }

    /// Whether a new member is to be given the default role: every member
    /// that is no bot (bots are skipped without asking the store).
    pub fn admits_new_member(is_bot: bool) -> (r: bool)
        ensures
            r == !is_bot,
    {
        !is_bot
    }

    /// The role to give a new member, read from the store's answer to the
    /// question for the guild's default role.
    pub fn role_for_new_member(fetched: &StoreResult) -> (r: Option<u64>)
        ensures
            r == spec_default_role(*fetched),
    {
        match fetched {
            StoreResult::Guild(GuildConfigData::DefaultRole(role)) => Some(*role),
            _ => None,
        }
    }

    /// Whether the guild's configuration is to be forgotten when `departed`
    /// leaves it: only when the bot itself was removed.
    pub fn forgets_guild(departed: u64, bot_id: u64) -> (r: bool)
        ensures
            r == (departed == bot_id),
    {
        departed == bot_id
    }
}

} // verus!
