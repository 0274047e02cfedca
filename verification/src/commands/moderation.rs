//! The `kick` command.

use vstd::prelude::*;
use vstd::string::*;

use crate::text::{push_user_mention, user_mention};

verus! {

/// Whether the `kick` command goes on to kick `target` when `author` asks:
/// nobody may kick themselves.
pub fn kick_allowed(target: u64, author: u64) -> (r: bool)
    ensures
        r == (target != author),
{
    target != author
}

/// The `kick` command's reply: a refusal where `author` asked to kick
/// themselves; else, once the kick succeeded (`kicked`), the news of it;
/// a failed kick gets no reply.
pub fn kick_reply(target: u64, author: u64, kicked: bool) -> (reply: Option<String>)
    ensures
        target == author ==> (reply matches Some(r) && r@ == "you cannot kick yourself."@),
        target != author && kicked ==> (reply matches Some(r) && r@ == "user "@ + user_mention(
            target as nat,
        ) + " was kicked from this guild"@),
        target != author && !kicked ==> reply is None,
{
    if target == author {
        Some(String::from_str("you cannot kick yourself."))
    } else if kicked {
        let mut r = String::from_str("user ");
        push_user_mention(&mut r, target);
        r.append(" was kicked from this guild");
        Some(r)
    } else {
        None
    }
}

} // verus!
