//! Keys and values of the permission-overwrite collection.

use vstd::prelude::*;

verus! {

/// Which part of a stored permission overwrite is asked for.
#[derive(Debug, Clone, Copy, PartialEq, Eq, Structural)]
pub enum PermissionOverwriteKey {
    Id,
    GuildId,
    Data(PermissionOverwriteDataKey),
}

/// Whether an overwrite for a role or for a user is asked for.
#[derive(Debug, Clone, Copy, PartialEq, Eq, Structural)]
pub enum PermissionOverwriteDataKey {
    Role,
    User,
}

/// A stored permission overwrite, ids as plain integers.
#[derive(Debug, Clone, Copy, PartialEq, Eq, Structural)]
pub enum PermissionOverwriteData {
    Id(u64),
    GuildId(u64),
    Role { role: u64, channel: Option<u64> },
    User { user: u64, channel: Option<u64> },
}

} // verus!
