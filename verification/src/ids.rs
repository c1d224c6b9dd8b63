//! Numeric identifiers for platform entities.

use vstd::prelude::*;

verus! {

/// Identifier of a guild.
#[derive(Clone, Copy, Debug, PartialEq, Eq, Structural, Hash)]
pub struct GuildId(pub u64);

/// Identifier of a channel.
#[derive(Clone, Copy, Debug, PartialEq, Eq, Structural, Hash)]
pub struct ChannelId(pub u64);

/// Identifier of a user.
#[derive(Clone, Copy, Debug, PartialEq, Eq, Structural, Hash)]
pub struct UserId(pub u64);

/// Identifier of a role.
#[derive(Clone, Copy, Debug, PartialEq, Eq, Structural, Hash)]
pub struct RoleId(pub u64);

/// Identifier of a message.
#[derive(Clone, Copy, Debug, PartialEq, Eq, Structural, Hash)]
pub struct MessageId(pub u64);

/// Identifier of a webhook.
#[derive(Clone, Copy, Debug, PartialEq, Eq, Structural, Hash)]
pub struct WebhookId(pub u64);

/// The shard that handles a guild: the guild id shifted right by 22 bits,
/// modulo the shard total.
pub open spec fn spec_shard_for_guild(guild: u64, total: u64) -> u64
    recommends
        total > 0,
{
    (guild >> 22) % total
}

/// Routing rule mapping a guild to the shard that serves it.
pub fn shard_for_guild(guild: GuildId, total: u64) -> (shard: u64)
    requires
        total > 0,
    ensures
        shard == spec_shard_for_guild(guild.0, total),
        shard < total,
{
    let s: u64 = (guild.0 >> 22) % total;
    s
}

} // verus!
