//! The `READY` payload and its parts, and message acknowledgement data.

use vstd::prelude::*;
use crate::ids::{ChannelId, GuildId, MessageId, UserId};

verus! {

/// The last read message id and optional mention count in a channel.
#[derive(Clone, Debug, PartialEq, Eq)]
pub struct ReadState {
    pub mention_count: Option<usize>,
    pub last_message_id: MessageId,
    pub id: ChannelId,
}

/// The read-state block of a `READY` payload.
#[derive(Clone, Debug, PartialEq, Eq)]
pub struct ReadStateWrapper {
    pub version: u64,
    pub partial: bool,
    pub entries: Vec<ReadState>,
}

/// The kind of a channel.
#[derive(Clone, Copy, Debug, PartialEq, Eq, Structural, Hash)]
pub enum ChannelType {
    GuildText,
    Private,
    GuildVoice,
    Group,
    GuildCategory,
    GuildNews,
    GuildStore,
}

/// A private channel as `READY` reports it.
#[derive(Clone, Debug, PartialEq, Eq)]
pub struct PartialPrivateChannel {
    pub id: ChannelId,
    pub last_message_id: Option<MessageId>,
    pub last_pin_timestamp: Option<String>,
    pub kind: ChannelType,
    pub recipient_ids: Vec<UserId>,
}

/// A user as `READY` reports one.
#[derive(Clone, Debug, PartialEq, Eq)]
pub struct User {
    pub avatar: Option<String>,
    pub bot: bool,
    pub discriminator: String,
    pub id: UserId,
    pub username: String,
}

/// The current user.
#[derive(Clone, Debug, PartialEq, Eq)]
pub struct CurrentUser {
    pub avatar: Option<String>,
    pub bot: bool,
    pub discriminator: String,
    pub email: Option<String>,
    pub id: UserId,
    pub mfa_enabled: bool,
    pub name: String,
    pub verified: Option<bool>,
}

/// A guild as `READY` reports it: available, or not yet.
#[derive(Clone, Debug, PartialEq, Eq)]
pub struct UnavailableGuild {
    pub id: GuildId,
    pub unavailable: bool,
}

/// Status of a guild at `READY`.
#[derive(Clone, Debug, PartialEq, Eq)]
pub enum GuildStatus {
    Offline(UnavailableGuild),
}

/// A member as the merged-members block reports one.
#[derive(Clone, Debug, PartialEq, Eq)]
pub struct PartialMember {
    pub deaf: bool,
    pub joined_at: Option<String>,
    pub mute: bool,
    pub roles: Vec<u64>,
    pub user_id: Option<UserId>,
}

/// The `READY` payload: the session's id, the user, the guilds, and the
/// client-oriented read state.
#[derive(Clone, Debug, PartialEq, Eq)]
pub struct Ready {
    pub users: Vec<User>,
    pub guilds: Vec<GuildStatus>,
    pub private_channels: Vec<PartialPrivateChannel>,
    pub merged_members: Vec<Vec<PartialMember>>,
    pub session_id: String,
    pub shard: Option<[u64; 2]>,
    pub user: CurrentUser,
    pub read_state: ReadStateWrapper,
    pub version: u64,
}

/// Acknowledgement of a message having been read.
#[derive(Clone, Debug, PartialEq, Eq, Structural, Hash)]
pub struct MessageAck {
    pub message_id: MessageId,
    pub channel_id: ChannelId,
}

} // verus!
