//! Event taxonomy: the kinds of events a shard can surface, dispatch
//! events keyed by the platform's event names, and the bit mask listeners
//! filter with.
//!
//! Dispatch payload schemas are opaque tagged unions here: a variant
//! carries the raw payload bytes and its identity, which is all the
//! session engine and the listener registry reason about.

use vstd::prelude::*;
use vstd::string::StringSliceAdditionalSpecFns;
use vstd::string::StrSliceExecFns;
use crate::codec;

verus! {

/// The type of an event: one tag for every dispatch, gateway and shard
/// event.
#[derive(Clone, Copy, Debug, PartialEq, Eq, Structural, Hash)]
pub enum EventType {
    BanAdd,
    BanRemove,
    ChannelCreate,
    ChannelDelete,
    ChannelPinsUpdate,
    ChannelUpdate,
    GiftCodeUpdate,
    GuildCreate,
    GuildDelete,
    GuildEmojisUpdate,
    GuildIntegrationsUpdate,
    GuildUpdate,
    InviteCreate,
    InviteDelete,
    MemberAdd,
    MemberListUpdate,
    MemberRemove,
    MemberUpdate,
    MemberChunk,
    MessageAck,
    MessageCreate,
    MessageDelete,
    MessageDeleteBulk,
    MessageUpdate,
    PresenceUpdate,
    PresencesReplace,
    ReactionAdd,
    ReactionRemove,
    ReactionRemoveAll,
    ReactionRemoveEmoji,
    Ready,
    Resumed,
    RoleCreate,
    RoleDelete,
    RoleUpdate,
    TypingStart,
    UnavailableGuild,
    UserUpdate,
    VoiceServerUpdate,
    VoiceStateUpdate,
    WebhooksUpdate,
    GatewayHeartbeat,
    GatewayHeartbeatAck,
    GatewayHello,
    GatewayInvalidateSession,
    GatewayReconnect,
    ShardConnected,
    ShardConnecting,
    ShardDisconnected,
    ShardIdentifying,
    ShardPayload,
    ShardReconnecting,
    ShardResuming,
}

impl EventType {
    /// Position of this type's bit in an [`EventTypeFlags`] mask.
    pub open spec fn spec_bit_index(self) -> u64 {
        match self {
            EventType::BanAdd => 0,
            EventType::BanRemove => 1,
            EventType::ChannelCreate => 2,
            EventType::ChannelDelete => 3,
            EventType::ChannelPinsUpdate => 4,
            EventType::ChannelUpdate => 5,
            EventType::GiftCodeUpdate => 6,
            EventType::GuildCreate => 7,
            EventType::GuildDelete => 8,
            EventType::GuildEmojisUpdate => 9,
            EventType::GuildIntegrationsUpdate => 10,
            EventType::GuildUpdate => 11,
            EventType::InviteCreate => 12,
            EventType::InviteDelete => 13,
            EventType::MemberAdd => 14,
            EventType::MemberListUpdate => 15,
            EventType::MemberRemove => 16,
            EventType::MemberUpdate => 17,
            EventType::MemberChunk => 18,
            EventType::MessageAck => 19,
            EventType::MessageCreate => 20,
            EventType::MessageDelete => 21,
            EventType::MessageDeleteBulk => 22,
            EventType::MessageUpdate => 23,
            EventType::PresenceUpdate => 24,
            EventType::PresencesReplace => 25,
            EventType::ReactionAdd => 26,
            EventType::ReactionRemove => 27,
            EventType::ReactionRemoveAll => 28,
            EventType::ReactionRemoveEmoji => 29,
            EventType::Ready => 30,
            EventType::Resumed => 31,
            EventType::RoleCreate => 32,
            EventType::RoleDelete => 33,
            EventType::RoleUpdate => 34,
            EventType::TypingStart => 35,
            EventType::UnavailableGuild => 36,
            EventType::UserUpdate => 37,
            EventType::VoiceServerUpdate => 38,
            EventType::VoiceStateUpdate => 39,
            EventType::WebhooksUpdate => 40,
            EventType::GatewayHeartbeat => 41,
            EventType::GatewayHeartbeatAck => 42,
            EventType::GatewayHello => 43,
            EventType::GatewayInvalidateSession => 44,
            EventType::GatewayReconnect => 45,
            EventType::ShardConnected => 46,
            EventType::ShardConnecting => 47,
            EventType::ShardDisconnected => 48,
            EventType::ShardIdentifying => 49,
            EventType::ShardPayload => 50,
            EventType::ShardReconnecting => 51,
            EventType::ShardResuming => 52,
        }
    }

    /// Executable twin of [`EventType::spec_bit_index`].
    pub fn bit_index(self) -> (r: u64)
        ensures
            r == self.spec_bit_index(),
            r < 64,
    {
        match self {
            EventType::BanAdd => 0,
            EventType::BanRemove => 1,
            EventType::ChannelCreate => 2,
            EventType::ChannelDelete => 3,
            EventType::ChannelPinsUpdate => 4,
            EventType::ChannelUpdate => 5,
            EventType::GiftCodeUpdate => 6,
            EventType::GuildCreate => 7,
            EventType::GuildDelete => 8,
            EventType::GuildEmojisUpdate => 9,
            EventType::GuildIntegrationsUpdate => 10,
            EventType::GuildUpdate => 11,
            EventType::InviteCreate => 12,
            EventType::InviteDelete => 13,
            EventType::MemberAdd => 14,
            EventType::MemberListUpdate => 15,
            EventType::MemberRemove => 16,
            EventType::MemberUpdate => 17,
            EventType::MemberChunk => 18,
            EventType::MessageAck => 19,
            EventType::MessageCreate => 20,
            EventType::MessageDelete => 21,
            EventType::MessageDeleteBulk => 22,
            EventType::MessageUpdate => 23,
            EventType::PresenceUpdate => 24,
            EventType::PresencesReplace => 25,
            EventType::ReactionAdd => 26,
            EventType::ReactionRemove => 27,
            EventType::ReactionRemoveAll => 28,
            EventType::ReactionRemoveEmoji => 29,
            EventType::Ready => 30,
            EventType::Resumed => 31,
            EventType::RoleCreate => 32,
            EventType::RoleDelete => 33,
            EventType::RoleUpdate => 34,
            EventType::TypingStart => 35,
            EventType::UnavailableGuild => 36,
            EventType::UserUpdate => 37,
            EventType::VoiceServerUpdate => 38,
            EventType::VoiceStateUpdate => 39,
            EventType::WebhooksUpdate => 40,
            EventType::GatewayHeartbeat => 41,
            EventType::GatewayHeartbeatAck => 42,
            EventType::GatewayHello => 43,
            EventType::GatewayInvalidateSession => 44,
            EventType::GatewayReconnect => 45,
            EventType::ShardConnected => 46,
            EventType::ShardConnecting => 47,
            EventType::ShardDisconnected => 48,
            EventType::ShardIdentifying => 49,
            EventType::ShardPayload => 50,
            EventType::ShardReconnecting => 51,
            EventType::ShardResuming => 52,
        }
    }
}

/// A set of event types, one bit per type.
#[derive(Clone, Copy, Debug, PartialEq, Eq, Structural)]
pub struct EventTypeFlags(pub u64);

impl EventTypeFlags {
    /// The mask with every event type set.
    pub fn all() -> (r: EventTypeFlags)
        ensures
            forall|t: EventType| r.spec_contains(t),
    {
        let r = EventTypeFlags(0xffff_ffff_ffff_ffffu64);
        proof {
            assert forall|t: EventType| r.spec_contains(t) by {
                let k = t.spec_bit_index();
                assert(k < 64);
                assert(0xffff_ffff_ffff_ffffu64 & (1u64 << k) != 0) by (bit_vector)
                    requires
                        k < 64,
                ;
            }
        }
        r
    }

    /// The empty mask.
    pub fn none() -> (r: EventTypeFlags)
        ensures
            forall|t: EventType| !r.spec_contains(t),
    {
        let r = EventTypeFlags(0);
        proof {
            assert forall|t: EventType| !r.spec_contains(t) by {
                let k = t.spec_bit_index();
                assert(0u64 & (1u64 << k) == 0) by (bit_vector);
            }
        }
        r
    }

    /// Whether the mask holds `t`.
    pub open spec fn spec_contains(self, t: EventType) -> bool {
        self.0 & (1u64 << t.spec_bit_index()) != 0
    }

    /// Executable twin of [`EventTypeFlags::spec_contains`].
    pub fn contains(self, t: EventType) -> (r: bool)
        ensures
            r == self.spec_contains(t),
    {
        let k = t.bit_index();
        self.0 & (1u64 << k) != 0
    }

    /// The mask holding exactly `t`.
    pub fn just(t: EventType) -> (r: EventTypeFlags)
        ensures
            forall|u: EventType| r.spec_contains(u) <==> u.spec_bit_index()
                == t.spec_bit_index(),
    {
        let k = t.bit_index();
        let r = EventTypeFlags(1u64 << k);
        proof {
            assert forall|u: EventType|
                r.spec_contains(u) <==> u.spec_bit_index() == t.spec_bit_index() by {
                let j = u.spec_bit_index();
                assert(u.spec_bit_index() < 64 && t.spec_bit_index() < 64);
                assert(((1u64 << k) & (1u64 << j) != 0) <==> j == k) by (bit_vector)
                    requires
                        j < 64,
                        k < 64,
                ;
            }
        }
        r
    }

    /// The union of two masks.
    pub fn union(self, other: EventTypeFlags) -> (r: EventTypeFlags)
        ensures
            forall|t: EventType| #[trigger] r.spec_contains(t) <==> (self.spec_contains(t)
                || other.spec_contains(t)),
    {
        let r = EventTypeFlags(self.0 | other.0);
        proof {
            assert forall|t: EventType|
                #[trigger] r.spec_contains(t) <==> (self.spec_contains(t) || other.spec_contains(
                    t,
                )) by {
                let k = t.spec_bit_index();
                let a = self.0;
                let b = other.0;
                assert(((a | b) & (1u64 << k) != 0) <==> (a & (1u64 << k) != 0 || b & (1u64 << k)
                    != 0)) by (bit_vector);
            }
        }
        r
    }
}

/// Raw bytes of a dispatch payload whose schema the engine treats as
/// opaque.
#[derive(Clone, Debug, PartialEq, Eq)]
pub struct OpaquePayload {
    pub bytes: Vec<u8>,
}

/// Raw bytes of a whole inbound frame, surfaced to listeners that asked
/// for them.
#[derive(Clone, Debug, PartialEq, Eq)]
pub struct Payload {
    pub bytes: Vec<u8>,
}

/// A shard finished connecting.
#[derive(Clone, Debug, PartialEq, Eq)]
pub struct Connected {
    pub heartbeat_interval: u64,
    pub shard_id: u64,
}

/// A shard started connecting.
#[derive(Clone, Debug, PartialEq, Eq)]
pub struct Connecting {
    pub gateway: String,
    pub shard_id: u64,
}

/// A shard's connection closed.
#[derive(Clone, Debug, PartialEq, Eq)]
pub struct Disconnected {
    pub code: Option<u16>,
    pub reason: Option<String>,
    pub shard_id: u64,
}

/// A shard began a fresh identify handshake.
#[derive(Clone, Debug, PartialEq, Eq)]
pub struct Identifying {
    pub shard_id: u64,
    pub shard_total: u64,
}

/// A shard started reconnecting.
#[derive(Clone, Debug, PartialEq, Eq)]
pub struct Reconnecting {
    pub shard_id: u64,
}

/// A shard began resuming its previous session.
#[derive(Clone, Debug, PartialEq, Eq)]
pub struct Resuming {
    pub seq: u64,
    pub shard_id: u64,
}

/// A dispatch event: the payload the platform pushed, keyed by event name.
#[derive(Clone, Debug, PartialEq, Eq)]
pub enum DispatchEvent {
    BanAdd(OpaquePayload),
    BanRemove(OpaquePayload),
    ChannelCreate(OpaquePayload),
    ChannelDelete(OpaquePayload),
    ChannelPinsUpdate(OpaquePayload),
    ChannelUpdate(OpaquePayload),
    GiftCodeUpdate,
    GuildCreate(OpaquePayload),
    GuildDelete(OpaquePayload),
    GuildEmojisUpdate(OpaquePayload),
    GuildIntegrationsUpdate(OpaquePayload),
    GuildUpdate(OpaquePayload),
    InviteCreate(OpaquePayload),
    InviteDelete(OpaquePayload),
    MemberAdd(OpaquePayload),
    MemberListUpdate(OpaquePayload),
    MemberRemove(OpaquePayload),
    MemberUpdate(OpaquePayload),
    MemberChunk(OpaquePayload),
    MessageAck(OpaquePayload),
    MessageCreate(OpaquePayload),
    MessageDelete(OpaquePayload),
    MessageDeleteBulk(OpaquePayload),
    MessageUpdate(OpaquePayload),
    PresenceUpdate(OpaquePayload),
    PresencesReplace,
    ReactionAdd(OpaquePayload),
    ReactionRemove(OpaquePayload),
    ReactionRemoveAll(OpaquePayload),
    ReactionRemoveEmoji(OpaquePayload),
    Ready(OpaquePayload),
    Resumed,
    RoleCreate(OpaquePayload),
    RoleDelete(OpaquePayload),
    RoleUpdate(OpaquePayload),
    TypingStart(OpaquePayload),
    UnavailableGuild(OpaquePayload),
    UserUpdate(OpaquePayload),
    VoiceServerUpdate(OpaquePayload),
    VoiceStateUpdate(OpaquePayload),
    WebhooksUpdate(OpaquePayload),
}

impl DispatchEvent {
    /// The type of event that this event is.
    pub open spec fn spec_kind(&self) -> EventType {
        match self {
            DispatchEvent::BanAdd(_) => EventType::BanAdd,
            DispatchEvent::BanRemove(_) => EventType::BanRemove,
            DispatchEvent::ChannelCreate(_) => EventType::ChannelCreate,
            DispatchEvent::ChannelDelete(_) => EventType::ChannelDelete,
            DispatchEvent::ChannelPinsUpdate(_) => EventType::ChannelPinsUpdate,
            DispatchEvent::ChannelUpdate(_) => EventType::ChannelUpdate,
            DispatchEvent::GiftCodeUpdate => EventType::GiftCodeUpdate,
            DispatchEvent::GuildCreate(_) => EventType::GuildCreate,
            DispatchEvent::GuildDelete(_) => EventType::GuildDelete,
            DispatchEvent::GuildEmojisUpdate(_) => EventType::GuildEmojisUpdate,
            DispatchEvent::GuildIntegrationsUpdate(_) => EventType::GuildIntegrationsUpdate,
            DispatchEvent::GuildUpdate(_) => EventType::GuildUpdate,
            DispatchEvent::InviteCreate(_) => EventType::InviteCreate,
            DispatchEvent::InviteDelete(_) => EventType::InviteDelete,
            DispatchEvent::MemberAdd(_) => EventType::MemberAdd,
            DispatchEvent::MemberListUpdate(_) => EventType::MemberListUpdate,
            DispatchEvent::MemberRemove(_) => EventType::MemberRemove,
            DispatchEvent::MemberUpdate(_) => EventType::MemberUpdate,
            DispatchEvent::MemberChunk(_) => EventType::MemberChunk,
            DispatchEvent::MessageAck(_) => EventType::MessageAck,
            DispatchEvent::MessageCreate(_) => EventType::MessageCreate,
            DispatchEvent::MessageDelete(_) => EventType::MessageDelete,
            DispatchEvent::MessageDeleteBulk(_) => EventType::MessageDeleteBulk,
            DispatchEvent::MessageUpdate(_) => EventType::MessageUpdate,
            DispatchEvent::PresenceUpdate(_) => EventType::PresenceUpdate,
            DispatchEvent::PresencesReplace => EventType::PresencesReplace,
            DispatchEvent::ReactionAdd(_) => EventType::ReactionAdd,
            DispatchEvent::ReactionRemove(_) => EventType::ReactionRemove,
            DispatchEvent::ReactionRemoveAll(_) => EventType::ReactionRemoveAll,
            DispatchEvent::ReactionRemoveEmoji(_) => EventType::ReactionRemoveEmoji,
            DispatchEvent::Ready(_) => EventType::Ready,
            DispatchEvent::Resumed => EventType::Resumed,
            DispatchEvent::RoleCreate(_) => EventType::RoleCreate,
            DispatchEvent::RoleDelete(_) => EventType::RoleDelete,
            DispatchEvent::RoleUpdate(_) => EventType::RoleUpdate,
            DispatchEvent::TypingStart(_) => EventType::TypingStart,
            DispatchEvent::UnavailableGuild(_) => EventType::UnavailableGuild,
            DispatchEvent::UserUpdate(_) => EventType::UserUpdate,
            DispatchEvent::VoiceServerUpdate(_) => EventType::VoiceServerUpdate,
            DispatchEvent::VoiceStateUpdate(_) => EventType::VoiceStateUpdate,
            DispatchEvent::WebhooksUpdate(_) => EventType::WebhooksUpdate,
        }
    }

    /// Returns the type of event that this event is.
    pub fn kind(&self) -> (r: EventType)
        ensures
            r == self.spec_kind(),
    {
        match self {
            DispatchEvent::BanAdd(_) => EventType::BanAdd,
            DispatchEvent::BanRemove(_) => EventType::BanRemove,
            DispatchEvent::ChannelCreate(_) => EventType::ChannelCreate,
            DispatchEvent::ChannelDelete(_) => EventType::ChannelDelete,
            DispatchEvent::ChannelPinsUpdate(_) => EventType::ChannelPinsUpdate,
            DispatchEvent::ChannelUpdate(_) => EventType::ChannelUpdate,
            DispatchEvent::GiftCodeUpdate => EventType::GiftCodeUpdate,
            DispatchEvent::GuildCreate(_) => EventType::GuildCreate,
            DispatchEvent::GuildDelete(_) => EventType::GuildDelete,
            DispatchEvent::GuildEmojisUpdate(_) => EventType::GuildEmojisUpdate,
            DispatchEvent::GuildIntegrationsUpdate(_) => EventType::GuildIntegrationsUpdate,
            DispatchEvent::GuildUpdate(_) => EventType::GuildUpdate,
            DispatchEvent::InviteCreate(_) => EventType::InviteCreate,
            DispatchEvent::InviteDelete(_) => EventType::InviteDelete,
            DispatchEvent::MemberAdd(_) => EventType::MemberAdd,
            DispatchEvent::MemberListUpdate(_) => EventType::MemberListUpdate,
            DispatchEvent::MemberRemove(_) => EventType::MemberRemove,
            DispatchEvent::MemberUpdate(_) => EventType::MemberUpdate,
            DispatchEvent::MemberChunk(_) => EventType::MemberChunk,
            DispatchEvent::MessageAck(_) => EventType::MessageAck,
            DispatchEvent::MessageCreate(_) => EventType::MessageCreate,
            DispatchEvent::MessageDelete(_) => EventType::MessageDelete,
            DispatchEvent::MessageDeleteBulk(_) => EventType::MessageDeleteBulk,
            DispatchEvent::MessageUpdate(_) => EventType::MessageUpdate,
            DispatchEvent::PresenceUpdate(_) => EventType::PresenceUpdate,
            DispatchEvent::PresencesReplace => EventType::PresencesReplace,
            DispatchEvent::ReactionAdd(_) => EventType::ReactionAdd,
            DispatchEvent::ReactionRemove(_) => EventType::ReactionRemove,
            DispatchEvent::ReactionRemoveAll(_) => EventType::ReactionRemoveAll,
            DispatchEvent::ReactionRemoveEmoji(_) => EventType::ReactionRemoveEmoji,
            DispatchEvent::Ready(_) => EventType::Ready,
            DispatchEvent::Resumed => EventType::Resumed,
            DispatchEvent::RoleCreate(_) => EventType::RoleCreate,
            DispatchEvent::RoleDelete(_) => EventType::RoleDelete,
            DispatchEvent::RoleUpdate(_) => EventType::RoleUpdate,
            DispatchEvent::TypingStart(_) => EventType::TypingStart,
            DispatchEvent::UnavailableGuild(_) => EventType::UnavailableGuild,
            DispatchEvent::UserUpdate(_) => EventType::UserUpdate,
            DispatchEvent::VoiceServerUpdate(_) => EventType::VoiceServerUpdate,
            DispatchEvent::VoiceStateUpdate(_) => EventType::VoiceStateUpdate,
            DispatchEvent::WebhooksUpdate(_) => EventType::WebhooksUpdate,
        }
    }

    /// The raw payload bytes the event carries, when it carries any.
    pub open spec fn spec_payload(&self) -> Option<Seq<u8>> {
        match self {
            DispatchEvent::BanAdd(b) => Some(b.bytes@),
            DispatchEvent::BanRemove(b) => Some(b.bytes@),
            DispatchEvent::ChannelCreate(b) => Some(b.bytes@),
            DispatchEvent::ChannelDelete(b) => Some(b.bytes@),
            DispatchEvent::ChannelPinsUpdate(b) => Some(b.bytes@),
            DispatchEvent::ChannelUpdate(b) => Some(b.bytes@),
            DispatchEvent::GiftCodeUpdate => None,
            DispatchEvent::GuildCreate(b) => Some(b.bytes@),
            DispatchEvent::GuildDelete(b) => Some(b.bytes@),
            DispatchEvent::GuildEmojisUpdate(b) => Some(b.bytes@),
            DispatchEvent::GuildIntegrationsUpdate(b) => Some(b.bytes@),
            DispatchEvent::GuildUpdate(b) => Some(b.bytes@),
            DispatchEvent::InviteCreate(b) => Some(b.bytes@),
            DispatchEvent::InviteDelete(b) => Some(b.bytes@),
            DispatchEvent::MemberAdd(b) => Some(b.bytes@),
            DispatchEvent::MemberListUpdate(b) => Some(b.bytes@),
            DispatchEvent::MemberRemove(b) => Some(b.bytes@),
            DispatchEvent::MemberUpdate(b) => Some(b.bytes@),
            DispatchEvent::MemberChunk(b) => Some(b.bytes@),
            DispatchEvent::MessageAck(b) => Some(b.bytes@),
            DispatchEvent::MessageCreate(b) => Some(b.bytes@),
            DispatchEvent::MessageDelete(b) => Some(b.bytes@),
            DispatchEvent::MessageDeleteBulk(b) => Some(b.bytes@),
            DispatchEvent::MessageUpdate(b) => Some(b.bytes@),
            DispatchEvent::PresenceUpdate(b) => Some(b.bytes@),
            DispatchEvent::PresencesReplace => None,
            DispatchEvent::ReactionAdd(b) => Some(b.bytes@),
            DispatchEvent::ReactionRemove(b) => Some(b.bytes@),
            DispatchEvent::ReactionRemoveAll(b) => Some(b.bytes@),
            DispatchEvent::ReactionRemoveEmoji(b) => Some(b.bytes@),
            DispatchEvent::Ready(b) => Some(b.bytes@),
            DispatchEvent::Resumed => None,
            DispatchEvent::RoleCreate(b) => Some(b.bytes@),
            DispatchEvent::RoleDelete(b) => Some(b.bytes@),
            DispatchEvent::RoleUpdate(b) => Some(b.bytes@),
            DispatchEvent::TypingStart(b) => Some(b.bytes@),
            DispatchEvent::UnavailableGuild(b) => Some(b.bytes@),
            DispatchEvent::UserUpdate(b) => Some(b.bytes@),
            DispatchEvent::VoiceServerUpdate(b) => Some(b.bytes@),
            DispatchEvent::VoiceStateUpdate(b) => Some(b.bytes@),
            DispatchEvent::WebhooksUpdate(b) => Some(b.bytes@),
        }
    }
}

/// A frame-level gateway event, after the prefix scan has classified it.
#[derive(Clone, Debug, PartialEq, Eq)]
pub enum GatewayEvent {
    Dispatch(u64, Box<DispatchEvent>),
    Heartbeat(u64),
    HeartbeatAck,
    Hello(u64),
    InvalidateSession(bool),
    Reconnect,
}

/// Any type of event that a shard emits: dispatch events, frame-level
/// gateway events and shard lifecycle events together.
#[derive(Clone, Debug, PartialEq, Eq)]
pub enum Event {
    BanAdd(OpaquePayload),
    BanRemove(OpaquePayload),
    ChannelCreate(OpaquePayload),
    ChannelDelete(OpaquePayload),
    ChannelPinsUpdate(OpaquePayload),
    ChannelUpdate(OpaquePayload),
    GiftCodeUpdate,
    GuildCreate(OpaquePayload),
    GuildDelete(OpaquePayload),
    GuildEmojisUpdate(OpaquePayload),
    GuildIntegrationsUpdate(OpaquePayload),
    GuildUpdate(OpaquePayload),
    InviteCreate(OpaquePayload),
    InviteDelete(OpaquePayload),
    MemberAdd(OpaquePayload),
    MemberListUpdate(OpaquePayload),
    MemberRemove(OpaquePayload),
    MemberUpdate(OpaquePayload),
    MemberChunk(OpaquePayload),
    MessageAck(OpaquePayload),
    MessageCreate(OpaquePayload),
    MessageDelete(OpaquePayload),
    MessageDeleteBulk(OpaquePayload),
    MessageUpdate(OpaquePayload),
    PresenceUpdate(OpaquePayload),
    PresencesReplace,
    ReactionAdd(OpaquePayload),
    ReactionRemove(OpaquePayload),
    ReactionRemoveAll(OpaquePayload),
    ReactionRemoveEmoji(OpaquePayload),
    Ready(OpaquePayload),
    Resumed,
    RoleCreate(OpaquePayload),
    RoleDelete(OpaquePayload),
    RoleUpdate(OpaquePayload),
    TypingStart(OpaquePayload),
    UnavailableGuild(OpaquePayload),
    UserUpdate(OpaquePayload),
    VoiceServerUpdate(OpaquePayload),
    VoiceStateUpdate(OpaquePayload),
    WebhooksUpdate(OpaquePayload),
    GatewayHeartbeat(u64),
    GatewayHeartbeatAck,
    GatewayHello(u64),
    GatewayInvalidateSession(bool),
    GatewayReconnect,
    ShardConnected(Connected),
    ShardConnecting(Connecting),
    ShardDisconnected(Disconnected),
    ShardIdentifying(Identifying),
    ShardPayload(Payload),
    ShardReconnecting(Reconnecting),
    ShardResuming(Resuming),
}

/// A shard lifecycle event.
#[derive(Clone, Debug, PartialEq, Eq)]
pub enum ShardEvent {
    Connected(Connected),
    Connecting(Connecting),
    Disconnected(Disconnected),
    Identifying(Identifying),
    Payload(Payload),
    Reconnecting(Reconnecting),
    Resuming(Resuming),
}

impl Event {
    /// The type of event that this event is.
    pub open spec fn spec_kind(&self) -> EventType {
        match self {
            Event::BanAdd(_) => EventType::BanAdd,
            Event::BanRemove(_) => EventType::BanRemove,
            Event::ChannelCreate(_) => EventType::ChannelCreate,
            Event::ChannelDelete(_) => EventType::ChannelDelete,
            Event::ChannelPinsUpdate(_) => EventType::ChannelPinsUpdate,
            Event::ChannelUpdate(_) => EventType::ChannelUpdate,
            Event::GiftCodeUpdate => EventType::GiftCodeUpdate,
            Event::GuildCreate(_) => EventType::GuildCreate,
            Event::GuildDelete(_) => EventType::GuildDelete,
            Event::GuildEmojisUpdate(_) => EventType::GuildEmojisUpdate,
            Event::GuildIntegrationsUpdate(_) => EventType::GuildIntegrationsUpdate,
            Event::GuildUpdate(_) => EventType::GuildUpdate,
            Event::InviteCreate(_) => EventType::InviteCreate,
            Event::InviteDelete(_) => EventType::InviteDelete,
            Event::MemberAdd(_) => EventType::MemberAdd,
            Event::MemberListUpdate(_) => EventType::MemberListUpdate,
            Event::MemberRemove(_) => EventType::MemberRemove,
            Event::MemberUpdate(_) => EventType::MemberUpdate,
            Event::MemberChunk(_) => EventType::MemberChunk,
            Event::MessageAck(_) => EventType::MessageAck,
            Event::MessageCreate(_) => EventType::MessageCreate,
            Event::MessageDelete(_) => EventType::MessageDelete,
            Event::MessageDeleteBulk(_) => EventType::MessageDeleteBulk,
            Event::MessageUpdate(_) => EventType::MessageUpdate,
            Event::PresenceUpdate(_) => EventType::PresenceUpdate,
            Event::PresencesReplace => EventType::PresencesReplace,
            Event::ReactionAdd(_) => EventType::ReactionAdd,
            Event::ReactionRemove(_) => EventType::ReactionRemove,
            Event::ReactionRemoveAll(_) => EventType::ReactionRemoveAll,
            Event::ReactionRemoveEmoji(_) => EventType::ReactionRemoveEmoji,
            Event::Ready(_) => EventType::Ready,
            Event::Resumed => EventType::Resumed,
            Event::RoleCreate(_) => EventType::RoleCreate,
            Event::RoleDelete(_) => EventType::RoleDelete,
            Event::RoleUpdate(_) => EventType::RoleUpdate,
            Event::TypingStart(_) => EventType::TypingStart,
            Event::UnavailableGuild(_) => EventType::UnavailableGuild,
            Event::UserUpdate(_) => EventType::UserUpdate,
            Event::VoiceServerUpdate(_) => EventType::VoiceServerUpdate,
            Event::VoiceStateUpdate(_) => EventType::VoiceStateUpdate,
            Event::WebhooksUpdate(_) => EventType::WebhooksUpdate,
            Event::GatewayHeartbeat(_) => EventType::GatewayHeartbeat,
            Event::GatewayHeartbeatAck => EventType::GatewayHeartbeatAck,
            Event::GatewayHello(_) => EventType::GatewayHello,
            Event::GatewayInvalidateSession(_) => EventType::GatewayInvalidateSession,
            Event::GatewayReconnect => EventType::GatewayReconnect,
            Event::ShardConnected(_) => EventType::ShardConnected,
            Event::ShardConnecting(_) => EventType::ShardConnecting,
            Event::ShardDisconnected(_) => EventType::ShardDisconnected,
            Event::ShardIdentifying(_) => EventType::ShardIdentifying,
            Event::ShardPayload(_) => EventType::ShardPayload,
            Event::ShardReconnecting(_) => EventType::ShardReconnecting,
            Event::ShardResuming(_) => EventType::ShardResuming,
        }
    }

    /// Returns the type of event that this event is.
    pub fn kind(&self) -> (r: EventType)
        ensures
            r == self.spec_kind(),
    {
        match self {
            Event::BanAdd(_) => EventType::BanAdd,
            Event::BanRemove(_) => EventType::BanRemove,
            Event::ChannelCreate(_) => EventType::ChannelCreate,
            Event::ChannelDelete(_) => EventType::ChannelDelete,
            Event::ChannelPinsUpdate(_) => EventType::ChannelPinsUpdate,
            Event::ChannelUpdate(_) => EventType::ChannelUpdate,
            Event::GiftCodeUpdate => EventType::GiftCodeUpdate,
            Event::GuildCreate(_) => EventType::GuildCreate,
            Event::GuildDelete(_) => EventType::GuildDelete,
            Event::GuildEmojisUpdate(_) => EventType::GuildEmojisUpdate,
            Event::GuildIntegrationsUpdate(_) => EventType::GuildIntegrationsUpdate,
            Event::GuildUpdate(_) => EventType::GuildUpdate,
            Event::InviteCreate(_) => EventType::InviteCreate,
            Event::InviteDelete(_) => EventType::InviteDelete,
            Event::MemberAdd(_) => EventType::MemberAdd,
            Event::MemberListUpdate(_) => EventType::MemberListUpdate,
            Event::MemberRemove(_) => EventType::MemberRemove,
            Event::MemberUpdate(_) => EventType::MemberUpdate,
            Event::MemberChunk(_) => EventType::MemberChunk,
            Event::MessageAck(_) => EventType::MessageAck,
            Event::MessageCreate(_) => EventType::MessageCreate,
            Event::MessageDelete(_) => EventType::MessageDelete,
            Event::MessageDeleteBulk(_) => EventType::MessageDeleteBulk,
            Event::MessageUpdate(_) => EventType::MessageUpdate,
            Event::PresenceUpdate(_) => EventType::PresenceUpdate,
            Event::PresencesReplace => EventType::PresencesReplace,
            Event::ReactionAdd(_) => EventType::ReactionAdd,
            Event::ReactionRemove(_) => EventType::ReactionRemove,
            Event::ReactionRemoveAll(_) => EventType::ReactionRemoveAll,
            Event::ReactionRemoveEmoji(_) => EventType::ReactionRemoveEmoji,
            Event::Ready(_) => EventType::Ready,
            Event::Resumed => EventType::Resumed,
            Event::RoleCreate(_) => EventType::RoleCreate,
            Event::RoleDelete(_) => EventType::RoleDelete,
            Event::RoleUpdate(_) => EventType::RoleUpdate,
            Event::TypingStart(_) => EventType::TypingStart,
            Event::UnavailableGuild(_) => EventType::UnavailableGuild,
            Event::UserUpdate(_) => EventType::UserUpdate,
            Event::VoiceServerUpdate(_) => EventType::VoiceServerUpdate,
            Event::VoiceStateUpdate(_) => EventType::VoiceStateUpdate,
            Event::WebhooksUpdate(_) => EventType::WebhooksUpdate,
            Event::GatewayHeartbeat(_) => EventType::GatewayHeartbeat,
            Event::GatewayHeartbeatAck => EventType::GatewayHeartbeatAck,
            Event::GatewayHello(_) => EventType::GatewayHello,
            Event::GatewayInvalidateSession(_) => EventType::GatewayInvalidateSession,
            Event::GatewayReconnect => EventType::GatewayReconnect,
            Event::ShardConnected(_) => EventType::ShardConnected,
            Event::ShardConnecting(_) => EventType::ShardConnecting,
            Event::ShardDisconnected(_) => EventType::ShardDisconnected,
            Event::ShardIdentifying(_) => EventType::ShardIdentifying,
            Event::ShardPayload(_) => EventType::ShardPayload,
            Event::ShardReconnecting(_) => EventType::ShardReconnecting,
            Event::ShardResuming(_) => EventType::ShardResuming,
        }
    }

    /// The event a dispatch event becomes when surfaced to listeners.
    pub open spec fn spec_of_dispatch(event: DispatchEvent) -> Event {
        match event {
            DispatchEvent::BanAdd(b) => Event::BanAdd(b),
            DispatchEvent::BanRemove(b) => Event::BanRemove(b),
            DispatchEvent::ChannelCreate(b) => Event::ChannelCreate(b),
            DispatchEvent::ChannelDelete(b) => Event::ChannelDelete(b),
            DispatchEvent::ChannelPinsUpdate(b) => Event::ChannelPinsUpdate(b),
            DispatchEvent::ChannelUpdate(b) => Event::ChannelUpdate(b),
            DispatchEvent::GiftCodeUpdate => Event::GiftCodeUpdate,
            DispatchEvent::GuildCreate(b) => Event::GuildCreate(b),
            DispatchEvent::GuildDelete(b) => Event::GuildDelete(b),
            DispatchEvent::GuildEmojisUpdate(b) => Event::GuildEmojisUpdate(b),
            DispatchEvent::GuildIntegrationsUpdate(b) => Event::GuildIntegrationsUpdate(b),
            DispatchEvent::GuildUpdate(b) => Event::GuildUpdate(b),
            DispatchEvent::InviteCreate(b) => Event::InviteCreate(b),
            DispatchEvent::InviteDelete(b) => Event::InviteDelete(b),
            DispatchEvent::MemberAdd(b) => Event::MemberAdd(b),
            DispatchEvent::MemberListUpdate(b) => Event::MemberListUpdate(b),
            DispatchEvent::MemberRemove(b) => Event::MemberRemove(b),
            DispatchEvent::MemberUpdate(b) => Event::MemberUpdate(b),
            DispatchEvent::MemberChunk(b) => Event::MemberChunk(b),
            DispatchEvent::MessageAck(b) => Event::MessageAck(b),
            DispatchEvent::MessageCreate(b) => Event::MessageCreate(b),
            DispatchEvent::MessageDelete(b) => Event::MessageDelete(b),
            DispatchEvent::MessageDeleteBulk(b) => Event::MessageDeleteBulk(b),
            DispatchEvent::MessageUpdate(b) => Event::MessageUpdate(b),
            DispatchEvent::PresenceUpdate(b) => Event::PresenceUpdate(b),
            DispatchEvent::PresencesReplace => Event::PresencesReplace,
            DispatchEvent::ReactionAdd(b) => Event::ReactionAdd(b),
            DispatchEvent::ReactionRemove(b) => Event::ReactionRemove(b),
            DispatchEvent::ReactionRemoveAll(b) => Event::ReactionRemoveAll(b),
            DispatchEvent::ReactionRemoveEmoji(b) => Event::ReactionRemoveEmoji(b),
            DispatchEvent::Ready(b) => Event::Ready(b),
            DispatchEvent::Resumed => Event::Resumed,
            DispatchEvent::RoleCreate(b) => Event::RoleCreate(b),
            DispatchEvent::RoleDelete(b) => Event::RoleDelete(b),
            DispatchEvent::RoleUpdate(b) => Event::RoleUpdate(b),
            DispatchEvent::TypingStart(b) => Event::TypingStart(b),
            DispatchEvent::UnavailableGuild(b) => Event::UnavailableGuild(b),
            DispatchEvent::UserUpdate(b) => Event::UserUpdate(b),
            DispatchEvent::VoiceServerUpdate(b) => Event::VoiceServerUpdate(b),
            DispatchEvent::VoiceStateUpdate(b) => Event::VoiceStateUpdate(b),
            DispatchEvent::WebhooksUpdate(b) => Event::WebhooksUpdate(b),
        }
    }

    /// Surface a dispatch event to listeners.
    pub fn from_dispatch(event: Box<DispatchEvent>) -> (r: Event)
        ensures
            r == Event::spec_of_dispatch(*event),
    {
        match *event {
            DispatchEvent::BanAdd(b) => Event::BanAdd(b),
            DispatchEvent::BanRemove(b) => Event::BanRemove(b),
            DispatchEvent::ChannelCreate(b) => Event::ChannelCreate(b),
            DispatchEvent::ChannelDelete(b) => Event::ChannelDelete(b),
            DispatchEvent::ChannelPinsUpdate(b) => Event::ChannelPinsUpdate(b),
            DispatchEvent::ChannelUpdate(b) => Event::ChannelUpdate(b),
            DispatchEvent::GiftCodeUpdate => Event::GiftCodeUpdate,
            DispatchEvent::GuildCreate(b) => Event::GuildCreate(b),
            DispatchEvent::GuildDelete(b) => Event::GuildDelete(b),
            DispatchEvent::GuildEmojisUpdate(b) => Event::GuildEmojisUpdate(b),
            DispatchEvent::GuildIntegrationsUpdate(b) => Event::GuildIntegrationsUpdate(b),
            DispatchEvent::GuildUpdate(b) => Event::GuildUpdate(b),
            DispatchEvent::InviteCreate(b) => Event::InviteCreate(b),
            DispatchEvent::InviteDelete(b) => Event::InviteDelete(b),
            DispatchEvent::MemberAdd(b) => Event::MemberAdd(b),
            DispatchEvent::MemberListUpdate(b) => Event::MemberListUpdate(b),
            DispatchEvent::MemberRemove(b) => Event::MemberRemove(b),
            DispatchEvent::MemberUpdate(b) => Event::MemberUpdate(b),
            DispatchEvent::MemberChunk(b) => Event::MemberChunk(b),
            DispatchEvent::MessageAck(b) => Event::MessageAck(b),
            DispatchEvent::MessageCreate(b) => Event::MessageCreate(b),
            DispatchEvent::MessageDelete(b) => Event::MessageDelete(b),
            DispatchEvent::MessageDeleteBulk(b) => Event::MessageDeleteBulk(b),
            DispatchEvent::MessageUpdate(b) => Event::MessageUpdate(b),
            DispatchEvent::PresenceUpdate(b) => Event::PresenceUpdate(b),
            DispatchEvent::PresencesReplace => Event::PresencesReplace,
            DispatchEvent::ReactionAdd(b) => Event::ReactionAdd(b),
            DispatchEvent::ReactionRemove(b) => Event::ReactionRemove(b),
            DispatchEvent::ReactionRemoveAll(b) => Event::ReactionRemoveAll(b),
            DispatchEvent::ReactionRemoveEmoji(b) => Event::ReactionRemoveEmoji(b),
            DispatchEvent::Ready(b) => Event::Ready(b),
            DispatchEvent::Resumed => Event::Resumed,
            DispatchEvent::RoleCreate(b) => Event::RoleCreate(b),
            DispatchEvent::RoleDelete(b) => Event::RoleDelete(b),
            DispatchEvent::RoleUpdate(b) => Event::RoleUpdate(b),
            DispatchEvent::TypingStart(b) => Event::TypingStart(b),
            DispatchEvent::UnavailableGuild(b) => Event::UnavailableGuild(b),
            DispatchEvent::UserUpdate(b) => Event::UserUpdate(b),
            DispatchEvent::VoiceServerUpdate(b) => Event::VoiceServerUpdate(b),
            DispatchEvent::VoiceStateUpdate(b) => Event::VoiceStateUpdate(b),
            DispatchEvent::WebhooksUpdate(b) => Event::WebhooksUpdate(b),
        }
    }

    /// The event a frame-level gateway event becomes.
    pub open spec fn spec_of_gateway(event: GatewayEvent) -> Event {
        match event {
            GatewayEvent::Dispatch(_, e) => Event::spec_of_dispatch(*e),
            GatewayEvent::Heartbeat(interval) => Event::GatewayHeartbeat(interval),
            GatewayEvent::HeartbeatAck => Event::GatewayHeartbeatAck,
            GatewayEvent::Hello(interval) => Event::GatewayHello(interval),
            GatewayEvent::InvalidateSession(r) => Event::GatewayInvalidateSession(r),
            GatewayEvent::Reconnect => Event::GatewayReconnect,
        }
    }

    /// Surface a frame-level gateway event.
    pub fn from_gateway(event: GatewayEvent) -> (r: Event)
        ensures
            r == Event::spec_of_gateway(event),
    {
        match event {
            GatewayEvent::Dispatch(_, e) => Event::from_dispatch(e),
            GatewayEvent::Heartbeat(interval) => Event::GatewayHeartbeat(interval),
            GatewayEvent::HeartbeatAck => Event::GatewayHeartbeatAck,
            GatewayEvent::Hello(interval) => Event::GatewayHello(interval),
            GatewayEvent::InvalidateSession(r) => Event::GatewayInvalidateSession(r),
            GatewayEvent::Reconnect => Event::GatewayReconnect,
        }
    }

    /// The event a shard lifecycle event becomes.
    pub open spec fn spec_of_shard(event: ShardEvent) -> Event {
        match event {
            ShardEvent::Connected(e) => Event::ShardConnected(e),
            ShardEvent::Connecting(e) => Event::ShardConnecting(e),
            ShardEvent::Disconnected(e) => Event::ShardDisconnected(e),
            ShardEvent::Identifying(e) => Event::ShardIdentifying(e),
            ShardEvent::Payload(e) => Event::ShardPayload(e),
            ShardEvent::Reconnecting(e) => Event::ShardReconnecting(e),
            ShardEvent::Resuming(e) => Event::ShardResuming(e),
        }
    }

    /// Surface a shard lifecycle event.
    pub fn from_shard(event: ShardEvent) -> (r: Event)
        ensures
            r == Event::spec_of_shard(event),
    {
        match event {
            ShardEvent::Connected(e) => Event::ShardConnected(e),
            ShardEvent::Connecting(e) => Event::ShardConnecting(e),
            ShardEvent::Disconnected(e) => Event::ShardDisconnected(e),
            ShardEvent::Identifying(e) => Event::ShardIdentifying(e),
            ShardEvent::Payload(e) => Event::ShardPayload(e),
            ShardEvent::Reconnecting(e) => Event::ShardReconnecting(e),
            ShardEvent::Resuming(e) => Event::ShardResuming(e),
        }
    }
}

/// An event could not be converted into a dispatch event; the original
/// event is handed back.
#[derive(Clone, Debug, PartialEq, Eq)]
pub struct EventConversionError {
    event: Event,
}

impl EventConversionError {
    /// The event the failed conversion started from.
    pub closed spec fn spec_event(&self) -> Event {
        self.event
    }

    pub fn new(event: Event) -> (r: EventConversionError)
        ensures
            r.spec_event() == event,
    {
        EventConversionError { event }
    }

    /// Get the original event.
    pub fn into_event(self) -> (r: Event)
        ensures
            r == self.spec_event(),
    {
        self.event
    }

    /// A short description of the error.
    pub fn message(&self) -> (r: &'static str)
        ensures
            true,
    {
        "event variant failed to convert"
    }
}

impl DispatchEvent {
    /// The dispatch event inside `event`, when it is one.
    pub open spec fn spec_of_event(event: Event) -> Option<DispatchEvent> {
        match event {
            Event::BanAdd(b) => Some(DispatchEvent::BanAdd(b)),
            Event::BanRemove(b) => Some(DispatchEvent::BanRemove(b)),
            Event::ChannelCreate(b) => Some(DispatchEvent::ChannelCreate(b)),
            Event::ChannelDelete(b) => Some(DispatchEvent::ChannelDelete(b)),
            Event::ChannelPinsUpdate(b) => Some(DispatchEvent::ChannelPinsUpdate(b)),
            Event::ChannelUpdate(b) => Some(DispatchEvent::ChannelUpdate(b)),
            Event::GiftCodeUpdate => Some(DispatchEvent::GiftCodeUpdate),
            Event::GuildCreate(b) => Some(DispatchEvent::GuildCreate(b)),
            Event::GuildDelete(b) => Some(DispatchEvent::GuildDelete(b)),
            Event::GuildEmojisUpdate(b) => Some(DispatchEvent::GuildEmojisUpdate(b)),
            Event::GuildIntegrationsUpdate(b) => Some(DispatchEvent::GuildIntegrationsUpdate(b)),
            Event::GuildUpdate(b) => Some(DispatchEvent::GuildUpdate(b)),
            Event::InviteCreate(b) => Some(DispatchEvent::InviteCreate(b)),
            Event::InviteDelete(b) => Some(DispatchEvent::InviteDelete(b)),
            Event::MemberAdd(b) => Some(DispatchEvent::MemberAdd(b)),
            Event::MemberListUpdate(b) => Some(DispatchEvent::MemberListUpdate(b)),
            Event::MemberRemove(b) => Some(DispatchEvent::MemberRemove(b)),
            Event::MemberUpdate(b) => Some(DispatchEvent::MemberUpdate(b)),
            Event::MemberChunk(b) => Some(DispatchEvent::MemberChunk(b)),
            Event::MessageAck(b) => Some(DispatchEvent::MessageAck(b)),
            Event::MessageCreate(b) => Some(DispatchEvent::MessageCreate(b)),
            Event::MessageDelete(b) => Some(DispatchEvent::MessageDelete(b)),
            Event::MessageDeleteBulk(b) => Some(DispatchEvent::MessageDeleteBulk(b)),
            Event::MessageUpdate(b) => Some(DispatchEvent::MessageUpdate(b)),
            Event::PresenceUpdate(b) => Some(DispatchEvent::PresenceUpdate(b)),
            Event::PresencesReplace => Some(DispatchEvent::PresencesReplace),
            Event::ReactionAdd(b) => Some(DispatchEvent::ReactionAdd(b)),
            Event::ReactionRemove(b) => Some(DispatchEvent::ReactionRemove(b)),
            Event::ReactionRemoveAll(b) => Some(DispatchEvent::ReactionRemoveAll(b)),
            Event::ReactionRemoveEmoji(b) => Some(DispatchEvent::ReactionRemoveEmoji(b)),
            Event::Ready(b) => Some(DispatchEvent::Ready(b)),
            Event::Resumed => Some(DispatchEvent::Resumed),
            Event::RoleCreate(b) => Some(DispatchEvent::RoleCreate(b)),
            Event::RoleDelete(b) => Some(DispatchEvent::RoleDelete(b)),
            Event::RoleUpdate(b) => Some(DispatchEvent::RoleUpdate(b)),
            Event::TypingStart(b) => Some(DispatchEvent::TypingStart(b)),
            Event::UnavailableGuild(b) => Some(DispatchEvent::UnavailableGuild(b)),
            Event::UserUpdate(b) => Some(DispatchEvent::UserUpdate(b)),
            Event::VoiceServerUpdate(b) => Some(DispatchEvent::VoiceServerUpdate(b)),
            Event::VoiceStateUpdate(b) => Some(DispatchEvent::VoiceStateUpdate(b)),
            Event::WebhooksUpdate(b) => Some(DispatchEvent::WebhooksUpdate(b)),
            _ => None,
        }
    }

    /// Recover the dispatch event inside `event`; events that are not
    /// dispatch events are handed back in the error.
    pub fn try_from(event: Event) -> (r: Result<DispatchEvent, EventConversionError>)
        ensures
            match r {
                Ok(d) => DispatchEvent::spec_of_event(event) == Some(d),
                Err(e) => DispatchEvent::spec_of_event(event) is None && e.spec_event() == event,
            },
    {
        match event {
            Event::BanAdd(b) => Ok(DispatchEvent::BanAdd(b)),
            Event::BanRemove(b) => Ok(DispatchEvent::BanRemove(b)),
            Event::ChannelCreate(b) => Ok(DispatchEvent::ChannelCreate(b)),
            Event::ChannelDelete(b) => Ok(DispatchEvent::ChannelDelete(b)),
            Event::ChannelPinsUpdate(b) => Ok(DispatchEvent::ChannelPinsUpdate(b)),
            Event::ChannelUpdate(b) => Ok(DispatchEvent::ChannelUpdate(b)),
            Event::GiftCodeUpdate => Ok(DispatchEvent::GiftCodeUpdate),
            Event::GuildCreate(b) => Ok(DispatchEvent::GuildCreate(b)),
            Event::GuildDelete(b) => Ok(DispatchEvent::GuildDelete(b)),
            Event::GuildEmojisUpdate(b) => Ok(DispatchEvent::GuildEmojisUpdate(b)),
            Event::GuildIntegrationsUpdate(b) => Ok(DispatchEvent::GuildIntegrationsUpdate(b)),
            Event::GuildUpdate(b) => Ok(DispatchEvent::GuildUpdate(b)),
            Event::InviteCreate(b) => Ok(DispatchEvent::InviteCreate(b)),
            Event::InviteDelete(b) => Ok(DispatchEvent::InviteDelete(b)),
            Event::MemberAdd(b) => Ok(DispatchEvent::MemberAdd(b)),
            Event::MemberListUpdate(b) => Ok(DispatchEvent::MemberListUpdate(b)),
            Event::MemberRemove(b) => Ok(DispatchEvent::MemberRemove(b)),
            Event::MemberUpdate(b) => Ok(DispatchEvent::MemberUpdate(b)),
            Event::MemberChunk(b) => Ok(DispatchEvent::MemberChunk(b)),
            Event::MessageAck(b) => Ok(DispatchEvent::MessageAck(b)),
            Event::MessageCreate(b) => Ok(DispatchEvent::MessageCreate(b)),
            Event::MessageDelete(b) => Ok(DispatchEvent::MessageDelete(b)),
            Event::MessageDeleteBulk(b) => Ok(DispatchEvent::MessageDeleteBulk(b)),
            Event::MessageUpdate(b) => Ok(DispatchEvent::MessageUpdate(b)),
            Event::PresenceUpdate(b) => Ok(DispatchEvent::PresenceUpdate(b)),
            Event::PresencesReplace => Ok(DispatchEvent::PresencesReplace),
            Event::ReactionAdd(b) => Ok(DispatchEvent::ReactionAdd(b)),
            Event::ReactionRemove(b) => Ok(DispatchEvent::ReactionRemove(b)),
            Event::ReactionRemoveAll(b) => Ok(DispatchEvent::ReactionRemoveAll(b)),
            Event::ReactionRemoveEmoji(b) => Ok(DispatchEvent::ReactionRemoveEmoji(b)),
            Event::Ready(b) => Ok(DispatchEvent::Ready(b)),
            Event::Resumed => Ok(DispatchEvent::Resumed),
            Event::RoleCreate(b) => Ok(DispatchEvent::RoleCreate(b)),
            Event::RoleDelete(b) => Ok(DispatchEvent::RoleDelete(b)),
            Event::RoleUpdate(b) => Ok(DispatchEvent::RoleUpdate(b)),
            Event::TypingStart(b) => Ok(DispatchEvent::TypingStart(b)),
            Event::UnavailableGuild(b) => Ok(DispatchEvent::UnavailableGuild(b)),
            Event::UserUpdate(b) => Ok(DispatchEvent::UserUpdate(b)),
            Event::VoiceServerUpdate(b) => Ok(DispatchEvent::VoiceServerUpdate(b)),
            Event::VoiceStateUpdate(b) => Ok(DispatchEvent::VoiceStateUpdate(b)),
            Event::WebhooksUpdate(b) => Ok(DispatchEvent::WebhooksUpdate(b)),
            other => Err(EventConversionError::new(other)),
        }
    }
}

/// Surfacing a dispatch event to listeners and reading it back is the
/// identity.
pub proof fn lemma_dispatch_event_roundtrip(d: DispatchEvent)
    ensures
        DispatchEvent::spec_of_event(Event::spec_of_dispatch(d)) == Some(d),
{
}

/// Compare a byte vector with the bytes of a string slice.
pub fn bytes_is(v: &Vec<u8>, lit: &str) -> (r: bool)
    ensures
        r == (v@ == lit.spec_bytes()),
{
    let b = lit.as_bytes_vec();
    if v.len() != b.len() {
        return false;
    }
    let mut k: usize = 0;
    while k < b.len()
        invariant
            v@.len() == b@.len(),
            k <= b@.len(),
            b@ == lit.spec_bytes(),
            forall|q: int| 0 <= q < k ==> v@[q] == b@[q],
        decreases b@.len() - k,
    {
        if v[k] != b[k] {
            return false;
        }
        k += 1;
    }
    proof {
        assert(v@ =~= b@);
    }
    true
}

/// The dispatch event type registered under a platform event name.
pub open spec fn spec_name_kind(name: Seq<u8>) -> Option<EventType> {
    if name == ("CHANNEL_CREATE").spec_bytes() {
        Some(EventType::ChannelCreate)
    } else if name == ("CHANNEL_DELETE").spec_bytes() {
        Some(EventType::ChannelDelete)
    } else if name == ("CHANNEL_PINS_UPDATE").spec_bytes() {
        Some(EventType::ChannelPinsUpdate)
    } else if name == ("CHANNEL_UPDATE").spec_bytes() {
        Some(EventType::ChannelUpdate)
    } else if name == ("GIFT_CODE_UPDATE").spec_bytes() {
        Some(EventType::GiftCodeUpdate)
    } else if name == ("GUILD_BAN_ADD").spec_bytes() {
        Some(EventType::BanAdd)
    } else if name == ("GUILD_BAN_REMOVE").spec_bytes() {
        Some(EventType::BanRemove)
    } else if name == ("GUILD_CREATE").spec_bytes() {
        Some(EventType::GuildCreate)
    } else if name == ("GUILD_DELETE").spec_bytes() {
        Some(EventType::GuildDelete)
    } else if name == ("GUILD_EMOJIS_UPDATE").spec_bytes() {
        Some(EventType::GuildEmojisUpdate)
    } else if name == ("GUILD_INTEGRATIONS_UPDATE").spec_bytes() {
        Some(EventType::GuildIntegrationsUpdate)
    } else if name == ("GUILD_MEMBERS_CHUNK").spec_bytes() {
        Some(EventType::MemberChunk)
    } else if name == ("GUILD_MEMBER_ADD").spec_bytes() {
        Some(EventType::MemberAdd)
    } else if name == ("GUILD_MEMBER_LIST_UPDATE").spec_bytes() {
        Some(EventType::MemberListUpdate)
    } else if name == ("GUILD_MEMBER_REMOVE").spec_bytes() {
        Some(EventType::MemberRemove)
    } else if name == ("GUILD_MEMBER_UPDATE").spec_bytes() {
        Some(EventType::MemberUpdate)
    } else if name == ("GUILD_ROLE_CREATE").spec_bytes() {
        Some(EventType::RoleCreate)
    } else if name == ("GUILD_ROLE_DELETE").spec_bytes() {
        Some(EventType::RoleDelete)
    } else if name == ("GUILD_ROLE_UPDATE").spec_bytes() {
        Some(EventType::RoleUpdate)
    } else if name == ("GUILD_UPDATE").spec_bytes() {
        Some(EventType::GuildUpdate)
    } else if name == ("INVITE_CREATE").spec_bytes() {
        Some(EventType::InviteCreate)
    } else if name == ("INVITE_DELETE").spec_bytes() {
        Some(EventType::InviteDelete)
    } else if name == ("MESSAGE_ACK").spec_bytes() {
        Some(EventType::MessageAck)
    } else if name == ("MESSAGE_CREATE").spec_bytes() {
        Some(EventType::MessageCreate)
    } else if name == ("MESSAGE_DELETE").spec_bytes() {
        Some(EventType::MessageDelete)
    } else if name == ("MESSAGE_DELETE_BULK").spec_bytes() {
        Some(EventType::MessageDeleteBulk)
    } else if name == ("MESSAGE_REACTION_ADD").spec_bytes() {
        Some(EventType::ReactionAdd)
    } else if name == ("MESSAGE_REACTION_REMOVE").spec_bytes() {
        Some(EventType::ReactionRemove)
    } else if name == ("MESSAGE_REACTION_REMOVE_EMOJI").spec_bytes() {
        Some(EventType::ReactionRemoveEmoji)
    } else if name == ("MESSAGE_REACTION_REMOVE_ALL").spec_bytes() {
        Some(EventType::ReactionRemoveAll)
    } else if name == ("MESSAGE_UPDATE").spec_bytes() {
        Some(EventType::MessageUpdate)
    } else if name == ("PRESENCE_UPDATE").spec_bytes() {
        Some(EventType::PresenceUpdate)
    } else if name == ("PRESENCES_REPLACE").spec_bytes() {
        Some(EventType::PresencesReplace)
    } else if name == ("READY").spec_bytes() {
        Some(EventType::Ready)
    } else if name == ("RESUMED").spec_bytes() {
        Some(EventType::Resumed)
    } else if name == ("TYPING_START").spec_bytes() {
        Some(EventType::TypingStart)
    } else if name == ("USER_UPDATE").spec_bytes() {
        Some(EventType::UserUpdate)
    } else if name == ("VOICE_SERVER_UPDATE").spec_bytes() {
        Some(EventType::VoiceServerUpdate)
    } else if name == ("VOICE_STATE_UPDATE").spec_bytes() {
        Some(EventType::VoiceStateUpdate)
    } else if name == ("WEBHOOKS_UPDATE").spec_bytes() {
        Some(EventType::WebhooksUpdate)
    } else {
        None
    }
}

/// Executable twin of [`spec_name_kind`].
pub fn name_kind(name: &Vec<u8>) -> (r: Option<EventType>)
    ensures
        r == spec_name_kind(name@),
{
    if bytes_is(name, "CHANNEL_CREATE") {
        Some(EventType::ChannelCreate)
    } else if bytes_is(name, "CHANNEL_DELETE") {
        Some(EventType::ChannelDelete)
    } else if bytes_is(name, "CHANNEL_PINS_UPDATE") {
        Some(EventType::ChannelPinsUpdate)
    } else if bytes_is(name, "CHANNEL_UPDATE") {
        Some(EventType::ChannelUpdate)
    } else if bytes_is(name, "GIFT_CODE_UPDATE") {
        Some(EventType::GiftCodeUpdate)
    } else if bytes_is(name, "GUILD_BAN_ADD") {
        Some(EventType::BanAdd)
    } else if bytes_is(name, "GUILD_BAN_REMOVE") {
        Some(EventType::BanRemove)
    } else if bytes_is(name, "GUILD_CREATE") {
        Some(EventType::GuildCreate)
    } else if bytes_is(name, "GUILD_DELETE") {
        Some(EventType::GuildDelete)
    } else if bytes_is(name, "GUILD_EMOJIS_UPDATE") {
        Some(EventType::GuildEmojisUpdate)
    } else if bytes_is(name, "GUILD_INTEGRATIONS_UPDATE") {
        Some(EventType::GuildIntegrationsUpdate)
    } else if bytes_is(name, "GUILD_MEMBERS_CHUNK") {
        Some(EventType::MemberChunk)
    } else if bytes_is(name, "GUILD_MEMBER_ADD") {
        Some(EventType::MemberAdd)
    } else if bytes_is(name, "GUILD_MEMBER_LIST_UPDATE") {
        Some(EventType::MemberListUpdate)
    } else if bytes_is(name, "GUILD_MEMBER_REMOVE") {
        Some(EventType::MemberRemove)
    } else if bytes_is(name, "GUILD_MEMBER_UPDATE") {
        Some(EventType::MemberUpdate)
    } else if bytes_is(name, "GUILD_ROLE_CREATE") {
        Some(EventType::RoleCreate)
    } else if bytes_is(name, "GUILD_ROLE_DELETE") {
        Some(EventType::RoleDelete)
    } else if bytes_is(name, "GUILD_ROLE_UPDATE") {
        Some(EventType::RoleUpdate)
    } else if bytes_is(name, "GUILD_UPDATE") {
        Some(EventType::GuildUpdate)
    } else if bytes_is(name, "INVITE_CREATE") {
        Some(EventType::InviteCreate)
    } else if bytes_is(name, "INVITE_DELETE") {
        Some(EventType::InviteDelete)
    } else if bytes_is(name, "MESSAGE_ACK") {
        Some(EventType::MessageAck)
    } else if bytes_is(name, "MESSAGE_CREATE") {
        Some(EventType::MessageCreate)
    } else if bytes_is(name, "MESSAGE_DELETE") {
        Some(EventType::MessageDelete)
    } else if bytes_is(name, "MESSAGE_DELETE_BULK") {
        Some(EventType::MessageDeleteBulk)
    } else if bytes_is(name, "MESSAGE_REACTION_ADD") {
        Some(EventType::ReactionAdd)
    } else if bytes_is(name, "MESSAGE_REACTION_REMOVE") {
        Some(EventType::ReactionRemove)
    } else if bytes_is(name, "MESSAGE_REACTION_REMOVE_EMOJI") {
        Some(EventType::ReactionRemoveEmoji)
    } else if bytes_is(name, "MESSAGE_REACTION_REMOVE_ALL") {
        Some(EventType::ReactionRemoveAll)
    } else if bytes_is(name, "MESSAGE_UPDATE") {
        Some(EventType::MessageUpdate)
    } else if bytes_is(name, "PRESENCE_UPDATE") {
        Some(EventType::PresenceUpdate)
    } else if bytes_is(name, "PRESENCES_REPLACE") {
        Some(EventType::PresencesReplace)
    } else if bytes_is(name, "READY") {
        Some(EventType::Ready)
    } else if bytes_is(name, "RESUMED") {
        Some(EventType::Resumed)
    } else if bytes_is(name, "TYPING_START") {
        Some(EventType::TypingStart)
    } else if bytes_is(name, "USER_UPDATE") {
        Some(EventType::UserUpdate)
    } else if bytes_is(name, "VOICE_SERVER_UPDATE") {
        Some(EventType::VoiceServerUpdate)
    } else if bytes_is(name, "VOICE_STATE_UPDATE") {
        Some(EventType::VoiceStateUpdate)
    } else if bytes_is(name, "WEBHOOKS_UPDATE") {
        Some(EventType::WebhooksUpdate)
    } else {
        None
    }
}

/// Does a dispatch event of type `t` carry its payload bytes?
pub open spec fn spec_kind_carries(t: EventType) -> bool {
    t != EventType::GiftCodeUpdate && t != EventType::Resumed && t != EventType::PresencesReplace
}

/// The payload bytes are one well-formed JSON value, apart from blanks.
pub open spec fn spec_valid_payload(s: Seq<u8>) -> bool {
    let j = codec::spec_skip_ws(s, 0);
    match codec::spec_skip_value(s, j) {
        Some(e) => codec::spec_skip_ws(s, e) == s.len(),
        None => false,
    }
}

/// Executable twin of [`spec_valid_payload`].
pub fn valid_payload(s: &Vec<u8>) -> (r: bool)
    ensures
        r == spec_valid_payload(s@),
{
    let j = codec::skip_ws(s, 0);
    match codec::skip_value(s, j) {
        Some(e) => codec::skip_ws(s, e) == s.len(),
        None => false,
    }
}

/// Reading a dispatch event failed.
#[derive(Clone, Copy, Debug, PartialEq, Eq, Structural)]
pub enum EventError {
    /// The event name is not a known dispatch event type.
    EventTypeUnknown,
    /// The payload is not well-formed JSON.
    Parsing,
}

/// Is `t` the type of a dispatch event?
pub open spec fn spec_is_dispatch_kind(t: EventType) -> bool {
    match t {
        EventType::ChannelCreate => true,
        EventType::ChannelDelete => true,
        EventType::ChannelPinsUpdate => true,
        EventType::ChannelUpdate => true,
        EventType::GiftCodeUpdate => true,
        EventType::BanAdd => true,
        EventType::BanRemove => true,
        EventType::GuildCreate => true,
        EventType::GuildDelete => true,
        EventType::GuildEmojisUpdate => true,
        EventType::GuildIntegrationsUpdate => true,
        EventType::MemberChunk => true,
        EventType::MemberAdd => true,
        EventType::MemberListUpdate => true,
        EventType::MemberRemove => true,
        EventType::MemberUpdate => true,
        EventType::RoleCreate => true,
        EventType::RoleDelete => true,
        EventType::RoleUpdate => true,
        EventType::GuildUpdate => true,
        EventType::InviteCreate => true,
        EventType::InviteDelete => true,
        EventType::MessageAck => true,
        EventType::MessageCreate => true,
        EventType::MessageDelete => true,
        EventType::MessageDeleteBulk => true,
        EventType::ReactionAdd => true,
        EventType::ReactionRemove => true,
        EventType::ReactionRemoveEmoji => true,
        EventType::ReactionRemoveAll => true,
        EventType::MessageUpdate => true,
        EventType::PresenceUpdate => true,
        EventType::PresencesReplace => true,
        EventType::Ready => true,
        EventType::Resumed => true,
        EventType::TypingStart => true,
        EventType::UserUpdate => true,
        EventType::VoiceServerUpdate => true,
        EventType::VoiceStateUpdate => true,
        EventType::WebhooksUpdate => true,
        EventType::UnavailableGuild => true,
        _ => false,
    }
}

/// The dispatch event of type `t` carrying `payload`; `None` for a type
/// that is not a dispatch event's.
pub fn dispatch_of_kind(t: EventType, payload: Vec<u8>) -> (r: Option<DispatchEvent>)
    ensures
        match r {
            Some(d) => spec_is_dispatch_kind(t) && d.spec_kind() == t && d.spec_payload() == (
            if spec_kind_carries(t) {
                Some(payload@)
            } else {
                None::<Seq<u8>>
            }),
            None => !spec_is_dispatch_kind(t),
        },
{
    match t {
        EventType::ChannelCreate => Some(DispatchEvent::ChannelCreate(OpaquePayload { bytes: payload })),
        EventType::ChannelDelete => Some(DispatchEvent::ChannelDelete(OpaquePayload { bytes: payload })),
        EventType::ChannelPinsUpdate => Some(DispatchEvent::ChannelPinsUpdate(OpaquePayload { bytes: payload })),
        EventType::ChannelUpdate => Some(DispatchEvent::ChannelUpdate(OpaquePayload { bytes: payload })),
        EventType::GiftCodeUpdate => Some(DispatchEvent::GiftCodeUpdate),
        EventType::BanAdd => Some(DispatchEvent::BanAdd(OpaquePayload { bytes: payload })),
        EventType::BanRemove => Some(DispatchEvent::BanRemove(OpaquePayload { bytes: payload })),
        EventType::GuildCreate => Some(DispatchEvent::GuildCreate(OpaquePayload { bytes: payload })),
        EventType::GuildDelete => Some(DispatchEvent::GuildDelete(OpaquePayload { bytes: payload })),
        EventType::GuildEmojisUpdate => Some(DispatchEvent::GuildEmojisUpdate(OpaquePayload { bytes: payload })),
        EventType::GuildIntegrationsUpdate => Some(DispatchEvent::GuildIntegrationsUpdate(OpaquePayload { bytes: payload })),
        EventType::MemberChunk => Some(DispatchEvent::MemberChunk(OpaquePayload { bytes: payload })),
        EventType::MemberAdd => Some(DispatchEvent::MemberAdd(OpaquePayload { bytes: payload })),
        EventType::MemberListUpdate => Some(DispatchEvent::MemberListUpdate(OpaquePayload { bytes: payload })),
        EventType::MemberRemove => Some(DispatchEvent::MemberRemove(OpaquePayload { bytes: payload })),
        EventType::MemberUpdate => Some(DispatchEvent::MemberUpdate(OpaquePayload { bytes: payload })),
        EventType::RoleCreate => Some(DispatchEvent::RoleCreate(OpaquePayload { bytes: payload })),
        EventType::RoleDelete => Some(DispatchEvent::RoleDelete(OpaquePayload { bytes: payload })),
        EventType::RoleUpdate => Some(DispatchEvent::RoleUpdate(OpaquePayload { bytes: payload })),
        EventType::GuildUpdate => Some(DispatchEvent::GuildUpdate(OpaquePayload { bytes: payload })),
        EventType::InviteCreate => Some(DispatchEvent::InviteCreate(OpaquePayload { bytes: payload })),
        EventType::InviteDelete => Some(DispatchEvent::InviteDelete(OpaquePayload { bytes: payload })),
        EventType::MessageAck => Some(DispatchEvent::MessageAck(OpaquePayload { bytes: payload })),
        EventType::MessageCreate => Some(DispatchEvent::MessageCreate(OpaquePayload { bytes: payload })),
        EventType::MessageDelete => Some(DispatchEvent::MessageDelete(OpaquePayload { bytes: payload })),
        EventType::MessageDeleteBulk => Some(DispatchEvent::MessageDeleteBulk(OpaquePayload { bytes: payload })),
        EventType::ReactionAdd => Some(DispatchEvent::ReactionAdd(OpaquePayload { bytes: payload })),
        EventType::ReactionRemove => Some(DispatchEvent::ReactionRemove(OpaquePayload { bytes: payload })),
        EventType::ReactionRemoveEmoji => Some(DispatchEvent::ReactionRemoveEmoji(OpaquePayload { bytes: payload })),
        EventType::ReactionRemoveAll => Some(DispatchEvent::ReactionRemoveAll(OpaquePayload { bytes: payload })),
        EventType::MessageUpdate => Some(DispatchEvent::MessageUpdate(OpaquePayload { bytes: payload })),
        EventType::PresenceUpdate => Some(DispatchEvent::PresenceUpdate(OpaquePayload { bytes: payload })),
        EventType::PresencesReplace => Some(DispatchEvent::PresencesReplace),
        EventType::Ready => Some(DispatchEvent::Ready(OpaquePayload { bytes: payload })),
        EventType::Resumed => Some(DispatchEvent::Resumed),
        EventType::TypingStart => Some(DispatchEvent::TypingStart(OpaquePayload { bytes: payload })),
        EventType::UserUpdate => Some(DispatchEvent::UserUpdate(OpaquePayload { bytes: payload })),
        EventType::VoiceServerUpdate => Some(DispatchEvent::VoiceServerUpdate(OpaquePayload { bytes: payload })),
        EventType::VoiceStateUpdate => Some(DispatchEvent::VoiceStateUpdate(OpaquePayload { bytes: payload })),
        EventType::WebhooksUpdate => Some(DispatchEvent::WebhooksUpdate(OpaquePayload { bytes: payload })),
        EventType::UnavailableGuild => Some(DispatchEvent::UnavailableGuild(OpaquePayload { bytes: payload })),
        _ => None,
    }
}

/// A name the registry knows always names a dispatch event type.
pub proof fn lemma_name_kind_is_dispatch(name: Seq<u8>)
    ensures
        match spec_name_kind(name) {
            Some(t) => spec_is_dispatch_kind(t),
            None => true,
        },
{
}


/// Build a [`DispatchEvent`] from raw payload bytes by knowing its event
/// name.
///
/// An event name is something like `"CHANNEL_CREATE"` or
/// `"GUILD_MEMBER_ADD"`.
#[derive(PartialEq, Eq)]
pub struct DispatchEventWithTypeDeserializer<'a> {
    name: &'a str,
}

impl<'a> DispatchEventWithTypeDeserializer<'a> {
    /// The name this deserializer dispatches on, as bytes.
    pub closed spec fn spec_name(&self) -> Seq<u8> {
        self.name.spec_bytes()
    }

    /// Create a new deserializer.
    pub fn new(event_name: &'a str) -> (r: Self)
        ensures
            r.spec_name() == event_name.spec_bytes(),
    {
        DispatchEventWithTypeDeserializer { name: event_name }
    }

    /// Read the dispatch event registered under this deserializer's name
    /// out of `payload`.  Unknown names are refused; so is a payload that
    /// is not one well-formed JSON value.
    pub fn deserialize(&self, payload: &Vec<u8>) -> (r: Result<DispatchEvent, EventError>)
        ensures
            match r {
                Ok(d) => spec_name_kind(self.spec_name()) == Some(d.spec_kind())
                    && spec_valid_payload(payload@) && d.spec_payload() == (
                if spec_kind_carries(d.spec_kind()) {
                    Some(payload@)
                } else {
                    None::<Seq<u8>>
                }),
                Err(e) => match e {
                    EventError::EventTypeUnknown => spec_name_kind(self.spec_name()) is None,
                    EventError::Parsing => spec_name_kind(self.spec_name()) is Some
                        && !spec_valid_payload(payload@),
                },
            },
    {
        let name = self.name.as_bytes_vec();
        let kind = match name_kind(&name) {
            Some(k) => k,
            None => {
                return Err(EventError::EventTypeUnknown);
            },
        };
        if !valid_payload(payload) {
            return Err(EventError::Parsing);
        }
        let bytes = codec::copy_range(payload, 0, payload.len());
        proof {
            lemma_name_kind_is_dispatch(self.spec_name());
        }
        match dispatch_of_kind(kind, bytes) {
            Some(d) => Ok(d),
            None => Err(EventError::EventTypeUnknown),
        }
    }
}


} // verus!
