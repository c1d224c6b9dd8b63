//! The identify handshake payload and its parts.

use vstd::prelude::*;
use vstd::string::StringExecFns;
use crate::ids::MessageId;

verus! {

/// Named opcodes of the gateway protocol.
#[derive(Clone, Copy, Debug, PartialEq, Eq, Structural)]
pub enum OpCode {
    Dispatch,
    Heartbeat,
    Identify,
    PresenceUpdate,
    VoiceStateUpdate,
    Resume,
    Reconnect,
    RequestGuildMembers,
    InvalidateSession,
    Hello,
    HeartbeatAck,
}

impl OpCode {
    /// The wire value of the opcode.
    pub open spec fn spec_value(self) -> u64 {
        match self {
            OpCode::Dispatch => 0,
            OpCode::Heartbeat => 1,
            OpCode::Identify => 2,
            OpCode::PresenceUpdate => 3,
            OpCode::VoiceStateUpdate => 4,
            OpCode::Resume => 6,
            OpCode::Reconnect => 7,
            OpCode::RequestGuildMembers => 8,
            OpCode::InvalidateSession => 9,
            OpCode::Hello => 10,
            OpCode::HeartbeatAck => 11,
        }
    }

    /// Executable twin of [`OpCode::spec_value`].
    pub fn value(self) -> (r: u64)
        ensures
            r == self.spec_value(),
    {
        match self {
            OpCode::Dispatch => 0,
            OpCode::Heartbeat => 1,
            OpCode::Identify => 2,
            OpCode::PresenceUpdate => 3,
            OpCode::VoiceStateUpdate => 4,
            OpCode::Resume => 6,
            OpCode::Reconnect => 7,
            OpCode::RequestGuildMembers => 8,
            OpCode::InvalidateSession => 9,
            OpCode::Hello => 10,
            OpCode::HeartbeatAck => 11,
        }
    }
}

/// Online status carried in a presence update.
#[derive(Clone, Copy, Debug, PartialEq, Eq, Structural)]
pub enum Status {
    DoNotDisturb,
    Idle,
    Invisible,
    Offline,
    Online,
}

/// An activity entry of a presence; its schema is opaque to the engine.
#[derive(Clone, Debug, PartialEq, Eq)]
pub struct Activity {
    pub bytes: Vec<u8>,
}

/// The presence sent along with an identify.
#[derive(Clone, Debug, PartialEq, Eq)]
pub struct UpdateStatusInfo {
    pub afk: bool,
    pub activities: Option<Vec<Activity>>,
    pub since: Option<u64>,
    pub status: Status,
}

/// Client state the platform expects from a first-party client.
#[derive(Clone, Debug, PartialEq, Eq)]
pub struct IdentifyClientState {
    pub guild_hashes: Vec<(String, String)>,
    pub highest_last_message_id: MessageId,
    pub read_state_version: u64,
    pub user_guild_settings_version: i64,
}

impl IdentifyClientState {
    /// The state a fresh client reports: nothing seen yet.
    pub fn default() -> (r: IdentifyClientState)
        ensures
            r.guild_hashes@.len() == 0,
            r.highest_last_message_id == (MessageId(0u64)),
            r.read_state_version == 0u64,
            r.user_guild_settings_version == -1i64,
    {
        IdentifyClientState {
            guild_hashes: Vec::new(),
            highest_last_message_id: MessageId(0),
            read_state_version: 0,
            user_guild_settings_version: -1,
        }
    }
}

/// Client properties reported on identify.
#[derive(Clone, Debug, PartialEq, Eq)]
pub struct IdentifyProperties {
    pub os: String,
    pub browser: String,
    pub release_channel: String,
    pub client_version: String,
    pub os_version: String,
    pub os_arch: String,
    pub system_locale: String,
    pub client_build_number: u64,
    pub client_event_source: Option<String>,
}

impl IdentifyProperties {
    /// The stock desktop-client properties.
    pub fn default_windows_desktop() -> (r: IdentifyProperties)
        ensures
            r.os@ == "Mac OS X"@,
            r.browser@ == "Discord Client"@,
            r.release_channel@ == "stable"@,
            r.client_version@ == "1.0.9001"@,
            r.os_version@ == "10.0.19042"@,
            r.os_arch@ == "x64"@,
            r.system_locale@ == "en-US"@,
            r.client_build_number == 84941u64,
            r.client_event_source is None,
    {
        IdentifyProperties {
            os: String::from_str("Mac OS X"),
            browser: String::from_str("Discord Client"),
            release_channel: String::from_str("stable"),
            client_version: String::from_str("1.0.9001"),
            os_version: String::from_str("10.0.19042"),
            os_arch: String::from_str("x64"),
            system_locale: String::from_str("en-US"),
            client_build_number: 84941,
            client_event_source: None,
        }
    }
}

/// The body of an identify payload.
#[derive(Clone, Debug, PartialEq, Eq)]
pub struct IdentifyInfo {
    pub token: String,
    pub capabilities: u32,
    pub properties: IdentifyProperties,
    pub presence: Option<UpdateStatusInfo>,
    pub compress: bool,
    pub client_state: IdentifyClientState,
    /// The intents to subscribe with, when the caller runs as a bot.
    pub intents: Option<u64>,
    /// The large-guild member threshold, when one was configured.
    pub large_threshold: Option<u64>,
    /// The `(shard id, shard total)` pair, sent as `shard:[id,total]`.
    pub shard: Option<(u64, u64)>,
}

impl IdentifyInfo {
    /// The identify body sent for `token` with the given properties: the
    /// stock capabilities, an online presence and a fresh client state.
    /// The shard coordinates and intents start unset; the shard processor
    /// fills them from its configuration before sending.
    pub fn new(token: &str, properties: IdentifyProperties) -> (r: IdentifyInfo)
        ensures
            r.token@ == token@,
            r.capabilities == 61u32,
            r.properties == properties,
            r.compress == false,
            match r.presence {
                Some(p) => p.status == (Status::Online) && p.since == Some(0u64) && p.afk == false
                    && match p.activities {
                    Some(a) => a@.len() == 0,
                    None => false,
                },
                None => false,
            },
            r.client_state.guild_hashes@.len() == 0,
            r.client_state.highest_last_message_id == (MessageId(0u64)),
            r.client_state.read_state_version == 0u64,
            r.client_state.user_guild_settings_version == -1i64,
            r.intents is None,
            r.large_threshold is None,
            r.shard is None,
    {
        IdentifyInfo {
            token: String::from_str(token),
            capabilities: 61,
            properties,
            presence: Some(
                UpdateStatusInfo {
                    status: Status::Online,
                    since: Some(0),
                    activities: Some(Vec::new()),
                    afk: false,
                },
            ),
            compress: false,
            client_state: IdentifyClientState::default(),
            intents: None,
            large_threshold: None,
            shard: None,
        }
    }
}

/// A complete identify payload.
#[derive(Clone, Debug, PartialEq, Eq)]
pub struct Identify {
    pub d: IdentifyInfo,
    pub op: OpCode,
}

impl Identify {
    pub fn new(info: IdentifyInfo) -> (r: Identify)
        ensures
            r.d == info,
            r.op == (OpCode::Identify),
    {
        Identify { d: info, op: OpCode::Identify }
    }
}

} // verus!
