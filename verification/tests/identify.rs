use chat_gateway::identify::{
    Identify, IdentifyClientState, IdentifyInfo, IdentifyProperties, OpCode, Status,
};
use chat_gateway::ids::MessageId;

#[test]
fn identify_payload_defaults() {
    let info = IdentifyInfo::new("secret", IdentifyProperties::default_windows_desktop());
    assert_eq!(info.token, "secret");
    assert_eq!(info.capabilities, 61);
    assert!(!info.compress);
    let presence = info.presence.clone().unwrap();
    assert_eq!(presence.status, Status::Online);
    assert_eq!(presence.since, Some(0));
    assert!(!presence.afk);
    assert_eq!(presence.activities, Some(vec![]));
    assert_eq!(info.intents, None);
    assert_eq!(info.large_threshold, None);
    assert_eq!(info.shard, None);

    let identify = Identify::new(info.clone());
    assert_eq!(identify.op, OpCode::Identify);
    assert_eq!(identify.d, info);
}

#[test]
fn client_state_defaults() {
    let state = IdentifyClientState::default();
    assert!(state.guild_hashes.is_empty());
    assert_eq!(state.highest_last_message_id, MessageId(0));
    assert_eq!(state.read_state_version, 0);
    assert_eq!(state.user_guild_settings_version, -1);
}

#[test]
fn desktop_properties() {
    let p = IdentifyProperties::default_windows_desktop();
    assert_eq!(p.os, "Mac OS X");
    assert_eq!(p.browser, "Discord Client");
    assert_eq!(p.release_channel, "stable");
    assert_eq!(p.client_version, "1.0.9001");
    assert_eq!(p.os_version, "10.0.19042");
    assert_eq!(p.os_arch, "x64");
    assert_eq!(p.system_locale, "en-US");
    assert_eq!(p.client_build_number, 84941);
    assert!(p.client_event_source.is_none());
}

#[test]
fn opcode_values() {
    assert_eq!(OpCode::Dispatch.value(), 0);
    assert_eq!(OpCode::Heartbeat.value(), 1);
    assert_eq!(OpCode::Identify.value(), 2);
    assert_eq!(OpCode::Resume.value(), 6);
    assert_eq!(OpCode::Reconnect.value(), 7);
    assert_eq!(OpCode::InvalidateSession.value(), 9);
    assert_eq!(OpCode::Hello.value(), 10);
    assert_eq!(OpCode::HeartbeatAck.value(), 11);
}
