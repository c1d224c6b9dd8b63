use chat_gateway::event::{
    DispatchEvent, DispatchEventWithTypeDeserializer, Event, EventError, EventType,
    EventTypeFlags, GatewayEvent, OpaquePayload,
};
use chat_gateway::ids::{GuildId, UserId};
use chat_gateway::ready::{
    CurrentUser, GuildStatus, ReadStateWrapper, Ready, UnavailableGuild,
};

#[test]
fn test_gift_code_update() {
    // Input will be ignored so long as it's valid JSON.
    let input = b"{\n            \"a\": \"b\"\n        }".to_vec();

    let deserializer = DispatchEventWithTypeDeserializer::new("GIFT_CODE_UPDATE");
    let event = deserializer.deserialize(&input).unwrap();

    assert_eq!(event, DispatchEvent::GiftCodeUpdate);
}

#[test]
fn deserialize_unknown_name() {
    let deserializer = DispatchEventWithTypeDeserializer::new("NO_SUCH_EVENT");
    assert_eq!(
        deserializer.deserialize(&b"{}".to_vec()).unwrap_err(),
        EventError::EventTypeUnknown
    );
}

#[test]
fn deserialize_bad_payload() {
    let deserializer = DispatchEventWithTypeDeserializer::new("MESSAGE_CREATE");
    assert_eq!(
        deserializer.deserialize(&b"{\"a\": ".to_vec()).unwrap_err(),
        EventError::Parsing
    );
}

#[test]
fn deserialize_carries_payload() {
    let deserializer = DispatchEventWithTypeDeserializer::new("MESSAGE_CREATE");
    let payload = b"{\"content\":\"hi\"}".to_vec();
    match deserializer.deserialize(&payload).unwrap() {
        DispatchEvent::MessageCreate(p) => assert_eq!(p.bytes, payload),
        other => panic!("wrong variant: {:?}", other),
    }
}

#[test]
fn dispatch_kinds() {
    let payload = OpaquePayload { bytes: Vec::new() };
    assert_eq!(
        DispatchEvent::BanAdd(payload.clone()).kind(),
        EventType::BanAdd
    );
    assert_eq!(
        DispatchEvent::Ready(payload.clone()).kind(),
        EventType::Ready
    );
    assert_eq!(DispatchEvent::Resumed.kind(), EventType::Resumed);
    assert_eq!(
        DispatchEvent::MemberListUpdate(payload).kind(),
        EventType::MemberListUpdate
    );
}

#[test]
fn event_kinds_and_conversions() {
    let payload = OpaquePayload { bytes: b"{}".to_vec() };
    let d = DispatchEvent::MessageCreate(payload);
    let e = Event::from_dispatch(Box::new(d.clone()));
    assert_eq!(e.kind(), EventType::MessageCreate);
    assert_eq!(DispatchEvent::try_from(e).unwrap(), d);

    let e = Event::from_gateway(GatewayEvent::Hello(41250));
    assert_eq!(e, Event::GatewayHello(41250));
    assert_eq!(e.kind(), EventType::GatewayHello);

    let err = DispatchEvent::try_from(Event::GatewayReconnect).unwrap_err();
    assert_eq!(err.into_event(), Event::GatewayReconnect);
}

#[test]
fn event_type_flags() {
    let all = EventTypeFlags::all();
    let none = EventTypeFlags::none();
    assert!(all.contains(EventType::Ready));
    assert!(all.contains(EventType::ShardDisconnected));
    assert!(!none.contains(EventType::Ready));

    let just = EventTypeFlags::just(EventType::MessageCreate);
    assert!(just.contains(EventType::MessageCreate));
    assert!(!just.contains(EventType::MessageDelete));

    let both = just.union(EventTypeFlags::just(EventType::MessageDelete));
    assert!(both.contains(EventType::MessageCreate));
    assert!(both.contains(EventType::MessageDelete));
    assert!(!both.contains(EventType::Ready));
}

#[test]
fn test_ready() {
    let guilds = vec![
        GuildStatus::Offline(UnavailableGuild {
            id: GuildId(1),
            unavailable: true,
        }),
        GuildStatus::Offline(UnavailableGuild {
            id: GuildId(2),
            unavailable: true,
        }),
    ];

    let ready = Ready {
        users: vec![],
        guilds,
        private_channels: vec![],
        merged_members: vec![],
        session_id: "foo".to_owned(),
        shard: Some([4, 7]),
        user: CurrentUser {
            avatar: None,
            bot: false,
            discriminator: "1212".to_owned(),
            email: None,
            id: UserId(3),
            mfa_enabled: false,
            name: "bar".to_owned(),
            verified: None,
        },
        read_state: ReadStateWrapper {
            version: 1,
            partial: false,
            entries: vec![],
        },
        version: 8,
    };

    assert_eq!(ready.session_id, "foo");
    assert_eq!(ready.shard, Some([4, 7]));
    assert_eq!(ready.user.discriminator, "1212");
    assert_eq!(ready.user.id, UserId(3));
    assert_eq!(ready.user.name, "bar");
    assert_eq!(ready.guilds.len(), 2);
    match &ready.guilds[0] {
        GuildStatus::Offline(g) => {
            assert_eq!(g.id, GuildId(1));
            assert!(g.unavailable);
        }
    }
    assert_eq!(ready.read_state.version, 1);
    assert!(!ready.read_state.partial);
    assert!(ready.read_state.entries.is_empty());
    assert_eq!(ready.version, 8);
}
