use chat_gateway::event::{Event, EventType};
use chat_gateway::processor::{
    next_backoff, Action, CloseFrame, Message, ProcessErrorType, ShardConfig, ShardProcessor,
};
use chat_gateway::session::{OutboundPayload, Stage};

fn config() -> ShardConfig {
    ShardConfig {
        token: "secret".to_string(),
        shard_id: 0,
        shard_total: 1,
        intents: 0,
        large_threshold: None,
        presence: None,
        gateway_url: "wss://gateway.example".to_string(),
        session_id: None,
        sequence: None,
    }
}

fn frame(s: &str) -> Vec<u8> {
    s.as_bytes().to_vec()
}

#[test]
fn happy_path_identify() {
    let (mut p, resumable) = ShardProcessor::new(config());
    assert!(!resumable);
    assert_eq!(p.url, "wss://gateway.example?encoding=json&v=9");

    // HELLO: the server dictates the heartbeat interval.
    p.process(&frame("{\"t\":null,\"s\":null,\"op\":10,\"d\":{\"heartbeat_interval\":41250}}"))
        .unwrap();
    assert_eq!(p.session.heartbeat_interval_ms, 41250);
    assert!(p.session.heartbeater_running);
    assert_eq!(p.session.stage, Stage::Identifying);
    match p.session.outbound.last().unwrap() {
        OutboundPayload::Identify(identify) => {
            assert_eq!(identify.d.token, "secret");
            assert_eq!(identify.d.intents, Some(0));
            assert_eq!(identify.d.shard, Some((0, 1)));
            assert_eq!(identify.d.large_threshold, None);
        }
        other => panic!("expected an identify, got {:?}", other),
    }

    // READY: the session is connected.
    p.process(&frame("{\"op\":0,\"t\":\"READY\",\"s\":1,\"d\":{\"session_id\":\"abc\"}}"))
        .unwrap();
    assert_eq!(p.session.stage, Stage::Connected);
    assert_eq!(p.session.seq, 1);
    assert_eq!(p.session.session_id, Some(b"abc".to_vec()));

    let actions = p.take_actions();
    let connected = actions.iter().any(|a| match a {
        Action::Emit(e) => e.kind() == EventType::ShardConnected,
        _ => false,
    });
    assert!(connected, "a ShardConnected event must be emitted");
}

#[test]
fn resume_on_disconnect() {
    let mut cfg = config();
    cfg.session_id = Some(b"abc".to_vec());
    cfg.sequence = Some(42);
    let (mut p, resumable) = ShardProcessor::new(cfg);
    assert!(resumable);
    assert_eq!(p.session.seq, 42);
    assert_eq!(p.session.session_id, Some(b"abc".to_vec()));

    // the socket closed with a resumable code
    let r = p.handle_message(Message::Close(Some(CloseFrame {
        code: 1001,
        reason: String::new(),
    })));
    assert_eq!(r, Ok(false));
    assert_eq!(p.session.stage, Stage::Resuming);
    assert_eq!(p.resume, Some((42, b"abc".to_vec())));

    // a new connection is opened in the resuming stage; HELLO answers
    // with a RESUME carrying the snapshot
    p.install_new_session(Stage::Resuming);
    p.process(&frame("{\"t\":null,\"s\":null,\"op\":10,\"d\":{\"heartbeat_interval\":41250}}"))
        .unwrap();
    match p.session.outbound.last().unwrap() {
        OutboundPayload::Resume {
            token,
            session_id,
            seq,
        } => {
            assert_eq!(token, "secret");
            assert_eq!(session_id, &b"abc".to_vec());
            assert_eq!(*seq, 42);
        }
        other => panic!("expected a resume, got {:?}", other),
    }
}

#[test]
fn invalid_auth_terminates() {
    let (mut p, _) = ShardProcessor::new(config());
    p.take_actions();
    let err = p
        .handle_message(Message::Close(Some(CloseFrame {
            code: 4004,
            reason: String::new(),
        })))
        .unwrap_err();
    assert!(err.fatal());

    // exactly the disconnect event was emitted, nothing after it
    let actions = p.take_actions();
    assert_eq!(actions.len(), 1);
    match &actions[0] {
        Action::Emit(Event::ShardDisconnected(d)) => {
            assert_eq!(d.code, Some(4004));
            assert_eq!(d.shard_id, 0);
        }
        other => panic!("expected the disconnect event, got {:?}", other),
    }

    // the run policy terminates the task
    let mut q = p;
    assert!(q.handle_receive_error(&err));
}

#[test]
fn intent_close_codes_fatal() {
    for code in [4013u16, 4014] {
        let (mut p, _) = ShardProcessor::new(config());
        let err = p
            .handle_message(Message::Close(Some(CloseFrame {
                code,
                reason: String::new(),
            })))
            .unwrap_err();
        assert!(err.fatal());
    }
}

#[test]
fn other_close_codes_resume() {
    let (mut p, _) = ShardProcessor::new(config());
    let r = p.handle_message(Message::Close(Some(CloseFrame {
        code: 4000,
        reason: String::new(),
    })));
    assert_eq!(r, Ok(false));
    assert_eq!(p.session.stage, Stage::Resuming);
}

#[test]
fn backoff_doubles_to_cap() {
    let mut wait = 1u64;
    let mut seen = Vec::new();
    for _ in 0..10 {
        seen.push(wait);
        wait = next_backoff(wait);
    }
    assert_eq!(seen, vec![1, 2, 4, 8, 16, 32, 64, 128, 128, 128]);
}

#[test]
fn heartbeat_ahead_triggers_resume() {
    let (mut p, _) = ShardProcessor::new(config());
    p.process(&frame("{\"op\":0,\"t\":\"GUILD_CREATE\",\"s\":42,\"d\":{}}"))
        .unwrap();
    assert_eq!(p.session.seq, 42);
    // the peer expects a sequence more than one ahead: resume
    p.process(&frame("{\"t\":null,\"s\":null,\"op\":1,\"d\":44}")).unwrap();
    assert_eq!(p.session.stage, Stage::Resuming);
}

#[test]
fn heartbeat_in_step_just_beats() {
    let (mut p, _) = ShardProcessor::new(config());
    p.process(&frame("{\"op\":0,\"t\":\"GUILD_CREATE\",\"s\":42,\"d\":{}}"))
        .unwrap();
    p.process(&frame("{\"t\":null,\"s\":null,\"op\":1,\"d\":43}")).unwrap();
    assert_ne!(p.session.stage, Stage::Resuming);
    match p.session.outbound.last().unwrap() {
        OutboundPayload::Heartbeat { seq } => assert_eq!(*seq, Some(42)),
        other => panic!("expected a heartbeat, got {:?}", other),
    }
}

#[test]
fn identify_after_nonresumable_invalidation() {
    let (mut p, _) = ShardProcessor::new(config());
    p.take_actions();
    // the session is invalidated, not resumable
    p.process(&frame("{\"t\":null,\"s\":null,\"op\":9,\"d\":false}")).unwrap();
    let actions = p.take_actions();
    assert!(actions.contains(&Action::Reconnect));

    // the reconnect installs a brand-new session; HELLO must identify
    p.install_new_session(Stage::Connecting);
    p.process(&frame("{\"t\":null,\"s\":null,\"op\":10,\"d\":{\"heartbeat_interval\":1000}}"))
        .unwrap();
    match p.session.outbound.last().unwrap() {
        OutboundPayload::Identify(_) => {}
        other => panic!("the first frame must be an identify, got {:?}", other),
    }
}

#[test]
fn resumable_invalidation_resumes() {
    let (mut p, _) = ShardProcessor::new(config());
    p.process(&frame("{\"op\":0,\"t\":\"READY\",\"s\":3,\"d\":{\"session_id\":\"xyz\"}}"))
        .unwrap();
    p.process(&frame("{\"t\":null,\"s\":null,\"op\":9,\"d\":true}")).unwrap();
    assert_eq!(p.session.stage, Stage::Resuming);
    assert_eq!(p.resume, Some((3, b"xyz".to_vec())));
}

#[test]
fn sequence_never_decreases() {
    let (mut p, _) = ShardProcessor::new(config());
    p.process(&frame("{\"op\":0,\"t\":\"GUILD_CREATE\",\"s\":5,\"d\":{}}"))
        .unwrap();
    assert_eq!(p.session.seq, 5);
    p.process(&frame("{\"op\":0,\"t\":\"GUILD_CREATE\",\"s\":3,\"d\":{}}"))
        .unwrap();
    assert_eq!(p.session.seq, 5);
    p.process(&frame("{\"op\":0,\"t\":\"GUILD_CREATE\",\"s\":9,\"d\":{}}"))
        .unwrap();
    assert_eq!(p.session.seq, 9);
}

#[test]
fn dispatch_without_sequence_is_an_error() {
    let (mut p, _) = ShardProcessor::new(config());
    let err = p
        .process(&frame("{\"op\":0,\"t\":\"GUILD_CREATE\",\"d\":{}}"))
        .unwrap_err();
    assert_eq!(err.kind, ProcessErrorType::SequenceMissing);
}

#[test]
fn unknown_event_type_is_an_error() {
    let (mut p, _) = ShardProcessor::new(config());
    let err = p
        .process(&frame("{\"op\":0,\"t\":\"NO_SUCH\",\"s\":1,\"d\":{}}"))
        .unwrap_err();
    assert!(!err.fatal());
    match err.kind {
        ProcessErrorType::EventTypeUnknown { event_type, op } => {
            assert_eq!(event_type, Some(b"NO_SUCH".to_vec()));
            assert_eq!(op, 0);
        }
        other => panic!("wrong error: {:?}", other),
    }
}

#[test]
fn garbage_payload_is_an_error() {
    let (mut p, _) = ShardProcessor::new(config());
    let err = p.process(&frame("emoji soup")).unwrap_err();
    assert_eq!(err.kind, ProcessErrorType::ParsingPayload);
}

#[test]
fn text_messages_fill_the_buffer() {
    let (mut p, _) = ShardProcessor::new(config());
    p.take_actions();
    let ready = p
        .handle_message(Message::Text(b"{\"op\":11}".to_vec()))
        .unwrap();
    assert!(ready);
    assert_eq!(p.take_buffer(), b"{\"op\":11}".to_vec());

    assert_eq!(p.handle_message(Message::Ping), Ok(false));
    assert_eq!(p.handle_message(Message::Pong), Ok(false));
    assert_eq!(p.handle_message(Message::Binary(vec![1, 2, 3])), Ok(false));

    // the raw payload was surfaced for raw-stream listeners
    let actions = p.take_actions();
    let raw = actions.iter().any(|a| match a {
        Action::Emit(Event::ShardPayload(pl)) => pl.bytes == b"{\"op\":11}".to_vec(),
        _ => false,
    });
    assert!(raw);
}

#[test]
fn resumed_dispatch_reconnects_session() {
    let mut cfg = config();
    cfg.session_id = Some(b"abc".to_vec());
    cfg.sequence = Some(41);
    let (mut p, _) = ShardProcessor::new(cfg);
    p.process(&frame("{\"op\":0,\"t\":\"RESUMED\",\"s\":43,\"d\":null}"))
        .unwrap();
    assert_eq!(p.session.stage, Stage::Connected);
    assert_eq!(p.session.seq, 43);
    assert_eq!(p.session.unacked_heartbeats, 0);
}

#[test]
fn snapshot_for_resumable_shutdown() {
    let (mut p, _) = ShardProcessor::new(config());
    assert_eq!(p.session_snapshot(), None);
    p.process(&frame("{\"op\":0,\"t\":\"READY\",\"s\":7,\"d\":{\"session_id\":\"abc\"}}"))
        .unwrap();
    assert_eq!(p.session_snapshot(), Some((7, b"abc".to_vec())));
}
