use chat_gateway::session::{OutboundPayload, Session, SessionSendError, Stage, SELF_CLOSE_CODE};

#[test]
fn sequence_moves_only_forward() {
    let mut s = Session::new();
    s.set_seq(10);
    assert_eq!(s.seq, 10);
    s.set_seq(7);
    assert_eq!(s.seq, 10);
    s.set_seq(11);
    assert_eq!(s.seq, 11);
}

#[test]
fn outbound_keeps_enqueue_order() {
    let mut s = Session::new();
    s.send(OutboundPayload::Raw(b"one".to_vec())).unwrap();
    s.heartbeat().unwrap();
    s.send(OutboundPayload::Raw(b"two".to_vec())).unwrap();
    let drained = s.take_outbound();
    assert_eq!(drained.len(), 3);
    assert_eq!(drained[0], OutboundPayload::Raw(b"one".to_vec()));
    assert_eq!(drained[1], OutboundPayload::Heartbeat { seq: None });
    assert_eq!(drained[2], OutboundPayload::Raw(b"two".to_vec()));
    assert!(s.take_outbound().is_empty());
}

#[test]
fn heartbeat_carries_the_sequence() {
    let mut s = Session::new();
    s.set_seq(42);
    s.heartbeat().unwrap();
    assert_eq!(
        s.take_outbound().pop().unwrap(),
        OutboundPayload::Heartbeat { seq: Some(42) }
    );
}

#[test]
fn closed_mailbox_refuses_sends() {
    let mut s = Session::new();
    s.open = false;
    assert_eq!(
        s.send(OutboundPayload::Raw(vec![])),
        Err(SessionSendError::Sending)
    );
    assert_eq!(s.heartbeat(), Err(SessionSendError::Sending));
    assert_eq!(s.close(1000), Err(SessionSendError::Sending));
}

#[test]
fn zombie_connection_closes_with_self_close_code() {
    let mut s = Session::new();
    assert_eq!(s.heartbeater_tick(), Ok(false));
    assert_eq!(s.heartbeater_tick(), Ok(false));
    assert_eq!(s.unacked_heartbeats, 2);
    // two heartbeats unacknowledged: the next tick zombies the session
    assert_eq!(s.heartbeater_tick(), Ok(true));
    assert_eq!(
        s.take_outbound().pop().unwrap(),
        OutboundPayload::Close {
            code: SELF_CLOSE_CODE
        }
    );

    // an acknowledgement resets the count
    let mut s = Session::new();
    s.heartbeater_tick().unwrap();
    s.heartbeats_received();
    assert_eq!(s.unacked_heartbeats, 0);
    assert_eq!(s.heartbeater_tick(), Ok(false));
}

#[test]
fn heartbeater_toggling_is_idempotent() {
    let mut s = Session::new();
    s.start_heartbeater();
    s.start_heartbeater();
    assert!(s.heartbeater_running);
    s.stop_heartbeater();
    s.stop_heartbeater();
    assert!(!s.heartbeater_running);
    assert_eq!(s.stage, Stage::Disconnected);
}
