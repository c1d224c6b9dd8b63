//! Per-connection session state: lifecycle stage, last-seen sequence,
//! session id, heartbeating and the outbound queue.
//!
//! The outbound queue models the mailbox to the socket forwarder: entries
//! leave for the wire in the order they were enqueued.

use vstd::prelude::*;
use crate::identify::Identify;

verus! {

/// Lifecycle stage of a session.
#[derive(Clone, Copy, Debug, PartialEq, Eq, Structural)]
pub enum Stage {
    Connected,
    Connecting,
    Disconnected,
    Identifying,
    Resuming,
}

impl Stage {
    /// A short description of the stage.
    pub fn message(&self) -> (r: &'static str)
        ensures
            true,
    {
        match self {
            Stage::Connected => "connected",
            Stage::Connecting => "connecting",
            Stage::Disconnected => "disconnected",
            Stage::Identifying => "identifying",
            Stage::Resuming => "resuming",
        }
    }
}

/// The close code the client itself uses for a resumable self-close.
pub const SELF_CLOSE_CODE: u16 = 4000;

/// A payload bound for the wire, in the order it was enqueued.
#[derive(Clone, Debug, PartialEq, Eq)]
pub enum OutboundPayload {
    /// `{"op":1,"d":<seq>}`.
    Heartbeat { seq: Option<u64> },
    /// The opcode-2 handshake.
    Identify(Identify),
    /// `{"op":6,"d":{"token":..,"session_id":..,"seq":..}}`.
    Resume { token: String, session_id: Vec<u8>, seq: u64 },
    /// A close frame.
    Close { code: u16 },
    /// A caller-supplied command payload, handed on as bytes.
    Raw(Vec<u8>),
}

impl OutboundPayload {
    /// Is this payload an identify handshake?
    pub open spec fn spec_is_identify(self) -> bool {
        self matches OutboundPayload::Identify(_)
    }

    /// Is this payload a resume handshake?
    pub open spec fn spec_is_resume(self) -> bool {
        self matches OutboundPayload::Resume { .. }
    }
}

/// Sending over the session failed.
#[derive(Clone, Copy, Debug, PartialEq, Eq, Structural)]
pub enum SessionSendError {
    /// The payload could not be turned into bytes; surfaced, never
    /// retried.
    Serializing,
    /// The mailbox to the socket is closed; the connection is gone.
    Sending,
}

/// Per-connection mutable state.
#[derive(Clone, Debug, PartialEq, Eq)]
pub struct Session {
    /// Lifecycle stage.
    pub stage: Stage,
    /// Last-seen dispatch sequence; never decreases within one session.
    pub seq: u64,
    /// Session id, set on `READY`, cleared on non-resumable invalidation.
    pub session_id: Option<Vec<u8>>,
    /// Heartbeat interval the server dictated; 0 until `HELLO`.
    pub heartbeat_interval_ms: u64,
    /// Whether the heartbeater task is running.
    pub heartbeater_running: bool,
    /// Heartbeats sent since the last acknowledgement.
    pub unacked_heartbeats: u32,
    /// Whether the mailbox to the socket still accepts payloads.
    pub open: bool,
    /// Payloads awaiting the wire, oldest first.
    pub outbound: Vec<OutboundPayload>,
}

impl Session {
    /// A session for a fresh connection: disconnected, nothing seen.
    pub fn new() -> (r: Session)
        ensures
            r.stage == (Stage::Disconnected),
            r.seq == 0u64,
            r.session_id is None,
            r.heartbeat_interval_ms == 0u64,
            !r.heartbeater_running,
            r.unacked_heartbeats == 0u32,
            r.open,
            r.outbound@.len() == 0,
    {
        Session {
            stage: Stage::Disconnected,
            seq: 0,
            session_id: None,
            heartbeat_interval_ms: 0,
            heartbeater_running: false,
            unacked_heartbeats: 0,
            open: true,
            outbound: Vec::new(),
        }
    }

    /// Move the session to `stage`; everything else is untouched.
    pub fn set_stage(&mut self, stage: Stage)
        ensures
            *final(self) == (Session { stage, ..*old(self) }),
    {
        self.stage = stage;
    }

    /// Record a sequence number.  The stored sequence only ever moves
    /// forward: a smaller value leaves it unchanged.
    pub fn set_seq(&mut self, seq: u64)
        ensures
            final(self).seq == if seq > old(self).seq {
                seq
            } else {
                old(self).seq
            },
            final(self).seq >= old(self).seq,
            final(self).seq >= seq,
            *final(self) == (Session { seq: final(self).seq, ..*old(self) }),
    {
        if seq > self.seq {
            self.seq = seq;
        }
    }

    /// Store the session id.
    pub fn set_id(&mut self, id: Vec<u8>)
        ensures
            *final(self) == (Session { session_id: Some(id), ..*old(self) }),
    {
        self.session_id = Some(id);
    }

    /// Record the heartbeat interval the server dictated.
    pub fn set_heartbeat_interval(&mut self, interval_ms: u64)
        ensures
            *final(self) == (Session { heartbeat_interval_ms: interval_ms, ..*old(self) }),
    {
        self.heartbeat_interval_ms = interval_ms;
    }

    /// Start the heartbeater; starting it twice changes nothing.
    pub fn start_heartbeater(&mut self)
        ensures
            *final(self) == (Session { heartbeater_running: true, ..*old(self) }),
    {
        self.heartbeater_running = true;
    }

    /// Stop the heartbeater; stopping it twice changes nothing.
    pub fn stop_heartbeater(&mut self)
        ensures
            *final(self) == (Session { heartbeater_running: false, ..*old(self) }),
    {
        self.heartbeater_running = false;
    }

    /// A heartbeat acknowledgement arrived.
    pub fn heartbeats_received(&mut self)
        ensures
            *final(self) == (Session { unacked_heartbeats: 0u32, ..*old(self) }),
    {
        self.unacked_heartbeats = 0;
    }

    /// Enqueue `payload` for the wire.  Fails exactly when the mailbox is
    /// closed; the queue keeps enqueue order.
    pub fn send(&mut self, payload: OutboundPayload) -> (r: Result<(), SessionSendError>)
        ensures
            match r {
                Ok(()) => old(self).open && *final(self) == (Session {
                    outbound: final(self).outbound,
                    ..*old(self)
                }) && final(self).outbound@ == old(self).outbound@.push(payload),
                Err(e) => !old(self).open && e == (SessionSendError::Sending) && *final(self)
                    == *old(self),
            },
    {
        if !self.open {
            return Err(SessionSendError::Sending);
        }
        self.outbound.push(payload);
        Ok(())
    }

    /// Send `{op:1, d:seq}` and count it as awaiting acknowledgement.
    pub fn heartbeat(&mut self) -> (r: Result<(), SessionSendError>)
        ensures
            match r {
                Ok(()) => old(self).open && final(self).outbound@ == old(self).outbound@.push(
                    OutboundPayload::Heartbeat { seq: final(self).outbound@.last()->Heartbeat_seq },
                ) && (final(self).outbound@.last()->Heartbeat_seq == if old(self).seq == 0 {
                    None::<u64>
                } else {
                    Some(old(self).seq)
                }) && final(self).unacked_heartbeats == (if old(self).unacked_heartbeats
                    == u32::MAX {
                    u32::MAX
                } else {
                    (old(self).unacked_heartbeats + 1) as u32
                }) && *final(self) == (Session {
                    outbound: final(self).outbound,
                    unacked_heartbeats: final(self).unacked_heartbeats,
                    ..*old(self)
                }),
                Err(e) => !old(self).open && e == (SessionSendError::Sending) && *final(self)
                    == *old(self),
            },
    {
        let seq = if self.seq == 0 {
            None
        } else {
            Some(self.seq)
        };
        let r = self.send(OutboundPayload::Heartbeat { seq });
        match r {
            Ok(()) => {
                if self.unacked_heartbeats < u32::MAX {
                    self.unacked_heartbeats = self.unacked_heartbeats + 1;
                }
                Ok(())
            },
            Err(e) => Err(e),
        }
    }

    /// Enqueue a close frame.  Fails exactly when the mailbox is already
    /// closed.
    pub fn close(&mut self, code: u16) -> (r: Result<(), SessionSendError>)
        ensures
            match r {
                Ok(()) => old(self).open && *final(self) == (Session {
                    outbound: final(self).outbound,
                    ..*old(self)
                }) && final(self).outbound@ == old(self).outbound@.push(
                    OutboundPayload::Close { code },
                ),
                Err(e) => !old(self).open && e == (SessionSendError::Sending) && *final(self)
                    == *old(self),
            },
    {
        self.send(OutboundPayload::Close { code })
    }

    /// One tick of the heartbeater.  With two heartbeats already
    /// unacknowledged the connection is zombied: the session closes with
    /// the resumable self-close code; otherwise a heartbeat goes out and
    /// is counted as awaiting acknowledgement.
    pub fn heartbeater_tick(&mut self) -> (r: Result<bool, SessionSendError>)
        ensures
            match r {
                Ok(zombied) => old(self).open && (zombied <==> old(self).unacked_heartbeats >= 2)
                    && (zombied ==> final(self).outbound@ == old(self).outbound@.push(
                    OutboundPayload::Close { code: SELF_CLOSE_CODE },
                ) && final(self).unacked_heartbeats == old(self).unacked_heartbeats) && (!zombied
                    ==> final(self).outbound@ == old(self).outbound@.push(
                    OutboundPayload::Heartbeat {
                        seq: if old(self).seq == 0 {
                            None
                        } else {
                            Some(old(self).seq)
                        },
                    },
                ) && final(self).unacked_heartbeats == old(self).unacked_heartbeats + 1) && *final(self) == (Session {
                    outbound: final(self).outbound,
                    unacked_heartbeats: final(self).unacked_heartbeats,
                    ..*old(self)
                }),
                Err(e) => !old(self).open && e == (SessionSendError::Sending) && *final(self)
                    == *old(self),
            },
    {
        if self.unacked_heartbeats >= 2 {
            match self.close(SELF_CLOSE_CODE) {
                Ok(()) => Ok(true),
                Err(e) => Err(e),
            }
        } else {
            match self.heartbeat() {
                Ok(()) => Ok(false),
                Err(e) => Err(e),
            }
        }
    }

    /// Drain the outbound queue for the forwarder, oldest first.
    pub fn take_outbound(&mut self) -> (r: Vec<OutboundPayload>)
        ensures
            r@ == old(self).outbound@,
            *final(self) == (Session { outbound: final(self).outbound, ..*old(self) }),
            final(self).outbound@.len() == 0,
    {
        let mut drained: Vec<OutboundPayload> = Vec::new();
        core::mem::swap(&mut drained, &mut self.outbound);
        drained
    }
}

} // verus!
