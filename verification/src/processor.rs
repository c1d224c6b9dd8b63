//! The shard processor: the per-shard state machine that consumes frames,
//! parses gateway events and drives the session.
//!
//! All I/O lives outside: the processor consumes already-received
//! messages, mutates the session, and accumulates [`Action`]s that the
//! surrounding runtime performs (emitting events to listeners, opening a
//! new connection, resuming).  Outbound payloads go through the session's
//! queue, which keeps enqueue order to the wire.

use vstd::prelude::*;
use vstd::string::StringExecFns;
use vstd::string::StrSliceExecFns;
use vstd::string::StringSliceAdditionalSpecFns;
use crate::codec;
use crate::event::{Connected, Connecting, Disconnected, DispatchEvent, Event, GatewayEvent, Identifying, Payload, Resuming};
use crate::event;
use crate::identify::{Identify, IdentifyInfo, IdentifyProperties, UpdateStatusInfo};
use crate::session::{OutboundPayload, Session, SessionSendError, Stage};

verus! {

/// The close code the reconnect opcode is answered with.
pub const RESTART_CLOSE_CODE: u16 = 1012;

/// Configuration a shard is constructed with.
#[derive(Clone, Debug, PartialEq, Eq)]
pub struct ShardConfig {
    pub token: String,
    pub shard_id: u64,
    pub shard_total: u64,
    pub intents: u64,
    pub large_threshold: Option<u64>,
    pub presence: Option<UpdateStatusInfo>,
    /// Gateway host url, without the query.
    pub gateway_url: String,
    /// Session id to seed a resume with.
    pub session_id: Option<Vec<u8>>,
    /// Sequence to seed a resume with.
    pub sequence: Option<u64>,
}

impl ShardConfig {
    /// Every shard's id lies under its total.
    pub open spec fn spec_wf(&self) -> bool {
        self.shard_id < self.shard_total
    }
}

/// Connecting to the gateway failed.
#[derive(Clone, Debug, PartialEq, Eq)]
pub enum ConnectingErrorType {
    Establishing,
    ParsingUrl { url: String },
}

/// Connecting to the gateway failed.
#[derive(Clone, Debug, PartialEq, Eq)]
pub struct ConnectingError {
    kind: ConnectingErrorType,
    source: Option<String>,
}

impl ConnectingError {
    /// The kind of failure this is.
    pub closed spec fn spec_kind(&self) -> ConnectingErrorType {
        self.kind
    }

    /// The underlying error's description, when one was kept.
    pub closed spec fn spec_source(&self) -> Option<String> {
        self.source
    }

    pub fn new(kind: ConnectingErrorType, source: Option<String>) -> (r: ConnectingError)
        ensures
            r.spec_kind() == kind,
            r.spec_source() == source,
    {
        ConnectingError { kind, source }
    }

    /// Consume the error, returning the owned error type and the source
    /// error's description, both unchanged.
    pub fn into_parts(self) -> (r: (ConnectingErrorType, Option<String>))
        ensures
            r.0 == self.spec_kind(),
            r.1 == self.spec_source(),
    {
        (self.kind, self.source)
    }

    /// A short description of the error.
    pub fn message(&self) -> (r: &'static str)
        ensures
            true,
    {
        match &self.kind {
            ConnectingErrorType::Establishing => "failed to establish the connection",
            ConnectingErrorType::ParsingUrl { .. } => "the gateway url is invalid",
        }
    }
}

/// Type of error that processing one frame raised.
#[derive(Clone, Debug, PartialEq, Eq)]
pub enum ProcessErrorType {
    /// The event type and opcode pair is unknown.
    EventTypeUnknown { event_type: Option<Vec<u8>>, op: u64 },
    /// The payload could not be read as a gateway frame.
    ParsingPayload,
    /// The payload was not valid UTF-8.
    PayloadNotUtf8,
    /// A close frame could not be sent: the mailbox is gone.
    SendingClose,
    /// The sequence was missing from a dispatch payload.
    SequenceMissing,
    /// Sending over the session failed: the mailbox is gone.
    SessionSend,
}

/// Processing one frame failed.
#[derive(Clone, Debug, PartialEq, Eq)]
pub struct ProcessError {
    pub kind: ProcessErrorType,
}

impl ProcessError {
    /// Whether the current connection cannot continue: sending into the
    /// session failed, so only a reconnect helps.
    pub open spec fn spec_fatal(&self) -> bool {
        self.kind matches ProcessErrorType::SendingClose || self.kind
            matches ProcessErrorType::SessionSend
    }

    /// Executable twin of [`ProcessError::spec_fatal`].
    pub fn fatal(&self) -> (r: bool)
        ensures
            r == self.spec_fatal(),
    {
        match self.kind {
            ProcessErrorType::SendingClose => true,
            ProcessErrorType::SessionSend => true,
            _ => false,
        }
    }

    /// A short description of the error.
    pub fn message(&self) -> (r: &'static str)
        ensures
            true,
    {
        match &self.kind {
            ProcessErrorType::EventTypeUnknown { .. } => "provided event type/op pair is unknown",
            ProcessErrorType::ParsingPayload => "payload could not be parsed as json",
            ProcessErrorType::PayloadNotUtf8 => "the payload from the gateway wasn't UTF-8 valid",
            ProcessErrorType::SendingClose => "couldn't send close message",
            ProcessErrorType::SequenceMissing => "sequence missing from payload",
            ProcessErrorType::SessionSend => "shard hasn't been started",
        }
    }
}

/// Type of error that receiving the next event raised.
#[derive(Clone, Debug, PartialEq, Eq)]
pub enum ReceivingEventErrorType {
    /// The authorization token is invalid; unrecoverable in-band.
    AuthorizationInvalid { shard_id: u64, token: String },
    /// The event stream ended; recoverable by resuming.
    EventStreamEnded,
    /// At least one configured intent is disallowed for this account.
    IntentsDisallowed { intents: u64, shard_id: u64 },
    /// At least one configured intent is invalid.
    IntentsInvalid { intents: u64, shard_id: u64 },
}

/// Receiving the next event failed.
#[derive(Clone, Debug, PartialEq, Eq)]
pub struct ReceivingEventError {
    pub kind: ReceivingEventErrorType,
}

impl ReceivingEventError {
    /// Whether the shard task must terminate: authentication and intents
    /// cannot be repaired by reconnecting.
    pub open spec fn spec_fatal(&self) -> bool {
        self.kind matches ReceivingEventErrorType::AuthorizationInvalid { .. } || self.kind
            matches ReceivingEventErrorType::IntentsDisallowed { .. } || self.kind
            matches ReceivingEventErrorType::IntentsInvalid { .. }
    }

    /// Executable twin of [`ReceivingEventError::spec_fatal`].
    pub fn fatal(&self) -> (r: bool)
        ensures
            r == self.spec_fatal(),
    {
        match self.kind {
            ReceivingEventErrorType::AuthorizationInvalid { .. } => true,
            ReceivingEventErrorType::IntentsDisallowed { .. } => true,
            ReceivingEventErrorType::IntentsInvalid { .. } => true,
            _ => false,
        }
    }

    /// Whether a full reconnect repairs this error.  Without streaming
    /// decompression in the engine no receive error asks for one.
    pub fn reconnectable(&self) -> (r: bool)
        ensures
            r == false,
    {
        false
    }

    /// Whether resuming the session repairs this error.
    pub open spec fn spec_resumable(&self) -> bool {
        self.kind matches ReceivingEventErrorType::EventStreamEnded
    }

    /// Executable twin of [`ReceivingEventError::spec_resumable`].
    pub fn resumable(&self) -> (r: bool)
        ensures
            r == self.spec_resumable(),
    {
        match self.kind {
            ReceivingEventErrorType::EventStreamEnded => true,
            _ => false,
        }
    }

    /// A short description of the error.
    pub fn message(&self) -> (r: &'static str)
        ensures
            true,
    {
        match &self.kind {
            ReceivingEventErrorType::AuthorizationInvalid { .. } => {
                "the authorization token for this shard is invalid"
            },
            ReceivingEventErrorType::EventStreamEnded => "event stream from gateway ended",
            ReceivingEventErrorType::IntentsDisallowed { .. } => {
                "at least one of the configured intents is disallowed"
            },
            ReceivingEventErrorType::IntentsInvalid { .. } => {
                "at least one of the configured intents is invalid"
            },
        }
    }
}

/// A close frame received from, or destined for, the peer.
#[derive(Clone, Debug, PartialEq, Eq)]
pub struct CloseFrame {
    pub code: u16,
    pub reason: String,
}

/// A websocket message, as the engine sees it.
#[derive(Clone, Debug, PartialEq, Eq)]
pub enum Message {
    Binary(Vec<u8>),
    Close(Option<CloseFrame>),
    Ping,
    Pong,
    /// A text frame, already taken as bytes.
    Text(Vec<u8>),
}

/// Something the runtime around the processor must do.
#[derive(Clone, Debug, PartialEq, Eq)]
pub enum Action {
    /// Hand the event to the listener registry.
    Emit(Event),
    /// Perform a full reconnect: wait out the backoff, take an identify
    /// queue admission, open a new connection and install a new session.
    Reconnect,
    /// Open a new connection for a resume and install a new session in
    /// the resuming stage; on failure fall back to a full reconnect.
    Resume,
}

/// The first reconnect wait, in seconds.
pub const BACKOFF_FLOOR_SECS: u64 = 1;

/// The longest reconnect wait, in seconds.
pub const BACKOFF_CAP_SECS: u64 = 128;

/// The wait after one more consecutive failed reconnect attempt: doubled,
/// capped at [`BACKOFF_CAP_SECS`].
pub fn next_backoff(wait: u64) -> (r: u64)
    requires
        BACKOFF_FLOOR_SECS <= wait <= BACKOFF_CAP_SECS,
    ensures
        r == if 2 * wait < BACKOFF_CAP_SECS {
            (2 * wait) as u64
        } else {
            BACKOFF_CAP_SECS
        },
        BACKOFF_FLOOR_SECS <= r <= BACKOFF_CAP_SECS,
{
    if wait < BACKOFF_CAP_SECS / 2 {
        2 * wait
    } else {
        BACKOFF_CAP_SECS
    }
}

/// The reconnect wait after `n` consecutive failures.
pub open spec fn spec_backoff_after(n: nat) -> u64
    decreases n,
{
    if n == 0 {
        BACKOFF_FLOOR_SECS
    } else {
        let prev = spec_backoff_after((n - 1) as nat);
        if 2 * prev < BACKOFF_CAP_SECS {
            (2 * prev) as u64
        } else {
            BACKOFF_CAP_SECS
        }
    }
}

/// `2^n`.
pub open spec fn spec_pow2(n: nat) -> int
    decreases n,
{
    if n == 0 {
        1
    } else {
        2 * spec_pow2((n - 1) as nat)
    }
}

/// Successive reconnect failures wait 1, 2, 4, ... seconds, doubling each
/// time until the wait pins at 128 seconds.
pub proof fn law_backoff_sequence(n: nat)
    ensures
        spec_backoff_after(n) == if n < 7 {
            spec_pow2(n)
        } else {
            128
        },
    decreases n,
{
    if n > 0 {
        law_backoff_sequence((n - 1) as nat);
        assert(spec_pow2(0) == 1);
        assert(spec_pow2(1) == 2);
        assert(spec_pow2(2) == 4);
        assert(spec_pow2(3) == 8);
        assert(spec_pow2(4) == 16);
        assert(spec_pow2(5) == 32);
        assert(spec_pow2(6) == 64);
    }
}

/// Runs per shard and drives the session through the gateway handshake,
/// heartbeating, resumption and event dispatch.
#[derive(Debug)]
pub struct ShardProcessor {
    pub config: ShardConfig,
    pub properties: IdentifyProperties,
    pub session: Session,
    /// Accumulates the bytes of the message being received.
    pub buffer: Vec<u8>,
    /// The full gateway url, query included.
    pub url: String,
    /// Snapshot `(seq, session_id)` a pending resume will replay from.
    pub resume: Option<(u64, Vec<u8>)>,
    /// What the runtime must do next, oldest first.
    pub out: Vec<Action>,
}

/// On `HELLO` this state identifies afresh rather than resuming.
pub open spec fn spec_fresh_for_identify(p: &ShardProcessor) -> bool {
    !(p.session.stage == Stage::Resuming && p.resume is Some)
}

/// The parts of the processor no transition rewrites.
pub open spec fn spec_same_static(a: &ShardProcessor, b: &ShardProcessor) -> bool {
    a.config == b.config && a.properties == b.properties && a.url == b.url
}

/// The identify handshake the configuration owes: opcode 2 carrying the
/// configuration's token, intents, large threshold and shard pair.
pub open spec fn spec_identify_for(p: OutboundPayload, cfg: ShardConfig) -> bool {
    &&& p matches OutboundPayload::Identify(idf)
    &&& idf.op == (crate::identify::OpCode::Identify)
    &&& idf.d.token@ == cfg.token@
    &&& idf.d.intents == Some(cfg.intents)
    &&& idf.d.large_threshold == cfg.large_threshold
    &&& idf.d.shard == Some((cfg.shard_id, cfg.shard_total))
}

/// The resume handshake a snapshot owes: opcode 6 carrying the token,
/// the snapshot's session id and its sequence.
pub open spec fn spec_resume_for(
    p: OutboundPayload,
    token: Seq<char>,
    session_id: Seq<u8>,
    seq: u64,
) -> bool {
    &&& p matches OutboundPayload::Resume { token: t, session_id: sid, seq: s }
    &&& t@ == token
    &&& sid@ == session_id
    &&& s == seq
}

/// The action log only ever grows; what was queued stays queued.
pub open spec fn spec_out_extended(pre: &ShardProcessor, post: &ShardProcessor) -> bool {
    post.out@.len() >= pre.out@.len() && (forall|i: int| 0 <= i < pre.out@.len()
        ==> #[trigger] post.out@[i] == pre.out@[i])
}

/// What `begin_resume` leaves behind: the snapshot and the action that
/// continues it, or the degradation to a full reconnect.
pub open spec fn spec_resume_begun(pre: &ShardProcessor, post: &ShardProcessor) -> bool {
    &&& post.session.stage == (Stage::Resuming)
    &&& !post.session.heartbeater_running
    &&& post.session.seq == pre.session.seq
    &&& post.session.session_id == pre.session.session_id
    &&& post.session.outbound == pre.session.outbound
    &&& (match pre.session.session_id {
        Some(id) => post.resume is Some && (post.resume->0).0 == pre.session.seq && (
        post.resume->0).1@ == id@ && post.out@ == pre.out@ + seq![
            Action::Emit(
                Event::ShardResuming(
                    Resuming { seq: pre.session.seq, shard_id: pre.config.shard_id },
                ),
            ),
            Action::Resume,
        ],
        None => post.resume == pre.resume && post.out@ == pre.out@.push(Action::Reconnect),
    })
}

impl ShardProcessor {
    /// Build a processor for `config`.  The second result says whether the
    /// processor was seeded for a resume: with both a session id and a
    /// sequence in the configuration the identify queue is skipped and the
    /// first connection resumes.
    pub fn new(config: ShardConfig) -> (r: (ShardProcessor, bool))
        ensures
            r.1 == (config.sequence is Some && config.session_id is Some),
            r.0.config == config,
            r.0.url@ == config.gateway_url@ + ("?encoding=json&v=9")@,
            r.0.session.stage == (Stage::Disconnected),
            r.0.session.session_id is Some <==> config.session_id is Some,
            config.session_id is Some ==> r.0.session.session_id->0@ == config.session_id->0@,
            r.0.session.seq == (match config.sequence {
                Some(n) => n,
                None => 0u64,
            }),
            r.0.session.open,
            r.0.session.outbound@.len() == 0,
            r.0.resume is None,
            r.0.buffer@.len() == 0,
            r.0.out@.len() == 1,
            (r.0.out@[0] matches Action::Emit(e) && e matches Event::ShardConnecting(c)
                && c.gateway@ == r.0.url@ && c.shard_id == config.shard_id),
    {
        let resumable = config.sequence.is_some() && config.session_id.is_some();
        let url = config.gateway_url.clone().concat("?encoding=json&v=9");
        let mut session = Session::new();
        match &config.session_id {
            Some(id) => {
                session.set_id(codec::copy_range(id, 0, id.len()));
                proof {
                    assert(session.session_id->0@ =~= id@);
                }
            },
            None => {},
        }
        match config.sequence {
            Some(n) => {
                session.set_seq(n);
            },
            None => {},
        }
        let mut out: Vec<Action> = Vec::new();
        out.push(
            Action::Emit(
                Event::ShardConnecting(
                    Connecting { gateway: url.clone(), shard_id: config.shard_id },
                ),
            ),
        );
        let p = ShardProcessor {
            config,
            properties: IdentifyProperties::default_windows_desktop(),
            session,
            buffer: Vec::new(),
            url,
            resume: None,
            out,
        };
        (p, resumable)
    }

    /// The `(sequence, session id)` snapshot a resumable shutdown hands
    /// to a later cluster; nothing when the session never became
    /// resumable.
    pub fn session_snapshot(&self) -> (r: Option<(u64, Vec<u8>)>)
        ensures
            match r {
                Some((seq, id)) => self.session.session_id matches Some(sid) && id@ == sid@ && seq
                    == self.session.seq,
                None => self.session.session_id is None,
            },
    {
        match &self.session.session_id {
            Some(id) => {
                let copy = codec::copy_range(id, 0, id.len());
                proof {
                    assert(copy@ =~= id@);
                }
                Some((self.session.seq, copy))
            },
            None => None,
        }
    }

    /// Hand the accumulated actions to the runtime, oldest first.
    pub fn take_actions(&mut self) -> (r: Vec<Action>)
        ensures
            r@ == old(self).out@,
            final(self).out@.len() == 0,
            final(self).session == old(self).session,
            final(self).resume == old(self).resume,
            final(self).buffer == old(self).buffer,
            spec_same_static(final(self), old(self)),
    {
        let mut drained: Vec<Action> = Vec::new();
        core::mem::swap(&mut drained, &mut self.out);
        drained
    }

    /// Take the completed message buffer, leaving an empty one.
    pub fn take_buffer(&mut self) -> (r: Vec<u8>)
        ensures
            r@ == old(self).buffer@,
            final(self).buffer@.len() == 0,
            final(self).session == old(self).session,
            final(self).resume == old(self).resume,
            final(self).out == old(self).out,
            spec_same_static(final(self), old(self)),
    {
        let mut drained: Vec<u8> = Vec::new();
        core::mem::swap(&mut drained, &mut self.buffer);
        drained
    }

    /// Install a fresh session for a new connection and clear the message
    /// buffer.  The resume snapshot and the configuration stay.
    pub fn install_new_session(&mut self, stage: Stage)
        ensures
            final(self).session.stage == stage,
            final(self).session.seq == 0u64,
            final(self).session.session_id is None,
            final(self).session.open,
            final(self).session.outbound@.len() == 0,
            !final(self).session.heartbeater_running,
            final(self).session.unacked_heartbeats == 0u32,
            final(self).buffer@.len() == 0,
            final(self).resume == old(self).resume,
            final(self).out == old(self).out,
            spec_same_static(final(self), old(self)),
    {
        let mut session = Session::new();
        session.set_stage(stage);
        self.session = session;
        self.buffer = Vec::new();
    }

    /// Begin resuming: move to the resuming stage, stop the heartbeater
    /// and snapshot `(seq, session_id)`.  Without a session id the shard
    /// degrades to a full reconnect instead.
    pub fn begin_resume(&mut self)
        ensures
            final(self).session.stage == (Stage::Resuming),
            !final(self).session.heartbeater_running,
            final(self).session.seq == old(self).session.seq,
            final(self).session.session_id == old(self).session.session_id,
            final(self).session.outbound == old(self).session.outbound,
            final(self).session.open == old(self).session.open,
            final(self).session.heartbeat_interval_ms == old(self).session.heartbeat_interval_ms,
            final(self).session.unacked_heartbeats == old(self).session.unacked_heartbeats,
            final(self).buffer == old(self).buffer,
            spec_same_static(final(self), old(self)),
            spec_resume_begun(old(self), final(self)),
            spec_out_extended(old(self), final(self)),
            final(self).resume is Some <==> (old(self).session.session_id is Some || old(self).resume is Some),
            match old(self).session.session_id {
                Some(id) => final(self).resume is Some && (final(self).resume->0).0 == old(self).session.seq && (final(self).resume->0).1@ == id@
                    && final(self).out@ == old(self).out@ + seq![
                    Action::Emit(
                        Event::ShardResuming(
                            Resuming {
                                seq: old(self).session.seq,
                                shard_id: old(self).config.shard_id,
                            },
                        ),
                    ),
                    Action::Resume,
                ],
                None => final(self).resume == old(self).resume && final(self).out@ == old(self).out@.push(Action::Reconnect),
            },
    {
        self.session.set_stage(Stage::Resuming);
        self.session.stop_heartbeater();
        let seq = self.session.seq;
        match &self.session.session_id {
            Some(id) => {
                let id2 = codec::copy_range(id, 0, id.len());
                proof {
                    assert(id2@ =~= id@);
                }
                self.resume = Some((seq, id2));
                self.out.push(
                    Action::Emit(
                        Event::ShardResuming(
                            Resuming { seq, shard_id: self.config.shard_id },
                        ),
                    ),
                );
                self.out.push(Action::Resume);
                proof {
                    assert(final(self).out@ =~= old(self).out@ + seq![
                        Action::Emit(
                            Event::ShardResuming(
                                Resuming {
                                    seq: old(self).session.seq,
                                    shard_id: old(self).config.shard_id,
                                },
                            ),
                        ),
                        Action::Resume,
                    ]);
                }
            },
            None => {
                self.out.push(Action::Reconnect);
            },
        }
    }
}


impl ShardProcessor {
    /// A `READY` dispatch: the session is connected and has its id; the
    /// sequence on `READY` is authoritative.
    pub fn process_ready(&mut self, session_id: Vec<u8>, seq: u64)
        ensures
            final(self).session.stage == (Stage::Connected),
            final(self).session.session_id is Some,
            final(self).session.session_id->0@ == session_id@,
            final(self).session.seq == if seq > old(self).session.seq {
                seq
            } else {
                old(self).session.seq
            },
            final(self).session.outbound == old(self).session.outbound,
            final(self).resume == old(self).resume,
            final(self).buffer == old(self).buffer,
            spec_same_static(final(self), old(self)),
            final(self).out@ == old(self).out@.push(
                Action::Emit(
                    Event::ShardConnected(
                        Connected {
                            heartbeat_interval: old(self).session.heartbeat_interval_ms,
                            shard_id: old(self).config.shard_id,
                        },
                    ),
                ),
            ),
    {
        self.session.set_stage(Stage::Connected);
        self.session.set_id(session_id);
        self.session.set_seq(seq);
        self.out.push(
            Action::Emit(
                Event::ShardConnected(
                    Connected {
                        heartbeat_interval: self.session.heartbeat_interval_ms,
                        shard_id: self.config.shard_id,
                    },
                ),
            ),
        );
    }

    /// A `RESUMED` dispatch: the session is connected again and the
    /// acknowledgement state starts over.
    pub fn process_resumed(&mut self, seq: u64)
        ensures
            final(self).session.stage == (Stage::Connected),
            final(self).session.seq == if seq > old(self).session.seq {
                seq
            } else {
                old(self).session.seq
            },
            final(self).session.unacked_heartbeats == 0u32,
            final(self).session.session_id == old(self).session.session_id,
            final(self).session.outbound == old(self).session.outbound,
            final(self).resume == old(self).resume,
            final(self).buffer == old(self).buffer,
            spec_same_static(final(self), old(self)),
            final(self).out@ == old(self).out@.push(
                Action::Emit(
                    Event::ShardConnected(
                        Connected {
                            heartbeat_interval: old(self).session.heartbeat_interval_ms,
                            shard_id: old(self).config.shard_id,
                        },
                    ),
                ),
            ),
    {
        self.session.set_seq(seq);
        self.session.set_stage(Stage::Connected);
        self.out.push(
            Action::Emit(
                Event::ShardConnected(
                    Connected {
                        heartbeat_interval: self.session.heartbeat_interval_ms,
                        shard_id: self.config.shard_id,
                    },
                ),
            ),
        );
        self.session.heartbeats_received();
    }

    /// A heartbeat acknowledgement arrived.
    pub fn process_heartbeat_ack(&mut self)
        ensures
            *final(self) == (ShardProcessor {
                session: final(self).session,
                ..*old(self)
            }),
            final(self).session == (Session {
                unacked_heartbeats: 0u32,
                ..old(self).session
            }),
    {
        self.session.heartbeats_received();
    }

    /// The peer asked for a heartbeat.  A peer expecting a sequence more
    /// than one ahead of ours has events we never saw: resume first.  The
    /// heartbeat itself goes out immediately; if the mailbox is gone the
    /// shard falls back to a full reconnect.
    pub fn process_heartbeat(&mut self, seq: u64)
        ensures
            seq > old(self).session.seq + 1 ==> final(self).session.stage == (Stage::Resuming),
            final(self).session.seq == old(self).session.seq,
            spec_same_static(final(self), old(self)),
            spec_out_extended(old(self), final(self)),
            old(self).session.open ==> final(self).session.outbound@ == old(self).session.outbound@.push(
                OutboundPayload::Heartbeat {
                    seq: if old(self).session.seq == 0 {
                        None
                    } else {
                        Some(old(self).session.seq)
                    },
                },
            ),
            !old(self).session.open ==> final(self).session.outbound == old(self).session.outbound && final(self).out@.len() > old(self).out@.len() && final(self).out@.last() == (Action::Reconnect),
    {
        if seq > self.session.seq && seq - self.session.seq > 1 {
            self.begin_resume();
        }
        match self.session.heartbeat() {
            Ok(()) => {},
            Err(_) => {
                self.out.push(Action::Reconnect);
            },
        }
    }

    /// `HELLO` arrived with the heartbeat interval.  A session in the
    /// resuming stage with a pending snapshot replays it with a `RESUME`;
    /// any other session identifies afresh.
    pub fn process_hello(&mut self, interval: u64) -> (r: Result<(), ProcessError>)
        ensures
            final(self).session.seq == old(self).session.seq,
            spec_out_extended(old(self), final(self)),
            interval > 0 ==> final(self).session.heartbeat_interval_ms == interval && final(self).session.heartbeater_running,
            spec_same_static(final(self), old(self)),
            match r {
                Ok(()) => old(self).session.open && final(self).session.outbound@.len() == old(self).session.outbound@.len() + 1 && (spec_fresh_for_identify(old(self))
                    ==> spec_identify_for(
                    final(self).session.outbound@.last(),
                    old(self).config,
                )) && (!spec_fresh_for_identify(old(self)) ==> spec_resume_for(
                    final(self).session.outbound@.last(),
                    old(self).config.token@,
                    (old(self).resume->0).1@,
                    (old(self).resume->0).0,
                )),
                Err(e) => !old(self).session.open && e.kind == (ProcessErrorType::SessionSend),
            },
            !spec_fresh_for_identify(old(self)) ==> final(self).resume is None && final(self).session.session_id is Some && final(self).session.session_id->0@ == (old(self).resume->0).1@,
            spec_fresh_for_identify(old(self)) ==> final(self).session.stage == (
            Stage::Identifying) && final(self).resume == old(self).resume,
    {
        let resuming = self.session.stage == Stage::Resuming && self.resume.is_some();
        if resuming {
            let mut taken: Option<(u64, Vec<u8>)> = None;
            core::mem::swap(&mut taken, &mut self.resume);
            let (seq, id) = match taken {
                Some(p) => p,
                None => {
                    proof {
                        assert(false);
                    }
                    (0, Vec::new())
                },
            };
            let id_for_session = codec::copy_range(&id, 0, id.len());
            proof {
                assert(id_for_session@ =~= id@);
            }
            self.session.set_id(id_for_session);
            if interval > 0 {
                self.session.set_heartbeat_interval(interval);
                self.session.start_heartbeater();
            }
            let token = self.config.token.clone();
            match self.session.send(OutboundPayload::Resume { token, session_id: id, seq }) {
                Ok(()) => Ok(()),
                Err(_) => Err(ProcessError { kind: ProcessErrorType::SessionSend }),
            }
        } else {
            self.session.set_stage(Stage::Identifying);
            if interval > 0 {
                self.session.set_heartbeat_interval(interval);
                self.session.start_heartbeater();
            }
            self.identify()
        }
    }

    /// Identify with the gateway to create a new session.
    fn identify(&mut self) -> (r: Result<(), ProcessError>)
        ensures
            final(self).session.stage == (Stage::Identifying),
            spec_out_extended(old(self), final(self)),
            final(self).session.heartbeat_interval_ms == old(self).session.heartbeat_interval_ms,
            final(self).session.heartbeater_running == old(self).session.heartbeater_running,
            final(self).session.session_id == old(self).session.session_id,
            final(self).session.seq == old(self).session.seq,
            final(self).session.open == old(self).session.open,
            final(self).resume == old(self).resume,
            spec_same_static(final(self), old(self)),
            match r {
                Ok(()) => old(self).session.open && final(self).session.outbound@.len() == old(self).session.outbound@.len() + 1 && spec_identify_for(
                    final(self).session.outbound@.last(),
                    old(self).config,
                ),
                Err(e) => !old(self).session.open && e.kind == (ProcessErrorType::SessionSend),
            },
    {
        self.session.set_stage(Stage::Identifying);
        let mut info = IdentifyInfo::new(self.config.token.as_str(), self.properties.clone());
        info.intents = Some(self.config.intents);
        info.large_threshold = self.config.large_threshold;
        info.shard = Some((self.config.shard_id, self.config.shard_total));
        let identify = Identify::new(info);
        self.out.push(
            Action::Emit(
                Event::ShardIdentifying(
                    Identifying {
                        shard_id: self.config.shard_id,
                        shard_total: self.config.shard_total,
                    },
                ),
            ),
        );
        match self.session.send(OutboundPayload::Identify(identify)) {
            Ok(()) => Ok(()),
            Err(_) => Err(ProcessError { kind: ProcessErrorType::SessionSend }),
        }
    }

    /// The session was invalidated.  Resumable invalidation resumes; the
    /// rest is a full reconnect with a brand-new session, which will
    /// identify afresh.
    pub fn process_invalidate_session(&mut self, resumable: bool)
        ensures
            spec_same_static(final(self), old(self)),
            final(self).session.seq == old(self).session.seq,
            resumable ==> spec_resume_begun(old(self), final(self)),
            !resumable ==> final(self).session == old(self).session && final(self).resume == old(self).resume && final(self).out@ == old(self).out@.push(Action::Reconnect),
    {
        if resumable {
            self.begin_resume();
        } else {
            self.out.push(Action::Reconnect);
        }
    }

    /// The peer asked us to reconnect: close with the restart code and
    /// resume on a new connection.
    pub fn process_reconnect(&mut self) -> (r: Result<(), ProcessError>)
        ensures
            spec_same_static(final(self), old(self)),
            final(self).session.seq == old(self).session.seq,
            spec_out_extended(old(self), final(self)),
            match r {
                Ok(()) => old(self).session.open && final(self).session.stage == (Stage::Resuming)
                    && !final(self).session.heartbeater_running && final(self).session.outbound@ == old(self).session.outbound@.push(
                    OutboundPayload::Close { code: RESTART_CLOSE_CODE },
                ) && (match old(self).session.session_id {
                    Some(id) => final(self).resume is Some && (final(self).resume->0).0 == old(self).session.seq && (final(self).resume->0).1@ == id@,
                    None => final(self).resume == old(self).resume,
                }),
                Err(e) => !old(self).session.open && e.kind == (ProcessErrorType::SendingClose)
                    && *final(self) == *old(self),
            },
    {
        match self.session.close(RESTART_CLOSE_CODE) {
            Ok(()) => {},
            Err(_) => {
                return Err(ProcessError { kind: ProcessErrorType::SendingClose });
            },
        }
        self.begin_resume();
        Ok(())
    }

    /// Drive the session by one frame-level gateway event.
    pub fn process_gateway_event(&mut self, event: &GatewayEvent) -> (r: Result<
        (),
        ProcessError,
    >)
        requires
            !(event matches GatewayEvent::Dispatch(_, _)),
        ensures
            spec_same_static(final(self), old(self)),
            final(self).session.seq == old(self).session.seq,
            spec_out_extended(old(self), final(self)),
            *event == (GatewayEvent::Reconnect) ==> (r matches Err(e) ==> e.kind == (
            ProcessErrorType::SendingClose)),
            event matches GatewayEvent::Hello(_) ==> (r matches Err(e) ==> e.kind == (
            ProcessErrorType::SessionSend)),
            // success is owed: only the close of a reconnect and the
            // handshake of a hello can fail, and only on a closed mailbox
            (event matches GatewayEvent::Heartbeat(_) || event matches GatewayEvent::HeartbeatAck
                || event matches GatewayEvent::InvalidateSession(_)) ==> r is Ok,
            (event matches GatewayEvent::Hello(_) || *event == (GatewayEvent::Reconnect)) ==> (r
                is Ok <==> old(self).session.open),
            (event matches GatewayEvent::Heartbeat(n) && n > old(self).session.seq + 1) ==> final(self).session.stage == (Stage::Resuming),
            // op 1: the heartbeat reply goes out at once
            event matches GatewayEvent::Heartbeat(_) ==> (old(self).session.open ==> final(self).session.outbound@ == old(self).session.outbound@.push(
                OutboundPayload::Heartbeat {
                    seq: if old(self).session.seq == 0 {
                        None
                    } else {
                        Some(old(self).session.seq)
                    },
                },
            )),
            event matches GatewayEvent::HeartbeatAck ==> final(self).out == old(self).out
                && final(self).resume == old(self).resume && final(self).session == (Session {
                unacked_heartbeats: 0u32,
                ..old(self).session
            }),
            *event == (GatewayEvent::InvalidateSession(false)) ==> final(self).session == old(self).session && final(self).out@ == old(self).out@.push(Action::Reconnect),
            *event == (GatewayEvent::InvalidateSession(true)) ==> spec_resume_begun(
                old(self),
                final(self),
            ),
            // op 7: close with the restart code, then resume
            (*event == (GatewayEvent::Reconnect) && r is Ok) ==> final(self).session.outbound@
                == old(self).session.outbound@.push(
                OutboundPayload::Close { code: RESTART_CLOSE_CODE },
            ) && final(self).session.stage == (Stage::Resuming),
            // op 10: the interval is adopted and the handshake goes out
            event matches GatewayEvent::Hello(i) ==> (i > 0 ==> final(self).session.heartbeat_interval_ms == i && final(self).session.heartbeater_running),
            (event matches GatewayEvent::Hello(i) && spec_fresh_for_identify(old(self)) && r
                is Ok) ==> final(self).session.outbound@.len() == old(self).session.outbound@.len()
                + 1 && spec_identify_for(final(self).session.outbound@.last(), old(self).config),
            (event matches GatewayEvent::Hello(i) && !spec_fresh_for_identify(old(self)) && r
                is Ok) ==> final(self).session.outbound@.len() == old(self).session.outbound@.len()
                + 1 && spec_resume_for(
                final(self).session.outbound@.last(),
                old(self).config.token@,
                (old(self).resume->0).1@,
                (old(self).resume->0).0,
            ),
    {
        match event {
            GatewayEvent::Dispatch(_, _) => Ok(()),
            GatewayEvent::Heartbeat(seq) => {
                self.process_heartbeat(*seq);
                Ok(())
            },
            GatewayEvent::Hello(interval) => self.process_hello(*interval),
            GatewayEvent::HeartbeatAck => {
                self.process_heartbeat_ack();
                Ok(())
            },
            GatewayEvent::InvalidateSession(resumable) => {
                self.process_invalidate_session(*resumable);
                Ok(())
            },
            GatewayEvent::Reconnect => self.process_reconnect(),
        }
    }

    /// Enqueue a caller payload on the session; a closed mailbox triggers
    /// a reconnect.
    pub fn send(&mut self, payload: OutboundPayload) -> (r: Result<(), SessionSendError>)
        ensures
            spec_same_static(final(self), old(self)),
            match r {
                Ok(()) => old(self).session.open && final(self).session.outbound@ == old(self).session.outbound@.push(payload),
                Err(e) => !old(self).session.open && e == (SessionSendError::Sending) && final(self).out@ == old(self).out@.push(Action::Reconnect),
            },
    {
        match self.session.send(payload) {
            Ok(()) => Ok(()),
            Err(e) => {
                self.out.push(Action::Reconnect);
                Err(e)
            },
        }
    }

    /// The inbound mailbox closed without a close frame: the socket died
    /// silently, which a resume recovers from.
    pub fn on_stream_end(&self) -> (r: ReceivingEventError)
        ensures
            r.kind == (ReceivingEventErrorType::EventStreamEnded),
            !r.spec_fatal(),
            r.spec_resumable(),
    {
        ReceivingEventError { kind: ReceivingEventErrorType::EventStreamEnded }
    }

    /// Decide what a failure to receive means for the shard, as the run
    /// loop does: a fatal error terminates the shard task; an error that a
    /// resume repairs begins one.  Returns whether to terminate.
    pub fn handle_receive_error(&mut self, err: &ReceivingEventError) -> (terminate: bool)
        ensures
            terminate == err.spec_fatal(),
            err.spec_fatal() ==> *final(self) == *old(self),
            (!err.spec_fatal() && err.spec_resumable()) ==> final(self).session.stage == (
            Stage::Resuming),
            spec_same_static(final(self), old(self)),
    {
        if err.fatal() {
            return true;
        }
        if err.resumable() {
            self.begin_resume();
        }
        false
    }

    /// Decide what a failed `process` means, as the run loop does: only a
    /// fatal error forces a reconnect.
    pub fn handle_process_error(&mut self, err: &ProcessError)
        ensures
            spec_same_static(final(self), old(self)),
            err.spec_fatal() ==> final(self).out@ == old(self).out@.push(Action::Reconnect)
                && final(self).session == old(self).session,
            !err.spec_fatal() ==> *final(self) == *old(self),
    {
        if err.fatal() {
            self.out.push(Action::Reconnect);
        }
    }
}


/// The close code of a close frame, when one came.
pub open spec fn spec_close_code(frame: Option<CloseFrame>) -> Option<u16> {
    match frame {
        Some(f) => Some(f.code),
        None => None,
    }
}

/// Close codes that end the shard for good: invalid authorization and
/// invalid or disallowed intents cannot be repaired in-band.
pub open spec fn spec_fatal_close_code(code: Option<u16>) -> bool {
    code == Some(4004u16) || code == Some(4013u16) || code == Some(4014u16)
}

/// The byte range of the frame's `d` member: what the scan recorded, or
/// a second walk over the top-level members when the scan stopped early.
pub open spec fn spec_frame_payload_range(payload: Seq<u8>, f: codec::SpecFrame) -> Option<
    (int, int),
> {
    match f.payload {
        Some((a, b)) => if 0 <= a <= b <= payload.len() {
            Some((a, b))
        } else {
            None
        },
        None => {
            let start = codec::spec_skip_ws(payload, 0);
            if 0 <= start < payload.len() && payload[start] == codec::LBRACE {
                codec::spec_scan_field(payload, start + 1, codec::key_d())
            } else {
                None
            }
        },
    }
}

/// Executable twin of [`spec_frame_payload_range`].
fn frame_payload_range(payload: &Vec<u8>, scan: &codec::FrameScan) -> (r: Option<(usize, usize)>)
    ensures
        match r {
            Some((a, b)) => spec_frame_payload_range(payload@, scan@) == Some((a as int, b as int))
                && a <= b <= payload@.len(),
            None => spec_frame_payload_range(payload@, scan@) is None,
        },
{
    match scan.payload {
        Some((a, b)) => {
            if a <= b && b <= payload.len() {
                Some((a, b))
            } else {
                None
            }
        },
        None => {
            let start = codec::skip_ws(payload, 0);
            if start < payload.len() && payload[start] == codec::LBRACE {
                let key = ("d").as_bytes_vec();
                proof {
                    reveal_strlit("d");
                    assert(("d")@ =~= seq!['d']);
                    assert(vstd::string::is_ascii("d"));
                    vstd::string::is_ascii_spec_bytes("d");
                    assert(key@ =~= codec::key_d());
                }
                codec::scan_field(payload, start + 1, &key)
            } else {
                None
            }
        },
    }
}

/// The whole numeric `d` of a frame.
pub open spec fn spec_frame_d_u64(payload: Seq<u8>, f: codec::SpecFrame) -> Option<u64> {
    match spec_frame_payload_range(payload, f) {
        Some((a, b)) => codec::spec_u64_value(payload, a, b),
        None => None,
    }
}

/// The whole boolean `d` of a frame.
pub open spec fn spec_frame_d_bool(payload: Seq<u8>, f: codec::SpecFrame) -> Option<bool> {
    match spec_frame_payload_range(payload, f) {
        Some((a, b)) => codec::spec_bool_value(payload, a, b),
        None => None,
    }
}

/// The `heartbeat_interval` member of a hello frame's `d` object.
pub open spec fn spec_frame_hello_interval(payload: Seq<u8>, f: codec::SpecFrame) -> Option<u64> {
    match spec_frame_payload_range(payload, f) {
        Some((a, b)) => match codec::spec_payload_field(
            payload,
            a,
            b,
            ("heartbeat_interval").spec_bytes(),
        ) {
            Some((x, y)) => codec::spec_u64_value(payload, x, y),
            None => None,
        },
        None => None,
    }
}

/// The `session_id` member of a ready frame's `d` object.
pub open spec fn spec_frame_ready_session_id(payload: Seq<u8>, f: codec::SpecFrame) -> Option<
    Seq<u8>,
> {
    match spec_frame_payload_range(payload, f) {
        Some((a, b)) => match codec::spec_payload_field(
            payload,
            a,
            b,
            ("session_id").spec_bytes(),
        ) {
            Some((x, y)) => codec::spec_string_value(payload, x, y),
            None => None,
        },
        None => None,
    }
}

impl ShardProcessor {
    /// A close frame arrived: surface the disconnect, terminate on a
    /// fatal close code, resume otherwise.  On a fatal code nothing is
    /// emitted beyond the single disconnect event.
    pub fn handle_close(&mut self, frame: Option<CloseFrame>) -> (r: Result<
        (),
        ReceivingEventError,
    >)
        ensures
            spec_same_static(final(self), old(self)),
            final(self).out@.len() == old(self).out@.len() + 1 || r is Ok,
            forall|i: int| 0 <= i < old(self).out@.len() ==> final(self).out@[i] == old(self).out@[i],
            final(self).out@.len() > old(self).out@.len(),
            (final(self).out@[old(self).out@.len() as int] matches Action::Emit(e) && e
                matches Event::ShardDisconnected(d) && d.code == spec_close_code(frame)
                && d.shard_id == old(self).config.shard_id),
            r is Err <==> spec_fatal_close_code(spec_close_code(frame)),
            match r {
                Ok(()) => final(self).session.stage == (Stage::Resuming) && !final(self).session.heartbeater_running && final(self).session.seq == old(self).session.seq
                    && final(self).session.session_id == old(self).session.session_id && (
                match old(self).session.session_id {
                    // the snapshot carries the old sequence and session id,
                    // and a resume continues; without an id the shard
                    // degrades to a full reconnect
                    Some(id) => final(self).resume is Some && (final(self).resume->0).0 == old(self).session.seq && (final(self).resume->0).1@ == id@ && final(self).out@.last()
                        == (Action::Resume),
                    None => final(self).resume == old(self).resume && final(self).out@.last() == (
                    Action::Reconnect),
                }),
                Err(e) => e.spec_fatal() && final(self).out@.len() == old(self).out@.len() + 1
                    && final(self).session == old(self).session && (match e.kind {
                    ReceivingEventErrorType::AuthorizationInvalid { shard_id, token } => frame
                        matches Some(f) && f.code == 4004 && shard_id == old(self).config.shard_id && token@ == old(self).config.token@,
                    ReceivingEventErrorType::IntentsInvalid { intents, shard_id } => frame
                        matches Some(f) && f.code == 4013 && intents == old(self).config.intents
                        && shard_id == old(self).config.shard_id,
                    ReceivingEventErrorType::IntentsDisallowed { intents, shard_id } => frame
                        matches Some(f) && f.code == 4014 && intents == old(self).config.intents
                        && shard_id == old(self).config.shard_id,
                    _ => false,
                }),
            },
    {
        let (code, reason) = match &frame {
            Some(f) => (Some(f.code), Some(f.reason.clone())),
            None => (None, None),
        };
        self.out.push(
            Action::Emit(
                Event::ShardDisconnected(
                    Disconnected { code, reason, shard_id: self.config.shard_id },
                ),
            ),
        );
        match &frame {
            Some(f) => {
                if f.code == 4004 {
                    return Err(
                        ReceivingEventError {
                            kind: ReceivingEventErrorType::AuthorizationInvalid {
                                shard_id: self.config.shard_id,
                                token: self.config.token.clone(),
                            },
                        },
                    );
                }
                if f.code == 4013 {
                    return Err(
                        ReceivingEventError {
                            kind: ReceivingEventErrorType::IntentsInvalid {
                                intents: self.config.intents,
                                shard_id: self.config.shard_id,
                            },
                        },
                    );
                }
                if f.code == 4014 {
                    return Err(
                        ReceivingEventError {
                            kind: ReceivingEventErrorType::IntentsDisallowed {
                                intents: self.config.intents,
                                shard_id: self.config.shard_id,
                            },
                        },
                    );
                }
            },
            None => {},
        }
        self.begin_resume();
        Ok(())
    }

    /// Take one websocket message.  A text frame is a complete message:
    /// its bytes join the buffer and `Ok(true)` says the buffer is ready.
    /// Close frames run the close policy; pings, pongs and binary frames
    /// are ignored here.
    pub fn handle_message(&mut self, msg: Message) -> (r: Result<bool, ReceivingEventError>)
        ensures
            spec_same_static(final(self), old(self)),
            match msg {
                Message::Text(t) => r == Ok::<bool, ReceivingEventError>(true) && final(self).buffer@ == old(self).buffer@ + t@ && final(self).out@.len() == old(self).out@.len() + 1 && (final(self).out@.last() matches Action::Emit(e) && e
                    matches Event::ShardPayload(p) && p.bytes@ == t@),
                Message::Close(frame) => (r is Err <==> spec_fatal_close_code(
                    spec_close_code(frame),
                )) && (r is Ok ==> r == Ok::<bool, ReceivingEventError>(false) && final(self).session.stage == (Stage::Resuming)) && (r is Err ==> r->Err_0.spec_fatal()),
                _ => r == Ok::<bool, ReceivingEventError>(false) && *final(self) == *old(self),
            },
    {
        match msg {
            Message::Binary(_) => Ok(false),
            Message::Close(frame) => {
                match self.handle_close(frame) {
                    Ok(()) => Ok(false),
                    Err(e) => Err(e),
                }
            },
            Message::Text(t) => {
                let bytes = t;
                let copy = codec::copy_range(&bytes, 0, bytes.len());
                proof {
                    assert(copy@ =~= bytes@);
                }
                self.out.push(
                    Action::Emit(Event::ShardPayload(Payload { bytes: copy })),
                );
                codec::push_bytes(&mut self.buffer, &bytes);
                Ok(true)
            },
            Message::Ping => Ok(false),
            Message::Pong => Ok(false),
        }
    }

    /// Process one complete message buffer: scan the frame prefix for the
    /// opcode, sequence and event type, drive the session and surface the
    /// event.  A frame whose opcode, sequence and event name scan out and
    /// whose payload carries what the opcode needs is owed success; the
    /// recorded sequence never falls.
    #[verifier::rlimit(100)]
    pub fn process(&mut self, payload: &Vec<u8>) -> (r: Result<(), ProcessError>)
        ensures
            spec_same_static(final(self), old(self)),
            final(self).session.seq >= old(self).session.seq,
            // a payload that does not scan as a frame with an opcode is refused
            codec::spec_scan_frame(payload@) is None ==> r == Err::<(), ProcessError>(
                ProcessError { kind: ProcessErrorType::ParsingPayload },
            ) && *final(self) == *old(self),
            codec::spec_scan_frame(payload@) matches Some(f) ==> (f.op is None ==> r == Err::<
                (),
                ProcessError,
            >(ProcessError { kind: ProcessErrorType::ParsingPayload }) && *final(self) == *old(
                self,
            )),
            // op 1: reply with a heartbeat at once; a far-ahead peer sequence resumes first
            codec::spec_scan_frame(payload@) matches Some(f) ==> (f.op == Some(1u64)
                ==> (match spec_frame_d_u64(payload@, f) {
                Some(n) => r is Ok && (n > old(self).session.seq + 1 ==> final(self).session.stage
                    == (Stage::Resuming)) && (old(self).session.open ==> final(self).session.outbound@ == old(self).session.outbound@.push(
                    OutboundPayload::Heartbeat {
                        seq: if old(self).session.seq == 0 {
                            None
                        } else {
                            Some(old(self).session.seq)
                        },
                    },
                )) && final(self).out@.len() > old(self).out@.len() && final(self).out@.last() == (
                Action::Emit(Event::GatewayHeartbeat(n))),
                None => r == Err::<(), ProcessError>(
                    ProcessError { kind: ProcessErrorType::ParsingPayload },
                ),
            })),
            // op 7: close with the restart code, resume, surface the event
            codec::spec_scan_frame(payload@) matches Some(f) ==> (f.op == Some(7u64) ==> ((r is Ok
                <==> old(self).session.open) && (r is Ok ==> final(self).session.outbound@ == old(self).session.outbound@.push(OutboundPayload::Close { code: RESTART_CLOSE_CODE })
                && final(self).session.stage == (Stage::Resuming) && final(self).out@.last() == (
            Action::Emit(Event::GatewayReconnect))) && (!old(self).session.open ==> r == Err::<
                (),
                ProcessError,
            >(ProcessError { kind: ProcessErrorType::SendingClose })))),
            // op 9: resume or reconnect, and surface the invalidation
            codec::spec_scan_frame(payload@) matches Some(f) ==> (f.op == Some(9u64)
                ==> (match spec_frame_d_bool(payload@, f) {
                Some(b) => r is Ok && (!b ==> final(self).session == (Session {
                    seq: final(self).session.seq,
                    ..old(self).session
                }) && final(self).out@.len() == old(self).out@.len() + 2 && final(self).out@[old(self).out@.len() as int] == (Action::Reconnect) && final(self).out@.last() == (
                Action::Emit(Event::GatewayInvalidateSession(false)))) && (b ==> final(self).session.stage == (Stage::Resuming) && !final(self).session.heartbeater_running
                    && (match old(self).session.session_id {
                    Some(id) => final(self).resume is Some && (final(self).resume->0).0 == old(self).session.seq && (final(self).resume->0).1@ == id@ && final(self).out@.len()
                        == old(self).out@.len() + 3 && final(self).out@[old(self).out@.len() as int] == (Action::Emit(
                        Event::ShardResuming(
                            Resuming {
                                seq: old(self).session.seq,
                                shard_id: old(self).config.shard_id,
                            },
                        ),
                    )) && final(self).out@[old(self).out@.len() as int + 1] == (Action::Resume) && final(self).out@.last() == (Action::Emit(Event::GatewayInvalidateSession(true))),
                    None => final(self).resume == old(self).resume && final(self).out@.len()
                        == old(self).out@.len() + 2 && final(self).out@[old(self).out@.len() as int] == (Action::Reconnect) && final(self).out@.last() == (
                    Action::Emit(Event::GatewayInvalidateSession(true))),
                })),
                None => r == Err::<(), ProcessError>(
                    ProcessError { kind: ProcessErrorType::ParsingPayload },
                ),
            })),
            // op 10: adopt the interval and answer with the handshake the state owes
            codec::spec_scan_frame(payload@) matches Some(f) ==> (f.op == Some(10u64)
                ==> (match spec_frame_hello_interval(payload@, f) {
                Some(iv) => (r is Ok <==> old(self).session.open) && (!old(self).session.open
                    ==> r == Err::<(), ProcessError>(
                    ProcessError { kind: ProcessErrorType::SessionSend },
                )) && (r is Ok ==> (iv > 0 ==> final(self).session.heartbeat_interval_ms == iv
                    && final(self).session.heartbeater_running) && final(self).session.outbound@.len() == old(self).session.outbound@.len() + 1 && (
                spec_fresh_for_identify(old(self)) ==> spec_identify_for(
                    final(self).session.outbound@.last(),
                    old(self).config,
                )) && (!spec_fresh_for_identify(old(self)) ==> spec_resume_for(
                    final(self).session.outbound@.last(),
                    old(self).config.token@,
                    (old(self).resume->0).1@,
                    (old(self).resume->0).0,
                )) && final(self).out@.last() == (Action::Emit(Event::GatewayHello(iv)))),
                None => r == Err::<(), ProcessError>(
                    ProcessError { kind: ProcessErrorType::ParsingPayload },
                ),
            })),
            // op 11: the acknowledgement is recorded and surfaced
            codec::spec_scan_frame(payload@) matches Some(f) ==> (f.op == Some(11u64) ==> r is Ok
                && final(self).session.unacked_heartbeats == 0u32 && final(self).session.outbound
                == old(self).session.outbound && final(self).out@.len() == old(self).out@.len() + 1
                && final(self).out@.last() == (Action::Emit(Event::GatewayHeartbeatAck))),
            // op 0 and anything else: a dispatch, owed success when the
            // sequence, the event name and the payload are all there
            codec::spec_scan_frame(payload@) matches Some(f) ==> (f.op matches Some(op) ==> (!(op
                == 1 || op == 7 || op == 9 || op == 10 || op == 11) ==> (match f.seq {
                None => r == Err::<(), ProcessError>(
                    ProcessError { kind: ProcessErrorType::SequenceMissing },
                ) && *final(self) == *old(self),
                Some(n) => match f.event_type {
                    None => (r matches Err(e) && e.kind == (ProcessErrorType::EventTypeUnknown {
                        event_type: None,
                        op,
                    })),
                    Some(t) => if t == ("READY").spec_bytes() {
                        match spec_frame_ready_session_id(payload@, f) {
                            Some(sid) => r is Ok && final(self).session.stage == (Stage::Connected)
                                && final(self).session.session_id is Some && final(self).session.session_id->0@ == sid && final(self).session.seq == (
                            if n > old(self).session.seq {
                                n
                            } else {
                                old(self).session.seq
                            }) && final(self).out@.len() == old(self).out@.len() + 2 && final(self).out@[old(self).out@.len() as int] == (Action::Emit(
                                Event::ShardConnected(
                                    Connected {
                                        heartbeat_interval: old(self).session.heartbeat_interval_ms,
                                        shard_id: old(self).config.shard_id,
                                    },
                                ),
                            )) && (final(self).out@.last() matches Action::Emit(e) && e
                                matches Event::Ready(pl) && (spec_frame_payload_range(payload@, f)
                                matches Some((a, b)) && pl.bytes@ == payload@.subrange(a, b))),
                            None => r == Err::<(), ProcessError>(
                                ProcessError { kind: ProcessErrorType::ParsingPayload },
                            ),
                        }
                    } else if t == ("RESUMED").spec_bytes() {
                        r is Ok && final(self).session.stage == (Stage::Connected) && final(self).session.seq == (
                        if n > old(self).session.seq {
                            n
                        } else {
                            old(self).session.seq
                        }) && final(self).session.unacked_heartbeats == 0u32 && final(self).out@.len() == old(self).out@.len() + 2 && final(self).out@[old(self).out@.len() as int] == (Action::Emit(
                            Event::ShardConnected(
                                Connected {
                                    heartbeat_interval: old(self).session.heartbeat_interval_ms,
                                    shard_id: old(self).config.shard_id,
                                },
                            ),
                        )) && final(self).out@.last() == (Action::Emit(Event::Resumed))
                    } else {
                        match event::spec_name_kind(t) {
                            None => (r matches Err(e) && (e.kind
                                matches ProcessErrorType::EventTypeUnknown {
                                event_type: et,
                                op: eop,
                            } && et matches Some(nb) && nb@ == t && eop == op)) && final(self).session.seq == (
                            if n > old(self).session.seq {
                                n
                            } else {
                                old(self).session.seq
                            }),
                            Some(k) => match spec_frame_payload_range(payload@, f) {
                                Some((a, b)) => r is Ok && final(self).session.seq == (
                                if n > old(self).session.seq {
                                    n
                                } else {
                                    old(self).session.seq
                                }) && final(self).session.outbound == old(self).session.outbound
                                    && final(self).out@.len() == old(self).out@.len() + 1 && (
                                final(self).out@.last() matches Action::Emit(e)
                                    && DispatchEvent::spec_of_event(e) matches Some(dd)
                                    && dd.spec_kind() == k && dd.spec_payload() == (
                                if event::spec_kind_carries(k) {
                                    Some(payload@.subrange(a, b))
                                } else {
                                    None::<Seq<u8>>
                                })),
                                None => r == Err::<(), ProcessError>(
                                    ProcessError { kind: ProcessErrorType::ParsingPayload },
                                ),
                            },
                        }
                    },
                },
            }))),
    {
        let scan = match codec::scan_frame(payload) {
            Some(s) => s,
            None => {
                return Err(ProcessError { kind: ProcessErrorType::ParsingPayload });
            },
        };
        let op = match scan.op {
            Some(op) => op,
            None => {
                return Err(ProcessError { kind: ProcessErrorType::ParsingPayload });
            },
        };
        if op == 1 || op == 7 || op == 9 || op == 10 || op == 11 {
            self.process_special_frame(payload, &scan, op)
        } else {
            self.process_dispatch_frame(payload, &scan, op)
        }
    }

    /// Drive one frame whose opcode the engine handles without a
    /// dispatch: heartbeat, reconnect, invalidation, hello,
    /// acknowledgement.
    fn process_special_frame(
        &mut self,
        payload: &Vec<u8>,
        scan: &codec::FrameScan,
        op: u64,
    ) -> (r: Result<(), ProcessError>)
        requires
            codec::spec_scan_frame(payload@) == Some(scan@),
            scan@.op == Some(op),
            op == 1 || op == 7 || op == 9 || op == 10 || op == 11,
        ensures
            spec_same_static(final(self), old(self)),
            final(self).session.seq >= old(self).session.seq,
            op == 1 ==> (match spec_frame_d_u64(payload@, scan@) {
                Some(n) => r is Ok && (n > old(self).session.seq + 1 ==> final(self).session.stage
                    == (Stage::Resuming)) && (old(self).session.open ==> final(self).session.outbound@ == old(self).session.outbound@.push(
                    OutboundPayload::Heartbeat {
                        seq: if old(self).session.seq == 0 {
                            None
                        } else {
                            Some(old(self).session.seq)
                        },
                    },
                )) && final(self).out@.len() > old(self).out@.len() && final(self).out@.last() == (
                Action::Emit(Event::GatewayHeartbeat(n))),
                None => r == Err::<(), ProcessError>(
                    ProcessError { kind: ProcessErrorType::ParsingPayload },
                ),
            }),
            op == 7 ==> ((r is Ok <==> old(self).session.open) && (r is Ok ==> final(self).session.outbound@ == old(self).session.outbound@.push(
                OutboundPayload::Close { code: RESTART_CLOSE_CODE },
            ) && final(self).session.stage == (Stage::Resuming) && final(self).out@.last() == (
            Action::Emit(Event::GatewayReconnect))) && (!old(self).session.open ==> r == Err::<
                (),
                ProcessError,
            >(ProcessError { kind: ProcessErrorType::SendingClose }))),
            op == 9 ==> (match spec_frame_d_bool(payload@, scan@) {
                Some(b) => r is Ok && (!b ==> final(self).session == (Session {
                    seq: final(self).session.seq,
                    ..old(self).session
                }) && final(self).out@.len() == old(self).out@.len() + 2 && final(self).out@[old(self).out@.len() as int] == (Action::Reconnect) && final(self).out@.last() == (
                Action::Emit(Event::GatewayInvalidateSession(false)))) && (b ==> final(self).session.stage == (Stage::Resuming) && !final(self).session.heartbeater_running
                    && (match old(self).session.session_id {
                    Some(id) => final(self).resume is Some && (final(self).resume->0).0 == old(self).session.seq && (final(self).resume->0).1@ == id@ && final(self).out@.len()
                        == old(self).out@.len() + 3 && final(self).out@[old(self).out@.len() as int] == (Action::Emit(
                        Event::ShardResuming(
                            Resuming {
                                seq: old(self).session.seq,
                                shard_id: old(self).config.shard_id,
                            },
                        ),
                    )) && final(self).out@[old(self).out@.len() as int + 1] == (Action::Resume)
                        && final(self).out@.last() == (Action::Emit(
                        Event::GatewayInvalidateSession(true),
                    )),
                    None => final(self).resume == old(self).resume && final(self).out@.len()
                        == old(self).out@.len() + 2 && final(self).out@[old(self).out@.len() as int] == (Action::Reconnect) && final(self).out@.last() == (
                    Action::Emit(Event::GatewayInvalidateSession(true))),
                })),
                None => r == Err::<(), ProcessError>(
                    ProcessError { kind: ProcessErrorType::ParsingPayload },
                ),
            }),
            op == 10 ==> (match spec_frame_hello_interval(payload@, scan@) {
                Some(iv) => (r is Ok <==> old(self).session.open) && (!old(self).session.open
                    ==> r == Err::<(), ProcessError>(
                    ProcessError { kind: ProcessErrorType::SessionSend },
                )) && (r is Ok ==> (iv > 0 ==> final(self).session.heartbeat_interval_ms == iv
                    && final(self).session.heartbeater_running) && final(self).session.outbound@.len() == old(self).session.outbound@.len() + 1 && (
                spec_fresh_for_identify(old(self)) ==> spec_identify_for(
                    final(self).session.outbound@.last(),
                    old(self).config,
                )) && (!spec_fresh_for_identify(old(self)) ==> spec_resume_for(
                    final(self).session.outbound@.last(),
                    old(self).config.token@,
                    (old(self).resume->0).1@,
                    (old(self).resume->0).0,
                )) && final(self).out@.last() == (Action::Emit(Event::GatewayHello(iv)))),
                None => r == Err::<(), ProcessError>(
                    ProcessError { kind: ProcessErrorType::ParsingPayload },
                ),
            }),
            op == 11 ==> r is Ok && final(self).session.unacked_heartbeats == 0u32 && final(self).session.outbound == old(self).session.outbound && final(self).out@.len() == old(self).out@.len() + 1 && final(self).out@.last() == (
            Action::Emit(Event::GatewayHeartbeatAck)),
    {
        let gateway_event = if op == 7 {
            GatewayEvent::Reconnect
        } else if op == 11 {
            GatewayEvent::HeartbeatAck
        } else if op == 1 {
            let d = match frame_payload_range(payload, scan) {
                Some(d) => d,
                None => {
                    return Err(ProcessError { kind: ProcessErrorType::ParsingPayload });
                },
            };
            match codec::u64_value(payload, d.0, d.1) {
                Some(n) => GatewayEvent::Heartbeat(n),
                None => {
                    return Err(ProcessError { kind: ProcessErrorType::ParsingPayload });
                },
            }
        } else if op == 9 {
            let d = match frame_payload_range(payload, scan) {
                Some(d) => d,
                None => {
                    return Err(ProcessError { kind: ProcessErrorType::ParsingPayload });
                },
            };
            match codec::bool_value(payload, d.0, d.1) {
                Some(b) => GatewayEvent::InvalidateSession(b),
                None => {
                    return Err(ProcessError { kind: ProcessErrorType::ParsingPayload });
                },
            }
        } else {
            let d = match frame_payload_range(payload, scan) {
                Some(d) => d,
                None => {
                    return Err(ProcessError { kind: ProcessErrorType::ParsingPayload });
                },
            };
            let key = ("heartbeat_interval").as_bytes_vec();
            let field = match codec::payload_field(payload, d.0, d.1, &key) {
                Some(f) => f,
                None => {
                    return Err(ProcessError { kind: ProcessErrorType::ParsingPayload });
                },
            };
            match codec::u64_value(payload, field.0, field.1) {
                Some(n) => GatewayEvent::Hello(n),
                None => {
                    return Err(ProcessError { kind: ProcessErrorType::ParsingPayload });
                },
            }
        };
        match self.process_gateway_event(&gateway_event) {
            Ok(()) => {},
            Err(e) => {
                return Err(e);
            },
        }
        self.out.push(Action::Emit(Event::from_gateway(gateway_event)));
        match scan.seq {
            Some(n) => {
                self.session.set_seq(n);
            },
            None => {},
        }
        Ok(())
    }

    /// Drive one dispatch frame: the sequence is adopted, the named event
    /// is surfaced, and `READY`/`RESUMED` move the session.
    fn process_dispatch_frame(
        &mut self,
        payload: &Vec<u8>,
        scan: &codec::FrameScan,
        op: u64,
    ) -> (r: Result<(), ProcessError>)
        requires
            codec::spec_scan_frame(payload@) == Some(scan@),
            scan@.op == Some(op),
            !(op == 1 || op == 7 || op == 9 || op == 10 || op == 11),
        ensures
            spec_same_static(final(self), old(self)),
            final(self).session.seq >= old(self).session.seq,
            match scan@.seq {
                None => r == Err::<(), ProcessError>(
                    ProcessError { kind: ProcessErrorType::SequenceMissing },
                ) && *final(self) == *old(self),
                Some(n) => match scan@.event_type {
                    None => (r matches Err(e) && e.kind == (ProcessErrorType::EventTypeUnknown {
                        event_type: None,
                        op,
                    })),
                    Some(t) => if t == ("READY").spec_bytes() {
                        match spec_frame_ready_session_id(payload@, scan@) {
                            Some(sid) => r is Ok && final(self).session.stage == (Stage::Connected)
                                && final(self).session.session_id is Some && final(self).session.session_id->0@ == sid && final(self).session.seq == (
                            if n > old(self).session.seq {
                                n
                            } else {
                                old(self).session.seq
                            }) && final(self).out@.len() == old(self).out@.len() + 2 && final(self).out@[old(self).out@.len() as int] == (Action::Emit(
                                Event::ShardConnected(
                                    Connected {
                                        heartbeat_interval: old(self).session.heartbeat_interval_ms,
                                        shard_id: old(self).config.shard_id,
                                    },
                                ),
                            )) && (final(self).out@.last() matches Action::Emit(e) && e
                                matches Event::Ready(pl) && (spec_frame_payload_range(
                                payload@,
                                scan@,
                            ) matches Some((a, b)) && pl.bytes@ == payload@.subrange(a, b))),
                            None => r == Err::<(), ProcessError>(
                                ProcessError { kind: ProcessErrorType::ParsingPayload },
                            ),
                        }
                    } else if t == ("RESUMED").spec_bytes() {
                        r is Ok && final(self).session.stage == (Stage::Connected) && final(self).session.seq == (
                        if n > old(self).session.seq {
                            n
                        } else {
                            old(self).session.seq
                        }) && final(self).session.unacked_heartbeats == 0u32 && final(self).out@.len() == old(self).out@.len() + 2 && final(self).out@[old(self).out@.len() as int] == (Action::Emit(
                            Event::ShardConnected(
                                Connected {
                                    heartbeat_interval: old(self).session.heartbeat_interval_ms,
                                    shard_id: old(self).config.shard_id,
                                },
                            ),
                        )) && final(self).out@.last() == (Action::Emit(Event::Resumed))
                    } else {
                        match event::spec_name_kind(t) {
                            None => (r matches Err(e) && (e.kind
                                matches ProcessErrorType::EventTypeUnknown {
                                event_type: et,
                                op: eop,
                            } && et matches Some(nb) && nb@ == t && eop == op)) && final(self).session.seq == (
                            if n > old(self).session.seq {
                                n
                            } else {
                                old(self).session.seq
                            }),
                            Some(k) => match spec_frame_payload_range(payload@, scan@) {
                                Some((a, b)) => r is Ok && final(self).session.seq == (
                                if n > old(self).session.seq {
                                    n
                                } else {
                                    old(self).session.seq
                                }) && final(self).session.outbound == old(self).session.outbound
                                    && final(self).out@.len() == old(self).out@.len() + 1 && (
                                final(self).out@.last() matches Action::Emit(e)
                                    && DispatchEvent::spec_of_event(e) matches Some(dd)
                                    && dd.spec_kind() == k && dd.spec_payload() == (
                                if event::spec_kind_carries(k) {
                                    Some(payload@.subrange(a, b))
                                } else {
                                    None::<Seq<u8>>
                                })),
                                None => r == Err::<(), ProcessError>(
                                    ProcessError { kind: ProcessErrorType::ParsingPayload },
                                ),
                            },
                        }
                    },
                },
            },
    {
        let seqn = match scan.seq {
            Some(n) => n,
            None => {
                return Err(ProcessError { kind: ProcessErrorType::SequenceMissing });
            },
        };
        let name = match &scan.event_type {
            Some(n) => n,
            None => {
                return Err(
                    ProcessError {
                        kind: ProcessErrorType::EventTypeUnknown { event_type: None, op },
                    },
                );
            },
        };
        if event::bytes_is(name, "READY") {
            let d = match frame_payload_range(payload, scan) {
                Some(d) => d,
                None => {
                    return Err(ProcessError { kind: ProcessErrorType::ParsingPayload });
                },
            };
            let key = ("session_id").as_bytes_vec();
            let field = match codec::payload_field(payload, d.0, d.1, &key) {
                Some(f) => f,
                None => {
                    return Err(ProcessError { kind: ProcessErrorType::ParsingPayload });
                },
            };
            let session_id = match codec::string_value(payload, field.0, field.1) {
                Some(v) => v,
                None => {
                    return Err(ProcessError { kind: ProcessErrorType::ParsingPayload });
                },
            };
            self.process_ready(session_id, seqn);
            let bytes = codec::copy_range(payload, d.0, d.1);
            self.out.push(
                Action::Emit(Event::Ready(event::OpaquePayload { bytes })),
            );
            return Ok(());
        }
        if event::bytes_is(name, "RESUMED") {
            self.process_resumed(seqn);
            self.out.push(Action::Emit(Event::Resumed));
            return Ok(());
        }
        self.session.set_seq(seqn);
        let kind = match event::name_kind(name) {
            Some(k) => k,
            None => {
                let name_copy = codec::copy_range(name, 0, name.len());
                return Err(
                    ProcessError {
                        kind: ProcessErrorType::EventTypeUnknown {
                            event_type: Some(name_copy),
                            op,
                        },
                    },
                );
            },
        };
        let d = match frame_payload_range(payload, scan) {
            Some(d) => d,
            None => {
                return Err(ProcessError { kind: ProcessErrorType::ParsingPayload });
            },
        };
        let bytes = codec::copy_range(payload, d.0, d.1);
        proof {
            event::lemma_name_kind_is_dispatch(name@);
        }
        match event::dispatch_of_kind(kind, bytes) {
            Some(ev) => {
                proof {
                    event::lemma_dispatch_event_roundtrip(ev);
                }
                self.out.push(Action::Emit(Event::from_dispatch(Box::new(ev))));
                Ok(())
            },
            None => {
                proof {
                    assert(false);
                }
                Err(ProcessError { kind: ProcessErrorType::ParsingPayload })
            },
        }
    }
}

/// After a non-resumable invalidation the shard performs a full
/// reconnect, which installs a brand-new session outside the resuming
/// stage; on such a session `HELLO` always answers with an identify and
/// never with a resume, as the contract of `process_hello` states.
pub proof fn law_identify_after_invalidation(p: &ShardProcessor)
    requires
        p.session.stage != (Stage::Resuming),
    ensures
        spec_fresh_for_identify(p),
{
}

} // verus!
