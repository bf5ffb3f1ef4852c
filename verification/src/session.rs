//! The per-shard gateway session state machine: connect, identify,
//! heartbeat, resume/reconnect, and close-code handling, as one total
//! step function from state and input to next state and effects.

use vstd::prelude::*;
use crate::protocol::{
    close_classification, is_terminal_close_code, CloseAction, EnvelopeData, GatewayPayload,
    OpCode,
};

verus! {

/// The lifecycle state of one shard's session.
#[derive(Clone, Copy, PartialEq, Eq, Structural, Debug)]
pub enum SessionState {
    /// Opening the transport.
    Connecting,
    /// Transport open, waiting for the server's Hello.
    AwaitingHello,
    /// Hello received; the session is identifying or resuming.
    Identifying,
    /// Handshake acknowledged; receiving events.
    Connected,
    /// Torn down, waiting to reopen the transport; `resume` says
    /// whether the next handshake may Resume the prior session.
    Reconnecting { resume: bool },
    /// Terminal: the session is never retried.
    Closed,
}

/// One shard's session.
#[derive(Clone, Copy, PartialEq, Eq, Structural, Debug)]
pub struct ShardSession {
    pub shard_id: u64,
    pub total_shards: u64,
    /// Highest sequence number seen; reset on a fresh Identify.
    pub last_sequence: u64,
    /// Interval between heartbeats, learned from Hello.
    pub heartbeat_interval_ms: u64,
    /// Set when a heartbeat is sent, cleared by the server's ack.
    pub heartbeat_outstanding: bool,
    /// Whether a prior session's id and sequence are retained, so the
    /// next handshake may Resume instead of Identify.
    pub resumable: bool,
    pub state: SessionState,
}

impl ShardSession {
    /// A session as it stands before its first connection attempt.
    pub fn new(shard_id: u64, total_shards: u64) -> (s: ShardSession)
        requires
            shard_id < total_shards,
        ensures
            s == (ShardSession {
                shard_id,
                total_shards,
                last_sequence: 0,
                heartbeat_interval_ms: 0,
                heartbeat_outstanding: false,
                resumable: false,
                state: SessionState::Connecting,
            }),
    {
        ShardSession {
            shard_id,
            total_shards,
            last_sequence: 0,
            heartbeat_interval_ms: 0,
            heartbeat_outstanding: false,
            resumable: false,
            state: SessionState::Connecting,
        }
    }
}

/// What the session learns from outside between two steps.
pub enum SessionInput {
    /// The transport opened.
    TransportOpened,
    /// The transport could not be opened.
    TransportFailed,
    /// A decoded frame arrived.
    Envelope(GatewayPayload),
    /// The heartbeat interval elapsed.
    HeartbeatTick,
    /// The identify-rate gate granted this shard's bucket a slot.
    IdentifyGranted,
    /// The transport closed, with the close code if one was sent.
    TransportClosed(Option<u16>),
}

/// What the caller must do after one step.
pub struct StepEffects {
    /// Cancel the running heartbeat task, before anything else, so
    /// that a stale heartbeat never races a new connection.
    pub cancel_heartbeat: bool,
    /// Start a heartbeat task firing at this interval.
    pub start_heartbeat: Option<u64>,
    /// Ask the cluster's identify-rate gate for a slot.
    pub request_identify_slot: bool,
    /// Send an Identify frame.
    pub send_identify: bool,
    /// Send a Resume frame.
    pub send_resume: bool,
    /// Send a heartbeat frame carrying this sequence number.
    pub send_heartbeat: Option<u64>,
    /// Hand this dispatched event to the cluster fan-in.
    pub emit: Option<GatewayPayload>,
    /// Retry opening the transport, with backoff.
    pub retry_connect: bool,
    /// Escalate a terminal failure to the cluster.
    pub fatal: bool,
}

/// No effects.
pub open spec fn fx_none() -> StepEffects {
    StepEffects {
        cancel_heartbeat: false,
        start_heartbeat: None,
        request_identify_slot: false,
        send_identify: false,
        send_resume: false,
        send_heartbeat: None,
        emit: None,
        retry_connect: false,
        fatal: false,
    }
}

/// The state and effects after the transport closed on a handshaking
/// or connected session: the close code decides between a fatal stop,
/// a fresh reconnect, and a resumed reconnect; a close without a code
/// is a plain disconnect, resumable if a session is retained.
pub open spec fn closed_transition(s: ShardSession, code: Option<u16>) -> (ShardSession,
    StepEffects) {
    let action = match code {
        Some(c) => close_classification(c),
        None => CloseAction::ReconnectResume,
    };
    match action {
        CloseAction::Fatal => (
            ShardSession { state: SessionState::Closed, ..s },
            StepEffects { cancel_heartbeat: true, fatal: true, ..fx_none() },
        ),
        CloseAction::ReconnectFresh => (
            ShardSession {
                state: SessionState::Reconnecting { resume: false },
                resumable: false,
                ..s
            },
            StepEffects { cancel_heartbeat: true, ..fx_none() },
        ),
        CloseAction::ReconnectResume => (
            ShardSession {
                state: SessionState::Reconnecting { resume: s.resumable },
                ..s
            },
            StepEffects { cancel_heartbeat: true, ..fx_none() },
        ),
    }
}

/// The state and effects after a heartbeat tick on a handshaking or
/// connected session: a tick that finds the previous heartbeat still
/// unacknowledged marks a zombie connection and forces a reconnect;
/// otherwise a heartbeat goes out carrying the current sequence.
pub open spec fn heartbeat_transition(s: ShardSession) -> (ShardSession, StepEffects) {
    if s.heartbeat_outstanding {
        (
            ShardSession { state: SessionState::Reconnecting { resume: s.resumable }, ..s },
            StepEffects { cancel_heartbeat: true, ..fx_none() },
        )
    } else {
        (
            ShardSession { heartbeat_outstanding: true, ..s },
            StepEffects { send_heartbeat: Some(s.last_sequence), ..fx_none() },
        )
    }
}

/// The sequence number after a Dispatch frame: it only ever moves
/// forward.
pub open spec fn next_sequence(current: u64, seen: Option<u64>) -> u64 {
    match seen {
        Some(n) => if n > current {
            n
        } else {
            current
        },
        None => current,
    }
}

/// One step of the session state machine.
pub open spec fn spec_step(s: ShardSession, input: SessionInput) -> (ShardSession, StepEffects) {
    match s.state {
        SessionState::Connecting => match input {
            SessionInput::TransportOpened => (
                ShardSession { state: SessionState::AwaitingHello, ..s },
                fx_none(),
            ),
            SessionInput::TransportFailed => (s, StepEffects { retry_connect: true, ..fx_none() }),
            _ => (s, fx_none()),
        },
        SessionState::AwaitingHello => match input {
            SessionInput::Envelope(p) => match p.data {
                EnvelopeData::Hello { heartbeat_interval_ms } if p.op == OpCode::Hello => (
                    ShardSession {
                        heartbeat_interval_ms,
                        state: SessionState::Identifying,
                        ..s
                    },
                    StepEffects {
                        cancel_heartbeat: true,
                        start_heartbeat: Some(heartbeat_interval_ms),
                        request_identify_slot: !s.resumable,
                        send_resume: s.resumable,
                        ..fx_none()
                    },
                ),
                _ => (s, fx_none()),
            },
            SessionInput::TransportClosed(code) => closed_transition(s, code),
            SessionInput::TransportFailed => closed_transition(s, None),
            _ => (s, fx_none()),
        },
        SessionState::Identifying => match input {
            SessionInput::IdentifyGranted => (
                s,
                StepEffects { send_identify: !s.resumable, ..fx_none() },
            ),
            SessionInput::Envelope(p) => match p.op {
                OpCode::Dispatch => (
                    ShardSession {
                        last_sequence: next_sequence(s.last_sequence, p.sequence),
                        resumable: true,
                        state: SessionState::Connected,
                        ..s
                    },
                    StepEffects { emit: Some(p), ..fx_none() },
                ),
                OpCode::HeartbeatAck => (
                    ShardSession { heartbeat_outstanding: false, ..s },
                    fx_none(),
                ),
                OpCode::Reconnect => (
                    ShardSession {
                        state: SessionState::Reconnecting { resume: true },
                        resumable: true,
                        ..s
                    },
                    StepEffects { cancel_heartbeat: true, ..fx_none() },
                ),
                OpCode::InvalidSession => (
                    ShardSession {
                        state: SessionState::Reconnecting { resume: invalid_session_resumable(p) },
                        resumable: invalid_session_resumable(p),
                        ..s
                    },
                    StepEffects { cancel_heartbeat: true, ..fx_none() },
                ),
                OpCode::Hello => (
                    ShardSession {
                        state: SessionState::Reconnecting { resume: s.resumable },
                        ..s
                    },
                    StepEffects { cancel_heartbeat: true, ..fx_none() },
                ),
                _ => (s, fx_none()),
            },
            SessionInput::HeartbeatTick => heartbeat_transition(s),
            SessionInput::TransportClosed(code) => closed_transition(s, code),
            SessionInput::TransportFailed => closed_transition(s, None),
            _ => (s, fx_none()),
        },
        SessionState::Connected => match input {
            SessionInput::Envelope(p) => match p.op {
                OpCode::Dispatch => (
                    ShardSession {
                        last_sequence: next_sequence(s.last_sequence, p.sequence),
                        ..s
                    },
                    StepEffects { emit: Some(p), ..fx_none() },
                ),
                OpCode::HeartbeatAck => (
                    ShardSession { heartbeat_outstanding: false, ..s },
                    fx_none(),
                ),
                OpCode::Reconnect => (
                    ShardSession {
                        state: SessionState::Reconnecting { resume: true },
                        resumable: true,
                        ..s
                    },
                    StepEffects { cancel_heartbeat: true, ..fx_none() },
                ),
                OpCode::InvalidSession => (
                    ShardSession {
                        state: SessionState::Reconnecting { resume: invalid_session_resumable(p) },
                        resumable: invalid_session_resumable(p),
                        ..s
                    },
                    StepEffects { cancel_heartbeat: true, ..fx_none() },
                ),
                OpCode::Hello => (
                    ShardSession {
                        state: SessionState::Reconnecting { resume: s.resumable },
                        ..s
                    },
                    StepEffects { cancel_heartbeat: true, ..fx_none() },
                ),
                _ => (s, fx_none()),
            },
            SessionInput::HeartbeatTick => heartbeat_transition(s),
            SessionInput::TransportClosed(code) => closed_transition(s, code),
            SessionInput::TransportFailed => closed_transition(s, None),
            _ => (s, fx_none()),
        },
        SessionState::Reconnecting { resume } => match input {
            SessionInput::TransportOpened => (
                ShardSession {
                    state: SessionState::AwaitingHello,
                    resumable: resume,
                    last_sequence: if resume {
                        s.last_sequence
                    } else {
                        0
                    },
                    heartbeat_outstanding: false,
                    ..s
                },
                fx_none(),
            ),
            SessionInput::TransportFailed => (s, StepEffects { retry_connect: true, ..fx_none() }),
            _ => (s, fx_none()),
        },
        SessionState::Closed => (s, fx_none()),
    }
}

/// The resumability flag an InvalidSession frame carries; a frame
/// without one means the session cannot be resumed.
pub open spec fn invalid_session_resumable(p: GatewayPayload) -> bool {
    match p.data {
        EnvelopeData::Flag(b) => b,
        _ => false,
    }
}

impl ShardSession {
    /// Advances the session by one input and returns what the caller
    /// must do; the step function is total, and a step never changes
    /// which shard the session serves.
    pub fn step(&mut self, input: SessionInput) -> (fx: StepEffects)
        ensures
            (*final(self), fx) == spec_step(*old(self), input),
            final(self).shard_id == old(self).shard_id,
            final(self).total_shards == old(self).total_shards,
    {
        let s = *self;
        let (next, fx): (ShardSession, StepEffects) = match s.state {
            SessionState::Connecting => match input {
                SessionInput::TransportOpened => (
                    ShardSession { state: SessionState::AwaitingHello, ..s },
                    fx_none_exec(),
                ),
                SessionInput::TransportFailed => (
                    s,
                    StepEffects { retry_connect: true, ..fx_none_exec() },
                ),
                _ => (s, fx_none_exec()),
            },
            SessionState::AwaitingHello => match input {
                SessionInput::Envelope(p) => match p.data {
                    EnvelopeData::Hello { heartbeat_interval_ms } if matches!(
                        p.op,
                        OpCode::Hello
                    ) => (
                        ShardSession {
                            heartbeat_interval_ms,
                            state: SessionState::Identifying,
                            ..s
                        },
                        StepEffects {
                            cancel_heartbeat: true,
                            start_heartbeat: Some(heartbeat_interval_ms),
                            request_identify_slot: !s.resumable,
                            send_resume: s.resumable,
                            ..fx_none_exec()
                        },
                    ),
                    _ => (s, fx_none_exec()),
                },
                SessionInput::TransportClosed(code) => closed_step(s, code),
                SessionInput::TransportFailed => closed_step(s, None),
                _ => (s, fx_none_exec()),
            },
            SessionState::Identifying => match input {
                SessionInput::IdentifyGranted => (
                    s,
                    StepEffects { send_identify: !s.resumable, ..fx_none_exec() },
                ),
                SessionInput::Envelope(p) => match p.op {
                    OpCode::Dispatch => (
                        ShardSession {
                            last_sequence: advance_sequence(s.last_sequence, &p.sequence),
                            resumable: true,
                            state: SessionState::Connected,
                            ..s
                        },
                        StepEffects { emit: Some(p), ..fx_none_exec() },
                    ),
                    OpCode::HeartbeatAck => (
                        ShardSession { heartbeat_outstanding: false, ..s },
                        fx_none_exec(),
                    ),
                    OpCode::Reconnect => (
                        ShardSession {
                            state: SessionState::Reconnecting { resume: true },
                            resumable: true,
                            ..s
                        },
                        StepEffects { cancel_heartbeat: true, ..fx_none_exec() },
                    ),
                    OpCode::InvalidSession => {
                        let flag = invalid_session_flag(&p);
                        (
                            ShardSession {
                                state: SessionState::Reconnecting { resume: flag },
                                resumable: flag,
                                ..s
                            },
                            StepEffects { cancel_heartbeat: true, ..fx_none_exec() },
                        )
                    },
                    OpCode::Hello => (
                        ShardSession {
                            state: SessionState::Reconnecting { resume: s.resumable },
                            ..s
                        },
                        StepEffects { cancel_heartbeat: true, ..fx_none_exec() },
                    ),
                    _ => (s, fx_none_exec()),
                },
                SessionInput::HeartbeatTick => heartbeat_step(s),
                SessionInput::TransportClosed(code) => closed_step(s, code),
                SessionInput::TransportFailed => closed_step(s, None),
                _ => (s, fx_none_exec()),
            },
            SessionState::Connected => match input {
                SessionInput::Envelope(p) => match p.op {
                    OpCode::Dispatch => (
                        ShardSession {
                            last_sequence: advance_sequence(s.last_sequence, &p.sequence),
                            ..s
                        },
                        StepEffects { emit: Some(p), ..fx_none_exec() },
                    ),
                    OpCode::HeartbeatAck => (
                        ShardSession { heartbeat_outstanding: false, ..s },
                        fx_none_exec(),
                    ),
                    OpCode::Reconnect => (
                        ShardSession {
                            state: SessionState::Reconnecting { resume: true },
                            resumable: true,
                            ..s
                        },
                        StepEffects { cancel_heartbeat: true, ..fx_none_exec() },
                    ),
                    OpCode::InvalidSession => {
                        let flag = invalid_session_flag(&p);
                        (
                            ShardSession {
                                state: SessionState::Reconnecting { resume: flag },
                                resumable: flag,
                                ..s
                            },
                            StepEffects { cancel_heartbeat: true, ..fx_none_exec() },
                        )
                    },
                    OpCode::Hello => (
                        ShardSession {
                            state: SessionState::Reconnecting { resume: s.resumable },
                            ..s
                        },
                        StepEffects { cancel_heartbeat: true, ..fx_none_exec() },
                    ),
                    _ => (s, fx_none_exec()),
                },
                SessionInput::HeartbeatTick => heartbeat_step(s),
                SessionInput::TransportClosed(code) => closed_step(s, code),
                SessionInput::TransportFailed => closed_step(s, None),
                _ => (s, fx_none_exec()),
            },
            SessionState::Reconnecting { resume } => match input {
                SessionInput::TransportOpened => (
                    ShardSession {
                        state: SessionState::AwaitingHello,
                        resumable: resume,
                        last_sequence: if resume {
                            s.last_sequence
                        } else {
                            0
                        },
                        heartbeat_outstanding: false,
                        ..s
                    },
                    fx_none_exec(),
                ),
                SessionInput::TransportFailed => (
                    s,
                    StepEffects { retry_connect: true, ..fx_none_exec() },
                ),
                _ => (s, fx_none_exec()),
            },
            SessionState::Closed => (s, fx_none_exec()),
        };
        *self = next;
        fx
    }
}

/// No effects.
fn fx_none_exec() -> (fx: StepEffects)
    ensures
        fx == fx_none(),
{
    StepEffects {
        cancel_heartbeat: false,
        start_heartbeat: None,
        request_identify_slot: false,
        send_identify: false,
        send_resume: false,
        send_heartbeat: None,
        emit: None,
        retry_connect: false,
        fatal: false,
    }
}

/// The transport closed: classify the code and tear down or schedule
/// the reconnect.
fn closed_step(s: ShardSession, code: Option<u16>) -> (r: (ShardSession, StepEffects))
    ensures
        r == closed_transition(s, code),
{
    let action = match code {
        Some(c) => crate::protocol::classify_close(c),
        None => CloseAction::ReconnectResume,
    };
    match action {
        CloseAction::Fatal => (
            ShardSession { state: SessionState::Closed, ..s },
            StepEffects { cancel_heartbeat: true, fatal: true, ..fx_none_exec() },
        ),
        CloseAction::ReconnectFresh => (
            ShardSession {
                state: SessionState::Reconnecting { resume: false },
                resumable: false,
                ..s
            },
            StepEffects { cancel_heartbeat: true, ..fx_none_exec() },
        ),
        CloseAction::ReconnectResume => (
            ShardSession {
                state: SessionState::Reconnecting { resume: s.resumable },
                ..s
            },
            StepEffects { cancel_heartbeat: true, ..fx_none_exec() },
        ),
    }
}

/// A heartbeat tick: zombie detection, or a heartbeat out the door.
fn heartbeat_step(s: ShardSession) -> (r: (ShardSession, StepEffects))
    ensures
        r == heartbeat_transition(s),
{
    if s.heartbeat_outstanding {
        (
            ShardSession { state: SessionState::Reconnecting { resume: s.resumable }, ..s },
            StepEffects { cancel_heartbeat: true, ..fx_none_exec() },
        )
    } else {
        (
            ShardSession { heartbeat_outstanding: true, ..s },
            StepEffects { send_heartbeat: Some(s.last_sequence), ..fx_none_exec() },
        )
    }
}

/// The sequence number a Dispatch frame leaves behind.
fn advance_sequence(current: u64, seen: &Option<u64>) -> (n: u64)
    ensures
        n == next_sequence(current, *seen),
{
    match seen {
        Some(v) => if *v > current {
            *v
        } else {
            current
        },
        None => current,
    }
}

/// The resumability flag of an InvalidSession frame.
fn invalid_session_flag(p: &GatewayPayload) -> (b: bool)
    ensures
        b == invalid_session_resumable(*p),
{
    match p.data {
        EnvelopeData::Flag(b) => b,
        _ => false,
    }
}

/// A heartbeat tick that finds the previous heartbeat unacknowledged
/// forces a reconnect and sends nothing: zombie connections never
/// heartbeat on.
pub proof fn lemma_zombie_forces_reconnect(s: ShardSession)
    requires
        s.state == SessionState::Connected || s.state == SessionState::Identifying,
        s.heartbeat_outstanding,
    ensures
        spec_step(s, SessionInput::HeartbeatTick).0.state matches SessionState::Reconnecting {
            resume: _ },
        spec_step(s, SessionInput::HeartbeatTick).1.send_heartbeat is None,
{
}

/// Two heartbeat ticks with no ack in between force a reconnect: the
/// first tick leaves a heartbeat outstanding, the second finds it.
pub proof fn lemma_two_ticks_without_ack(s: ShardSession)
    requires
        s.state == SessionState::Connected,
        !s.heartbeat_outstanding,
    ensures
        ({
            let s1 = spec_step(s, SessionInput::HeartbeatTick).0;
            spec_step(s1, SessionInput::HeartbeatTick).0.state matches SessionState::Reconnecting {
                resume: _ }
        }),
{
}

/// A terminal close code drives the session to its terminal state and
/// escalates a fatal failure; it never schedules a reconnect, resumed
/// or fresh. Every other close code schedules a reconnect and is not
/// fatal.
pub proof fn lemma_terminal_close_is_final(s: ShardSession, code: u16)
    requires
        s.state == SessionState::AwaitingHello || s.state == SessionState::Identifying || s.state
            == SessionState::Connected,
    ensures
        ({
            let (next, fx) = spec_step(s, SessionInput::TransportClosed(Some(code)));
            &&& is_terminal_close_code(code) ==> next.state == SessionState::Closed && fx.fatal
            &&& !is_terminal_close_code(code) ==> (next.state matches SessionState::Reconnecting {
                resume: _ }) && !fx.fatal
        }),
{
}

/// While a session stays connected, its sequence number never
/// decreases.
pub proof fn lemma_sequence_monotonic(s: ShardSession, input: SessionInput)
    requires
        s.state == SessionState::Connected,
        spec_step(s, input).0.state == SessionState::Connected,
    ensures
        spec_step(s, input).0.last_sequence >= s.last_sequence,
{
}

} // verus!
