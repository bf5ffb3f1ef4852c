//! The gateway wire protocol as the proxy sees it: opcodes, the
//! envelope that every frame decodes to, close-code classification,
//! and the heartbeat frame the proxy sends.

use vstd::prelude::*;
use crate::text::dec_digits;

verus! {

/// Gateway opcodes.
#[derive(Clone, Copy, PartialEq, Eq, Structural, Debug)]
pub enum OpCode {
    Dispatch,
    Heartbeat,
    Identify,
    PresenceUpdate,
    VoiceStateUpdate,
    Resume,
    Reconnect,
    RequestGuildMembers,
    InvalidSession,
    Hello,
    HeartbeatAck,
}

/// The numeric value an opcode carries on the wire.
pub open spec fn opcode_value(op: OpCode) -> u8 {
    match op {
        OpCode::Dispatch => 0,
        OpCode::Heartbeat => 1,
        OpCode::Identify => 2,
        OpCode::PresenceUpdate => 3,
        OpCode::VoiceStateUpdate => 4,
        OpCode::Resume => 6,
        OpCode::Reconnect => 7,
        OpCode::RequestGuildMembers => 8,
        OpCode::InvalidSession => 9,
        OpCode::Hello => 10,
        OpCode::HeartbeatAck => 11,
    }
}

/// The opcode a wire value decodes to, if any; 5 and everything past
/// 11 name no gateway opcode.
pub open spec fn opcode_of_value(n: u8) -> Option<OpCode> {
    if n == 0 {
        Some(OpCode::Dispatch)
    } else if n == 1 {
        Some(OpCode::Heartbeat)
    } else if n == 2 {
        Some(OpCode::Identify)
    } else if n == 3 {
        Some(OpCode::PresenceUpdate)
    } else if n == 4 {
        Some(OpCode::VoiceStateUpdate)
    } else if n == 6 {
        Some(OpCode::Resume)
    } else if n == 7 {
        Some(OpCode::Reconnect)
    } else if n == 8 {
        Some(OpCode::RequestGuildMembers)
    } else if n == 9 {
        Some(OpCode::InvalidSession)
    } else if n == 10 {
        Some(OpCode::Hello)
    } else if n == 11 {
        Some(OpCode::HeartbeatAck)
    } else {
        None
    }
}

/// Encodes an opcode to its wire value; decoding the result gives the
/// opcode back.
pub fn opcode_to_u8(op: OpCode) -> (n: u8)
    ensures
        n == opcode_value(op),
        opcode_of_value(n) == Some(op),
{
    match op {
        OpCode::Dispatch => 0,
        OpCode::Heartbeat => 1,
        OpCode::Identify => 2,
        OpCode::PresenceUpdate => 3,
        OpCode::VoiceStateUpdate => 4,
        OpCode::Resume => 6,
        OpCode::Reconnect => 7,
        OpCode::RequestGuildMembers => 8,
        OpCode::InvalidSession => 9,
        OpCode::Hello => 10,
        OpCode::HeartbeatAck => 11,
    }
}

/// Decodes a wire value to its opcode; an encoded result re-encodes to
/// the byte it came from.
pub fn opcode_from_u8(n: u8) -> (op: Option<OpCode>)
    ensures
        op == opcode_of_value(n),
        op matches Some(o) ==> opcode_value(o) == n,
{
    match n {
        0 => Some(OpCode::Dispatch),
        1 => Some(OpCode::Heartbeat),
        2 => Some(OpCode::Identify),
        3 => Some(OpCode::PresenceUpdate),
        4 => Some(OpCode::VoiceStateUpdate),
        6 => Some(OpCode::Resume),
        7 => Some(OpCode::Reconnect),
        8 => Some(OpCode::RequestGuildMembers),
        9 => Some(OpCode::InvalidSession),
        10 => Some(OpCode::Hello),
        11 => Some(OpCode::HeartbeatAck),
        _ => None,
    }
}

/// How a session reacts to the close code a connection ended with.
#[derive(Clone, Copy, PartialEq, Eq, Structural, Debug)]
pub enum CloseAction {
    /// Reconnect and Identify afresh: the prior session is lost.
    ReconnectFresh,
    /// Reconnect and Resume the prior session.
    ReconnectResume,
    /// Terminal: the session is never retried and the failure is
    /// escalated as fatal.
    Fatal,
}

/// The close codes after which the session must never be retried:
/// authentication failed, invalid shard, sharding required, invalid
/// API version, invalid intents, disallowed intents.
pub open spec fn is_terminal_close_code(code: u16) -> bool {
    code == 4004 || code == 4010 || code == 4011 || code == 4012 || code == 4013 || code == 4014
}

/// The close codes after which the prior session is lost and the next
/// connection must Identify afresh rather than Resume.
pub open spec fn is_session_lost_close_code(code: u16) -> bool {
    code == 4000 || code == 4001 || code == 4002 || code == 4003 || code == 4005 || code == 4007
        || code == 4008 || code == 4009
}

/// What a close code demands of the session: terminal codes are fatal,
/// session-losing codes force a fresh Identify, and every other code
/// (transport-level closes included) allows a Resume.
pub open spec fn close_classification(code: u16) -> CloseAction {
    if is_terminal_close_code(code) {
        CloseAction::Fatal
    } else if is_session_lost_close_code(code) {
        CloseAction::ReconnectFresh
    } else {
        CloseAction::ReconnectResume
    }
}

/// Classifies a close code.
pub fn classify_close(code: u16) -> (a: CloseAction)
    ensures
        a == close_classification(code),
{
    if code == 4004 || code == 4010 || code == 4011 || code == 4012 || code == 4013 || code
        == 4014 {
        CloseAction::Fatal
    } else if code == 4000 || code == 4001 || code == 4002 || code == 4003 || code == 4005 || code
        == 4007 || code == 4008 || code == 4009 {
        CloseAction::ReconnectFresh
    } else {
        CloseAction::ReconnectResume
    }
}

/// A terminal close code is never answered with a reconnect, resumed
/// or fresh; every other close code is.
pub proof fn lemma_terminal_close_never_reconnects(code: u16)
    ensures
        is_terminal_close_code(code) <==> close_classification(code) == CloseAction::Fatal,
        !is_terminal_close_code(code) ==> close_classification(code) == CloseAction::ReconnectFresh
            || close_classification(code) == CloseAction::ReconnectResume,
{
}

/// What the `d` field of a wire envelope carries, reduced to the
/// values the proxy itself reads.
pub enum EnvelopeData {
    /// No payload.
    Absent,
    /// A payload the proxy forwards without reading: the raw bytes of
    /// its wire form.
    Raw(Vec<u8>),
    /// The one field of a Hello payload the proxy reads.
    Hello { heartbeat_interval_ms: u64 },
    /// The resumability flag an InvalidSession payload carries.
    Flag(bool),
}

/// One unit of the gateway wire protocol:
/// `{op, d: data, s: sequence, t: event_type}`.
pub struct GatewayPayload {
    pub op: OpCode,
    pub data: EnvelopeData,
    pub sequence: Option<u64>,
    pub event_type: Option<String>,
}

/// Builds the heartbeat frame: opcode Heartbeat, carrying the last
/// seen sequence number in decimal as its payload, nothing else.
pub fn heartbeat_payload(last_sequence: u64) -> (p: GatewayPayload)
    ensures
        p.op == OpCode::Heartbeat,
        p.data matches EnvelopeData::Raw(b) && b@ == dec_digits(last_sequence as nat),
        p.sequence is None,
        p.event_type is None,
{
    GatewayPayload {
        op: OpCode::Heartbeat,
        data: EnvelopeData::Raw(crate::text::u64_to_decimal(last_sequence)),
        sequence: None,
        event_type: None,
    }
}

} // verus!
