use rateway::protocol::{EnvelopeData, GatewayPayload, OpCode};
use rateway::session::{SessionInput, SessionState, ShardSession};

fn hello(interval: u64) -> SessionInput {
    SessionInput::Envelope(GatewayPayload {
        op: OpCode::Hello,
        data: EnvelopeData::Hello {
            heartbeat_interval_ms: interval,
        },
        sequence: None,
        event_type: None,
    })
}

fn dispatch(sequence: Option<u64>, event_type: &str) -> SessionInput {
    SessionInput::Envelope(GatewayPayload {
        op: OpCode::Dispatch,
        data: EnvelopeData::Raw(vec![123, 125]),
        sequence,
        event_type: Some(String::from(event_type)),
    })
}

fn connected_session() -> ShardSession {
    let mut s = ShardSession::new(0, 2);
    s.step(SessionInput::TransportOpened);
    s.step(hello(41250));
    s.step(SessionInput::IdentifyGranted);
    s.step(dispatch(Some(1), "READY"));
    assert_eq!(s.state, SessionState::Connected);
    s
}

#[test]
fn handshake_reaches_connected() {
    let mut s = ShardSession::new(0, 2);
    assert_eq!(s.state, SessionState::Connecting);
    let fx = s.step(SessionInput::TransportOpened);
    assert_eq!(s.state, SessionState::AwaitingHello);
    assert!(!fx.cancel_heartbeat && fx.start_heartbeat.is_none());

    let fx = s.step(hello(41250));
    assert_eq!(s.state, SessionState::Identifying);
    assert_eq!(s.heartbeat_interval_ms, 41250);
    assert!(fx.cancel_heartbeat);
    assert_eq!(fx.start_heartbeat, Some(41250));
    assert!(fx.request_identify_slot);
    assert!(!fx.send_resume);

    let fx = s.step(SessionInput::IdentifyGranted);
    assert!(fx.send_identify);

    let fx = s.step(dispatch(Some(1), "READY"));
    assert_eq!(s.state, SessionState::Connected);
    assert_eq!(s.last_sequence, 1);
    assert!(fx.emit.is_some());
}

#[test]
fn zombie_two_ticks_without_ack_reconnects() {
    let mut s = connected_session();
    let fx = s.step(SessionInput::HeartbeatTick);
    assert_eq!(fx.send_heartbeat, Some(1));
    assert!(s.heartbeat_outstanding);
    assert_eq!(s.state, SessionState::Connected);

    let fx = s.step(SessionInput::HeartbeatTick);
    assert!(fx.send_heartbeat.is_none());
    assert!(fx.cancel_heartbeat);
    assert_eq!(s.state, SessionState::Reconnecting { resume: true });
}

#[test]
fn ack_between_ticks_keeps_heartbeating() {
    let mut s = connected_session();
    s.step(SessionInput::HeartbeatTick);
    let fx = s.step(SessionInput::Envelope(GatewayPayload {
        op: OpCode::HeartbeatAck,
        data: EnvelopeData::Absent,
        sequence: None,
        event_type: None,
    }));
    assert!(!s.heartbeat_outstanding);
    assert!(fx.send_heartbeat.is_none());
    let fx = s.step(SessionInput::HeartbeatTick);
    assert_eq!(fx.send_heartbeat, Some(1));
    assert_eq!(s.state, SessionState::Connected);
}

#[test]
fn sequence_never_decreases_while_connected() {
    let mut s = connected_session();
    s.step(dispatch(Some(9), "MESSAGE_CREATE"));
    assert_eq!(s.last_sequence, 9);
    s.step(dispatch(Some(4), "MESSAGE_CREATE"));
    assert_eq!(s.last_sequence, 9);
    s.step(dispatch(None, "MESSAGE_CREATE"));
    assert_eq!(s.last_sequence, 9);
    s.step(dispatch(Some(10), "MESSAGE_CREATE"));
    assert_eq!(s.last_sequence, 10);
}

#[test]
fn terminal_close_codes_end_the_session() {
    for code in [4004u16, 4010, 4011, 4012, 4013, 4014] {
        let mut s = connected_session();
        let fx = s.step(SessionInput::TransportClosed(Some(code)));
        assert_eq!(s.state, SessionState::Closed, "code {code}");
        assert!(fx.fatal, "code {code}");
        // Terminal is terminal: further inputs change nothing.
        let fx = s.step(SessionInput::TransportOpened);
        assert_eq!(s.state, SessionState::Closed);
        assert!(!fx.fatal && !fx.retry_connect);
    }
}

#[test]
fn non_terminal_close_codes_reconnect() {
    for code in [4000u16, 4001, 4002, 4003, 4005, 4007, 4008, 4009] {
        let mut s = connected_session();
        let fx = s.step(SessionInput::TransportClosed(Some(code)));
        assert_eq!(s.state, SessionState::Reconnecting { resume: false }, "code {code}");
        assert!(!fx.fatal, "code {code}");
    }
    for code in [1000u16, 1001, 1006, 4006] {
        let mut s = connected_session();
        let fx = s.step(SessionInput::TransportClosed(Some(code)));
        assert_eq!(s.state, SessionState::Reconnecting { resume: true }, "code {code}");
        assert!(!fx.fatal, "code {code}");
    }
}

#[test]
fn resume_skips_identify_gate() {
    let mut s = connected_session();
    s.step(dispatch(Some(7), "MESSAGE_CREATE"));
    s.step(SessionInput::TransportClosed(Some(1001)));
    assert_eq!(s.state, SessionState::Reconnecting { resume: true });

    s.step(SessionInput::TransportOpened);
    assert_eq!(s.state, SessionState::AwaitingHello);
    assert_eq!(s.last_sequence, 7, "a resumed session keeps its sequence");

    let fx = s.step(hello(41250));
    assert!(fx.send_resume);
    assert!(!fx.request_identify_slot);
}

#[test]
fn fresh_reconnect_clears_sequence() {
    let mut s = connected_session();
    s.step(dispatch(Some(7), "MESSAGE_CREATE"));
    s.step(SessionInput::TransportClosed(Some(4009)));
    assert_eq!(s.state, SessionState::Reconnecting { resume: false });

    s.step(SessionInput::TransportOpened);
    assert_eq!(s.last_sequence, 0, "a fresh identify starts the sequence over");

    let fx = s.step(hello(41250));
    assert!(!fx.send_resume);
    assert!(fx.request_identify_slot);
}

#[test]
fn reconnect_opcode_resumes() {
    let mut s = connected_session();
    let fx = s.step(SessionInput::Envelope(GatewayPayload {
        op: OpCode::Reconnect,
        data: EnvelopeData::Absent,
        sequence: None,
        event_type: None,
    }));
    assert!(fx.cancel_heartbeat);
    assert_eq!(s.state, SessionState::Reconnecting { resume: true });
}

#[test]
fn invalid_session_resumability_follows_flag() {
    let mut s = connected_session();
    s.step(SessionInput::Envelope(GatewayPayload {
        op: OpCode::InvalidSession,
        data: EnvelopeData::Flag(true),
        sequence: None,
        event_type: None,
    }));
    assert_eq!(s.state, SessionState::Reconnecting { resume: true });

    let mut s = connected_session();
    s.step(SessionInput::Envelope(GatewayPayload {
        op: OpCode::InvalidSession,
        data: EnvelopeData::Flag(false),
        sequence: None,
        event_type: None,
    }));
    assert_eq!(s.state, SessionState::Reconnecting { resume: false });
}

#[test]
fn connect_failure_retries() {
    let mut s = ShardSession::new(1, 2);
    let fx = s.step(SessionInput::TransportFailed);
    assert!(fx.retry_connect);
    assert_eq!(s.state, SessionState::Connecting);
}
