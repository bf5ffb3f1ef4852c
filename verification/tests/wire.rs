use rateway::config::{config_from_env_parts, total_shard_count};
use rateway::protocol::{
    classify_close, heartbeat_payload, opcode_from_u8, opcode_to_u8, CloseAction, EnvelopeData,
    OpCode,
};
use rateway::text::{u64_to_decimal, u64_to_string};

#[test]
fn opcode_values_round_trip() {
    let table: [(OpCode, u8); 11] = [
        (OpCode::Dispatch, 0),
        (OpCode::Heartbeat, 1),
        (OpCode::Identify, 2),
        (OpCode::PresenceUpdate, 3),
        (OpCode::VoiceStateUpdate, 4),
        (OpCode::Resume, 6),
        (OpCode::Reconnect, 7),
        (OpCode::RequestGuildMembers, 8),
        (OpCode::InvalidSession, 9),
        (OpCode::Hello, 10),
        (OpCode::HeartbeatAck, 11),
    ];
    for (op, n) in table {
        assert_eq!(opcode_to_u8(op), n);
        assert_eq!(opcode_from_u8(n), Some(op));
    }
    assert_eq!(opcode_from_u8(5), None);
    assert_eq!(opcode_from_u8(12), None);
    assert_eq!(opcode_from_u8(255), None);
}

#[test]
fn close_code_classification_table() {
    for code in [4004u16, 4010, 4011, 4012, 4013, 4014] {
        assert_eq!(classify_close(code), CloseAction::Fatal, "code {code}");
    }
    for code in [4000u16, 4001, 4002, 4003, 4005, 4007, 4008, 4009] {
        assert_eq!(classify_close(code), CloseAction::ReconnectFresh, "code {code}");
    }
    for code in [1000u16, 1001, 1006, 1012, 4006, 4015] {
        assert_eq!(classify_close(code), CloseAction::ReconnectResume, "code {code}");
    }
}

#[test]
fn heartbeat_frame_carries_the_sequence() {
    let p = heartbeat_payload(123);
    assert!(matches!(p.op, OpCode::Heartbeat));
    match p.data {
        EnvelopeData::Raw(b) => assert_eq!(b, b"123".to_vec()),
        _ => panic!("heartbeat data is the sequence in decimal"),
    }
    assert_eq!(p.sequence, None);
    assert_eq!(p.event_type, None);
}

#[test]
fn decimal_rendering() {
    assert_eq!(u64_to_decimal(0), b"0".to_vec());
    assert_eq!(u64_to_decimal(9), b"9".to_vec());
    assert_eq!(u64_to_decimal(10), b"10".to_vec());
    assert_eq!(u64_to_decimal(98765), b"98765".to_vec());
    assert_eq!(u64_to_decimal(u64::MAX), b"18446744073709551615".to_vec());
    assert_eq!(u64_to_string(305), "305");
    assert_eq!(u64_to_string(0), "0");
}

#[test]
fn env_config_defaults() {
    let c = config_from_env_parts(
        String::from("tok"),
        String::from("amqp://localhost"),
        512,
        None,
        None,
        None,
    );
    assert_eq!(c.token, "tok");
    assert_eq!(c.amqp, "amqp://localhost");
    assert_eq!(c.intents, 512);
    assert_eq!(c.shards.per_cluster, 8);
    assert_eq!(c.shards.extra, 8);
    assert!(c.cache_enabled);

    let c = config_from_env_parts(
        String::from("tok"),
        String::from("uri"),
        0,
        Some(16),
        Some(2),
        Some(false),
    );
    assert_eq!(c.shards.per_cluster, 16);
    assert_eq!(c.shards.extra, 2);
    assert!(!c.cache_enabled);
}

#[test]
fn total_shards_is_recommendation_plus_extra() {
    assert_eq!(total_shard_count(12, 8), 20);
    assert_eq!(total_shard_count(0, 0), 0);
}
