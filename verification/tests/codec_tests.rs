use p2p_session::codec::{decode, encode, CodecError, GameState, NetworkMessage};

fn round_trips(m: NetworkMessage) -> NetworkMessage {
    let bytes = encode(&m).expect("encoding must succeed");
    decode(&bytes).expect("decoding an encoding must succeed")
}

#[test]
fn chat_round_trip() {
    match round_trips(NetworkMessage::Chat("hello there".to_owned())) {
        NetworkMessage::Chat(t) => assert_eq!(t, "hello there"),
        other => panic!("wrong variant: {:?}", other),
    }
}

#[test]
fn chat_round_trip_unicode() {
    match round_trips(NetworkMessage::Chat("grüße, 世界 🌍".to_owned())) {
        NetworkMessage::Chat(t) => assert_eq!(t, "grüße, 世界 🌍"),
        other => panic!("wrong variant: {:?}", other),
    }
}

#[test]
fn chat_round_trip_empty() {
    match round_trips(NetworkMessage::Chat(String::new())) {
        NetworkMessage::Chat(t) => assert_eq!(t, ""),
        other => panic!("wrong variant: {:?}", other),
    }
}

#[test]
fn game_state_round_trip() {
    let g = GameState {
        player_id: "player-7".to_owned(),
        pos_x_bits: 0x4316_8000,
        pos_y_bits: 0x4396_0000,
        timestamp: 1_234_567_890_123,
        sequence: 42,
    };
    match round_trips(NetworkMessage::GameState(g)) {
        NetworkMessage::GameState(out) => {
            assert_eq!(out.player_id, "player-7");
            assert_eq!(out.pos_x_bits, 0x4316_8000);
            assert_eq!(out.pos_y_bits, 0x4396_0000);
            assert_eq!(out.timestamp, 1_234_567_890_123);
            assert_eq!(out.sequence, 42);
        }
        other => panic!("wrong variant: {:?}", other),
    }
}

#[test]
fn control_messages_round_trip() {
    assert!(matches!(round_trips(NetworkMessage::Ping), NetworkMessage::Ping));
    assert!(matches!(round_trips(NetworkMessage::Pong), NetworkMessage::Pong));
    assert!(matches!(
        round_trips(NetworkMessage::Heartbeat),
        NetworkMessage::Heartbeat
    ));
    assert!(matches!(
        round_trips(NetworkMessage::ReconnectRequest),
        NetworkMessage::ReconnectRequest
    ));
    assert!(matches!(
        round_trips(NetworkMessage::ReconnectResponse),
        NetworkMessage::ReconnectResponse
    ));
}

#[test]
fn chat_wire_layout() {
    let bytes = encode(&NetworkMessage::Chat("hi".to_owned())).unwrap();
    assert_eq!(bytes, vec![0u8, 2, 0, 0, 0, b'h', b'i']);
}

#[test]
fn game_state_wire_layout() {
    let g = GameState {
        player_id: "ab".to_owned(),
        pos_x_bits: 1,
        pos_y_bits: 2,
        timestamp: 3,
        sequence: 4,
    };
    let bytes = encode(&NetworkMessage::GameState(g)).unwrap();
    let expected = vec![
        1u8, // tag
        2, 0, 0, 0, // id length
        b'a', b'b', // id
        1, 0, 0, 0, // x bits
        2, 0, 0, 0, // y bits
        3, 0, 0, 0, 0, 0, 0, 0, // timestamp
        4, 0, 0, 0, // sequence
    ];
    assert_eq!(bytes, expected);
}

#[test]
fn ping_wire_layout() {
    assert_eq!(encode(&NetworkMessage::Ping).unwrap(), vec![2u8]);
}

#[test]
fn decode_rejects_empty() {
    assert_eq!(decode(&[]).unwrap_err(), CodecError::Deserialization);
}

#[test]
fn decode_rejects_unknown_tag() {
    assert_eq!(decode(&[99u8]).unwrap_err(), CodecError::Deserialization);
}

#[test]
fn decode_rejects_truncated_chat() {
    // A chat header promising more bytes than arrive.
    assert_eq!(
        decode(&[0u8, 5, 0, 0, 0, b'h', b'i']).unwrap_err(),
        CodecError::Deserialization
    );
    // A chat too short even for its length field.
    assert_eq!(decode(&[0u8, 2, 0]).unwrap_err(), CodecError::Deserialization);
}

#[test]
fn decode_rejects_trailing_bytes_after_control() {
    assert_eq!(decode(&[2u8, 0]).unwrap_err(), CodecError::Deserialization);
}

#[test]
fn decode_rejects_invalid_utf8_payload() {
    // Tag, length 2, then two bytes that are no UTF-8 sequence.
    assert_eq!(
        decode(&[0u8, 2, 0, 0, 0, 0xff, 0xfe]).unwrap_err(),
        CodecError::Deserialization
    );
}

#[test]
fn decode_rejects_truncated_game_state() {
    // A game-state packet below its fixed minimum size.
    assert_eq!(
        decode(&[1u8, 0, 0, 0, 0, 1, 2, 3]).unwrap_err(),
        CodecError::Deserialization
    );
}
