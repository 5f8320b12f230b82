//! The message codec: the typed message enum of the session and its wire
//! format, with a proved encode/decode round trip.
//!
//! A message goes on the wire as one tag byte followed by the variant's
//! payload.  String payloads are carried as a 32-bit little-endian byte
//! length followed by their UTF-8 bytes.

use crate::bytes::{
    append_bytes, read_u32_le, read_u64_le, slice_range_to_vec, u32_from_le_bytes, u32_le_bytes,
    u64_from_le_bytes, u64_le_bytes, write_u32_le, write_u64_le,
};
use crate::bytes::{lemma_u32_le_round_trip, lemma_u64_le_round_trip};
use vstd::prelude::*;
use vstd::utf8::{
    decode_utf8, encode_utf8, encode_utf8_decode_utf8, encode_utf8_valid_utf8, valid_utf8,
};

verus! {

pub const TAG_CHAT: u8 = 0;

pub const TAG_GAME_STATE: u8 = 1;

pub const TAG_PING: u8 = 2;

pub const TAG_PONG: u8 = 3;

pub const TAG_HEARTBEAT: u8 = 4;

pub const TAG_RECONNECT_REQUEST: u8 = 5;

pub const TAG_RECONNECT_RESPONSE: u8 = 6;

/// One update of a player's state, broadcast on the best-effort channel.
/// The two coordinates are carried as raw 32-bit encodings chosen by the
/// producer; the session treats them opaquely.
#[derive(Clone, Debug)]
pub struct GameState {
    pub player_id: String,
    pub pos_x_bits: u32,
    pub pos_y_bits: u32,
    pub timestamp: u64,
    pub sequence: u32,
}

/// The mathematical value of a [`GameState`].
pub struct GameStateView {
    pub player_id: Seq<char>,
    pub pos_x_bits: u32,
    pub pos_y_bits: u32,
    pub timestamp: u64,
    pub sequence: u32,
}

impl View for GameState {
    type V = GameStateView;

    open spec fn view(&self) -> GameStateView {
        GameStateView {
            player_id: self.player_id@,
            pos_x_bits: self.pos_x_bits,
            pos_y_bits: self.pos_y_bits,
            timestamp: self.timestamp,
            sequence: self.sequence,
        }
    }
}

/// A typed message of the session.
#[derive(Clone, Debug)]
pub enum NetworkMessage {
    Chat(String),
    GameState(GameState),
    Ping,
    Pong,
    Heartbeat,
    ReconnectRequest,
    ReconnectResponse,
}

/// The mathematical value of a [`NetworkMessage`].
pub enum MessageView {
    Chat(Seq<char>),
    GameState(GameStateView),
    Ping,
    Pong,
    Heartbeat,
    ReconnectRequest,
    ReconnectResponse,
}

impl View for NetworkMessage {
    type V = MessageView;

    open spec fn view(&self) -> MessageView {
        match self {
            NetworkMessage::Chat(t) => MessageView::Chat(t@),
            NetworkMessage::GameState(g) => MessageView::GameState(g@),
            NetworkMessage::Ping => MessageView::Ping,
            NetworkMessage::Pong => MessageView::Pong,
            NetworkMessage::Heartbeat => MessageView::Heartbeat,
            NetworkMessage::ReconnectRequest => MessageView::ReconnectRequest,
            NetworkMessage::ReconnectResponse => MessageView::ReconnectResponse,
        }
    }
}

/// An error of the codec: the message cannot be put on the wire, or the
/// bytes are not the wire form of any message.
#[derive(Clone, Copy, Debug, PartialEq, Eq, Structural)]
pub enum CodecError {
    Serialization,
    Deserialization,
}

/// The wire form of one string field: a 32-bit little-endian byte length
/// followed by the UTF-8 bytes.
pub open spec fn encode_str_field(s: Seq<char>) -> Seq<u8> {
    u32_le_bytes(encode_utf8(s).len() as u32) + encode_utf8(s)
}

/// True when every string field of the message fits the 32-bit length
/// prefix of the wire format; only such messages can be encoded.
pub open spec fn encodable(v: MessageView) -> bool {
    match v {
        MessageView::Chat(t) => encode_utf8(t).len() <= u32::MAX,
        MessageView::GameState(g) => encode_utf8(g.player_id).len() <= u32::MAX,
        _ => true,
    }
}

/// The wire encoding of a message: a tag byte followed by the variant's
/// payload.
pub open spec fn encode_spec(v: MessageView) -> Seq<u8> {
    match v {
        MessageView::Chat(t) => seq![TAG_CHAT] + encode_str_field(t),
        MessageView::GameState(g) => seq![TAG_GAME_STATE] + encode_str_field(g.player_id)
            + u32_le_bytes(g.pos_x_bits) + u32_le_bytes(g.pos_y_bits) + u64_le_bytes(g.timestamp)
            + u32_le_bytes(g.sequence),
        MessageView::Ping => seq![TAG_PING],
        MessageView::Pong => seq![TAG_PONG],
        MessageView::Heartbeat => seq![TAG_HEARTBEAT],
        MessageView::ReconnectRequest => seq![TAG_RECONNECT_REQUEST],
        MessageView::ReconnectResponse => seq![TAG_RECONNECT_RESPONSE],
    }
}

/// The message whose payload follows a chat tag, if the bytes are well
/// formed.
pub open spec fn decode_chat_spec(bytes: Seq<u8>) -> Option<MessageView> {
    if bytes.len() < 5 {
        None
    } else {
        let n = u32_from_le_bytes(bytes[1], bytes[2], bytes[3], bytes[4]) as int;
        if bytes.len() != 5 + n {
            None
        } else {
            let payload = bytes.subrange(5, 5 + n);
            if valid_utf8(payload) {
                Some(MessageView::Chat(decode_utf8(payload)))
            } else {
                None
            }
        }
    }
}

/// The message whose payload follows a game-state tag, if the bytes are
/// well formed.
pub open spec fn decode_game_state_spec(bytes: Seq<u8>) -> Option<MessageView> {
    if bytes.len() < 25 {
        None
    } else {
        let n = u32_from_le_bytes(bytes[1], bytes[2], bytes[3], bytes[4]) as int;
        if bytes.len() != 25 + n {
            None
        } else {
            let payload = bytes.subrange(5, 5 + n);
            if valid_utf8(payload) {
                Some(
                    MessageView::GameState(
                        GameStateView {
                            player_id: decode_utf8(payload),
                            pos_x_bits: u32_from_le_bytes(
                                bytes[5 + n],
                                bytes[6 + n],
                                bytes[7 + n],
                                bytes[8 + n],
                            ),
                            pos_y_bits: u32_from_le_bytes(
                                bytes[9 + n],
                                bytes[10 + n],
                                bytes[11 + n],
                                bytes[12 + n],
                            ),
                            timestamp: u64_from_le_bytes(
                                bytes[13 + n],
                                bytes[14 + n],
                                bytes[15 + n],
                                bytes[16 + n],
                                bytes[17 + n],
                                bytes[18 + n],
                                bytes[19 + n],
                                bytes[20 + n],
                            ),
                            sequence: u32_from_le_bytes(
                                bytes[21 + n],
                                bytes[22 + n],
                                bytes[23 + n],
                                bytes[24 + n],
                            ),
                        },
                    ),
                )
            } else {
                None
            }
        }
    }
}

/// The message that the bytes encode, or `None` when they are malformed:
/// the exact meaning of the wire format.
pub open spec fn decode_spec(bytes: Seq<u8>) -> Option<MessageView> {
    if bytes.len() == 0 {
        None
    } else if bytes[0] == TAG_CHAT {
        decode_chat_spec(bytes)
    } else if bytes[0] == TAG_GAME_STATE {
        decode_game_state_spec(bytes)
    } else if bytes[0] == TAG_PING {
        if bytes.len() == 1 {
            Some(MessageView::Ping)
        } else {
            None
        }
    } else if bytes[0] == TAG_PONG {
        if bytes.len() == 1 {
            Some(MessageView::Pong)
        } else {
            None
        }
    } else if bytes[0] == TAG_HEARTBEAT {
        if bytes.len() == 1 {
            Some(MessageView::Heartbeat)
        } else {
            None
        }
    } else if bytes[0] == TAG_RECONNECT_REQUEST {
        if bytes.len() == 1 {
            Some(MessageView::ReconnectRequest)
        } else {
            None
        }
    } else if bytes[0] == TAG_RECONNECT_RESPONSE {
        if bytes.len() == 1 {
            Some(MessageView::ReconnectResponse)
        } else {
            None
        }
    } else {
        None
    }
}

/// Relies on `String::from_utf8`: it succeeds exactly on valid UTF-8 input
/// and yields the characters those bytes encode (the same correspondence
/// vstd itself assumes for `str::from_utf8_unchecked`).
#[verifier::external_body]
fn string_from_utf8(bytes: Vec<u8>) -> (r: Option<String>)
    ensures
        r is Some <==> valid_utf8(bytes@),
        r matches Some(s) ==> s@ == decode_utf8(bytes@),
{
    match String::from_utf8(bytes) {
        Ok(s) => Some(s),
        Err(_) => None,
    }
}

/// Appends the wire form of one string field, or reports that the field
/// does not fit the 32-bit length prefix.
fn append_str_field(out: &mut Vec<u8>, s: &String) -> (r: Result<(), CodecError>)
    ensures
        encode_utf8(s@).len() <= u32::MAX ==> (r is Ok && final(out)@ == old(out)@
            + encode_str_field(s@)),
        encode_utf8(s@).len() > u32::MAX ==> r == Err::<(), CodecError>(CodecError::Serialization)
            && *final(out) == *old(out),
{
    let b: &[u8] = s.as_str().as_bytes();
    if (b.len() as u64) > (u32::MAX as u64) {
        return Err(CodecError::Serialization);
    }
    write_u32_le(out, b.len() as u32);
    append_bytes(out, b);
    assert(out@ =~= old(out)@ + encode_str_field(s@));
    Ok(())
}

/// Encodes a message for the wire.  Fails exactly when a string field of
/// the message cannot be represented in the wire format.
pub fn encode(m: &NetworkMessage) -> (r: Result<Vec<u8>, CodecError>)
    ensures
        encodable(m@) ==> (r matches Ok(b) && b@ == encode_spec(m@)),
        !encodable(m@) ==> r == Err::<Vec<u8>, CodecError>(CodecError::Serialization),
{
    match m {
        NetworkMessage::Chat(text) => {
            let mut out: Vec<u8> = Vec::new();
            out.push(TAG_CHAT);
            match append_str_field(&mut out, text) {
                Ok(_) => {
                    assert(out@ =~= encode_spec(m@));
                    Ok(out)
                },
                Err(e) => Err(e),
            }
        },
        NetworkMessage::GameState(g) => {
            let mut out: Vec<u8> = Vec::new();
            out.push(TAG_GAME_STATE);
            match append_str_field(&mut out, &g.player_id) {
                Ok(_) => {
                    write_u32_le(&mut out, g.pos_x_bits);
                    write_u32_le(&mut out, g.pos_y_bits);
                    write_u64_le(&mut out, g.timestamp);
                    write_u32_le(&mut out, g.sequence);
                    assert(out@ =~= encode_spec(m@));
                    Ok(out)
                },
                Err(e) => Err(e),
            }
        },
        NetworkMessage::Ping => {
            let mut out: Vec<u8> = Vec::new();
            out.push(TAG_PING);
            assert(out@ =~= encode_spec(m@));
            Ok(out)
        },
        NetworkMessage::Pong => {
            let mut out: Vec<u8> = Vec::new();
            out.push(TAG_PONG);
            assert(out@ =~= encode_spec(m@));
            Ok(out)
        },
        NetworkMessage::Heartbeat => {
            let mut out: Vec<u8> = Vec::new();
            out.push(TAG_HEARTBEAT);
            assert(out@ =~= encode_spec(m@));
            Ok(out)
        },
        NetworkMessage::ReconnectRequest => {
            let mut out: Vec<u8> = Vec::new();
            out.push(TAG_RECONNECT_REQUEST);
            assert(out@ =~= encode_spec(m@));
            Ok(out)
        },
        NetworkMessage::ReconnectResponse => {
            let mut out: Vec<u8> = Vec::new();
            out.push(TAG_RECONNECT_RESPONSE);
            assert(out@ =~= encode_spec(m@));
            Ok(out)
        },
    }
}

/// Decodes one wire unit.  Fails exactly when the bytes are not the wire
/// form of any message; a caller drops such input rather than failing.
pub fn decode(bytes: &[u8]) -> (r: Result<NetworkMessage, CodecError>)
    ensures
        decode_spec(bytes@) matches Some(v) ==> (r matches Ok(m) && m@ == v),
        decode_spec(bytes@) is None ==> r == Err::<NetworkMessage, CodecError>(
            CodecError::Deserialization,
        ),
{
    if bytes.len() == 0 {
        return Err(CodecError::Deserialization);
    }
    let tag = bytes[0];
    if tag == TAG_CHAT {
        if bytes.len() < 5 {
            return Err(CodecError::Deserialization);
        }
        let n32 = read_u32_le(bytes, 1);
        if (n32 as u64) != (bytes.len() as u64) - 5 {
            return Err(CodecError::Deserialization);
        }
        let n = n32 as usize;
        let payload = slice_range_to_vec(bytes, 5, 5 + n);
        match string_from_utf8(payload) {
            Some(text) => Ok(NetworkMessage::Chat(text)),
            None => Err(CodecError::Deserialization),
        }
    } else if tag == TAG_GAME_STATE {
        if bytes.len() < 25 {
            return Err(CodecError::Deserialization);
        }
        let n32 = read_u32_le(bytes, 1);
        if (n32 as u64) != (bytes.len() as u64) - 25 {
            return Err(CodecError::Deserialization);
        }
        let n = n32 as usize;
        let payload = slice_range_to_vec(bytes, 5, 5 + n);
        match string_from_utf8(payload) {
            Some(player_id) => Ok(
                NetworkMessage::GameState(
                    GameState {
                        player_id,
                        pos_x_bits: read_u32_le(bytes, 5 + n),
                        pos_y_bits: read_u32_le(bytes, 9 + n),
                        timestamp: read_u64_le(bytes, 13 + n),
                        sequence: read_u32_le(bytes, 21 + n),
                    },
                ),
            ),
            None => Err(CodecError::Deserialization),
        }
    } else if tag == TAG_PING {
        if bytes.len() == 1 {
            Ok(NetworkMessage::Ping)
        } else {
            Err(CodecError::Deserialization)
        }
    } else if tag == TAG_PONG {
        if bytes.len() == 1 {
            Ok(NetworkMessage::Pong)
        } else {
            Err(CodecError::Deserialization)
        }
    } else if tag == TAG_HEARTBEAT {
        if bytes.len() == 1 {
            Ok(NetworkMessage::Heartbeat)
        } else {
            Err(CodecError::Deserialization)
        }
    } else if tag == TAG_RECONNECT_REQUEST {
        if bytes.len() == 1 {
            Ok(NetworkMessage::ReconnectRequest)
        } else {
            Err(CodecError::Deserialization)
        }
    } else if tag == TAG_RECONNECT_RESPONSE {
        if bytes.len() == 1 {
            Ok(NetworkMessage::ReconnectResponse)
        } else {
            Err(CodecError::Deserialization)
        }
    } else {
        Err(CodecError::Deserialization)
    }
}

/// Law: decoding the encoding of any representable message yields that
/// message back.
#[verifier::rlimit(60)]
pub proof fn lemma_encode_decode_round_trip(v: MessageView)
    requires
        encodable(v),
    ensures
        decode_spec(encode_spec(v)) == Some(v),
{
    match v {
        MessageView::Chat(t) => {
            let eb = encode_utf8(t);
            let n = eb.len() as int;
            let bytes = encode_spec(v);
            assert(bytes =~= seq![TAG_CHAT] + u32_le_bytes(n as u32) + eb);
            assert(bytes.len() == 5 + n);
            lemma_u32_le_round_trip(n as u32);
            assert(u32_from_le_bytes(bytes[1], bytes[2], bytes[3], bytes[4]) == n as u32);
            assert(bytes.subrange(5, 5 + n) =~= eb);
            encode_utf8_valid_utf8(t);
            encode_utf8_decode_utf8(t);
            assert(decode_spec(bytes) == Some(v));
        },
        MessageView::GameState(g) => {
            let eb = encode_utf8(g.player_id);
            let n = eb.len() as int;
            let bytes = encode_spec(v);
            assert(bytes =~= seq![TAG_GAME_STATE] + u32_le_bytes(n as u32) + eb + u32_le_bytes(
                g.pos_x_bits,
            ) + u32_le_bytes(g.pos_y_bits) + u64_le_bytes(g.timestamp) + u32_le_bytes(g.sequence));
            assert(bytes.len() == 25 + n);
            lemma_u32_le_round_trip(n as u32);
            assert(u32_from_le_bytes(bytes[1], bytes[2], bytes[3], bytes[4]) == n as u32);
            assert(bytes.subrange(5, 5 + n) =~= eb);
            encode_utf8_valid_utf8(g.player_id);
            encode_utf8_decode_utf8(g.player_id);
            assert(bytes.subrange(5 + n, 9 + n) =~= u32_le_bytes(g.pos_x_bits));
            assert(bytes.subrange(9 + n, 13 + n) =~= u32_le_bytes(g.pos_y_bits));
            assert(bytes.subrange(13 + n, 21 + n) =~= u64_le_bytes(g.timestamp));
            assert(bytes.subrange(21 + n, 25 + n) =~= u32_le_bytes(g.sequence));
            lemma_u32_le_round_trip(g.pos_x_bits);
            lemma_u32_le_round_trip(g.pos_y_bits);
            lemma_u64_le_round_trip(g.timestamp);
            lemma_u32_le_round_trip(g.sequence);
            assert(u32_from_le_bytes(bytes[5 + n], bytes[6 + n], bytes[7 + n], bytes[8 + n])
                == g.pos_x_bits);
            assert(u32_from_le_bytes(bytes[9 + n], bytes[10 + n], bytes[11 + n], bytes[12 + n])
                == g.pos_y_bits);
            assert(u64_from_le_bytes(
                bytes[13 + n],
                bytes[14 + n],
                bytes[15 + n],
                bytes[16 + n],
                bytes[17 + n],
                bytes[18 + n],
                bytes[19 + n],
                bytes[20 + n],
            ) == g.timestamp);
            assert(u32_from_le_bytes(bytes[21 + n], bytes[22 + n], bytes[23 + n], bytes[24 + n])
                == g.sequence);
            assert(decode_spec(bytes) == Some(v));
        },
        _ => {},
    }
}

} // verus!

