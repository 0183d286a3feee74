//! Wire codec for the application-collaboration protocol.
//!
//! Every request is a little-endian binary frame. A command without a
//! payload is exactly its two-byte opcode. A speech request follows the
//! opcode with the voice parameters, the UTF-8 byte length of the message,
//! and the raw message bytes. Query responses are decoded from whatever
//! bytes the peer sent back before closing the stream.

use vstd::prelude::*;
use vstd::utf8::encode_utf8;

verus! {

/// Opcode of a speech request.
pub const TALK_COMMAND: i16 = 0x01;

/// Opcode that pauses playback.
pub const PAUSE_COMMAND: i16 = 0x10;

/// Opcode that resumes playback.
pub const RESUME_COMMAND: i16 = 0x20;

/// Opcode that skips the current task.
pub const SKIP_COMMAND: i16 = 0x30;

/// Opcode that clears all queued tasks.
pub const CLEAR_COMMAND: i16 = 0x40;

/// Opcode that asks whether playback is paused.
pub const GET_PAUSE_COMMAND: i16 = 0x110;

/// Opcode that asks whether a task is being played.
pub const GET_NOW_PLAYING_COMMAND: i16 = 0x120;

/// Opcode that asks how many tasks are still queued.
pub const GET_REMAIN_TASK_COMMAND: i16 = 0x130;

/// How a request can fail. The kinds are distinct so that a caller can
/// tell "the application is not running" from a protocol mismatch.
#[derive(Clone, Copy, Debug, PartialEq, Eq, Structural)]
pub enum BouyomichanError {
    /// The TCP connection could not be established.
    ConnectionFailed,
    /// Writing the request or reading the response failed after the
    /// connection was established.
    TransportError,
    /// The peer's response was too short to decode.
    MalformedResponse,
}

/// Voice parameters of a speech request. Any combination of values is
/// valid on the wire; the receiving application checks the ranges.
#[derive(Clone, Copy, Debug, PartialEq, Eq, Structural)]
pub struct TalkConfig {
    /// Character encoding selector; 0 asks for UTF-8.
    pub code: u8,
    /// Voice number; 1 means the voice picked in the application.
    pub voice: i16,
    /// Volume; -1 means the application's current setting.
    pub volume: i16,
    /// Speed; -1 means the application's current setting.
    pub speed: i16,
    /// Tone; -1 means the application's current setting.
    pub tone: i16,
}

/// The configuration that leaves every choice to the application:
/// `code` 0, `voice` 1, and -1 for volume, speed and tone.
pub open spec fn default_talk_config() -> TalkConfig {
    TalkConfig { code: 0u8, voice: 1i16, volume: -1i16, speed: -1i16, tone: -1i16 }
}

impl Default for TalkConfig {
    fn default() -> (config: Self)
        ensures
            config == default_talk_config(),
    {
        TalkConfig { code: 0, voice: 1, volume: -1, speed: -1, tone: -1 }
    }
}

/// The unsigned 16-bit value with the same two's-complement bit pattern
/// as `x`.
pub open spec fn i16_to_u16(x: i16) -> u16 {
    (if x >= 0 {
        x as int
    } else {
        x + 0x10000
    }) as u16
}

/// The signed 16-bit value with the same two's-complement bit pattern
/// as `u`.
pub open spec fn u16_to_i16(u: u16) -> i16 {
    (if u < 0x8000 {
        u as int
    } else {
        u - 0x10000
    }) as i16
}

/// The two bytes of `x` in little-endian order.
pub open spec fn i16_le_bytes(x: i16) -> Seq<u8> {
    seq![(i16_to_u16(x) % 256) as u8, (i16_to_u16(x) / 256) as u8]
}

/// The four bytes of `x` in little-endian order.
pub open spec fn u32_le_bytes(x: u32) -> Seq<u8> {
    seq![
        (x % 256) as u8,
        (x / 256 % 256) as u8,
        (x / 65536 % 256) as u8,
        (x / 16777216) as u8,
    ]
}

/// The signed 16-bit value stored little-endian at positions `i`, `i + 1`
/// of `s`.
pub open spec fn le_i16_at(s: Seq<u8>, i: int) -> i16
    recommends
        0 <= i,
        i + 2 <= s.len(),
{
    u16_to_i16((s[i] + s[i + 1] * 256) as u16)
}

/// The unsigned 32-bit value stored little-endian at positions `i` up to
/// `i + 3` of `s`.
pub open spec fn le_u32_at(s: Seq<u8>, i: int) -> u32
    recommends
        0 <= i,
        i + 4 <= s.len(),
{
    (s[i] + s[i + 1] * 256 + s[i + 2] * 65536 + s[i + 3] * 16777216) as u32
}

/// Frame of a command without a payload: exactly the two little-endian
/// opcode bytes, nothing else.
pub open spec fn simple_command_frame(command_id: i16) -> Seq<u8> {
    i16_le_bytes(command_id)
}

/// The fifteen header bytes of a speech request: opcode, speed, tone,
/// volume, voice, encoding code, and the message byte length. The field
/// order is fixed; the peer parses positionally.
pub open spec fn talk_header(config: TalkConfig, message_length: u32) -> Seq<u8> {
    i16_le_bytes(TALK_COMMAND) + i16_le_bytes(config.speed) + i16_le_bytes(config.tone)
        + i16_le_bytes(config.volume) + i16_le_bytes(config.voice) + seq![config.code]
        + u32_le_bytes(message_length)
}

/// Complete frame of a speech request: the header followed by the raw
/// UTF-8 message bytes, with no terminator. The length field counts
/// bytes, not characters.
pub open spec fn talk_frame(config: TalkConfig, message_bytes: Seq<u8>) -> Seq<u8>
    recommends
        message_bytes.len() <= u32::MAX,
{
    talk_header(config, message_bytes.len() as u32) + message_bytes
}

/// Inverse of `talk_frame`: the configuration and message bytes encoded
/// in `frame`, or `None` when `frame` is not a well-formed speech request.
pub open spec fn parse_talk_frame(frame: Seq<u8>) -> Option<(TalkConfig, Seq<u8>)> {
    if frame.len() < 15 {
        None
    } else if le_i16_at(frame, 0) == TALK_COMMAND && frame.len() == 15 + le_u32_at(frame, 11) {
        Some(
            (
                TalkConfig {
                    code: frame[10],
                    voice: le_i16_at(frame, 8),
                    volume: le_i16_at(frame, 6),
                    speed: le_i16_at(frame, 2),
                    tone: le_i16_at(frame, 4),
                },
                frame.subrange(15, frame.len() as int),
            ),
        )
    } else {
        None
    }
}

/// Append the two little-endian bytes of `x` to `out`.
fn push_i16_le(out: &mut Vec<u8>, x: i16)
    ensures
        final(out)@ == old(out)@ + i16_le_bytes(x),
{
    let u: u16 = if x >= 0 {
        x as u16
    } else {
        ((x as i32) + 0x10000) as u16
    };
    out.push((u % 256) as u8);
    out.push((u / 256) as u8);
    assert(out@ =~= old(out)@ + i16_le_bytes(x));
}

/// Append the four little-endian bytes of `x` to `out`.
fn push_u32_le(out: &mut Vec<u8>, x: u32)
    ensures
        final(out)@ == old(out)@ + u32_le_bytes(x),
{
    out.push((x % 256) as u8);
    out.push((x / 256 % 256) as u8);
    out.push((x / 65536 % 256) as u8);
    out.push((x / 16777216) as u8);
    assert(out@ =~= old(out)@ + u32_le_bytes(x));
}

/// Encode a command that carries no payload: the frame is exactly the two
/// little-endian opcode bytes.
pub fn encode_simple_command(command_id: i16) -> (frame: Vec<u8>)
    ensures
        frame@ == simple_command_frame(command_id),
        frame@.len() == 2,
{
    let mut frame: Vec<u8> = Vec::new();
    push_i16_le(&mut frame, command_id);
    assert(frame@ =~= simple_command_frame(command_id));
    frame
}

/// Encode a speech request for `message` with `config`. The message is
/// measured and sent as UTF-8 bytes; `None` is returned only when that
/// encoding is longer than the 32-bit length field can count.
pub fn encode_talk_command(message: &str, config: &TalkConfig) -> (r: Option<Vec<u8>>)
    ensures
        encode_utf8(message@).len() <= u32::MAX ==> (r matches Some(frame) && frame@
            == talk_frame(*config, encode_utf8(message@))),
        encode_utf8(message@).len() > u32::MAX ==> r is None,
{
    let message_bytes: &[u8] = message.as_bytes();
    if message_bytes.len() > (u32::MAX as usize) {
        return None;
    }
    let message_length: u32 = message_bytes.len() as u32;
    let mut frame: Vec<u8> = Vec::new();
    push_i16_le(&mut frame, TALK_COMMAND);
    push_i16_le(&mut frame, config.speed);
    push_i16_le(&mut frame, config.tone);
    push_i16_le(&mut frame, config.volume);
    push_i16_le(&mut frame, config.voice);
    frame.push(config.code);
    push_u32_le(&mut frame, message_length);
    frame.extend_from_slice(message_bytes);
    assert(frame@ =~= talk_frame(*config, encode_utf8(message@)));
    Some(frame)
}

/// Decode the one-byte response to a boolean query: `true` exactly when
/// the first byte is 1; an empty response cannot be decoded.
pub fn decode_bool_response(response: &[u8]) -> (r: Result<bool, BouyomichanError>)
    ensures
        response@.len() == 0 ==> r == Err::<bool, BouyomichanError>(
            BouyomichanError::MalformedResponse,
        ),
        response@.len() > 0 ==> r == Ok::<bool, BouyomichanError>(response@[0] == 1),
{
    if response.len() == 0 {
        Err(BouyomichanError::MalformedResponse)
    } else {
        Ok(response[0] == 1)
    }
}

/// Decode the response to the remaining-tasks query: a four-byte
/// little-endian count; fewer than four bytes cannot be decoded.
pub fn decode_remain_task_response(response: &[u8]) -> (r: Result<u32, BouyomichanError>)
    ensures
        response@.len() < 4 ==> r == Err::<u32, BouyomichanError>(
            BouyomichanError::MalformedResponse,
        ),
        response@.len() >= 4 ==> r == Ok::<u32, BouyomichanError>(le_u32_at(response@, 0)),
{
    if response.len() < 4 {
        Err(BouyomichanError::MalformedResponse)
    } else {
        let b0: u32 = response[0] as u32;
        let b1: u32 = response[1] as u32;
        let b2: u32 = response[2] as u32;
        let b3: u32 = response[3] as u32;
        Ok(b0 + b1 * 256 + b2 * 65536 + b3 * 16777216)
    }
}

/// Reading the little-endian bytes of `x` back from `s` recovers `x`.
proof fn lemma_le_i16_at(s: Seq<u8>, i: int, x: i16)
    requires
        0 <= i,
        i + 2 <= s.len(),
        s[i] == i16_le_bytes(x)[0],
        s[i + 1] == i16_le_bytes(x)[1],
    ensures
        le_i16_at(s, i) == x,
{
    let u = i16_to_u16(x);
    vstd::arithmetic::div_mod::lemma_fundamental_div_mod(u as int, 256);
}

/// Reading the four little-endian bytes of `x` back from `s` recovers `x`.
proof fn lemma_le_u32_at(s: Seq<u8>, i: int, x: u32)
    requires
        0 <= i,
        i + 4 <= s.len(),
        s[i] == u32_le_bytes(x)[0],
        s[i + 1] == u32_le_bytes(x)[1],
        s[i + 2] == u32_le_bytes(x)[2],
        s[i + 3] == u32_le_bytes(x)[3],
    ensures
        le_u32_at(s, i) == x,
{
    assert(x % 256 + (x / 256 % 256) * 256 + (x / 65536 % 256) * 65536 + (x / 16777216)
        * 16777216 == x) by (bit_vector);
}

/// Round trip of the speech frame: encoding a message with a
/// configuration and parsing the frame back recovers the opcode, every
/// configuration field, the byte length, and the message bytes unchanged.
pub proof fn lemma_talk_frame_round_trip(config: TalkConfig, message_bytes: Seq<u8>)
    requires
        message_bytes.len() <= u32::MAX,
    ensures
        parse_talk_frame(talk_frame(config, message_bytes)) == Some((config, message_bytes)),
{
    let frame = talk_frame(config, message_bytes);
    lemma_le_i16_at(frame, 0, TALK_COMMAND);
    lemma_le_i16_at(frame, 2, config.speed);
    lemma_le_i16_at(frame, 4, config.tone);
    lemma_le_i16_at(frame, 6, config.volume);
    lemma_le_i16_at(frame, 8, config.voice);
    lemma_le_u32_at(frame, 11, message_bytes.len() as u32);
    assert(frame.subrange(15, frame.len() as int) =~= message_bytes);
}

} // verus!
