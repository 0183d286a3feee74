//! The command client: owns the target endpoint and maps each logical
//! operation to its wire frame, and each query response back to a typed
//! value. The frames come out as plain byte vectors; a transport wrapper
//! outside this crate opens one TCP connection per call, writes the
//! frame, and for the query commands reads the peer's response until the
//! stream closes and hands the bytes back to the decoding operations.

use vstd::prelude::*;
use vstd::utf8::encode_utf8;

use crate::codec::BouyomichanError;
use crate::codec::TalkConfig;
use crate::codec::CLEAR_COMMAND;
use crate::codec::GET_NOW_PLAYING_COMMAND;
use crate::codec::GET_PAUSE_COMMAND;
use crate::codec::GET_REMAIN_TASK_COMMAND;
use crate::codec::PAUSE_COMMAND;
use crate::codec::RESUME_COMMAND;
use crate::codec::SKIP_COMMAND;
use crate::codec::decode_bool_response;
use crate::codec::decode_remain_task_response;
use crate::codec::default_talk_config;
use crate::codec::encode_simple_command;
use crate::codec::encode_talk_command;
use crate::codec::le_u32_at;
use crate::codec::simple_command_frame;
use crate::codec::talk_frame;

verus! {

/// Client for the BouyomiChan application-collaboration TCP protocol.
/// It holds the endpoint of the target application and is immutable:
/// every operation builds the exact bytes of one request, or decodes the
/// bytes the peer answered with; no state is kept between calls.
pub struct BouyomichanClient {
    /// Host of the target application's listening socket.
    pub host: String,
    /// Port of the target application's listening socket.
    pub port: String,
}

impl Default for BouyomichanClient {
    /// A client for the conventional local listening address of the
    /// application, `127.0.0.1:50001`.
    fn default() -> (client: Self)
        ensures
            client.host@ == "127.0.0.1"@,
            client.port@ == "50001"@,
    {
        BouyomichanClient { host: "127.0.0.1".to_owned(), port: "50001".to_owned() }
    }
}

impl BouyomichanClient {
    /// A client for the given endpoint, stored exactly as given.
    pub fn new(host: &str, port: &str) -> (client: Self)
        ensures
            client.host@ == host@,
            client.port@ == port@,
    {
        BouyomichanClient { host: host.to_owned(), port: port.to_owned() }
    }

    /// The frame that speaks `message` with the default configuration.
    /// `None` only when the UTF-8 encoding of the message is longer than
    /// the 32-bit length field can count.
    pub fn talk_with_default(&self, message: &str) -> (r: Option<Vec<u8>>)
        ensures
            encode_utf8(message@).len() <= u32::MAX ==> (r matches Some(frame) && frame@
                == talk_frame(default_talk_config(), encode_utf8(message@))),
            encode_utf8(message@).len() > u32::MAX ==> r is None,
    {
        let config = TalkConfig::default();
        self.talk(message, &config)
    }

    /// The frame that speaks `message` with `config`. `None` only when
    /// the UTF-8 encoding of the message is longer than the 32-bit length
    /// field can count.
    pub fn talk(&self, message: &str, config: &TalkConfig) -> (r: Option<Vec<u8>>)
        ensures
            encode_utf8(message@).len() <= u32::MAX ==> (r matches Some(frame) && frame@
                == talk_frame(*config, encode_utf8(message@))),
            encode_utf8(message@).len() > u32::MAX ==> r is None,
    {
        encode_talk_command(message, config)
    }

    /// The frame that pauses playback: the two opcode bytes, nothing else.
    pub fn pause(&self) -> (frame: Vec<u8>)
        ensures
            frame@ == simple_command_frame(PAUSE_COMMAND),
            frame@.len() == 2,
    {
        encode_simple_command(PAUSE_COMMAND)
    }

    /// The frame that resumes playback: the two opcode bytes, nothing else.
    pub fn resume(&self) -> (frame: Vec<u8>)
        ensures
            frame@ == simple_command_frame(RESUME_COMMAND),
            frame@.len() == 2,
    {
        encode_simple_command(RESUME_COMMAND)
    }

    /// The frame that skips the current task: the two opcode bytes,
    /// nothing else.
    pub fn skip(&self) -> (frame: Vec<u8>)
        ensures
            frame@ == simple_command_frame(SKIP_COMMAND),
            frame@.len() == 2,
    {
        encode_simple_command(SKIP_COMMAND)
    }

    /// The frame that clears all queued tasks: the two opcode bytes,
    /// nothing else.
    pub fn clear(&self) -> (frame: Vec<u8>)
        ensures
            frame@ == simple_command_frame(CLEAR_COMMAND),
            frame@.len() == 2,
    {
        encode_simple_command(CLEAR_COMMAND)
    }

    /// The frame that asks whether playback is paused; the peer answers
    /// with a one-byte boolean.
    pub fn get_pause_request(&self) -> (frame: Vec<u8>)
        ensures
            frame@ == simple_command_frame(GET_PAUSE_COMMAND),
            frame@.len() == 2,
    {
        encode_simple_command(GET_PAUSE_COMMAND)
    }

    /// The frame that asks whether a task is being played; the peer
    /// answers with a one-byte boolean.
    pub fn get_now_playing_request(&self) -> (frame: Vec<u8>)
        ensures
            frame@ == simple_command_frame(GET_NOW_PLAYING_COMMAND),
            frame@.len() == 2,
    {
        encode_simple_command(GET_NOW_PLAYING_COMMAND)
    }

    /// The frame that asks how many tasks are still queued; the peer
    /// answers with a four-byte count.
    pub fn get_remain_task_request(&self) -> (frame: Vec<u8>)
        ensures
            frame@ == simple_command_frame(GET_REMAIN_TASK_COMMAND),
            frame@.len() == 2,
    {
        encode_simple_command(GET_REMAIN_TASK_COMMAND)
    }

    /// Decode the response to `get_pause_request`: paused exactly when
    /// the first byte is 1; an empty response is malformed.
    pub fn get_pause(&self, response: &[u8]) -> (r: Result<bool, BouyomichanError>)
        ensures
            response@.len() == 0 ==> r == Err::<bool, BouyomichanError>(
                BouyomichanError::MalformedResponse,
            ),
            response@.len() > 0 ==> r == Ok::<bool, BouyomichanError>(response@[0] == 1),
    {
        decode_bool_response(response)
    }

    /// Decode the response to `get_now_playing_request`: playing exactly
    /// when the first byte is 1; an empty response is malformed.
    pub fn get_now_playing(&self, response: &[u8]) -> (r: Result<bool, BouyomichanError>)
        ensures
            response@.len() == 0 ==> r == Err::<bool, BouyomichanError>(
                BouyomichanError::MalformedResponse,
            ),
            response@.len() > 0 ==> r == Ok::<bool, BouyomichanError>(response@[0] == 1),
    {
        decode_bool_response(response)
    }

    /// Decode the response to `get_remain_task_request`: the little-endian
    /// count in the first four bytes; fewer than four bytes is malformed.
    pub fn get_remain_task(&self, response: &[u8]) -> (r: Result<u32, BouyomichanError>)
        ensures
            response@.len() < 4 ==> r == Err::<u32, BouyomichanError>(
                BouyomichanError::MalformedResponse,
            ),
            response@.len() >= 4 ==> r == Ok::<u32, BouyomichanError>(le_u32_at(response@, 0)),
    {
        decode_remain_task_response(response)
    }
}

} // verus!
