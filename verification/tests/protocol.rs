use bouyomichan_client::codec::decode_bool_response;
use bouyomichan_client::codec::decode_remain_task_response;
use bouyomichan_client::codec::encode_simple_command;
use bouyomichan_client::codec::encode_talk_command;
use bouyomichan_client::BouyomichanError;
use bouyomichan_client::TalkConfig;

#[test]
fn default_talk_config_values() {
    let config = TalkConfig::default();
    assert_eq!(config.code, 0);
    assert_eq!(config.voice, 1);
    assert_eq!(config.volume, -1);
    assert_eq!(config.speed, -1);
    assert_eq!(config.tone, -1);
}

#[test]
fn simple_command_is_opcode_only() {
    assert_eq!(encode_simple_command(0x10), vec![0x10, 0x00]);
    assert_eq!(encode_simple_command(0x20), vec![0x20, 0x00]);
    assert_eq!(encode_simple_command(0x30), vec![0x30, 0x00]);
    assert_eq!(encode_simple_command(0x40), vec![0x40, 0x00]);
    assert_eq!(encode_simple_command(0x110), vec![0x10, 0x01]);
    assert_eq!(encode_simple_command(0x120), vec![0x20, 0x01]);
    assert_eq!(encode_simple_command(0x130), vec![0x30, 0x01]);
}

#[test]
fn talk_frame_layout_exact() {
    let config = TalkConfig {
        code: 1,
        voice: 2,
        volume: 3,
        speed: 4,
        tone: 5,
    };
    let frame = encode_talk_command("AB", &config).unwrap();
    assert_eq!(
        frame,
        vec![
            0x01, 0x00, // opcode
            0x04, 0x00, // speed
            0x05, 0x00, // tone
            0x03, 0x00, // volume
            0x02, 0x00, // voice
            0x01, // code
            0x02, 0x00, 0x00, 0x00, // message byte length
            0x41, 0x42, // "AB"
        ]
    );
}

#[test]
fn talk_frame_encodes_negative_fields_two_complement() {
    let frame = encode_talk_command("A", &TalkConfig::default()).unwrap();
    assert_eq!(
        frame,
        vec![
            0x01, 0x00, // opcode
            0xff, 0xff, // speed -1
            0xff, 0xff, // tone -1
            0xff, 0xff, // volume -1
            0x01, 0x00, // voice 1
            0x00, // code
            0x01, 0x00, 0x00, 0x00, // message byte length
            0x41, // "A"
        ]
    );
}

#[test]
fn talk_frame_round_trip() {
    let config = TalkConfig {
        code: 7,
        voice: -300,
        volume: 95,
        speed: -1,
        tone: 1234,
    };
    let message = "round trip";
    let frame = encode_talk_command(message, &config).unwrap();
    let opcode = i16::from_le_bytes([frame[0], frame[1]]);
    let speed = i16::from_le_bytes([frame[2], frame[3]]);
    let tone = i16::from_le_bytes([frame[4], frame[5]]);
    let volume = i16::from_le_bytes([frame[6], frame[7]]);
    let voice = i16::from_le_bytes([frame[8], frame[9]]);
    let code = frame[10];
    let length = u32::from_le_bytes([frame[11], frame[12], frame[13], frame[14]]);
    assert_eq!(opcode, 1);
    assert_eq!(speed, config.speed);
    assert_eq!(tone, config.tone);
    assert_eq!(volume, config.volume);
    assert_eq!(voice, config.voice);
    assert_eq!(code, config.code);
    assert_eq!(length as usize, message.len());
    assert_eq!(&frame[15..], message.as_bytes());
}

#[test]
fn message_length_counts_bytes_not_characters() {
    let message = "こんにちは";
    assert_eq!(message.chars().count(), 5);
    let frame = encode_talk_command(message, &TalkConfig::default()).unwrap();
    let length = u32::from_le_bytes([frame[11], frame[12], frame[13], frame[14]]);
    assert_eq!(length, 15);
    assert_eq!(frame.len(), 15 + 15);
    assert_eq!(&frame[15..], message.as_bytes());
}

#[test]
fn empty_message_frame_is_header_only() {
    let frame = encode_talk_command("", &TalkConfig::default()).unwrap();
    assert_eq!(frame.len(), 15);
    assert_eq!(
        u32::from_le_bytes([frame[11], frame[12], frame[13], frame[14]]),
        0
    );
}

#[test]
fn bool_response_decoding() {
    assert_eq!(decode_bool_response(&[1]), Ok(true));
    assert_eq!(decode_bool_response(&[0]), Ok(false));
    assert_eq!(
        decode_bool_response(&[]),
        Err(BouyomichanError::MalformedResponse)
    );
    assert_eq!(decode_bool_response(&[2]), Ok(false));
    assert_eq!(decode_bool_response(&[1, 0, 0]), Ok(true));
}

#[test]
fn remain_task_response_decoding() {
    assert_eq!(decode_remain_task_response(&[0x02, 0x00, 0x00, 0x00]), Ok(2));
    assert_eq!(decode_remain_task_response(&[0x01, 0x00, 0x00, 0x00]), Ok(1));
    assert_eq!(decode_remain_task_response(&[0x00, 0x01, 0x00, 0x00]), Ok(256));
    assert_eq!(
        decode_remain_task_response(&[0xff, 0xff, 0xff, 0xff]),
        Ok(u32::MAX)
    );
    assert_eq!(
        decode_remain_task_response(&[]),
        Err(BouyomichanError::MalformedResponse)
    );
    assert_eq!(
        decode_remain_task_response(&[0x05, 0x00, 0x00]),
        Err(BouyomichanError::MalformedResponse)
    );
}

#[test]
fn error_kinds_are_distinct() {
    assert_ne!(
        BouyomichanError::ConnectionFailed,
        BouyomichanError::TransportError
    );
    assert_ne!(
        BouyomichanError::TransportError,
        BouyomichanError::MalformedResponse
    );
    assert_ne!(
        BouyomichanError::ConnectionFailed,
        BouyomichanError::MalformedResponse
    );
}
