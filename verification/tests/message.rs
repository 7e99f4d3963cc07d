use jdcp::character::character_data::class_type::ClassType;
use jdcp::character::character_data::health_points::HealthPoints;
use jdcp::character::character_data::race_kind::RaceKind;
use jdcp::character::character_data::stat_block::StatBlock;
use jdcp::character::character_data::CharacterData;
use jdcp::decode_jdcp;
use jdcp::error::DecodeError;
use jdcp::message::{InfoType, Message, MessageType};

#[test]
fn message_message_request_level_to_bytes_works() {
    assert_eq!(
        &b"jdcp-\xAABart\x00\x05\x00\x00"[..],
        Message {
            message_type: MessageType::REQUEST,
            character_name: "Bart",
            info_type: InfoType::LEVEL,
            data_size: 0,
            data: None,
        }
        .encode_jdcp()
    )
}

#[test]
fn message_message_request_stats_to_bytes_works() {
    assert_eq!(
        &b"jdcp-\xAABart\x00\x01\x00\x00"[..],
        Message {
            message_type: MessageType::REQUEST,
            character_name: "Bart",
            info_type: InfoType::STATS,
            data_size: 0,
            data: None,
        }
        .encode_jdcp()
    )
}

#[test]
fn message_message_response_stats_to_bytes_works() {
    assert_eq!(
        &b"jdcp-\xBBBart\x00\x01\x06\x00\x0C\x12\x12\x10\x0F\x0C"[..],
        Message {
            message_type: MessageType::RESPONSE,
            character_name: "Bart",
            info_type: InfoType::STATS,
            data_size: 6,
            data: Some(CharacterData::STATS(StatBlock::new(12, 18, 18, 16, 15, 12))),
        }
        .encode_jdcp()
    );
}

#[test]
fn message_message_response_level_to_bytes_works() {
    let expected_message = Message {
        message_type: MessageType::RESPONSE,
        character_name: "Bart",
        info_type: InfoType::LEVEL,
        data_size: 1,
        data: Some(CharacterData::LEVEL(10)),
    };
    assert_eq!(
        &b"jdcp-\xBBBart\x00\x05\x01\x00\x0A"[..],
        expected_message.encode_jdcp()
    )
}

#[test]
fn back_and_forth_conversion() {
    let first_message = Message {
        message_type: MessageType::RESPONSE,
        character_name: "Bart",
        info_type: InfoType::HP,
        data_size: 2,
        data: Some(CharacterData::HP(HealthPoints {
            current: 34,
            max: 42,
        })),
    };
    let msg_vec = first_message.encode_jdcp();
    let buff = &msg_vec[..];
    let result_message = decode_jdcp(&buff).unwrap().1;

    assert_eq!(first_message, result_message)
}

#[test]
fn an_age_response_is_written_whole() {
    assert_eq!(
        &b"jdcp-\xBBBart\x00\x02\x02\x00\x34\x12"[..],
        Message {
            message_type: MessageType::RESPONSE,
            character_name: "Bart",
            info_type: InfoType::AGE,
            data_size: 2,
            data: Some(CharacterData::AGE(0x1234)),
        }
        .encode_jdcp()
    );
}

#[test]
fn the_data_size_is_written_low_byte_first() {
    assert_eq!(
        &b"jdcp-\xAAZed\x00\x06\x06\xA0"[..],
        Message {
            message_type: MessageType::REQUEST,
            character_name: "Zed",
            info_type: InfoType::HP,
            data_size: 0xA006,
            data: None,
        }
        .encode_jdcp()
    );
}

#[test]
fn every_payload_is_written_in_wire_order() {
    let mut out = vec![0xEE];
    CharacterData::STATS(StatBlock::new(1, 2, 3, 4, 5, 6)).encode(&mut out);
    CharacterData::AGE(0xA000).encode(&mut out);
    CharacterData::CLASS(ClassType::BARD).encode(&mut out);
    CharacterData::RACE(RaceKind::HALFELF).encode(&mut out);
    CharacterData::LEVEL(0x12).encode(&mut out);
    CharacterData::HP(HealthPoints {
        current: 0x22,
        max: 0x25,
    })
    .encode(&mut out);
    assert_eq!(
        out,
        vec![0xEE, 1, 2, 3, 4, 5, 6, 0x00, 0xA0, 3, 4, 0x12, 0x22, 0x25]
    );
}

#[test]
fn every_payload_knows_its_info_type_and_size() {
    let payloads = [
        (CharacterData::STATS(StatBlock::new(1, 2, 3, 4, 5, 6)), InfoType::STATS, 6),
        (CharacterData::AGE(300), InfoType::AGE, 2),
        (CharacterData::CLASS(ClassType::WIZARD), InfoType::CLASS, 1),
        (CharacterData::RACE(RaceKind::TIEFLING), InfoType::RACE, 1),
        (CharacterData::LEVEL(20), InfoType::LEVEL, 1),
        (CharacterData::HP(HealthPoints { current: 1, max: 2 }), InfoType::HP, 2),
    ];
    for (data, info_type, size) in payloads {
        assert_eq!(data.info_type(), info_type);
        assert_eq!(info_type.payload_size(), size);
        let mut out = Vec::new();
        data.encode(&mut out);
        assert_eq!(out.len(), size as usize);
    }
}

fn responses() -> Vec<Message<'static>> {
    let payloads = [
        CharacterData::STATS(StatBlock::new(12, 18, 18, 16, 15, 12)),
        CharacterData::AGE(2420),
        CharacterData::AGE(0xFFFF),
        CharacterData::CLASS(ClassType::ARTIFICER),
        CharacterData::CLASS(ClassType::WIZARD),
        CharacterData::RACE(RaceKind::DWARF),
        CharacterData::RACE(RaceKind::TIEFLING),
        CharacterData::LEVEL(0),
        CharacterData::LEVEL(255),
        CharacterData::HP(HealthPoints { current: 34, max: 42 }),
    ];
    let mut messages = Vec::new();
    for name in ["B", "Bart", "azAZ", "Sally"] {
        for data in payloads {
            messages.push(Message {
                message_type: MessageType::RESPONSE,
                character_name: name,
                info_type: data.info_type(),
                data_size: data.info_type().payload_size(),
                data: Some(data),
            });
        }
        for byte in 1..=6u8 {
            messages.push(Message {
                message_type: MessageType::REQUEST,
                character_name: name,
                info_type: InfoType::from_discriminant(byte).unwrap(),
                data_size: 0,
                data: None,
            });
        }
    }
    messages
}

#[test]
fn decoding_undoes_encoding() {
    for message in responses() {
        assert!(message.is_well_formed());
        let bytes = message.encode_jdcp();
        assert_eq!(decode_jdcp(&bytes), Ok((&b""[..], message)));
    }
}

#[test]
fn decoding_leaves_what_follows_the_message() {
    for message in responses() {
        let mut bytes = message.encode_jdcp();
        let length = bytes.len();
        bytes.extend_from_slice(b"\x00abc");
        let (rest, decoded) = decode_jdcp(&bytes).unwrap();
        assert_eq!(decoded, message);
        assert_eq!(rest, &bytes[length..]);
    }
}

#[test]
fn every_proper_prefix_is_incomplete() {
    for message in responses() {
        let bytes = message.encode_jdcp();
        for length in 0..bytes.len() {
            match decode_jdcp(&bytes[..length]) {
                Err(DecodeError::Incomplete(_)) => {}
                other => panic!("prefix of {} bytes gave {:?}", length, other),
            }
        }
    }
}

#[test]
fn a_message_without_its_last_byte_is_incomplete() {
    let bytes = Message {
        message_type: MessageType::RESPONSE,
        character_name: "Bart",
        info_type: InfoType::HP,
        data_size: 2,
        data: Some(CharacterData::HP(HealthPoints {
            current: 34,
            max: 42,
        })),
    }
    .encode_jdcp();
    let error = decode_jdcp(&bytes[..bytes.len() - 1]).unwrap_err();
    assert!(error.is_incomplete());
}

#[test]
fn what_decodes_is_well_formed() {
    let (_, message) = decode_jdcp(&b"jdcp-\xBBBart\x00\x03\x01\x00\x0B"[..]).unwrap();
    assert!(message.is_well_formed());
    assert_eq!(message.data, Some(CharacterData::CLASS(ClassType::ROGUE)));
}

fn message<'a>(
    message_type: MessageType,
    character_name: &'a str,
    info_type: InfoType,
    data_size: u16,
    data: Option<CharacterData>,
) -> Message<'a> {
    Message {
        message_type,
        character_name,
        info_type,
        data_size,
        data,
    }
}

#[test]
fn messages_that_the_protocol_does_not_allow() {
    let level = Some(CharacterData::LEVEL(3));
    assert!(message(MessageType::RESPONSE, "Bart", InfoType::LEVEL, 1, level).is_well_formed());
    assert!(message(MessageType::REQUEST, "Bart", InfoType::LEVEL, 0, None).is_well_formed());
    assert!(!message(MessageType::RESPONSE, "", InfoType::LEVEL, 1, level).is_well_formed());
    assert!(!message(MessageType::RESPONSE, "Bart Simpson", InfoType::LEVEL, 1, level).is_well_formed());
    assert!(!message(MessageType::RESPONSE, "B4rt", InfoType::LEVEL, 1, level).is_well_formed());
    assert!(!message(MessageType::RESPONSE, "Bj\u{f6}rn", InfoType::LEVEL, 1, level).is_well_formed());
    assert!(!message(MessageType::RESPONSE, "Bart", InfoType::LEVEL, 2, level).is_well_formed());
    assert!(!message(MessageType::RESPONSE, "Bart", InfoType::CLASS, 1, level).is_well_formed());
    assert!(!message(MessageType::RESPONSE, "Bart", InfoType::LEVEL, 0, None).is_well_formed());
    assert!(!message(MessageType::REQUEST, "Bart", InfoType::LEVEL, 1, level).is_well_formed());
    assert!(!message(MessageType::REQUEST, "Bart", InfoType::LEVEL, 1, None).is_well_formed());
}

#[test]
fn more_bytes_do_not_change_a_decision() {
    let buffers: [&[u8]; 6] = [
        b"jdcp-\xAABart\x00\x05\x00\x00",
        b"jdcp-\xBBBart\x00\x06\x02\x00\x22\x25",
        b"jdcq",
        b"jdcp-\xCC",
        b"jdcp-\xAABart\x01",
        b"jdcp-\xBBBart\x00\x06\x03\x00",
    ];
    for buffer in buffers {
        let mut longer = buffer.to_vec();
        longer.extend_from_slice(b"\x00Az\xFF");
        match decode_jdcp(buffer) {
            Ok((rest, message)) => {
                let (longer_rest, same) = decode_jdcp(&longer).unwrap();
                assert_eq!(same, message);
                assert_eq!(longer_rest, [rest, &b"\x00Az\xFF"[..]].concat());
            }
            Err(error) => {
                assert!(!error.is_incomplete());
                assert_eq!(decode_jdcp(&longer), Err(error));
            }
        }
    }
}
