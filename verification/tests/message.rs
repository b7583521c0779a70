use syxpack::{
    Manufacturer, Message, SystemExclusiveError, UniversalKind, DEVELOPMENT, INITIATOR,
    NON_REAL_TIME, REAL_TIME, TERMINATOR,
};

#[test]
fn new_message_manufacturer_standard() {
    let data = vec![0xF0, 0x40, 0x00, 0x20, 0x00, 0x04, 0x00, 0x3F, 0xF7];
    let message = Message::from_bytes(&data);
    if let Ok(Message::ManufacturerSpecific { manufacturer, .. }) = message {
        assert_eq!(manufacturer, Manufacturer::Standard(0x40));
    } else {
        panic!("Expected a manufacturer-specific message with standard identifier");
    }
}

#[test]
fn new_message_manufacturer_extended() {
    let data = vec![0xF0, 0x00, 0x00, 0x0E, 0x00, 0x41, 0x63, 0x00, 0x5D, 0xF7];
    let message = Message::from_bytes(&data);
    if let Ok(Message::ManufacturerSpecific { manufacturer, .. }) = message {
        assert_eq!(manufacturer, Manufacturer::Extended([0x00, 0x00, 0x0E]));
    } else {
        panic!("Expected a manufacturer-specific message with extended identifier");
    }
}

#[test]
fn manufacturer_message() {
    let message = Message::ManufacturerSpecific {
        manufacturer: Manufacturer::Standard(0x40), // Kawai ID
        payload: vec![
            0x00, // MIDI channel 1
            0x20, // one block data dump
            0x00, // "synthesizer group"
            0x04, // K4/K4r ID no.
            0x00, // internal patch
            0x3F, // patch slot D-16
        ],
    };
    let message_bytes = message.to_bytes();
    assert_eq!(message_bytes, vec![0xF0, 0x40, 0x00, 0x20, 0x00, 0x04, 0x00, 0x3F, 0xF7]);
}

#[test]
fn standard_manufacturer() {
    let message = Message::ManufacturerSpecific {
        manufacturer: Manufacturer::Standard(0x43),
        payload: vec![],
    };
    let message_bytes = message.to_bytes();
    assert_eq!(message_bytes, vec![0xF0, 0x43, 0xF7]);
}

#[test]
fn extended_manufacturer() {
    let message = Message::ManufacturerSpecific {
        manufacturer: Manufacturer::Extended([0x00, 0x00, 0x01]),
        payload: vec![],
    };
    let message_bytes = message.to_bytes();
    assert_eq!(message_bytes, vec![0xF0, 0x00, 0x00, 0x01, 0xF7]);
}

#[test]
fn universal() {
    let message = Message::Universal {
        kind: UniversalKind::NonRealTime,
        target: 0x00,
        sub_id1: 0x06, // General information
        sub_id2: 0x01, // - Identity request
        payload: vec![],
    };
    let message_bytes = message.to_bytes();
    assert_eq!(message_bytes, vec![INITIATOR, NON_REAL_TIME, 0x00, 0x06, 0x01, TERMINATOR]);
}

#[test]
fn development_manufacturer() {
    let message = Message::ManufacturerSpecific {
        manufacturer: Manufacturer::Standard(DEVELOPMENT),
        payload: vec![],
    };
    let message_bytes = message.to_bytes();
    assert_eq!(message_bytes, vec![INITIATOR, DEVELOPMENT, TERMINATOR]);
}

#[test]
fn parse_standard_frame_with_payload() {
    let data = [0xF0, 0x40, 0x00, 0x20, 0x00, 0x04, 0x00, 0x3F, 0xF7];
    assert_eq!(
        Message::from_bytes(&data),
        Ok(Message::ManufacturerSpecific {
            manufacturer: Manufacturer::Standard(0x40),
            payload: vec![0x00, 0x20, 0x00, 0x04, 0x00, 0x3F],
        })
    );
}

#[test]
fn parse_extended_frame_with_payload() {
    let data = [0xF0, 0x00, 0x00, 0x0E, 0x00, 0x41, 0x63, 0x00, 0x5D, 0xF7];
    assert_eq!(
        Message::from_bytes(&data),
        Ok(Message::ManufacturerSpecific {
            manufacturer: Manufacturer::Extended([0x00, 0x00, 0x0E]),
            payload: vec![0x00, 0x41, 0x63, 0x00, 0x5D],
        })
    );
}

#[test]
fn parse_universal_non_real_time_without_payload() {
    let data = [0xF0, 0x7E, 0x00, 0x06, 0x01, 0xF7];
    assert_eq!(
        Message::from_bytes(&data),
        Ok(Message::Universal {
            kind: UniversalKind::NonRealTime,
            target: 0x00,
            sub_id1: 0x06,
            sub_id2: 0x01,
            payload: vec![],
        })
    );
}

#[test]
fn parse_universal_real_time_with_payload() {
    let data = [INITIATOR, REAL_TIME, 0x7F, 0x04, 0x01, 0x00, 0x64, TERMINATOR];
    assert_eq!(
        Message::from_bytes(&data),
        Ok(Message::Universal {
            kind: UniversalKind::RealTime,
            target: 0x7F,
            sub_id1: 0x04,
            sub_id2: 0x01,
            payload: vec![0x00, 0x64],
        })
    );
}

#[test]
fn parse_development_frame() {
    let data = [INITIATOR, DEVELOPMENT, 0x01, 0x02, TERMINATOR];
    assert_eq!(
        Message::from_bytes(&data),
        Ok(Message::ManufacturerSpecific {
            manufacturer: Manufacturer::Development,
            payload: vec![0x01, 0x02],
        })
    );
}

#[test]
fn parse_shortest_frames() {
    assert_eq!(
        Message::from_bytes(&[0xF0, 0x43, 0xF7]),
        Ok(Message::ManufacturerSpecific {
            manufacturer: Manufacturer::Standard(0x43),
            payload: vec![],
        })
    );
    assert_eq!(
        Message::from_bytes(&[0xF0, 0x7D, 0xF7]),
        Ok(Message::ManufacturerSpecific {
            manufacturer: Manufacturer::Development,
            payload: vec![],
        })
    );
    assert_eq!(
        Message::from_bytes(&[0xF0, 0x00, 0x20, 0x29, 0xF7]),
        Ok(Message::ManufacturerSpecific {
            manufacturer: Manufacturer::Extended([0x00, 0x20, 0x29]),
            payload: vec![],
        })
    );
}

#[test]
fn parse_rejects_empty_buffer() {
    assert_eq!(Message::from_bytes(&[]), Err(SystemExclusiveError::InvalidMessage));
}

#[test]
fn parse_rejects_missing_initiator() {
    assert_eq!(
        Message::from_bytes(&[0x00, 0x43, 0x01, 0x02, 0xF7]),
        Err(SystemExclusiveError::InvalidMessage)
    );
}

#[test]
fn parse_rejects_missing_terminator() {
    assert_eq!(
        Message::from_bytes(&[0xF0, 0x43, 0x01, 0x02, 0x03]),
        Err(SystemExclusiveError::InvalidMessage)
    );
}

#[test]
fn parse_rejects_frames_too_short_for_their_class() {
    assert_eq!(Message::from_bytes(&[0xF0]), Err(SystemExclusiveError::InvalidMessage));
    assert_eq!(Message::from_bytes(&[0xF0, 0xF7]), Err(SystemExclusiveError::InvalidMessage));
    assert_eq!(
        Message::from_bytes(&[0xF0, 0x7E, 0x00, 0x06, 0xF7]),
        Err(SystemExclusiveError::InvalidMessage)
    );
    assert_eq!(
        Message::from_bytes(&[0xF0, 0x7F, 0xF7]),
        Err(SystemExclusiveError::InvalidMessage)
    );
    assert_eq!(
        Message::from_bytes(&[0xF0, 0x00, 0x20, 0xF7]),
        Err(SystemExclusiveError::InvalidMessage)
    );
    assert_eq!(
        Message::from_bytes(&[0xF0, 0x00, 0xF7]),
        Err(SystemExclusiveError::InvalidMessage)
    );
}

#[test]
fn frames_survive_reading_and_writing() {
    let frames: Vec<Vec<u8>> = vec![
        vec![0xF0, 0x40, 0x00, 0x20, 0x00, 0x04, 0x00, 0x3F, 0xF7],
        vec![0xF0, 0x00, 0x00, 0x0E, 0x00, 0x41, 0x63, 0x00, 0x5D, 0xF7],
        vec![0xF0, 0x7E, 0x00, 0x06, 0x01, 0xF7],
        vec![0xF0, 0x7F, 0x10, 0x01, 0x02, 0x03, 0xF7],
        vec![0xF0, 0x7D, 0xF7],
        vec![0xF0, 0x90, 0xF7, 0xF7],
    ];
    for frame in frames {
        let message = Message::from_bytes(&frame).unwrap();
        assert_eq!(message.to_bytes(), frame);
    }
}

#[test]
fn messages_survive_writing_and_reading() {
    let messages = vec![
        Message::ManufacturerSpecific {
            manufacturer: Manufacturer::Standard(0x41),
            payload: vec![0x10, 0x42, 0x12],
        },
        Message::ManufacturerSpecific {
            manufacturer: Manufacturer::Extended([0x00, 0x21, 0x1D]),
            payload: vec![],
        },
        Message::ManufacturerSpecific { manufacturer: Manufacturer::Development, payload: vec![0x00] },
        Message::Universal {
            kind: UniversalKind::RealTime,
            target: 0x7F,
            sub_id1: 0x04,
            sub_id2: 0x01,
            payload: vec![0x00, 0x7F],
        },
        Message::Universal {
            kind: UniversalKind::NonRealTime,
            target: 0x00,
            sub_id1: 0x06,
            sub_id2: 0x01,
            payload: vec![],
        },
    ];
    for message in messages {
        assert_eq!(Message::from_bytes(&message.to_bytes()), Ok(message));
    }
}

#[test]
fn reserved_standard_bytes_read_back_as_their_own_class() {
    let development = Message::ManufacturerSpecific {
        manufacturer: Manufacturer::Standard(DEVELOPMENT),
        payload: vec![0x01],
    };
    assert_eq!(
        Message::from_bytes(&development.to_bytes()),
        Ok(Message::ManufacturerSpecific {
            manufacturer: Manufacturer::Development,
            payload: vec![0x01],
        })
    );
    let universal = Message::ManufacturerSpecific {
        manufacturer: Manufacturer::Standard(NON_REAL_TIME),
        payload: vec![0x01, 0x02, 0x03, 0x04],
    };
    assert_eq!(
        Message::from_bytes(&universal.to_bytes()),
        Ok(Message::Universal {
            kind: UniversalKind::NonRealTime,
            target: 0x01,
            sub_id1: 0x02,
            sub_id2: 0x03,
            payload: vec![0x04],
        })
    );
}

#[test]
fn digest_is_md5_of_the_frame() {
    let message = Message::ManufacturerSpecific {
        manufacturer: Manufacturer::Standard(0x43),
        payload: vec![],
    };
    assert_eq!(
        message.digest(),
        [
            0xaf, 0x18, 0x5a, 0xc7, 0xd3, 0x67, 0xab, 0x2b, 0x83, 0xfc, 0x4b, 0xfd, 0xe2, 0x61,
            0x3d, 0x2a
        ]
    );
    let request = Message::Universal {
        kind: UniversalKind::NonRealTime,
        target: 0x00,
        sub_id1: 0x06,
        sub_id2: 0x01,
        payload: vec![],
    };
    assert_eq!(
        request.digest(),
        [
            0x21, 0xd7, 0xcd, 0x8f, 0x62, 0xad, 0x4d, 0x1f, 0x09, 0x2d, 0x9a, 0x45, 0x10, 0x1e,
            0x12, 0x9e
        ]
    );
}

#[test]
fn universal_kind_text() {
    assert_eq!(UniversalKind::NonRealTime.to_string(), "Non-Real-time");
    assert_eq!(UniversalKind::RealTime.to_string(), "Real-time");
}

#[test]
fn error_text() {
    assert_eq!(
        SystemExclusiveError::InvalidMessage.to_string(),
        "Invalid System Exclusive message"
    );
    assert_eq!(
        SystemExclusiveError::InvalidManufacturer.to_string(),
        "Invalid manufacturer identifier"
    );
    assert_eq!(
        SystemExclusiveError::MalformedEncoding.to_string(),
        "Malformed payload encoding"
    );
}
