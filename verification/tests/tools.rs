use syxpack::{
    read_messages, received_frame, sections, Manufacturer, Message, MessageSection, SectionKind,
    SystemExclusiveError, UniversalKind,
};

#[test]
fn received_frame_in_hexadecimal() {
    let words = vec!["system-exclusive", "hex", "43", "10", "4c", "7F"];
    assert_eq!(received_frame(&words), Some(vec![0xF0, 0x43, 0x10, 0x4C, 0x7F, 0xF7]));
}

#[test]
fn received_frame_in_decimal() {
    let words = vec!["system-exclusive", "dec", "67", "16", "127"];
    assert_eq!(received_frame(&words), Some(vec![0xF0, 67, 16, 127, 0xF7]));
}

#[test]
fn received_frame_reads_decimal_unless_told_hex() {
    let words = vec!["system-exclusive", "HEX", "10", "1f"];
    assert_eq!(received_frame(&words), Some(vec![0xF0, 10, 0xF7]));
}

#[test]
fn received_frame_passes_over_what_is_no_byte() {
    let words = vec!["system-exclusive", "hex", "zz", "7f", "100", "", "-1", "0"];
    assert_eq!(received_frame(&words), Some(vec![0xF0, 0x7F, 0x00, 0xF7]));
    let decimal = vec!["system-exclusive", "dec", "256", "255", "4c"];
    assert_eq!(received_frame(&decimal), Some(vec![0xF0, 255, 0xF7]));
}

#[test]
fn received_frame_of_other_lines() {
    assert_eq!(received_frame(&vec!["note-on", "hex", "43"]), None);
    assert_eq!(received_frame(&vec!["system-exclusive", "hex"]), None);
    assert_eq!(received_frame(&vec![]), None);
    assert_eq!(received_frame(&vec!["System-Exclusive", "hex", "43"]), None);
}

#[test]
fn sections_of_a_standard_frame() {
    let data = [0xF0, 0x40, 0x00, 0x20, 0x00, 0x04, 0x00, 0x3F, 0xF7];
    assert_eq!(
        sections(&data),
        vec![
            MessageSection { kind: SectionKind::Initiator, offset: 0, length: 1 },
            MessageSection { kind: SectionKind::Manufacturer, offset: 1, length: 1 },
            MessageSection { kind: SectionKind::Payload, offset: 2, length: 6 },
            MessageSection { kind: SectionKind::Terminator, offset: 8, length: 1 },
        ]
    );
}

#[test]
fn sections_of_an_extended_frame() {
    let data = [0xF0, 0x00, 0x00, 0x0E, 0x00, 0x41, 0x63, 0x00, 0x5D, 0xF7];
    assert_eq!(
        sections(&data),
        vec![
            MessageSection { kind: SectionKind::Initiator, offset: 0, length: 1 },
            MessageSection { kind: SectionKind::Manufacturer, offset: 1, length: 3 },
            MessageSection { kind: SectionKind::Payload, offset: 4, length: 5 },
            MessageSection { kind: SectionKind::Terminator, offset: 9, length: 1 },
        ]
    );
}

#[test]
fn sections_of_a_universal_frame() {
    let data = [0xF0, 0x7E, 0x00, 0x06, 0x01, 0xF7];
    assert_eq!(
        sections(&data),
        vec![
            MessageSection { kind: SectionKind::Initiator, offset: 0, length: 1 },
            MessageSection { kind: SectionKind::Universal, offset: 1, length: 3 },
            MessageSection { kind: SectionKind::Terminator, offset: 5, length: 1 },
        ]
    );
}

#[test]
fn sections_of_a_buffer_that_is_no_frame() {
    assert_eq!(
        sections(&[0x01, 0x02, 0x03]),
        vec![
            MessageSection { kind: SectionKind::Initiator, offset: 0, length: 1 },
            MessageSection { kind: SectionKind::Terminator, offset: 2, length: 1 },
        ]
    );
    assert_eq!(
        sections(&[0xF7]),
        vec![
            MessageSection { kind: SectionKind::Initiator, offset: 0, length: 1 },
            MessageSection { kind: SectionKind::Terminator, offset: 0, length: 1 },
        ]
    );
}

#[test]
fn section_kind_texts() {
    assert_eq!(SectionKind::Initiator.to_string(), "Message initiator");
    assert_eq!(SectionKind::Manufacturer.to_string(), "Manufacturer identifier");
    assert_eq!(SectionKind::Universal.to_string(), "Universal message identifier");
    assert_eq!(SectionKind::Payload.to_string(), "Message payload");
    assert_eq!(SectionKind::Terminator.to_string(), "Message terminator");
    assert_eq!(SectionKind::Initiator.name(), "System Exclusive Initiator");
    assert_eq!(SectionKind::Manufacturer.name(), "Manufacturer");
    assert_eq!(SectionKind::Universal.name(), "Universal");
    assert_eq!(SectionKind::Payload.name(), "Message Payload");
    assert_eq!(SectionKind::Terminator.name(), "System Exclusive Terminator");
}

#[test]
fn read_messages_of_two_frames() {
    let buffer = vec![0xF0, 0x43, 0xF7, 0xF0, 0x7E, 0x00, 0x06, 0x01, 0xF7];
    assert_eq!(
        read_messages(buffer),
        Ok(vec![
            Message::ManufacturerSpecific {
                manufacturer: Manufacturer::Standard(0x43),
                payload: vec![],
            },
            Message::Universal {
                kind: UniversalKind::NonRealTime,
                target: 0x00,
                sub_id1: 0x06,
                sub_id2: 0x01,
                payload: vec![],
            },
        ])
    );
}

#[test]
fn read_messages_of_an_empty_buffer() {
    assert_eq!(read_messages(vec![]), Ok(vec![]));
}

#[test]
fn read_messages_rejects_bytes_after_the_last_terminator() {
    assert_eq!(
        read_messages(vec![0xF0, 0x43, 0xF7, 0xF0, 0x41]),
        Err(SystemExclusiveError::InvalidMessage)
    );
    assert_eq!(read_messages(vec![0xF0, 0x43]), Err(SystemExclusiveError::InvalidMessage));
}

#[test]
fn read_messages_rejects_a_part_that_is_no_frame() {
    assert_eq!(
        read_messages(vec![0xF0, 0x43, 0xF7, 0xF7]),
        Err(SystemExclusiveError::InvalidMessage)
    );
}
