//! The layout of a frame: which bytes are delimiters, which the header and
//! which the payload.

use vstd::prelude::*;

use crate::message::{spec_parse, Message, MessageView};

verus! {

/// What a section of a frame holds.
#[derive(Copy, Clone, Eq, PartialEq, Hash, Debug, Structural)]
pub enum SectionKind {
    Initiator,
    Manufacturer,
    Universal,
    Payload,
    Terminator,
}

/// A run of bytes of a frame.
#[derive(Copy, Clone, Eq, PartialEq, Hash, Debug, Structural)]
pub struct MessageSection {
    pub kind: SectionKind,
    /// The index of the first byte, counted from the start of the frame.
    pub offset: usize,
    /// The number of bytes.
    pub length: usize,
}

impl SectionKind {
    /// The text that describes this kind of section.
    pub open spec fn spec_to_string(self) -> Seq<char> {
        match self {
            SectionKind::Initiator => "Message initiator"@,
            SectionKind::Manufacturer => "Manufacturer identifier"@,
            SectionKind::Universal => "Universal message identifier"@,
            SectionKind::Payload => "Message payload"@,
            SectionKind::Terminator => "Message terminator"@,
        }
    }

    /// The title of a section of this kind.
    pub open spec fn spec_name(self) -> Seq<char> {
        match self {
            SectionKind::Initiator => "System Exclusive Initiator"@,
            SectionKind::Manufacturer => "Manufacturer"@,
            SectionKind::Universal => "Universal"@,
            SectionKind::Payload => "Message Payload"@,
            SectionKind::Terminator => "System Exclusive Terminator"@,
        }
    }

    /// Describes this kind of section in words.
    pub fn to_string(&self) -> (text: String)
        ensures
            text@ == self.spec_to_string(),
    {
        match self {
            SectionKind::Initiator => "Message initiator".to_string(),
            SectionKind::Manufacturer => "Manufacturer identifier".to_string(),
            SectionKind::Universal => "Universal message identifier".to_string(),
            SectionKind::Payload => "Message payload".to_string(),
            SectionKind::Terminator => "Message terminator".to_string(),
        }
    }

    /// The title under which a section of this kind is listed.
    pub fn name(&self) -> (text: String)
        ensures
            text@ == self.spec_name(),
    {
        match self {
            SectionKind::Initiator => "System Exclusive Initiator".to_string(),
            SectionKind::Manufacturer => "Manufacturer".to_string(),
            SectionKind::Universal => "Universal".to_string(),
            SectionKind::Payload => "Message Payload".to_string(),
            SectionKind::Terminator => "System Exclusive Terminator".to_string(),
        }
    }
}

/// The section of the given kind, place and size.
pub open spec fn section(kind: SectionKind, offset: int, length: int) -> MessageSection {
    MessageSection { kind, offset: offset as usize, length: length as usize }
}

/// The sections of a buffer that holds one frame. The first byte and the
/// last are listed as the delimiters, whatever they hold. Between them
/// stand, for a manufacturer's message, its identifier and its payload; for
/// a universal message, its three header bytes alone; and nothing for a
/// buffer that is no well-formed frame.
pub open spec fn spec_sections(bytes: Seq<u8>) -> Seq<MessageSection>
    recommends
        bytes.len() > 0,
{
    let first = section(SectionKind::Initiator, 0, 1);
    let last = section(SectionKind::Terminator, bytes.len() - 1, 1);
    match spec_parse(bytes) {
        Some(MessageView::ManufacturerSpecific { manufacturer, payload }) => {
            let id_len = manufacturer.spec_to_bytes().len() as int;
            seq![
                first,
                section(SectionKind::Manufacturer, 1, id_len),
                section(SectionKind::Payload, 1 + id_len, payload.len() as int),
                last,
            ]
        },
        Some(MessageView::Universal { .. }) => seq![first, section(SectionKind::Universal, 1, 3), last],
        None => seq![first, last],
    }
}

/// The sections of a manufacturer's message lie side by side and cover the
/// frame: each starts where the one before it ends, and the last ends with
/// the frame.
pub proof fn lemma_sections_cover(bytes: Seq<u8>)
    requires
        spec_parse(bytes) matches Some(message) && message is ManufacturerSpecific,
        bytes.len() <= usize::MAX,
    ensures
        spec_sections(bytes).len() == 4,
        spec_sections(bytes)[0].offset == 0,
        forall|i: int|
            0 <= i < 3 ==> (#[trigger] spec_sections(bytes)[i]).offset + spec_sections(bytes)[i].length
                == spec_sections(bytes)[i + 1].offset,
        spec_sections(bytes)[3].offset + spec_sections(bytes)[3].length == bytes.len(),
{
}

/// Lists the sections of a buffer that holds one frame.
pub fn sections(data: &[u8]) -> (list: Vec<MessageSection>)
    requires
        data.len() > 0,
    ensures
        list@ == spec_sections(data@),
{
    let mut list: Vec<MessageSection> = Vec::new();
    list.push(MessageSection { kind: SectionKind::Initiator, offset: 0, length: 1 });
    match Message::from_bytes(data) {
        Ok(Message::ManufacturerSpecific { manufacturer, payload }) => {
            let id_len = manufacturer.to_bytes().len();
            list.push(MessageSection { kind: SectionKind::Manufacturer, offset: 1, length: id_len });
            list.push(
                MessageSection {
                    kind: SectionKind::Payload,
                    offset: 1 + id_len,
                    length: payload.len(),
                },
            );
        },
        Ok(Message::Universal { .. }) => {
            list.push(MessageSection { kind: SectionKind::Universal, offset: 1, length: 3 });
        },
        Err(_) => {},
    }
    list.push(MessageSection { kind: SectionKind::Terminator, offset: data.len() - 1, length: 1 });
    assert(list@ =~= spec_sections(data@));
    list
}

} // verus!
