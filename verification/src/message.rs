//! One System Exclusive message: reading it from a complete frame and
//! writing it back.

use vstd::prelude::*;
use vstd::slice::{slice_subrange, slice_to_vec};

use crate::error::SystemExclusiveError;
use crate::frames::{parts_view, spec_split, split_messages};
use crate::manufacturer::Manufacturer;
use crate::{DEVELOPMENT, INITIATOR, NON_REAL_TIME, REAL_TIME, TERMINATOR};

verus! {

/// The kind of a universal message.
#[derive(Copy, Clone, Eq, PartialEq, Hash, Debug, Structural)]
pub enum UniversalKind {
    NonRealTime,
    RealTime,
}

/// A MIDI System Exclusive message.
#[derive(Eq, PartialEq, Debug)]
pub enum Message {
    /// A message defined by the MIDI standard.
    Universal { kind: UniversalKind, target: u8, sub_id1: u8, sub_id2: u8, payload: Vec<u8> },
    /// A message defined by a manufacturer.
    ManufacturerSpecific { manufacturer: Manufacturer, payload: Vec<u8> },
}

/// What a `Message` holds, with its payload as a sequence of bytes.
pub enum MessageView {
    Universal { kind: UniversalKind, target: u8, sub_id1: u8, sub_id2: u8, payload: Seq<u8> },
    ManufacturerSpecific { manufacturer: Manufacturer, payload: Seq<u8> },
}

impl View for Message {
    type V = MessageView;

    open spec fn view(&self) -> MessageView {
        match *self {
            Message::Universal { kind, target, sub_id1, sub_id2, payload } => MessageView::Universal {
                kind,
                target,
                sub_id1,
                sub_id2,
                payload: payload@,
            },
            Message::ManufacturerSpecific { manufacturer, payload } => MessageView::ManufacturerSpecific {
                manufacturer,
                payload: payload@,
            },
        }
    }
}

impl UniversalKind {
    /// The byte that announces a universal message of this kind.
    pub open spec fn marker(self) -> u8 {
        match self {
            UniversalKind::NonRealTime => NON_REAL_TIME,
            UniversalKind::RealTime => REAL_TIME,
        }
    }

    /// The name of this kind.
    pub open spec fn spec_to_string(self) -> Seq<char> {
        match self {
            UniversalKind::NonRealTime => "Non-Real-time"@,
            UniversalKind::RealTime => "Real-time"@,
        }
    }

    /// The name of this kind as text.
    pub fn to_string(&self) -> (text: String)
        ensures
            text@ == self.spec_to_string(),
    {
        match self {
            UniversalKind::NonRealTime => "Non-Real-time".to_string(),
            UniversalKind::RealTime => "Real-time".to_string(),
        }
    }
}

impl MessageView {
    /// The frame of this message: initiator, header, payload, terminator.
    /// The header is the marker, target and two sub-identifiers of a
    /// universal message, or the manufacturer's bytes.
    pub open spec fn frame(self) -> Seq<u8> {
        match self {
            MessageView::Universal { kind, target, sub_id1, sub_id2, payload } => seq![
                INITIATOR,
                kind.marker(),
                target,
                sub_id1,
                sub_id2,
            ] + payload + seq![TERMINATOR],
            MessageView::ManufacturerSpecific { manufacturer, payload } => seq![INITIATOR]
                + manufacturer.spec_to_bytes() + payload + seq![TERMINATOR],
        }
    }

    /// Whether reading the frame of this message gives the message again:
    /// true of every universal message, and of a manufacturer's message whose
    /// identifier is well formed.
    pub open spec fn well_formed(self) -> bool {
        match self {
            MessageView::Universal { .. } => true,
            MessageView::ManufacturerSpecific { manufacturer, .. } => manufacturer.well_formed(),
        }
    }
}

/// The least length of a frame whose second byte is `second`: six for a
/// universal message, five for an extended identifier, three otherwise.
pub open spec fn min_frame_len(second: u8) -> nat {
    if second == NON_REAL_TIME || second == REAL_TIME {
        6
    } else if second == 0x00 {
        5
    } else {
        3
    }
}

/// A well-formed frame starts with the initiator, ends with the terminator
/// and is long enough for the header that its second byte announces.
pub open spec fn well_formed_frame(bytes: Seq<u8>) -> bool {
    &&& bytes.len() >= 3
    &&& bytes[0] == INITIATOR
    &&& bytes[bytes.len() - 1] == TERMINATOR
    &&& bytes.len() >= min_frame_len(bytes[1])
}

/// The message that a frame holds, if the frame is well formed. The second
/// byte decides the variant; the payload is what lies between the header and
/// the terminator.
pub open spec fn spec_parse(bytes: Seq<u8>) -> Option<MessageView> {
    if !well_formed_frame(bytes) {
        None
    } else {
        let end = bytes.len() - 1;
        let second = bytes[1];
        if second == DEVELOPMENT {
            Some(
                MessageView::ManufacturerSpecific {
                    manufacturer: Manufacturer::Development,
                    payload: bytes.subrange(2, end),
                },
            )
        } else if second == NON_REAL_TIME || second == REAL_TIME {
            Some(
                MessageView::Universal {
                    kind: if second == NON_REAL_TIME {
                        UniversalKind::NonRealTime
                    } else {
                        UniversalKind::RealTime
                    },
                    target: bytes[2],
                    sub_id1: bytes[3],
                    sub_id2: bytes[4],
                    payload: bytes.subrange(5, end),
                },
            )
        } else if second == 0x00 {
            Some(
                MessageView::ManufacturerSpecific {
                    manufacturer: Manufacturer::Extended([bytes[1], bytes[2], bytes[3]]),
                    payload: bytes.subrange(4, end),
                },
            )
        } else {
            Some(
                MessageView::ManufacturerSpecific {
                    manufacturer: Manufacturer::Standard(second),
                    payload: bytes.subrange(2, end),
                },
            )
        }
    }
}

/// The MD5 digest of a sequence of bytes, as the `md5` crate computes it.
pub uninterp spec fn md5_digest(data: Seq<u8>) -> Seq<u8>;

/// `md5::compute`: the sixteen bytes of the digest of `data`, named
/// `md5_digest`. Not proved.
#[verifier::external_body]
fn md5_compute(data: &Vec<u8>) -> (digest: [u8; 16])
    ensures
        digest@ == md5_digest(data@),
{
    md5::compute(data).0
}

impl Message {
    /// Reads a message from one complete frame. The frame is rejected exactly
    /// when it is not well formed.
    pub fn from_bytes(data: &[u8]) -> (result: Result<Message, SystemExclusiveError>)
        ensures
            match result {
                Ok(message) => spec_parse(data@) == Some(message@),
                Err(e) => e == SystemExclusiveError::InvalidMessage && spec_parse(data@) is None,
            },
    {
        let len = data.len();
        if len < 3 {
            return Err(SystemExclusiveError::InvalidMessage);
        }
        if data[0] != INITIATOR {
            return Err(SystemExclusiveError::InvalidMessage);
        }
        let end = len - 1;
        if data[end] != TERMINATOR {
            return Err(SystemExclusiveError::InvalidMessage);
        }
        let second = data[1];
        if second == DEVELOPMENT {
            Ok(
                Message::ManufacturerSpecific {
                    manufacturer: Manufacturer::Development,
                    payload: slice_to_vec(slice_subrange(data, 2, end)),
                },
            )
        } else if second == NON_REAL_TIME || second == REAL_TIME {
            if len < 6 {
                return Err(SystemExclusiveError::InvalidMessage);
            }
            let kind = if second == NON_REAL_TIME {
                UniversalKind::NonRealTime
            } else {
                UniversalKind::RealTime
            };
            Ok(
                Message::Universal {
                    kind,
                    target: data[2],
                    sub_id1: data[3],
                    sub_id2: data[4],
                    payload: slice_to_vec(slice_subrange(data, 5, end)),
                },
            )
        } else if second == 0x00 {
            if len < 5 {
                return Err(SystemExclusiveError::InvalidMessage);
            }
            Ok(
                Message::ManufacturerSpecific {
                    manufacturer: Manufacturer::Extended([data[1], data[2], data[3]]),
                    payload: slice_to_vec(slice_subrange(data, 4, end)),
                },
            )
        } else {
            Ok(
                Message::ManufacturerSpecific {
                    manufacturer: Manufacturer::Standard(second),
                    payload: slice_to_vec(slice_subrange(data, 2, end)),
                },
            )
        }
    }

    /// Writes the message as one frame.
    pub fn to_bytes(&self) -> (bytes: Vec<u8>)
        ensures
            bytes@ == self@.frame(),
    {
        let mut bytes: Vec<u8> = Vec::new();
        match self {
            Message::Universal { kind, target, sub_id1, sub_id2, payload } => {
                bytes.push(INITIATOR);
                bytes.push(
                    match kind {
                        UniversalKind::NonRealTime => NON_REAL_TIME,
                        UniversalKind::RealTime => REAL_TIME,
                    },
                );
                bytes.push(*target);
                bytes.push(*sub_id1);
                bytes.push(*sub_id2);
                bytes.extend_from_slice(payload.as_slice());
                bytes.push(TERMINATOR);
            },
            Message::ManufacturerSpecific { manufacturer, payload } => {
                bytes.push(INITIATOR);
                let id = manufacturer.to_bytes();
                bytes.extend_from_slice(id.as_slice());
                bytes.extend_from_slice(payload.as_slice());
                bytes.push(TERMINATOR);
            },
        }
        assert(bytes@ =~= self@.frame());
        bytes
    }

    /// The MD5 digest of the frame of this message.
    pub fn digest(&self) -> (digest: [u8; 16])
        ensures
            digest@ == md5_digest(self@.frame()),
    {
        let bytes = self.to_bytes();
        md5_compute(&bytes)
    }
}

/// Whether every one of `parts` is a well-formed frame.
pub open spec fn all_well_formed(parts: Seq<Seq<u8>>) -> bool {
    forall|i: int| 0 <= i < parts.len() ==> well_formed_frame(#[trigger] parts[i])
}

/// The messages that well-formed frames hold, in their order.
pub open spec fn spec_parse_each(parts: Seq<Seq<u8>>) -> Seq<MessageView>
    recommends
        all_well_formed(parts),
{
    Seq::new(parts.len(), |i: int| spec_parse(parts[i]).unwrap())
}

/// What a vector of messages holds.
pub open spec fn messages_view(messages: Seq<Message>) -> Seq<MessageView> {
    messages.map_values(|m: Message| m@)
}

/// Reads all the messages of a buffer: the buffer is cut behind each
/// terminator, and every part is read as one frame. A part that is no
/// well-formed frame, such as bytes after the last terminator, makes the
/// whole buffer invalid.
pub fn read_messages(data: Vec<u8>) -> (result: Result<Vec<Message>, SystemExclusiveError>)
    ensures
        match result {
            Ok(messages) => all_well_formed(spec_split(data@)) && messages_view(messages@)
                == spec_parse_each(spec_split(data@)),
            Err(e) => e == SystemExclusiveError::InvalidMessage && !all_well_formed(
                spec_split(data@),
            ),
        },
{
    let ghost frames = spec_split(data@);
    let parts = split_messages(data);
    let n = parts.len();
    let mut messages: Vec<Message> = Vec::new();
    let mut i: usize = 0;
    while i < n
        invariant
            n == parts.len(),
            i <= n,
            frames == spec_split(data@),
            parts_view(parts@) == frames,
            messages.len() == i,
            forall|j: int| 0 <= j < i ==> well_formed_frame(#[trigger] frames[j]),
            forall|j: int| 0 <= j < i ==> (#[trigger] messages[j])@ == spec_parse(frames[j]).unwrap(),
        decreases n - i,
    {
        assert(frames[i as int] == parts[i as int]@);
        match Message::from_bytes(parts[i].as_slice()) {
            Ok(message) => {
                messages.push(message);
            },
            Err(e) => {
                assert(!well_formed_frame(frames[i as int]));
                return Err(e);
            },
        }
        i += 1;
    }
    assert(messages_view(messages@) =~= spec_parse_each(frames));
    Ok(messages)
}

/// Every well-formed frame is read as a message, and writing that message
/// gives the frame back byte for byte.
pub proof fn lemma_frame_round_trip(frame: Seq<u8>)
    requires
        well_formed_frame(frame),
    ensures
        spec_parse(frame) is Some,
        spec_parse(frame).unwrap().frame() == frame,
{
    assert(spec_parse(frame).unwrap().frame() =~= frame);
}

/// The frame of a well-formed message is well formed, and reading it gives
/// the message back.
pub proof fn lemma_message_round_trip(message: MessageView)
    requires
        message.well_formed(),
    ensures
        well_formed_frame(message.frame()),
        spec_parse(message.frame()) == Some(message),
{
    let frame = message.frame();
    match message {
        MessageView::Universal { kind, target, sub_id1, sub_id2, payload } => {
            assert(frame.subrange(5, frame.len() - 1) =~= payload);
        },
        MessageView::ManufacturerSpecific { manufacturer, payload } => {
            match manufacturer {
                Manufacturer::Extended(bs) => {
                    let back: [u8; 3] = [frame[1], frame[2], frame[3]];
                    assert(back =~= bs);
                    assert(frame.subrange(4, frame.len() - 1) =~= payload);
                },
                _ => {
                    assert(frame.subrange(2, frame.len() - 1) =~= payload);
                },
            }
        },
    }
}

/// The payload of a frame that holds no terminator before its last byte,
/// as every part of a split buffer does, holds no terminator.
pub proof fn lemma_payload_without_terminator(frame: Seq<u8>)
    requires
        well_formed_frame(frame),
        forall|j: int| 0 <= j < frame.len() - 1 ==> frame[j] != TERMINATOR,
    ensures
        match spec_parse(frame).unwrap() {
            MessageView::Universal { payload, .. } => !payload.contains(TERMINATOR),
            MessageView::ManufacturerSpecific { payload, .. } => !payload.contains(TERMINATOR),
        },
{
}

/// Reading never yields a message that could not be read back: the result of
/// a successful read is well formed.
pub proof fn lemma_parsed_is_well_formed(frame: Seq<u8>)
    requires
        well_formed_frame(frame),
    ensures
        spec_parse(frame).unwrap().well_formed(),
{
}

} // verus!
