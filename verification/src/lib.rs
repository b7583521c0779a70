//! Helpers for processing MIDI System Exclusive messages.
//!
//! A buffer is cut into frames (`frames`), a frame is read as a `Message`
//! and written back (`message`), and a manufacturer is identified, named
//! and grouped (`manufacturer`, `registry`, `names`). Two codecs carry
//! eight-bit data in payloads: `packed` and `nybbles`. `sections` lays a
//! frame out, and `receive` reads a frame from a line of text.
//!
//! Every function states what it returns in terms of the `spec` functions
//! beside it, and the laws that relate them are proved as `proof`
//! functions. What is taken from other crates and from the text functions
//! of the standard library is stated in `hexadecimal`, `text` and beside
//! `Message::digest`, and is not proved.

use vstd::prelude::*;

pub mod error;
pub mod frames;
pub mod hexadecimal;
pub mod manufacturer;
pub mod message;
pub mod names;
pub mod nybbles;
pub mod packed;
pub mod receive;
pub mod registry;
pub mod sections;
pub mod text;

pub use crate::error::SystemExclusiveError;
pub use crate::frames::{message_count, split_messages};
pub use crate::manufacturer::{Manufacturer, ManufacturerGroup};
pub use crate::message::{read_messages, Message, UniversalKind};
pub use crate::nybbles::{denybblify, nybblify, NybbleOrder};
pub use crate::packed::{pack, unpack};
pub use crate::receive::received_frame;
pub use crate::registry::{find_manufacturer, lookup_name};
pub use crate::sections::{sections, MessageSection, SectionKind};

verus! {

/// First byte of every System Exclusive message.
pub const INITIATOR: u8 = 0xF0;

/// Last byte of every System Exclusive message.
pub const TERMINATOR: u8 = 0xF7;

/// Manufacturer identifier reserved for development and non-commercial use.
pub const DEVELOPMENT: u8 = 0x7D;

/// Marker byte of a universal non-real-time message.
pub const NON_REAL_TIME: u8 = 0x7E;

/// Marker byte of a universal real-time message.
pub const REAL_TIME: u8 = 0x7F;

} // verus!
