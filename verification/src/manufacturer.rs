//! Manufacturer identifiers: one byte for the standard range, three bytes
//! (the first of them zero) for the extended range, and one reserved byte
//! for development use.

use vstd::prelude::*;

use crate::error::SystemExclusiveError;
use crate::hexadecimal::{encode_upper, spec_encode_upper};
use crate::registry::{lookup_name, registry, spec_lookup};
use crate::{DEVELOPMENT, NON_REAL_TIME, REAL_TIME};

verus! {

/// A MIDI manufacturer identifier.
#[derive(Copy, Clone, Eq, PartialEq, Hash, Debug)]
pub enum Manufacturer {
    /// A single-byte identifier.
    Standard(u8),
    /// A three-byte identifier; its first byte is zero by convention.
    Extended([u8; 3]),
    /// The identifier reserved for development and non-commercial use.
    Development,
}

/// The region that an identifier was allocated from.
#[derive(Copy, Clone, Eq, PartialEq, Hash, Debug, Structural)]
pub enum ManufacturerGroup {
    Development,
    NorthAmerican,
    EuropeanAndOther,
    Japanese,
}

impl ManufacturerGroup {
    /// The name of this group.
    pub open spec fn spec_to_string(self) -> Seq<char> {
        match self {
            ManufacturerGroup::Development => "Development"@,
            ManufacturerGroup::EuropeanAndOther => "European & Other"@,
            ManufacturerGroup::Japanese => "Japanese"@,
            ManufacturerGroup::NorthAmerican => "North American"@,
        }
    }

    /// The name of this group as text.
    pub fn to_string(&self) -> (text: String)
        ensures
            text@ == self.spec_to_string(),
    {
        match self {
            ManufacturerGroup::Development => "Development".to_string(),
            ManufacturerGroup::EuropeanAndOther => "European & Other".to_string(),
            ManufacturerGroup::Japanese => "Japanese".to_string(),
            ManufacturerGroup::NorthAmerican => "North American".to_string(),
        }
    }
}

impl Manufacturer {
    /// The bytes that stand for this identifier inside a message.
    pub open spec fn spec_to_bytes(self) -> Seq<u8> {
        match self {
            Manufacturer::Standard(b) => seq![b],
            Manufacturer::Extended(bs) => seq![bs[0], bs[1], bs[2]],
            Manufacturer::Development => seq![DEVELOPMENT],
        }
    }

    /// The identifier that one or three bytes stand for. A lone development
    /// byte is `Development`, any other lone byte is `Standard`, and three
    /// bytes are `Extended` whatever the first of them is.
    pub open spec fn spec_from_bytes(bytes: Seq<u8>) -> Result<Manufacturer, SystemExclusiveError> {
        if bytes.len() == 1 {
            if bytes[0] == DEVELOPMENT {
                Ok(Manufacturer::Development)
            } else {
                Ok(Manufacturer::Standard(bytes[0]))
            }
        } else if bytes.len() == 3 {
            Ok(Manufacturer::Extended([bytes[0], bytes[1], bytes[2]]))
        } else {
            Err(SystemExclusiveError::InvalidManufacturer)
        }
    }

    /// Whether this identifier is the variant that a message carrying its
    /// bytes is read back as: a standard byte is none of the four reserved
    /// ones, and an extended identifier starts with zero.
    pub open spec fn well_formed(self) -> bool {
        match self {
            Manufacturer::Standard(b) => b != 0x00 && b != DEVELOPMENT && b != NON_REAL_TIME && b
                != REAL_TIME,
            Manufacturer::Extended(bs) => bs[0] == 0x00,
            Manufacturer::Development => true,
        }
    }

    /// Whether this identifier denotes development use. The development byte
    /// counts also where it was stored as a standard identifier.
    pub open spec fn spec_is_development(self) -> bool {
        match self {
            Manufacturer::Standard(b) => b == DEVELOPMENT,
            Manufacturer::Extended(_) => false,
            Manufacturer::Development => true,
        }
    }

    /// The group of this identifier: by numeric range for a standard byte, by
    /// bits 6 and 5 of the middle byte for an extended identifier.
    pub open spec fn spec_group(self) -> ManufacturerGroup {
        match self {
            Manufacturer::Development => ManufacturerGroup::Development,
            Manufacturer::Standard(b) => if b == DEVELOPMENT {
                ManufacturerGroup::Development
            } else if 0x01 <= b < 0x40 {
                ManufacturerGroup::NorthAmerican
            } else if 0x40 <= b < 0x60 {
                ManufacturerGroup::Japanese
            } else {
                ManufacturerGroup::EuropeanAndOther
            },
            Manufacturer::Extended(bs) => if bs[1] & 0x40 != 0 {
                ManufacturerGroup::Japanese
            } else if bs[1] & 0x20 != 0 {
                ManufacturerGroup::EuropeanAndOther
            } else {
                ManufacturerGroup::NorthAmerican
            },
        }
    }

    /// The identifier in upper-case hexadecimal, two digits to the byte.
    pub open spec fn spec_to_hex(self) -> Seq<char> {
        spec_encode_upper(self.spec_to_bytes())
    }

    /// The name of this identifier: a fixed text for development use, else
    /// the name that the table lists for it, else a fixed text that says
    /// that it is not known.
    pub open spec fn spec_name(self) -> Seq<char> {
        if self.spec_is_development() {
            "Development / Non-commercial"@
        } else {
            match spec_lookup(registry(), self.spec_to_hex()) {
                Some(name) => name,
                None => "Unknown manufacturer"@,
            }
        }
    }

    /// Reads an identifier from exactly one or three bytes.
    pub fn from_bytes(data: &[u8]) -> (result: Result<Manufacturer, SystemExclusiveError>)
        ensures
            result == Manufacturer::spec_from_bytes(data@),
    {
        if data.len() == 1 {
            if data[0] == DEVELOPMENT {
                Ok(Manufacturer::Development)
            } else {
                Ok(Manufacturer::Standard(data[0]))
            }
        } else if data.len() == 3 {
            Ok(Manufacturer::Extended([data[0], data[1], data[2]]))
        } else {
            Err(SystemExclusiveError::InvalidManufacturer)
        }
    }

    /// The default identifier, `Standard(0x40)`.
    pub fn new() -> (result: Manufacturer)
        ensures
            result == Manufacturer::Standard(0x40),
    {
        Manufacturer::Standard(0x40)
    }

    /// The bytes of this identifier as they appear in a message.
    pub fn to_bytes(&self) -> (bytes: Vec<u8>)
        ensures
            bytes@ == self.spec_to_bytes(),
    {
        let mut bytes: Vec<u8> = Vec::new();
        match self {
            Manufacturer::Standard(b) => {
                bytes.push(*b);
            },
            Manufacturer::Extended(bs) => {
                bytes.push(bs[0]);
                bytes.push(bs[1]);
                bytes.push(bs[2]);
            },
            Manufacturer::Development => {
                bytes.push(DEVELOPMENT);
            },
        }
        assert(bytes@ =~= self.spec_to_bytes());
        bytes
    }

    /// The bytes of this identifier as upper-case hexadecimal text.
    pub fn to_hex(&self) -> (text: String)
        ensures
            text@ == self.spec_to_hex(),
    {
        let bytes = self.to_bytes();
        encode_upper(&bytes)
    }

    /// The name of this manufacturer. An identifier that the table does not
    /// list is no error: it has the name "Unknown manufacturer".
    pub fn name(&self) -> (name: String)
        ensures
            name@ == self.spec_name(),
    {
        if self.is_development() {
            return "Development / Non-commercial".to_string();
        }
        let hex_id = self.to_hex();
        match lookup_name(hex_id.as_str()) {
            Some(name) => name.to_string(),
            None => "Unknown manufacturer".to_string(),
        }
    }

    /// Whether this identifier denotes development or non-commercial use.
    pub fn is_development(&self) -> (result: bool)
        ensures
            result == self.spec_is_development(),
    {
        match self {
            Manufacturer::Standard(b) => *b == DEVELOPMENT,
            Manufacturer::Extended(_) => false,
            Manufacturer::Development => true,
        }
    }

    /// The group that this identifier belongs to.
    pub fn group(&self) -> (result: ManufacturerGroup)
        ensures
            result == self.spec_group(),
    {
        if self.is_development() {
            return ManufacturerGroup::Development;
        }
        match self {
            Manufacturer::Standard(b) => {
                if 0x01 <= *b && *b < 0x40 {
                    ManufacturerGroup::NorthAmerican
                } else if 0x40 <= *b && *b < 0x60 {
                    ManufacturerGroup::Japanese
                } else {
                    ManufacturerGroup::EuropeanAndOther
                }
            },
            Manufacturer::Extended(bs) => {
                if (bs[1] & 0x40) != 0 {
                    ManufacturerGroup::Japanese
                } else if (bs[1] & 0x20) != 0 {
                    ManufacturerGroup::EuropeanAndOther
                } else {
                    ManufacturerGroup::NorthAmerican
                }
            },
            Manufacturer::Development => ManufacturerGroup::Development,
        }
    }
}

/// Reading back the bytes of an identifier gives the identifier again. The
/// one exception is the development byte stored as a standard identifier,
/// which reads back as `Development`.
pub proof fn lemma_manufacturer_round_trip(id: Manufacturer)
    requires
        id != Manufacturer::Standard(DEVELOPMENT),
    ensures
        Manufacturer::spec_from_bytes(id.spec_to_bytes()) == Ok::<
            Manufacturer,
            SystemExclusiveError,
        >(id),
{
    match id {
        Manufacturer::Extended(bs) => {
            let back: [u8; 3] = [bs[0], bs[1], bs[2]];
            assert(back =~= bs);
        },
        _ => {},
    }
}

/// Reading an identifier and writing it again gives the same bytes.
pub proof fn lemma_manufacturer_bytes_round_trip(bytes: Seq<u8>)
    requires
        bytes.len() == 1 || bytes.len() == 3,
    ensures
        Manufacturer::spec_from_bytes(bytes) is Ok,
        Manufacturer::spec_from_bytes(bytes).unwrap().spec_to_bytes() == bytes,
{
    let id = Manufacturer::spec_from_bytes(bytes).unwrap();
    assert(id.spec_to_bytes() =~= bytes);
}

} // verus!
