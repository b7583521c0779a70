use vstd::prelude::*;

verus! {

/// The ways in which decoding System Exclusive data can fail.
#[derive(Debug, Clone, Copy, PartialEq, Eq, Structural)]
pub enum SystemExclusiveError {
    /// The buffer is not a complete, well-delimited message.
    InvalidMessage,
    /// The bytes or the name do not identify a manufacturer.
    InvalidManufacturer,
    /// The input of a payload codec has an impossible length.
    MalformedEncoding,
}

impl SystemExclusiveError {
    /// The text that describes this error.
    pub open spec fn spec_to_string(self) -> Seq<char> {
        match self {
            SystemExclusiveError::InvalidMessage => "Invalid System Exclusive message"@,
            SystemExclusiveError::InvalidManufacturer => "Invalid manufacturer identifier"@,
            SystemExclusiveError::MalformedEncoding => "Malformed payload encoding"@,
        }
    }

    /// Describes this error in words.
    pub fn to_string(&self) -> (text: String)
        ensures
            text@ == self.spec_to_string(),
    {
        match self {
            SystemExclusiveError::InvalidMessage => "Invalid System Exclusive message".to_string(),
            SystemExclusiveError::InvalidManufacturer => "Invalid manufacturer identifier".to_string(),
            SystemExclusiveError::MalformedEncoding => "Malformed payload encoding".to_string(),
        }
    }
}

} // verus!
