//! The ways in which an operation on a message buffer can fail.

use vstd::prelude::*;

verus! {

/// Why a message buffer refused an operation.
#[derive(Debug, Clone, Copy, PartialEq, Eq, Structural)]
pub enum NetworkMessageError {
    /// A write would not fit into the body budget, or an append had nothing to append.
    SizeError,
    /// A string read asked for more data than the message declares.
    ReadError,
    /// The bytes of a string are not valid UTF-8.
    InvalidUtf8,
}

impl NetworkMessageError {
    /// The text that describes the error to a person.
    pub open spec fn description(self) -> Seq<char> {
        match self {
            NetworkMessageError::SizeError => "NetworkMessage size is wrong"@,
            NetworkMessageError::ReadError => "Cannot read from NetworkMessage"@,
            NetworkMessageError::InvalidUtf8 => "Invalid UTF-8 string"@,
        }
    }

    /// Renders the error as text.
    pub fn message(&self) -> (text: String)
        ensures
            text@ == self.description(),
    {
        match self {
            NetworkMessageError::SizeError => "NetworkMessage size is wrong".to_owned(),
            NetworkMessageError::ReadError => "Cannot read from NetworkMessage".to_owned(),
            NetworkMessageError::InvalidUtf8 => "Invalid UTF-8 string".to_owned(),
        }
    }
}

} // verus!
