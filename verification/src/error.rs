//! How decoding fails: a buffer that is too short, or bytes that are wrong.

use vstd::prelude::*;
use crate::message::data::info_type::InfoType;
use crate::stream::{Needed, Stop};

verus! {

/// What is wrong with bytes that can never become a message, by the field
/// that holds them.
#[derive(Debug, Clone, Copy, PartialEq, Eq)]
pub enum Invalid {
    /// The buffer does not start with the protocol tag.
    Tag,
    /// The byte after the tag stands for no message type.
    MessageType(u8),
    /// The character name does not start with an ASCII letter.
    CharacterName,
    /// The character name is followed by this byte, not by the terminator.
    Terminator(u8),
    /// This byte stands for no info type.
    InfoType(u8),
    /// A parser for one kind of response met the info type of another.
    UnexpectedInfoType { expected: InfoType, found: InfoType },
    /// A request declares a payload of this size; it can have none.
    RequestSize(u16),
    /// A response declares `data_size` bytes of payload where its info type
    /// has `payload_size`.
    ResponseSize { info_type: InfoType, payload_size: u16, data_size: u16 },
    /// This byte stands for no class.
    Class(u8),
    /// This byte stands for no race.
    Race(u8),
}

/// Why no message could be read.
#[derive(Debug, Clone, Copy, PartialEq, Eq)]
pub enum DecodeError {
    /// The buffer is too short to decide; more bytes may complete it.
    Incomplete(Needed),
    /// The bytes present are wrong, and no further bytes can mend them.
    Invalid(Invalid),
}

impl DecodeError {
    /// The error that a field's parser reports when an elementary parser
    /// stops: a request for more bytes is handed on, any mismatch becomes
    /// `context`.
    pub open spec fn spec_from_stop(stop: Stop, context: Invalid) -> DecodeError {
        match stop {
            Stop::Incomplete(needed) => DecodeError::Incomplete(needed),
            Stop::Error => DecodeError::Invalid(context),
            Stop::Failure => DecodeError::Invalid(context),
        }
    }

    /// The error that a field's parser reports when an elementary parser
    /// stops: a request for more bytes is handed on, any mismatch becomes
    /// `context`.
    pub fn from_stop(stop: Stop, context: Invalid) -> (error: DecodeError)
        ensures
            error == Self::spec_from_stop(stop, context),
    {
        match stop {
            Stop::Incomplete(needed) => DecodeError::Incomplete(needed),
            Stop::Error => DecodeError::Invalid(context),
            Stop::Failure => DecodeError::Invalid(context),
        }
    }

    /// The error for a stop that is a request for more bytes.
    pub(crate) fn needs_more(stop: Stop) -> (error: DecodeError)
        requires
            stop is Incomplete,
        ensures
            error == DecodeError::Incomplete(stop->Incomplete_0),
    {
        match stop {
            Stop::Incomplete(needed) => DecodeError::Incomplete(needed),
            _ => vstd::pervasive::unreached(),
        }
    }

    /// True of the errors that more bytes may resolve.
    pub open spec fn spec_is_incomplete(&self) -> bool {
        self is Incomplete
    }

    /// True of the errors that more bytes may resolve.
    #[verifier::when_used_as_spec(spec_is_incomplete)]
    pub fn is_incomplete(&self) -> (b: bool)
        ensures
            b == self.spec_is_incomplete(),
    {
        match self {
            DecodeError::Incomplete(_) => true,
            DecodeError::Invalid(_) => false,
        }
    }
}

/// A parser's result with the remaining slice replaced by the bytes it holds.
pub open spec fn parsed<T>(r: Result<(&[u8], T), DecodeError>) -> Result<(Seq<u8>, T), DecodeError> {
    match r {
        Ok((rest, value)) => Ok((rest@, value)),
        Err(error) => Err(error),
    }
}

/// The request for the `count - have` bytes that a field is short of.
pub open spec fn missing(count: nat, have: nat) -> DecodeError {
    DecodeError::Incomplete(Needed::Size((count - have) as usize))
}

} // verus!
