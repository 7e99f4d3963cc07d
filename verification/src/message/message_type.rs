//! The start of a message: the protocol tag and the message type.

use vstd::prelude::*;
use crate::error::{missing, parsed, DecodeError, Invalid};
use crate::stream::{agree, tag, take};

verus! {

/// Whether a message asks for an attribute or answers with one.
#[derive(Debug, PartialEq, Eq, Clone, Copy, Structural)]
pub enum MessageType {
    REQUEST,
    RESPONSE,
}

impl MessageType {
    /// The byte that stands for this message type on the wire.
    pub open spec fn spec_discriminant(&self) -> u8 {
        match self {
            MessageType::REQUEST => 0xAA,
            MessageType::RESPONSE => 0xBB,
        }
    }

    /// The message type that `byte` stands for, if it stands for one.
    pub open spec fn spec_from_discriminant(byte: u8) -> Option<MessageType> {
        if byte == 0xAA {
            Some(MessageType::REQUEST)
        } else if byte == 0xBB {
            Some(MessageType::RESPONSE)
        } else {
            None
        }
    }

    /// The byte that stands for this message type on the wire.
    #[verifier::when_used_as_spec(spec_discriminant)]
    pub fn discriminant(&self) -> (byte: u8)
        ensures
            byte == self.spec_discriminant(),
    {
        match self {
            MessageType::REQUEST => 0xAA,
            MessageType::RESPONSE => 0xBB,
        }
    }

    /// Reads a message type from its wire byte. A byte that stands for none gives
    /// `None`.
    pub fn from_discriminant(byte: u8) -> (found: Option<MessageType>)
        ensures
            found == Self::spec_from_discriminant(byte),
            found matches Some(value) ==> value.spec_discriminant() == byte,
            found is Some <==> (byte == 0xAA || byte == 0xBB),
    {
        match byte {
            0xAA => Some(MessageType::REQUEST),
            0xBB => Some(MessageType::RESPONSE),
            _ => None,
        }
    }

    /// The two tables are inverse to each other: reading the byte of a
    /// message type gives it back, and a byte that reads as a message type is
    /// its byte.
    pub proof fn lemma_discriminant_bijection(value: MessageType, byte: u8)
        ensures
            Self::spec_from_discriminant(value.spec_discriminant()) == Some(value),
            Self::spec_from_discriminant(byte) == Some(value) ==> value.spec_discriminant()
                == byte,
    {
    }
}

/// The five bytes `jdcp-` that every message starts with.
pub open spec fn spec_tag_bytes() -> Seq<u8> {
    seq![0x6Au8, 0x64u8, 0x63u8, 0x70u8, 0x2Du8]
}

/// The five bytes `jdcp-` that every message starts with.
pub fn tag_bytes() -> (bytes: [u8; 5])
    ensures
        bytes@ == spec_tag_bytes(),
{
    let bytes: [u8; 5] = [0x6A, 0x64, 0x63, 0x70, 0x2D];
    bytes
}

/// The tag at the front of `i`. A byte present that differs from the tag is
/// invalid at once, however few bytes have arrived; a tag cut short asks for
/// its missing bytes.
pub open spec fn spec_parse_tag(i: Seq<u8>) -> Result<(Seq<u8>, ()), DecodeError> {
    if !agree(i, spec_tag_bytes()) {
        Err(DecodeError::Invalid(Invalid::Tag))
    } else if i.len() < 5 {
        Err(missing(5, i.len()))
    } else {
        Ok((i.skip(5), ()))
    }
}

/// The message type at the front of `i`: one byte, which must stand for a
/// message type. An empty input asks for that byte.
pub open spec fn spec_parse_message_type(i: Seq<u8>) -> Result<(Seq<u8>, MessageType), DecodeError> {
    if i.len() < 1 {
        Err(missing(1, i.len()))
    } else {
        match MessageType::spec_from_discriminant(i[0]) {
            Some(message_type) => Ok((i.skip(1), message_type)),
            None => Err(DecodeError::Invalid(Invalid::MessageType(i[0]))),
        }
    }
}

/// The tag and, behind it, the message type at the front of `i`.
pub open spec fn spec_message_type(i: Seq<u8>) -> Result<(Seq<u8>, MessageType), DecodeError> {
    match spec_parse_tag(i) {
        Err(error) => Err(error),
        Ok((after_tag, _)) => spec_parse_message_type(after_tag),
    }
}

/// Reads the tag at the front of `i` and returns the bytes that follow it.
pub fn parse_tag(i: &[u8]) -> (r: Result<(&[u8], ()), DecodeError>)
    ensures
        parsed(r) == spec_parse_tag(i@),
{
    let literal = tag_bytes();
    match tag(literal.as_slice(), i) {
        Ok((rest, _)) => Ok((rest, ())),
        Err(stop) => Err(DecodeError::from_stop(stop, Invalid::Tag)),
    }
}

/// Reads the message type at the front of `i` and returns it with the bytes
/// that follow. A byte other than `0xAA` and `0xBB` is invalid; an empty
/// input is incomplete.
pub fn parse_message_type(i: &[u8]) -> (r: Result<(&[u8], MessageType), DecodeError>)
    ensures
        parsed(r) == spec_parse_message_type(i@),
{
    match take(1, i) {
        Ok((rest, found)) => match MessageType::from_discriminant(found[0]) {
            Some(message_type) => Ok((rest, message_type)),
            None => Err(DecodeError::Invalid(Invalid::MessageType(found[0]))),
        },
        Err(stop) => Err(DecodeError::needs_more(stop)),
    }
}

/// Reads the tag and the message type at the front of `i` and returns the
/// message type with the bytes that follow.
pub fn message_type(i: &[u8]) -> (r: Result<(&[u8], MessageType), DecodeError>)
    ensures
        parsed(r) == spec_message_type(i@),
{
    match parse_tag(i) {
        Ok((after_tag, _)) => parse_message_type(after_tag),
        Err(error) => Err(error),
    }
}

} // verus!
