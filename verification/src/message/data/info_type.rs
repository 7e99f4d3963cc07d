//! The info type: the byte that says which attribute a message is about.

use vstd::prelude::*;
use crate::error::{missing, parsed, DecodeError, Invalid};
use crate::stream::take;

verus! {

/// The attribute that a message is about. On the wire the info types are
/// numbered from 1 in this order.
#[derive(Debug, PartialEq, Eq, Clone, Copy, Structural)]
pub enum InfoType {
    STATS,
    AGE,
    CLASS,
    RACE,
    LEVEL,
    HP,
}

impl InfoType {
    /// The byte that stands for this info type on the wire.
    pub open spec fn spec_discriminant(&self) -> u8 {
        match self {
            InfoType::STATS => 1,
            InfoType::AGE => 2,
            InfoType::CLASS => 3,
            InfoType::RACE => 4,
            InfoType::LEVEL => 5,
            InfoType::HP => 6,
        }
    }

    /// The info type that `byte` stands for, if it stands for one.
    pub open spec fn spec_from_discriminant(byte: u8) -> Option<InfoType> {
        if byte == 1 {
            Some(InfoType::STATS)
        } else if byte == 2 {
            Some(InfoType::AGE)
        } else if byte == 3 {
            Some(InfoType::CLASS)
        } else if byte == 4 {
            Some(InfoType::RACE)
        } else if byte == 5 {
            Some(InfoType::LEVEL)
        } else if byte == 6 {
            Some(InfoType::HP)
        } else {
            None
        }
    }

    /// The byte that stands for this info type on the wire.
    #[verifier::when_used_as_spec(spec_discriminant)]
    pub fn discriminant(&self) -> (byte: u8)
        ensures
            byte == self.spec_discriminant(),
    {
        match self {
            InfoType::STATS => 1,
            InfoType::AGE => 2,
            InfoType::CLASS => 3,
            InfoType::RACE => 4,
            InfoType::LEVEL => 5,
            InfoType::HP => 6,
        }
    }

    /// Reads a info type from its wire byte. A byte that stands for none gives
    /// `None`.
    pub fn from_discriminant(byte: u8) -> (found: Option<InfoType>)
        ensures
            found == Self::spec_from_discriminant(byte),
            found matches Some(value) ==> value.spec_discriminant() == byte,
            found is Some <==> 1 <= byte <= 6,
    {
        match byte {
            1 => Some(InfoType::STATS),
            2 => Some(InfoType::AGE),
            3 => Some(InfoType::CLASS),
            4 => Some(InfoType::RACE),
            5 => Some(InfoType::LEVEL),
            6 => Some(InfoType::HP),
            _ => None,
        }
    }

    /// The two tables are inverse to each other: reading the byte of a
    /// info type gives it back, and a byte that reads as a info type is
    /// its byte.
    pub proof fn lemma_discriminant_bijection(value: InfoType, byte: u8)
        ensures
            Self::spec_from_discriminant(value.spec_discriminant()) == Some(value),
            Self::spec_from_discriminant(byte) == Some(value) ==> value.spec_discriminant()
                == byte,
    {
    }

    /// Number of payload bytes that a response of this info type carries.
    pub open spec fn spec_payload_size(&self) -> u16 {
        match self {
            InfoType::STATS => 6,
            InfoType::AGE => 2,
            InfoType::CLASS => 1,
            InfoType::RACE => 1,
            InfoType::LEVEL => 1,
            InfoType::HP => 2,
        }
    }

    /// Number of payload bytes that a response of this info type carries.
    #[verifier::when_used_as_spec(spec_payload_size)]
    pub fn payload_size(&self) -> (size: u16)
        ensures
            size == self.spec_payload_size(),
    {
        match self {
            InfoType::STATS => 6,
            InfoType::AGE => 2,
            InfoType::CLASS => 1,
            InfoType::RACE => 1,
            InfoType::LEVEL => 1,
            InfoType::HP => 2,
        }
    }
}

/// The info type at the front of `i`: one byte, which must stand for an info
/// type. An empty input asks for that byte.
pub open spec fn spec_info_type(i: Seq<u8>) -> Result<(Seq<u8>, InfoType), DecodeError> {
    if i.len() < 1 {
        Err(missing(1, i.len()))
    } else {
        match InfoType::spec_from_discriminant(i[0]) {
            Some(info_type) => Ok((i.skip(1), info_type)),
            None => Err(DecodeError::Invalid(Invalid::InfoType(i[0]))),
        }
    }
}

/// Reads the info type at the front of `i` and returns it with the bytes that
/// follow. A byte outside `1..=6` is invalid; an empty input is incomplete.
pub fn parse_info_type(i: &[u8]) -> (r: Result<(&[u8], InfoType), DecodeError>)
    ensures
        parsed(r) == spec_info_type(i@),
{
    match take(1, i) {
        Ok((rest, found)) => match InfoType::from_discriminant(found[0]) {
            Some(info_type) => Ok((rest, info_type)),
            None => Err(DecodeError::Invalid(Invalid::InfoType(found[0]))),
        },
        Err(stop) => Err(DecodeError::needs_more(stop)),
    }
}

} // verus!
