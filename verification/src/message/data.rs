//! What follows the character name: info type, payload size and payload.

use vstd::prelude::*;
use crate::character::character_data::CharacterData;
use crate::error::{parsed, DecodeError, Invalid};
use crate::message::data::character_data::{parse_payload, spec_sized_payload};
use crate::message::data::data_size::{parse_data_size, spec_data_size};
use crate::message::data::info_type::{parse_info_type, spec_info_type, InfoType};
use crate::message::message_type::MessageType;

pub mod character_data;
pub mod data_size;
pub mod data_type;
pub mod info_type;

pub use crate::message::data::data_type::DataType;

verus! {

/// The part of a message that follows the character name.
#[derive(Debug, PartialEq)]
pub struct MessageData {
    pub info_type: InfoType,
    pub data_size: u16,
    pub data: Option<CharacterData>,
}

/// What a request asks for.
#[derive(Debug, PartialEq)]
pub struct RequestData {
    pub info_type: InfoType,
}

/// The data of a response of type `expected` at the front of `i`: the info
/// type, which must be `expected`; the payload size, which must be the one
/// that `expected` has; then the payload. The fields are read in this order
/// and the first that fails decides.
pub open spec fn spec_response(expected: InfoType, i: Seq<u8>) -> Result<
    (Seq<u8>, MessageData),
    DecodeError,
> {
    match spec_info_type(i) {
        Err(error) => Err(error),
        Ok((after_type, found)) => if found != expected {
            Err(DecodeError::Invalid(Invalid::UnexpectedInfoType { expected, found }))
        } else {
            match spec_data_size(after_type) {
                Err(error) => Err(error),
                Ok((after_size, data_size)) => match spec_sized_payload(
                    expected,
                    data_size,
                    after_size,
                ) {
                    Err(error) => Err(error),
                    Ok((rest, data)) => Ok(
                        (rest, MessageData { info_type: expected, data_size, data: Some(data) }),
                    ),
                },
            }
        },
    }
}

/// The data of a request at the front of `i`: an info type and a payload
/// size, which must be zero.
pub open spec fn spec_request(i: Seq<u8>) -> Result<(Seq<u8>, MessageData), DecodeError> {
    match spec_info_type(i) {
        Err(error) => Err(error),
        Ok((after_type, info_type)) => match spec_data_size(after_type) {
            Err(error) => Err(error),
            Ok((rest, data_size)) => if data_size != 0 {
                Err(DecodeError::Invalid(Invalid::RequestSize(data_size)))
            } else {
                Ok((rest, MessageData { info_type, data_size, data: None }))
            },
        },
    }
}

/// The data of a message of type `message_type` at the front of `i`. For a
/// response the info type read picks the one kind of response that can match.
pub open spec fn spec_data(i: Seq<u8>, message_type: MessageType) -> Result<
    (Seq<u8>, MessageData),
    DecodeError,
> {
    match message_type {
        MessageType::REQUEST => spec_request(i),
        MessageType::RESPONSE => match spec_info_type(i) {
            Err(error) => Err(error),
            Ok((_, info_type)) => spec_response(info_type, i),
        },
    }
}

/// Reads the data of a response of type `expected` from the front of `i`.
/// Another info type, or a payload size other than the one `expected` has, is
/// invalid.
pub fn parse_response(i: &[u8], expected: InfoType) -> (r: Result<(&[u8], MessageData), DecodeError>)
    ensures
        parsed(r) == spec_response(expected, i@),
{
    let (after_type, found) = match parse_info_type(i) {
        Ok(read) => read,
        Err(error) => {
            return Err(error);
        },
    };
    if found != expected {
        return Err(DecodeError::Invalid(Invalid::UnexpectedInfoType { expected, found }));
    }
    let (after_size, data_size) = match parse_data_size(after_type) {
        Ok(read) => read,
        Err(error) => {
            return Err(error);
        },
    };
    match parse_payload(after_size, expected, data_size) {
        Ok((rest, data)) => Ok(
            (rest, MessageData { info_type: expected, data_size, data: Some(data) }),
        ),
        Err(error) => Err(error),
    }
}

/// Reads the data of a STATS response: info type 1, size 6, six scores.
pub fn parse_stats_response(input: &[u8]) -> (r: Result<(&[u8], MessageData), DecodeError>)
    ensures
        parsed(r) == spec_response(InfoType::STATS, input@),
{
    parse_response(input, InfoType::STATS)
}

/// Reads the data of an AGE response: info type 2, size 2, the age.
pub fn parse_age_response(input: &[u8]) -> (r: Result<(&[u8], MessageData), DecodeError>)
    ensures
        parsed(r) == spec_response(InfoType::AGE, input@),
{
    parse_response(input, InfoType::AGE)
}

/// Reads the data of a CLASS response: info type 3, size 1, the class.
pub fn parse_class_response(input: &[u8]) -> (r: Result<(&[u8], MessageData), DecodeError>)
    ensures
        parsed(r) == spec_response(InfoType::CLASS, input@),
{
    parse_response(input, InfoType::CLASS)
}

/// Reads the data of a RACE response: info type 4, size 1, the race.
pub fn parse_race_response(input: &[u8]) -> (r: Result<(&[u8], MessageData), DecodeError>)
    ensures
        parsed(r) == spec_response(InfoType::RACE, input@),
{
    parse_response(input, InfoType::RACE)
}

/// Reads the data of a LEVEL response: info type 5, size 1, the level.
pub fn parse_level_response(input: &[u8]) -> (r: Result<(&[u8], MessageData), DecodeError>)
    ensures
        parsed(r) == spec_response(InfoType::LEVEL, input@),
{
    parse_response(input, InfoType::LEVEL)
}

/// Reads the data of an HP response: info type 6, size 2, the hit points.
pub fn parse_hp_response(input: &[u8]) -> (r: Result<(&[u8], MessageData), DecodeError>)
    ensures
        parsed(r) == spec_response(InfoType::HP, input@),
{
    parse_response(input, InfoType::HP)
}

/// Reads the data of a request from the front of `input`. A payload size
/// other than zero is invalid.
pub fn parse_request(input: &[u8]) -> (r: Result<(&[u8], MessageData), DecodeError>)
    ensures
        parsed(r) == spec_request(input@),
{
    let (after_type, info_type) = match parse_info_type(input) {
        Ok(read) => read,
        Err(error) => {
            return Err(error);
        },
    };
    match parse_data_size(after_type) {
        Ok((rest, data_size)) => if data_size != 0 {
            Err(DecodeError::Invalid(Invalid::RequestSize(data_size)))
        } else {
            Ok((rest, MessageData { info_type, data_size, data: None }))
        },
        Err(error) => Err(error),
    }
}

/// Reads the data of a message of type `message_type` from the front of `i`.
pub fn parse_data<'a, 'b>(i: &'a [u8], message_type: &'b MessageType) -> (r: Result<
    (&'a [u8], MessageData),
    DecodeError,
>)
    ensures
        parsed(r) == spec_data(i@, *message_type),
{
    match message_type {
        MessageType::REQUEST => parse_request(i),
        MessageType::RESPONSE => match parse_info_type(i) {
            Ok((_, info_type)) => parse_response(i, info_type),
            Err(error) => Err(error),
        },
    }
}

} // verus!
