//! The payload of a response, one parser for each info type.

use vstd::prelude::*;
use crate::character::character_data::class_type::ClassType;
use crate::character::character_data::health_points::HealthPoints;
use crate::character::character_data::race_kind::RaceKind;
use crate::character::character_data::stat_block::StatBlock;
use crate::character::character_data::CharacterData;
use crate::error::{missing, parsed, DecodeError, Invalid};
use crate::message::data::info_type::InfoType;
use crate::stream::{byte, le_u16, le_u16_value, take};

verus! {

/// The attribute of type `info_type` that the payload bytes `bytes` stand
/// for. Only a class or a race can be wrong: a byte that stands for none.
pub open spec fn spec_payload_value(info_type: InfoType, bytes: Seq<u8>) -> Result<
    CharacterData,
    Invalid,
> {
    match info_type {
        InfoType::STATS => Ok(CharacterData::STATS(StatBlock::spec_from_bytes(bytes))),
        InfoType::AGE => Ok(CharacterData::AGE(le_u16_value(bytes[0], bytes[1]))),
        InfoType::CLASS => match ClassType::spec_from_discriminant(bytes[0]) {
            Some(class) => Ok(CharacterData::CLASS(class)),
            None => Err(Invalid::Class(bytes[0])),
        },
        InfoType::RACE => match RaceKind::spec_from_discriminant(bytes[0]) {
            Some(race) => Ok(CharacterData::RACE(race)),
            None => Err(Invalid::Race(bytes[0])),
        },
        InfoType::LEVEL => Ok(CharacterData::LEVEL(bytes[0])),
        InfoType::HP => Ok(CharacterData::HP(HealthPoints::spec_from_bytes(bytes))),
    }
}

/// The payload of type `info_type` at the front of `i`: as many bytes as the
/// info type has, read as its attribute. A shorter input asks for exactly
/// the bytes that are missing.
pub open spec fn spec_payload(info_type: InfoType, i: Seq<u8>) -> Result<
    (Seq<u8>, CharacterData),
    DecodeError,
> {
    let size: nat = info_type.spec_payload_size() as nat;
    if i.len() < size {
        Err(missing(size, i.len()))
    } else {
        match spec_payload_value(info_type, i.take(size as int)) {
            Ok(data) => Ok((i.skip(size as int), data)),
            Err(invalid) => Err(DecodeError::Invalid(invalid)),
        }
    }
}

/// The payload of a response of type `info_type` that declares `data_size`
/// bytes, at the front of `i`. The size declared must be the one that the
/// info type has; then that many bytes are read as its attribute.
pub open spec fn spec_sized_payload(info_type: InfoType, data_size: u16, i: Seq<u8>) -> Result<
    (Seq<u8>, CharacterData),
    DecodeError,
> {
    if data_size != info_type.spec_payload_size() {
        Err(
            DecodeError::Invalid(
                Invalid::ResponseSize {
                    info_type,
                    payload_size: info_type.spec_payload_size(),
                    data_size,
                },
            ),
        )
    } else {
        spec_payload(info_type, i)
    }
}

/// Reads six ability scores from the front of `i`.
pub fn parse_stats(i: &[u8]) -> (r: Result<(&[u8], CharacterData), DecodeError>)
    ensures
        parsed(r) == spec_payload(InfoType::STATS, i@),
{
    match take(6, i) {
        Ok((rest, found)) => Ok((rest, CharacterData::STATS(StatBlock::from_bytes(found)))),
        Err(stop) => Err(DecodeError::needs_more(stop)),
    }
}

/// Reads an age, two bytes with the low byte first, from the front of `i`.
pub fn parse_age(i: &[u8]) -> (r: Result<(&[u8], CharacterData), DecodeError>)
    ensures
        parsed(r) == spec_payload(InfoType::AGE, i@),
{
    match le_u16(i) {
        Ok((rest, age)) => Ok((rest, CharacterData::AGE(age))),
        Err(stop) => Err(DecodeError::needs_more(stop)),
    }
}

/// Reads a class from the byte at the front of `i`. A byte outside `1..=14`
/// is invalid.
pub fn parse_class(i: &[u8]) -> (r: Result<(&[u8], CharacterData), DecodeError>)
    ensures
        parsed(r) == spec_payload(InfoType::CLASS, i@),
{
    match take(1, i) {
        Ok((rest, found)) => match ClassType::from_discriminant(found[0]) {
            Some(class) => Ok((rest, CharacterData::CLASS(class))),
            None => Err(DecodeError::Invalid(Invalid::Class(found[0]))),
        },
        Err(stop) => Err(DecodeError::needs_more(stop)),
    }
}

/// Reads a race from the byte at the front of `i`. A byte outside `1..=9` is
/// invalid.
pub fn parse_race(i: &[u8]) -> (r: Result<(&[u8], CharacterData), DecodeError>)
    ensures
        parsed(r) == spec_payload(InfoType::RACE, i@),
{
    match take(1, i) {
        Ok((rest, found)) => match RaceKind::from_discriminant(found[0]) {
            Some(race) => Ok((rest, CharacterData::RACE(race))),
            None => Err(DecodeError::Invalid(Invalid::Race(found[0]))),
        },
        Err(stop) => Err(DecodeError::needs_more(stop)),
    }
}

/// Reads a level from the byte at the front of `i`.
pub fn parse_level(i: &[u8]) -> (r: Result<(&[u8], CharacterData), DecodeError>)
    ensures
        parsed(r) == spec_payload(InfoType::LEVEL, i@),
{
    match byte(i) {
        Ok((rest, level)) => Ok((rest, CharacterData::LEVEL(level))),
        Err(stop) => Err(DecodeError::needs_more(stop)),
    }
}

/// Reads hit points, current then maximum, from the front of `i`.
pub fn parse_hp(i: &[u8]) -> (r: Result<(&[u8], CharacterData), DecodeError>)
    ensures
        parsed(r) == spec_payload(InfoType::HP, i@),
{
    match take(2, i) {
        Ok((rest, found)) => Ok((rest, CharacterData::HP(HealthPoints::from_bytes(found)))),
        Err(stop) => Err(DecodeError::needs_more(stop)),
    }
}

/// Reads the payload of a response of type `info_type` that declares
/// `data_size` bytes from the front of `i`. A size other than the one that
/// the info type has is invalid, whatever bytes follow; a payload cut short
/// is incomplete by the bytes that are missing.
pub fn parse_payload(i: &[u8], info_type: InfoType, data_size: u16) -> (r: Result<
    (&[u8], CharacterData),
    DecodeError,
>)
    ensures
        parsed(r) == spec_sized_payload(info_type, data_size, i@),
{
    if data_size != info_type.payload_size() {
        return Err(
            DecodeError::Invalid(
                Invalid::ResponseSize {
                    info_type,
                    payload_size: info_type.payload_size(),
                    data_size,
                },
            ),
        );
    }
    match info_type {
        InfoType::STATS => parse_stats(i),
        InfoType::AGE => parse_age(i),
        InfoType::CLASS => parse_class(i),
        InfoType::RACE => parse_race(i),
        InfoType::LEVEL => parse_level(i),
        InfoType::HP => parse_hp(i),
    }
}

} // verus!
