//! The attribute that a response carries, one variant for each info type.

use vstd::prelude::*;
use crate::character::character_data::class_type::ClassType;
use crate::character::character_data::health_points::HealthPoints;
use crate::character::character_data::race_kind::RaceKind;
use crate::character::character_data::stat_block::StatBlock;
use crate::message::data::info_type::InfoType;
use crate::stream::{le_u16_bytes, write_le_u16};

pub mod class_type;
pub mod health_points;
pub mod race_kind;
pub mod stat_block;

verus! {

/// One attribute of a character.
#[derive(Debug, PartialEq, Eq, Clone, Copy)]
pub enum CharacterData {
    STATS(StatBlock),
    AGE(u16),
    CLASS(ClassType),
    RACE(RaceKind),
    LEVEL(u8),
    HP(HealthPoints),
}

impl CharacterData {
    /// The info type that announces this attribute on the wire.
    pub open spec fn spec_info_type(&self) -> InfoType {
        match self {
            CharacterData::STATS(_) => InfoType::STATS,
            CharacterData::AGE(_) => InfoType::AGE,
            CharacterData::CLASS(_) => InfoType::CLASS,
            CharacterData::RACE(_) => InfoType::RACE,
            CharacterData::LEVEL(_) => InfoType::LEVEL,
            CharacterData::HP(_) => InfoType::HP,
        }
    }

    /// The bytes that carry this attribute on the wire.
    pub open spec fn wire_bytes(self) -> Seq<u8> {
        match self {
            CharacterData::STATS(stats) => stats.wire_bytes(),
            CharacterData::AGE(age) => le_u16_bytes(age),
            CharacterData::CLASS(class) => seq![class.spec_discriminant()],
            CharacterData::RACE(race) => seq![race.spec_discriminant()],
            CharacterData::LEVEL(level) => seq![level],
            CharacterData::HP(hp) => hp.wire_bytes(),
        }
    }

    /// Number of bytes that carry this attribute on the wire: as many as its
    /// info type has.
    pub proof fn lemma_wire_size(self)
        ensures
            self.wire_bytes().len() == self.spec_info_type().spec_payload_size(),
    {
    }

    /// Appends the wire bytes of this attribute to `out`.
    pub fn encode(&self, out: &mut Vec<u8>)
        ensures
            final(out)@ == old(out)@ + self.wire_bytes(),
    {
        match self {
            CharacterData::STATS(stats) => {
                out.push(stats.strength);
                out.push(stats.dexterity);
                out.push(stats.constitution);
                out.push(stats.intelligence);
                out.push(stats.wisdom);
                out.push(stats.charisma);
            },
            CharacterData::AGE(age) => {
                write_le_u16(out, *age);
            },
            CharacterData::CLASS(class) => {
                out.push(class.discriminant());
            },
            CharacterData::RACE(race) => {
                out.push(race.discriminant());
            },
            CharacterData::LEVEL(level) => {
                out.push(*level);
            },
            CharacterData::HP(hp) => {
                out.push(hp.current);
                out.push(hp.max);
            },
        }
    }

    /// The info type that announces this attribute on the wire.
    #[verifier::when_used_as_spec(spec_info_type)]
    pub fn info_type(&self) -> (t: InfoType)
        ensures
            t == self.spec_info_type(),
    {
        match self {
            CharacterData::STATS(_) => InfoType::STATS,
            CharacterData::AGE(_) => InfoType::AGE,
            CharacterData::CLASS(_) => InfoType::CLASS,
            CharacterData::RACE(_) => InfoType::RACE,
            CharacterData::LEVEL(_) => InfoType::LEVEL,
            CharacterData::HP(_) => InfoType::HP,
        }
    }
}

} // verus!
