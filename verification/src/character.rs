//! A character and the attributes that a message can carry.

use vstd::prelude::*;
use crate::character::character_data::class_type::ClassType;
use crate::character::character_data::health_points::HealthPoints;
use crate::character::character_data::race_kind::RaceKind;
use crate::character::character_data::stat_block::StatBlock;

pub mod character_data;

verus! {

/// Everything known about one character.
#[derive(PartialEq, Debug)]
pub struct Character {
    pub name: String,
    pub race: RaceKind,
    pub class: ClassType,
    pub level: u8,
    pub stats: StatBlock,
    pub hp: HealthPoints,
    pub age: u16,
    pub description: String,
}

impl Character {
    /// A character with exactly the attributes given.
    pub fn new(
        name: String,
        race: RaceKind,
        class: ClassType,
        level: u8,
        stats: StatBlock,
        hp: HealthPoints,
        age: u16,
        description: String,
    ) -> (character: Character)
        ensures
            character == (Character { name, race, class, level, stats, hp, age, description }),
    {
        Character { name, race, class, level, stats, hp, age, description }
    }
}

} // verus!
