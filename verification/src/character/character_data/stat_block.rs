//! The six ability scores.

use vstd::prelude::*;

verus! {

/// The six ability scores of a character.
#[derive(Debug, PartialEq, Eq, Clone, Copy)]
pub struct StatBlock {
    pub strength: u8,
    pub dexterity: u8,
    pub constitution: u8,
    pub intelligence: u8,
    pub wisdom: u8,
    pub charisma: u8,
}

impl StatBlock {
    /// The scores in wire order, one byte each.
    pub open spec fn wire_bytes(self) -> Seq<u8> {
        seq![
            self.strength,
            self.dexterity,
            self.constitution,
            self.intelligence,
            self.wisdom,
            self.charisma,
        ]
    }

    /// The stat block whose wire bytes are the first six of `bytes`.
    pub open spec fn spec_from_bytes(bytes: Seq<u8>) -> StatBlock {
        StatBlock {
            strength: bytes[0],
            dexterity: bytes[1],
            constitution: bytes[2],
            intelligence: bytes[3],
            wisdom: bytes[4],
            charisma: bytes[5],
        }
    }

    /// A stat block from its six scores.
    pub fn new(
        strength: u8,
        dexterity: u8,
        constitution: u8,
        intelligence: u8,
        wisdom: u8,
        charisma: u8,
    ) -> (stats: StatBlock)
        ensures
            stats == (StatBlock {
                strength,
                dexterity,
                constitution,
                intelligence,
                wisdom,
                charisma,
            }),
    {
        StatBlock { strength, dexterity, constitution, intelligence, wisdom, charisma }
    }

    /// Reads a stat block from the first six bytes of `value`.
    pub fn from_bytes(value: &[u8]) -> (stats: StatBlock)
        requires
            value@.len() >= 6,
        ensures
            stats == Self::spec_from_bytes(value@),
    {
        StatBlock {
            strength: value[0],
            dexterity: value[1],
            constitution: value[2],
            intelligence: value[3],
            wisdom: value[4],
            charisma: value[5],
        }
    }
}

} // verus!
