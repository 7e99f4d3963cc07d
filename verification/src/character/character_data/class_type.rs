//! The classes a character can have.

use vstd::prelude::*;

verus! {

/// The class of a character. On the wire the classes are numbered from 1 in
/// this order.
#[derive(Debug, PartialEq, Eq, Clone, Copy, Structural)]
pub enum ClassType {
    ARTIFICER,
    BARBARIAN,
    BARD,
    BLOODHUNTER,
    CLERIC,
    DRUID,
    FIGHTER,
    MONK,
    PALADIN,
    RANGER,
    ROGUE,
    SORCERER,
    WARLOCK,
    WIZARD,
}

impl ClassType {
    /// The byte that stands for this class on the wire.
    pub open spec fn spec_discriminant(&self) -> u8 {
        match self {
            ClassType::ARTIFICER => 1,
            ClassType::BARBARIAN => 2,
            ClassType::BARD => 3,
            ClassType::BLOODHUNTER => 4,
            ClassType::CLERIC => 5,
            ClassType::DRUID => 6,
            ClassType::FIGHTER => 7,
            ClassType::MONK => 8,
            ClassType::PALADIN => 9,
            ClassType::RANGER => 10,
            ClassType::ROGUE => 11,
            ClassType::SORCERER => 12,
            ClassType::WARLOCK => 13,
            ClassType::WIZARD => 14,
        }
    }

    /// The class that `byte` stands for, if it stands for one.
    pub open spec fn spec_from_discriminant(byte: u8) -> Option<ClassType> {
        if byte == 1 {
            Some(ClassType::ARTIFICER)
        } else if byte == 2 {
            Some(ClassType::BARBARIAN)
        } else if byte == 3 {
            Some(ClassType::BARD)
        } else if byte == 4 {
            Some(ClassType::BLOODHUNTER)
        } else if byte == 5 {
            Some(ClassType::CLERIC)
        } else if byte == 6 {
            Some(ClassType::DRUID)
        } else if byte == 7 {
            Some(ClassType::FIGHTER)
        } else if byte == 8 {
            Some(ClassType::MONK)
        } else if byte == 9 {
            Some(ClassType::PALADIN)
        } else if byte == 10 {
            Some(ClassType::RANGER)
        } else if byte == 11 {
            Some(ClassType::ROGUE)
        } else if byte == 12 {
            Some(ClassType::SORCERER)
        } else if byte == 13 {
            Some(ClassType::WARLOCK)
        } else if byte == 14 {
            Some(ClassType::WIZARD)
        } else {
            None
        }
    }

    /// The byte that stands for this class on the wire.
    #[verifier::when_used_as_spec(spec_discriminant)]
    pub fn discriminant(&self) -> (byte: u8)
        ensures
            byte == self.spec_discriminant(),
    {
        match self {
            ClassType::ARTIFICER => 1,
            ClassType::BARBARIAN => 2,
            ClassType::BARD => 3,
            ClassType::BLOODHUNTER => 4,
            ClassType::CLERIC => 5,
            ClassType::DRUID => 6,
            ClassType::FIGHTER => 7,
            ClassType::MONK => 8,
            ClassType::PALADIN => 9,
            ClassType::RANGER => 10,
            ClassType::ROGUE => 11,
            ClassType::SORCERER => 12,
            ClassType::WARLOCK => 13,
            ClassType::WIZARD => 14,
        }
    }

    /// Reads a class from its wire byte. A byte that stands for none gives
    /// `None`.
    pub fn from_discriminant(byte: u8) -> (found: Option<ClassType>)
        ensures
            found == Self::spec_from_discriminant(byte),
            found matches Some(value) ==> value.spec_discriminant() == byte,
            found is Some <==> 1 <= byte <= 14,
    {
        match byte {
            1 => Some(ClassType::ARTIFICER),
            2 => Some(ClassType::BARBARIAN),
            3 => Some(ClassType::BARD),
            4 => Some(ClassType::BLOODHUNTER),
            5 => Some(ClassType::CLERIC),
            6 => Some(ClassType::DRUID),
            7 => Some(ClassType::FIGHTER),
            8 => Some(ClassType::MONK),
            9 => Some(ClassType::PALADIN),
            10 => Some(ClassType::RANGER),
            11 => Some(ClassType::ROGUE),
            12 => Some(ClassType::SORCERER),
            13 => Some(ClassType::WARLOCK),
            14 => Some(ClassType::WIZARD),
            _ => None,
        }
    }

    /// The two tables are inverse to each other: reading the byte of a
    /// class gives it back, and a byte that reads as a class is its byte.
    pub proof fn lemma_discriminant_bijection(value: ClassType, byte: u8)
        ensures
            Self::spec_from_discriminant(value.spec_discriminant()) == Some(value),
            Self::spec_from_discriminant(byte) == Some(value) ==> value.spec_discriminant()
                == byte,
    {
    }
}

} // verus!
