//! The races a character can have.

use vstd::prelude::*;

verus! {

/// The race of a character. On the wire the races are numbered from 1 in this
/// order.
#[derive(Debug, PartialEq, Eq, Clone, Copy, Structural)]
pub enum RaceKind {
    DWARF,
    ELF,
    GNOME,
    HALFELF,
    HALFLING,
    HALFORC,
    HUMAN,
    ORC,
    TIEFLING,
}

impl RaceKind {
    /// The byte that stands for this race on the wire.
    pub open spec fn spec_discriminant(&self) -> u8 {
        match self {
            RaceKind::DWARF => 1,
            RaceKind::ELF => 2,
            RaceKind::GNOME => 3,
            RaceKind::HALFELF => 4,
            RaceKind::HALFLING => 5,
            RaceKind::HALFORC => 6,
            RaceKind::HUMAN => 7,
            RaceKind::ORC => 8,
            RaceKind::TIEFLING => 9,
        }
    }

    /// The race that `byte` stands for, if it stands for one.
    pub open spec fn spec_from_discriminant(byte: u8) -> Option<RaceKind> {
        if byte == 1 {
            Some(RaceKind::DWARF)
        } else if byte == 2 {
            Some(RaceKind::ELF)
        } else if byte == 3 {
            Some(RaceKind::GNOME)
        } else if byte == 4 {
            Some(RaceKind::HALFELF)
        } else if byte == 5 {
            Some(RaceKind::HALFLING)
        } else if byte == 6 {
            Some(RaceKind::HALFORC)
        } else if byte == 7 {
            Some(RaceKind::HUMAN)
        } else if byte == 8 {
            Some(RaceKind::ORC)
        } else if byte == 9 {
            Some(RaceKind::TIEFLING)
        } else {
            None
        }
    }

    /// The byte that stands for this race on the wire.
    #[verifier::when_used_as_spec(spec_discriminant)]
    pub fn discriminant(&self) -> (byte: u8)
        ensures
            byte == self.spec_discriminant(),
    {
        match self {
            RaceKind::DWARF => 1,
            RaceKind::ELF => 2,
            RaceKind::GNOME => 3,
            RaceKind::HALFELF => 4,
            RaceKind::HALFLING => 5,
            RaceKind::HALFORC => 6,
            RaceKind::HUMAN => 7,
            RaceKind::ORC => 8,
            RaceKind::TIEFLING => 9,
        }
    }

    /// Reads a race from its wire byte. A byte that stands for none gives
    /// `None`.
    pub fn from_discriminant(byte: u8) -> (found: Option<RaceKind>)
        ensures
            found == Self::spec_from_discriminant(byte),
            found matches Some(value) ==> value.spec_discriminant() == byte,
            found is Some <==> 1 <= byte <= 9,
    {
        match byte {
            1 => Some(RaceKind::DWARF),
            2 => Some(RaceKind::ELF),
            3 => Some(RaceKind::GNOME),
            4 => Some(RaceKind::HALFELF),
            5 => Some(RaceKind::HALFLING),
            6 => Some(RaceKind::HALFORC),
            7 => Some(RaceKind::HUMAN),
            8 => Some(RaceKind::ORC),
            9 => Some(RaceKind::TIEFLING),
            _ => None,
        }
    }

    /// The two tables are inverse to each other: reading the byte of a
    /// race gives it back, and a byte that reads as a race is its byte.
    pub proof fn lemma_discriminant_bijection(value: RaceKind, byte: u8)
        ensures
            Self::spec_from_discriminant(value.spec_discriminant()) == Some(value),
            Self::spec_from_discriminant(byte) == Some(value) ==> value.spec_discriminant()
                == byte,
    {
    }
}

} // verus!
