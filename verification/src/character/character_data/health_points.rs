//! Current and maximum hit points.

use vstd::prelude::*;

verus! {

/// The hit points of a character.
#[derive(Debug, PartialEq, Eq, Clone, Copy)]
pub struct HealthPoints {
    pub current: u8,
    pub max: u8,
}

impl HealthPoints {
    /// Current, then maximum, one byte each.
    pub open spec fn wire_bytes(self) -> Seq<u8> {
        seq![self.current, self.max]
    }

    /// The hit points whose wire bytes are the first two of `bytes`.
    pub open spec fn spec_from_bytes(bytes: Seq<u8>) -> HealthPoints {
        HealthPoints { current: bytes[0], max: bytes[1] }
    }

    /// Reads hit points from the first two bytes of `value`.
    pub fn from_bytes(value: &[u8]) -> (hp: HealthPoints)
        requires
            value@.len() >= 2,
        ensures
            hp == Self::spec_from_bytes(value@),
    {
        HealthPoints { current: value[0], max: value[1] }
    }
}

} // verus!
