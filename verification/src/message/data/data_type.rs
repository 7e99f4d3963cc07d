//! The payload under its other name, with the parsers that read it.

use vstd::prelude::*;
use crate::character::character_data::CharacterData;

pub use crate::message::data::character_data::{
    parse_age, parse_class, parse_hp, parse_level, parse_race, parse_stats,
};

verus! {

/// The attribute that a response carries.
pub type DataType = CharacterData;

} // verus!
