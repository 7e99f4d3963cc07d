//! The payload size: an unsigned 16-bit number, low byte first.

use vstd::prelude::*;
use crate::error::{missing, parsed, DecodeError};
use crate::stream::{le_u16, le_u16_value};

verus! {

/// The payload size at the front of `i`: two bytes, low byte first. A shorter
/// input asks for the bytes that are missing.
pub open spec fn spec_data_size(i: Seq<u8>) -> Result<(Seq<u8>, u16), DecodeError> {
    if i.len() < 2 {
        Err(missing(2, i.len()))
    } else {
        Ok((i.skip(2), le_u16_value(i[0], i[1])))
    }
}

/// Reads the payload size at the front of `i` and returns it with the bytes
/// that follow.
pub fn parse_data_size(i: &[u8]) -> (r: Result<(&[u8], u16), DecodeError>)
    ensures
        parsed(r) == spec_data_size(i@),
{
    match le_u16(i) {
        Ok((rest, size)) => Ok((rest, size)),
        Err(stop) => Err(DecodeError::needs_more(stop)),
    }
}

} // verus!
