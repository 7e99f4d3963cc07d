//! The elementary streaming parsers, taken from `nom`, and the integer writer
//! taken from `byteorder`, with the facts about them that the codec is built
//! on.

use vstd::prelude::*;

verus! {

/// How many more bytes a parser asks for before it can decide.
#[derive(Debug, Clone, Copy, PartialEq, Eq, Structural)]
pub enum Needed {
    /// More bytes are needed, but not a known number.
    Unknown,
    /// This many more bytes are needed.
    Size(usize),
}

/// Why an elementary parser stopped short of a result.
#[derive(Debug, Clone, Copy, PartialEq, Eq, Structural)]
pub enum Stop {
    /// The input ended before the parser could decide.
    Incomplete(Needed),
    /// The input does not match; an alternative might.
    Error,
    /// The input does not match and no alternative will.
    Failure,
}

/// An ASCII letter, `A-Z` or `a-z`.
pub open spec fn is_alpha(b: u8) -> bool {
    (0x41 <= b <= 0x5A) || (0x61 <= b <= 0x7A)
}

/// Length of the longest run of ASCII letters at the front of `s`.
pub open spec fn alpha_run(s: Seq<u8>) -> nat
    decreases s.len(),
{
    if s.len() == 0 || !is_alpha(s[0]) {
        0
    } else {
        1 + alpha_run(s.drop_first())
    }
}

/// `input` and `pattern` hold the same byte wherever both have one.
pub open spec fn agree(input: Seq<u8>, pattern: Seq<u8>) -> bool {
    forall|k: int| 0 <= k < input.len() && k < pattern.len() ==> input[k] == pattern[k]
}

/// The unsigned 16-bit number whose little-endian bytes are `lo`, `hi`.
pub open spec fn le_u16_value(lo: u8, hi: u8) -> u16 {
    (lo as int + 256 * (hi as int)) as u16
}

/// The two bytes of `n`, low byte first.
pub open spec fn le_u16_bytes(n: u16) -> Seq<u8> {
    seq![(n % 256) as u8, (n / 256) as u8]
}

/// The request for the `count - have` bytes that a parser is short of.
pub open spec fn shortfall(count: nat, have: nat) -> Stop {
    Stop::Incomplete(Needed::Size((count - have) as usize))
}

/// What `take` yields: the first `count` bytes, or a request for the shortfall.
pub open spec fn spec_take(count: nat, input: Seq<u8>) -> Result<(Seq<u8>, Seq<u8>), Stop> {
    if input.len() >= count {
        Ok((input.skip(count as int), input.take(count as int)))
    } else {
        Err(shortfall(count, input.len()))
    }
}

/// What `tag` yields: the pattern split off the front, a mismatch as soon as
/// one byte present differs, or a request for the bytes of the pattern that
/// have not arrived.
pub open spec fn spec_tag(pattern: Seq<u8>, input: Seq<u8>) -> Result<(Seq<u8>, Seq<u8>), Stop> {
    if !agree(input, pattern) {
        Err(Stop::Error)
    } else if input.len() >= pattern.len() {
        Ok((input.skip(pattern.len() as int), input.take(pattern.len() as int)))
    } else {
        Err(shortfall(pattern.len(), input.len()))
    }
}

/// What `alpha1` yields: the leading run of letters, which must not be empty
/// and must be followed by some other byte.
pub open spec fn spec_alpha1(input: Seq<u8>) -> Result<(Seq<u8>, Seq<u8>), Stop> {
    let n: nat = alpha_run(input);
    if n == input.len() {
        Err(Stop::Incomplete(Needed::Size(1)))
    } else if n == 0 {
        Err(Stop::Error)
    } else {
        Ok((input.skip(n as int), input.take(n as int)))
    }
}

/// What `le_u16` yields: the number in the first two bytes, low byte first.
pub open spec fn spec_le_u16(input: Seq<u8>) -> Result<(Seq<u8>, u16), Stop> {
    if input.len() >= 2 {
        Ok((input.skip(2), le_u16_value(input[0], input[1])))
    } else {
        Err(shortfall(2, input.len()))
    }
}

/// What `u8` yields: the first byte.
pub open spec fn spec_u8(input: Seq<u8>) -> Result<(Seq<u8>, u8), Stop> {
    if input.len() >= 1 {
        Ok((input.skip(1), input[0]))
    } else {
        Err(Stop::Incomplete(Needed::Size(1)))
    }
}

/// A parser's result with each slice replaced by the bytes it holds.
pub open spec fn split_view(r: Result<(&[u8], &[u8]), Stop>) -> Result<(Seq<u8>, Seq<u8>), Stop> {
    match r {
        Ok((rest, found)) => Ok((rest@, found@)),
        Err(stop) => Err(stop),
    }
}

/// A parser's result with the remaining slice replaced by the bytes it holds.
pub open spec fn rest_view<T>(r: Result<(&[u8], T), Stop>) -> Result<(Seq<u8>, T), Stop> {
    match r {
        Ok((rest, value)) => Ok((rest@, value)),
        Err(stop) => Err(stop),
    }
}

/// `nom::bytes::streaming::take` on a byte slice. Trusted: with at least
/// `count` bytes present it splits the input after `count` bytes; with fewer
/// it is incomplete and asks for exactly the bytes that are missing.
#[verifier::external_body]
pub(crate) fn take<'a>(count: usize, input: &'a [u8]) -> (r: Result<(&'a [u8], &'a [u8]), Stop>)
    ensures
        split_view(r) == spec_take(count as nat, input@),
{
    match nom::bytes::streaming::take::<usize, &[u8], nom::error::VerboseError<&[u8]>>(count)(input) {
        Ok(split) => Ok(split),
        Err(nom::Err::Incomplete(nom::Needed::Size(n))) => Err(Stop::Incomplete(Needed::Size(n.get()))),
        Err(nom::Err::Incomplete(nom::Needed::Unknown)) => Err(Stop::Incomplete(Needed::Unknown)),
        Err(nom::Err::Error(_)) => Err(Stop::Error),
        Err(nom::Err::Failure(_)) => Err(Stop::Failure),
    }
}

/// `nom::bytes::streaming::tag` on byte slices. Trusted: it compares the
/// input with the pattern byte by byte as far as both reach. A difference is
/// an error; otherwise an input at least as long as the pattern is split
/// after the pattern, and a shorter one is incomplete by the missing bytes.
#[verifier::external_body]
pub(crate) fn tag<'a>(pattern: &[u8], input: &'a [u8]) -> (r: Result<(&'a [u8], &'a [u8]), Stop>)
    ensures
        split_view(r) == spec_tag(pattern@, input@),
{
    match nom::bytes::streaming::tag::<&[u8], &[u8], nom::error::VerboseError<&[u8]>>(pattern)(input) {
        Ok(split) => Ok(split),
        Err(nom::Err::Incomplete(nom::Needed::Size(n))) => Err(Stop::Incomplete(Needed::Size(n.get()))),
        Err(nom::Err::Incomplete(nom::Needed::Unknown)) => Err(Stop::Incomplete(Needed::Unknown)),
        Err(nom::Err::Error(_)) => Err(Stop::Error),
        Err(nom::Err::Failure(_)) => Err(Stop::Failure),
    }
}

/// `nom::character::streaming::alpha1` on a byte slice. Trusted: it looks for
/// the first byte that is not an ASCII letter. Found at the front, that is an
/// error; found later, the input is split before it; not found at all, the
/// parser is incomplete and asks for one more byte.
#[verifier::external_body]
pub(crate) fn alpha1<'a>(input: &'a [u8]) -> (r: Result<(&'a [u8], &'a [u8]), Stop>)
    ensures
        split_view(r) == spec_alpha1(input@),
{
    match nom::character::streaming::alpha1::<&[u8], nom::error::VerboseError<&[u8]>>(input) {
        Ok(split) => Ok(split),
        Err(nom::Err::Incomplete(nom::Needed::Size(n))) => Err(Stop::Incomplete(Needed::Size(n.get()))),
        Err(nom::Err::Incomplete(nom::Needed::Unknown)) => Err(Stop::Incomplete(Needed::Unknown)),
        Err(nom::Err::Error(_)) => Err(Stop::Error),
        Err(nom::Err::Failure(_)) => Err(Stop::Failure),
    }
}

/// `nom::number::streaming::le_u16` on a byte slice. Trusted: with two bytes
/// present it returns the first plus 256 times the second and the input after
/// them; with fewer it is incomplete by the missing bytes.
#[verifier::external_body]
pub(crate) fn le_u16<'a>(input: &'a [u8]) -> (r: Result<(&'a [u8], u16), Stop>)
    ensures
        rest_view(r) == spec_le_u16(input@),
{
    match nom::number::streaming::le_u16::<&[u8], nom::error::VerboseError<&[u8]>>(input) {
        Ok(split) => Ok(split),
        Err(nom::Err::Incomplete(nom::Needed::Size(n))) => Err(Stop::Incomplete(Needed::Size(n.get()))),
        Err(nom::Err::Incomplete(nom::Needed::Unknown)) => Err(Stop::Incomplete(Needed::Unknown)),
        Err(nom::Err::Error(_)) => Err(Stop::Error),
        Err(nom::Err::Failure(_)) => Err(Stop::Failure),
    }
}

/// `nom::number::streaming::u8` on a byte slice. Trusted: it returns the
/// first byte and the input after it, and is incomplete by one byte on an
/// empty input.
#[verifier::external_body]
pub(crate) fn byte<'a>(input: &'a [u8]) -> (r: Result<(&'a [u8], u8), Stop>)
    ensures
        rest_view(r) == spec_u8(input@),
{
    match nom::number::streaming::u8::<&[u8], nom::error::VerboseError<&[u8]>>(input) {
        Ok(split) => Ok(split),
        Err(nom::Err::Incomplete(nom::Needed::Size(n))) => Err(Stop::Incomplete(Needed::Size(n.get()))),
        Err(nom::Err::Incomplete(nom::Needed::Unknown)) => Err(Stop::Incomplete(Needed::Unknown)),
        Err(nom::Err::Error(_)) => Err(Stop::Error),
        Err(nom::Err::Failure(_)) => Err(Stop::Failure),
    }
}

/// `byteorder::WriteBytesExt::write_u16` with `LittleEndian`, on a vector.
/// Trusted: it appends the two bytes of `n`, low byte first, and leaves what
/// the vector held in place. Writing to a vector does not fail.
#[verifier::external_body]
pub(crate) fn write_le_u16(out: &mut Vec<u8>, n: u16)
    ensures
        final(out)@ == old(out)@ + le_u16_bytes(n),
{
    byteorder::WriteBytesExt::write_u16::<byteorder::LittleEndian>(out, n)
        .expect("writing to a vector does not fail");
}

/// Reading the two bytes of a number, low byte first, gives the number back.
pub proof fn lemma_le_u16_round_trip(n: u16)
    ensures
        le_u16_bytes(n).len() == 2,
        le_u16_value(le_u16_bytes(n)[0], le_u16_bytes(n)[1]) == n,
{
}

/// The two bytes of the number read from `lo`, `hi` are `lo`, `hi`.
pub proof fn lemma_le_u16_bytes_of_value(lo: u8, hi: u8)
    ensures
        le_u16_bytes(le_u16_value(lo, hi)) == seq![lo, hi],
{
}

} // verus!
