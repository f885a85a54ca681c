//! Reading fixed-size fields off the front of a byte string.
//!
//! The three readers at the bottom of the codec are nom's; everything above
//! them is decided here and verified against their contracts.

use vstd::prelude::*;

verus! {

/// Why a byte string was not decoded.
#[derive(Debug, Clone, Copy, PartialEq, Eq, Structural)]
pub enum DecodeError {
    /// The bytes do not fit the grammar that was tried; another alternative may fit.
    MalformedFrame,
    /// A command-complete event names a vendor opcode whose return parameters are unknown.
    UnsupportedOpcode,
    /// A controller-initialized event carries a reason code that is not defined.
    InvalidReasonCode,
}

impl DecodeError {
    /// Whether a choice between alternatives goes on to the next one after this error.
    pub open spec fn backtracks(self) -> bool {
        self == DecodeError::MalformedFrame
    }

    pub fn recoverable(&self) -> (b: bool)
        ensures
            b == self.backtracks(),
    {
        match self {
            DecodeError::MalformedFrame => true,
            DecodeError::UnsupportedOpcode => false,
            DecodeError::InvalidReasonCode => false,
        }
    }
}

/// A decoder's outcome with the undecoded rest taken as a sequence of bytes.
pub open spec fn parsed<T>(r: Result<(&[u8], T), DecodeError>) -> Result<(Seq<u8>, T), DecodeError> {
    match r {
        Ok((rest, value)) => Ok((rest@, value)),
        Err(e) => Err(e),
    }
}

/// The outcome of a decoder that found `value` and left `rest` untouched.
pub open spec fn decoded<T>(rest: Seq<u8>, value: T) -> Result<(Seq<u8>, T), DecodeError> {
    Ok((rest, value))
}

/// The 16-bit value whose little-endian bytes are `lo`, `hi`.
pub open spec fn le_u16_value(lo: u8, hi: u8) -> u16 {
    (lo as u16) | ((hi as u16) << 8)
}

/// The low byte of `x`.
pub open spec fn lo_byte(x: u16) -> u8 {
    (x & 0xff) as u8
}

/// The high byte of `x`.
pub open spec fn hi_byte(x: u16) -> u8 {
    (x >> 8) as u8
}

/// A little-endian pair of bytes is its low byte plus 256 times its high byte.
pub proof fn lemma_le_u16_value(lo: u8, hi: u8)
    ensures
        le_u16_value(lo, hi) == lo as int + 256 * (hi as int),
        lo_byte(le_u16_value(lo, hi)) == lo,
        hi_byte(le_u16_value(lo, hi)) == hi,
{
    assert(((lo as u16) | ((hi as u16) << 8)) == (lo as u16) + 256 * (hi as u16)) by (bit_vector);
    assert((((lo as u16) | ((hi as u16) << 8)) & 0xff) as u8 == lo) by (bit_vector);
    assert((((lo as u16) | ((hi as u16) << 8)) >> 8) as u8 == hi) by (bit_vector);
}

/// Splitting a 16-bit value into its bytes and joining them again changes nothing.
pub proof fn lemma_split_u16(x: u16)
    ensures
        le_u16_value(lo_byte(x), hi_byte(x)) == x,
        (hi_byte(x) != 0) == (x & 0xFF00 != 0),
{
    assert((((x & 0xff) as u8) as u16) | ((((x >> 8) as u8) as u16) << 8) == x) by (bit_vector);
    assert((((x >> 8) as u8) != 0) == (x & 0xFF00 != 0)) by (bit_vector);
}

/// The two bytes of `x`, low byte first.
pub fn u16_le_bytes(x: u16) -> (bytes: (u8, u8))
    ensures
        bytes.0 == lo_byte(x),
        bytes.1 == hi_byte(x),
{
    ((x & 0xff) as u8, (x >> 8) as u8)
}

#[verifier::external_type_specification]
#[verifier::external_body]
#[verifier::reject_recursive_types(E)]
pub struct ExNomErr<E>(nom::Err<E>);

/// `nom::number::complete::le_u8`: fails exactly on empty input; otherwise
/// yields the first byte and the bytes after it.
#[verifier::external_body]
pub(crate) fn le_u8<'a>(i: &'a [u8]) -> (r: Result<(&'a [u8], u8), nom::Err<()>>)
    ensures
        r is Ok <==> i@.len() >= 1,
        r matches Ok((rest, value)) ==> rest@ == i@.skip(1) && value == i@[0],
{
    nom::number::complete::le_u8::<()>(i)
}

/// `nom::number::complete::le_u16`: fails exactly on fewer than two bytes;
/// otherwise yields the little-endian value of the first two and the bytes after them.
#[verifier::external_body]
pub(crate) fn le_u16<'a>(i: &'a [u8]) -> (r: Result<(&'a [u8], u16), nom::Err<()>>)
    ensures
        r is Ok <==> i@.len() >= 2,
        r matches Ok((rest, value)) ==> rest@ == i@.skip(2) && value == le_u16_value(i@[0], i@[1]),
{
    nom::number::complete::le_u16::<()>(i)
}

/// `nom::bytes::complete::take`: fails exactly when fewer than `count` bytes
/// are left; otherwise yields the first `count` bytes and the bytes after them.
#[verifier::external_body]
pub(crate) fn take<'a>(count: usize, i: &'a [u8]) -> (r: Result<(&'a [u8], &'a [u8]), nom::Err<()>>)
    ensures
        r is Ok <==> i@.len() >= count,
        r matches Ok((rest, taken)) ==> rest@ == i@.skip(count as int) && taken@ == i@.take(count as int),
{
    nom::bytes::complete::take::<usize, &'a [u8], ()>(count)(i)
}

/// What `byte` makes of `i`.
pub open spec fn byte_spec(i: Seq<u8>) -> Result<(Seq<u8>, u8), DecodeError> {
    if i.len() >= 1 {
        Ok((i.skip(1), i[0]))
    } else {
        Err(DecodeError::MalformedFrame)
    }
}

/// What `word` makes of `i`.
pub open spec fn word_spec(i: Seq<u8>) -> Result<(Seq<u8>, u16), DecodeError> {
    if i.len() >= 2 {
        Ok((i.skip(2), le_u16_value(i[0], i[1])))
    } else {
        Err(DecodeError::MalformedFrame)
    }
}

/// One byte off the front of `i`.
pub fn byte<'a>(i: &'a [u8]) -> (r: Result<(&'a [u8], u8), DecodeError>)
    ensures
        parsed(r) == byte_spec(i@),
{
    match le_u8(i) {
        Ok((rest, value)) => Ok((rest, value)),
        Err(_) => Err(DecodeError::MalformedFrame),
    }
}

/// One little-endian 16-bit value off the front of `i`.
pub fn word<'a>(i: &'a [u8]) -> (r: Result<(&'a [u8], u16), DecodeError>)
    ensures
        parsed(r) == word_spec(i@),
{
    match le_u16(i) {
        Ok((rest, value)) => Ok((rest, value)),
        Err(_) => Err(DecodeError::MalformedFrame),
    }
}

/// The first `count` bytes of `i` and the bytes after them.
pub fn bytes<'a>(count: usize, i: &'a [u8]) -> (r: Result<(&'a [u8], &'a [u8]), DecodeError>)
    ensures
        r is Ok <==> i@.len() >= count,
        r matches Ok((rest, taken)) ==> rest@ == i@.skip(count as int) && taken@ == i@.take(count as int),
        r matches Err(e) ==> e == DecodeError::MalformedFrame,
{
    match take(count, i) {
        Ok((rest, taken)) => Ok((rest, taken)),
        Err(_) => Err(DecodeError::MalformedFrame),
    }
}

/// One byte off the front of `i`, accepted only if it equals `expected`.
pub fn marker<'a>(expected: u8, i: &'a [u8]) -> (r: Result<&'a [u8], DecodeError>)
    ensures
        r is Ok <==> i@.len() >= 1 && i@[0] == expected,
        r matches Ok(rest) ==> rest@ == i@.skip(1),
        r matches Err(e) ==> e == DecodeError::MalformedFrame,
{
    match bytes(1, i) {
        Ok((rest, taken)) => {
            if taken[0] == expected {
                Ok(rest)
            } else {
                Err(DecodeError::MalformedFrame)
            }
        },
        Err(e) => Err(e),
    }
}

} // verus!
