//! Conversion of protocol bytes into numbers, strings and the enums that name
//! them.

use vstd::prelude::*;
use vstd::utf8::decode_utf8;
use vstd::utf8::valid_utf8;

verus! {

/// The error of a conversion from a byte that no variant of the target enum
/// stands for.
#[derive(Clone, Copy, PartialEq, Eq, Structural, Hash, Debug)]
pub struct TryFromPrimitiveError {
    /// The byte that could not be converted.
    pub number: u8,
}

/// The number whose more significant byte is `hi` and whose less significant
/// byte is `lo`.
pub open spec fn spec_u16_from_bytes(hi: u8, lo: u8) -> u16 {
    (hi * 256 + lo) as u16
}

/// Reads an unsigned number from two bytes, the more significant one first.
pub fn u16_from_be_bytes(hi: u8, lo: u8) -> (r: u16)
    ensures
        r == spec_u16_from_bytes(hi, lo),
{
    let high: u16 = hi as u16;
    let low: u16 = lo as u16;
    high * 256 + low
}

/// Reads an unsigned number from two bytes, the less significant one first.
pub fn u16_from_le_bytes(lo: u8, hi: u8) -> (r: u16)
    ensures
        r == spec_u16_from_bytes(hi, lo),
{
    u16_from_be_bytes(hi, lo)
}

/// The two's-complement number whose more significant byte is `hi` and whose
/// less significant byte is `lo`.
pub open spec fn spec_i16_from_bytes(hi: u8, lo: u8) -> i16 {
    if hi >= 128 {
        (hi * 256 + lo - 65536) as i16
    } else {
        (hi * 256 + lo) as i16
    }
}

/// Reads a signed number in two's complement from two bytes, the more
/// significant one first.
pub fn i16_from_be_bytes(hi: u8, lo: u8) -> (r: i16)
    ensures
        r == spec_i16_from_bytes(hi, lo),
{
    let low: i16 = lo as i16;
    if hi >= 128 {
        let high: i16 = (hi - 128) as i16;
        high * 256 + low + i16::MIN
    } else {
        let high: i16 = hi as i16;
        high * 256 + low
    }
}

/// The more significant byte of a number.
pub fn high_byte(value: u16) -> (r: u8)
    ensures
        r == value / 256,
{
    (value / 256) as u8
}

/// The less significant byte of a number.
pub fn low_byte(value: u16) -> (r: u8)
    ensures
        r == value % 256,
{
    (value % 256) as u8
}

/// Converts bytes into the string that they encode in UTF-8.
///
/// Calls `String::from_utf8`, of which the standard library says that it
/// fails exactly when the bytes are no valid UTF-8, and that the string holds
/// the bytes that went in.
#[verifier::external_body]
pub(crate) fn string_from_utf8(bytes: Vec<u8>) -> (r: Option<String>)
    ensures
        r is Some <==> valid_utf8(bytes@),
        r is Some ==> r->0@ == decode_utf8(bytes@),
{
    match String::from_utf8(bytes) {
        Ok(text) => Some(text),
        Err(_) => None,
    }
}

/// The text that bytes from a device stand for, if they are valid UTF-8.
pub open spec fn spec_text(bytes: Seq<u8>) -> Option<Seq<char>> {
    if valid_utf8(bytes) {
        Some(decode_utf8(bytes))
    } else {
        None
    }
}

/// Copies the bytes from `from` up to, but without, `to` into a vector.
pub fn copy_range(bytes: &[u8], from: usize, to: usize) -> (r: Vec<u8>)
    requires
        from <= to <= bytes@.len(),
    ensures
        r@ == bytes@.subrange(from as int, to as int),
{
    let mut out: Vec<u8> = Vec::new();
    let mut i: usize = from;
    while i < to
        invariant
            from <= i <= to,
            to <= bytes@.len(),
            out@ == bytes@.subrange(from as int, i as int),
        decreases to - i,
    {
        out.push(bytes[i]);
        i += 1;
        assert(out@ =~= bytes@.subrange(from as int, i as int));
    }
    out
}

} // verus!
