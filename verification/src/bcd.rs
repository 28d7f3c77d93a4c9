//! Decoding of packed binary-coded decimals.

use vstd::prelude::*;

verus! {

/// Whether both halves of the byte are decimal digits.
pub open spec fn is_packed_bcd(bcd: u8) -> bool {
    bcd / 16 <= 9 && bcd % 16 <= 9
}

/// The number that a packed-BCD byte stands for: its high half counts tens,
/// its low half counts ones.
pub open spec fn packed_value(bcd: u8) -> int {
    (bcd / 16) * 10 + bcd % 16
}

/// Decodes a packed-BCD byte into the number `hi * 10 + lo`.
///
/// Fails exactly when one of the two halves is greater than 9.
pub fn convert_packed_u8(bcd: u8) -> (r: Result<u8, ()>)
    ensures
        is_packed_bcd(bcd) ==> r == Ok::<u8, ()>(packed_value(bcd) as u8),
        !is_packed_bcd(bcd) ==> r is Err,
        r is Ok ==> r.unwrap() <= 99,
{
    let digit_0: u8 = bcd >> 4;
    let digit_1: u8 = bcd & 0x0f;
    assert(bcd >> 4 == bcd / 16) by (bit_vector);
    assert(bcd & 0x0f == bcd % 16) by (bit_vector);

    if digit_0 > 9 || digit_1 > 9 {
        Err(())
    } else {
        Ok(digit_0 * 10 + digit_1)
    }
}

/// Whether all four halves of the two bytes are decimal digits.
pub open spec fn is_packed_bcd_u16(bcd: u16) -> bool {
    is_packed_bcd((bcd / 256) as u8) && is_packed_bcd((bcd % 256) as u8)
}

/// The number that two packed-BCD bytes stand for: the high byte counts
/// hundreds, the low byte counts ones.
pub open spec fn packed_value_u16(bcd: u16) -> int {
    packed_value((bcd / 256) as u8) * 100 + packed_value((bcd % 256) as u8)
}

/// Decodes two packed-BCD bytes, the more significant one first, into the
/// number `hi * 100 + lo`.
///
/// Fails exactly when one of the four halves is greater than 9.
pub fn convert_packed_u16(bcd: u16) -> (r: Result<u16, ()>)
    ensures
        is_packed_bcd_u16(bcd) ==> r == Ok::<u16, ()>(packed_value_u16(bcd) as u16),
        !is_packed_bcd_u16(bcd) ==> r is Err,
        r is Ok ==> r.unwrap() <= 9999,
{
    assert(bcd >> 8 == bcd / 256 && bcd >> 8 < 256) by (bit_vector);
    assert(bcd & 0xff == bcd % 256) by (bit_vector);
    let hi: u8 = (bcd >> 8) as u8;
    let lo: u8 = (bcd & 0xff) as u8;
    match convert_packed_u8(hi) {
        Err(e) => Err(e),
        Ok(digits_0) => match convert_packed_u8(lo) {
            Err(e) => Err(e),
            Ok(digits_1) => {
                let hundreds: u16 = digits_0 as u16;
                let ones: u16 = digits_1 as u16;
                Ok(hundreds * 100 + ones)
            },
        },
    }
}

/// A byte whose halves are the digits `hi` and `lo` decodes to
/// `hi * 10 + lo`; a byte with a half above 9 does not decode.
pub proof fn lemma_packed_digits(hi: u8, lo: u8)
    requires
        hi < 16,
        lo < 16,
    ensures
        is_packed_bcd((hi * 16 + lo) as u8) <==> (hi < 10 && lo < 10),
        packed_value((hi * 16 + lo) as u8) == hi * 10 + lo,
        (hi * 16 + lo) as u8 == (hi << 4) | lo,
{
    assert(hi < 16 && lo < 16 ==> (hi << 4) | lo == hi * 16 + lo) by (bit_vector);
}

} // verus!
