//! A very simple u4/nibble implementation.

use vstd::prelude::*;

verus! {

/// Represents an unsigned 4-bit value (nibble) encoded as a byte.
#[derive(Clone, Copy, PartialEq, Eq, Structural, PartialOrd, Ord, Hash, Debug)]
pub struct U4(u8);

impl U4 {
    /// The number that the nibble stands for.
    pub closed spec fn value(self) -> u8 {
        self.0
    }

    /// A nibble is well-formed when its number fits into four bits. Every
    /// nibble that executable code can hold is well-formed.
    #[verifier::type_invariant]
    pub closed spec fn wf(self) -> bool {
        self.0 < 16
    }

    /// The nibble made of the 4 low bits of `raw`.
    pub open spec fn spec_from_lo(raw: u8) -> U4 {
        U4::spec_new(raw & 0x0f)
    }

    /// The nibble made of the 4 high bits of `raw`.
    pub open spec fn spec_from_hi(raw: u8) -> U4 {
        U4::spec_new(raw >> 4)
    }

    /// The nibble whose number is `value`.
    pub closed spec fn spec_new(value: u8) -> U4 {
        U4(value)
    }

    /// The byte that carries the nibble in its 4 high bits.
    pub open spec fn spec_to_hi(self) -> u8 {
        self.value() << 4
    }

    /// Constructs a nibble from the 4 low/rightmost bits of a byte.
    pub fn from_lo(raw: u8) -> (r: Self)
        ensures
            r == Self::spec_from_lo(raw),
            r.value() == raw & 0x0f,
            r.wf(),
    {
        assert(raw & 0x0f < 16) by (bit_vector);
        Self(raw & 0x0f)
    }

    /// Constructs a nibble from the 4 high/leftmost bits of a byte.
    pub fn from_hi(raw: u8) -> (r: Self)
        ensures
            r == Self::spec_from_hi(raw),
            r.value() == raw >> 4,
            r.wf(),
    {
        assert(raw >> 4 < 16) by (bit_vector);
        Self(raw >> 4)
    }

    /// Constructs a byte with the nibble set as the 4 low/rightmost bits.
    pub fn to_lo(self) -> (r: u8)
        ensures
            r == self.value(),
            r < 16,
            self.wf(),
    {
        proof {
            use_type_invariant(self);
        }
        self.0
    }

    /// Constructs a byte with the nibble set as the 4 high/leftmost bits.
    pub fn to_hi(self) -> (r: u8)
        ensures
            r == self.spec_to_hi(),
            self.wf(),
    {
        proof {
            use_type_invariant(self);
        }
        self.0 << 4
    }
}

/// The byte whose 4 high bits are `a` and whose 4 low bits are `b`.
pub open spec fn spec_combine(a: U4, b: U4) -> u8 {
    a.spec_to_hi() | b.value()
}

/// Combines two nibbles to a byte, with `a` being set to the 4 leftmost and
/// `b` being set to the 4 rightmost bits.
pub fn combine(a: U4, b: U4) -> (r: u8)
    ensures
        r == spec_combine(a, b),
{
    a.to_hi() | b.to_lo()
}

/// A nibble made from a number keeps that number, and is well-formed exactly
/// when the number fits into four bits.
pub proof fn lemma_new_value(value: u8)
    ensures
        U4::spec_new(value).value() == value,
        U4::spec_new(value).wf() <==> value < 16,
{
}

/// Two nibbles with the same number are the same nibble.
pub proof fn lemma_value_injective(a: U4, b: U4)
    requires
        a.value() == b.value(),
    ensures
        a == b,
{
}

/// Well-formedness is the four-bit bound on the number.
pub proof fn lemma_wf_bound(a: U4)
    ensures
        a.wf() <==> a.value() < 16,
{
}

/// Splitting a combined byte gives the two nibbles back: the high half of
/// `combine(a, b)` is `a` and the low half is `b`.
pub proof fn lemma_split_combined(a: U4, b: U4)
    requires
        a.wf(),
        b.wf(),
    ensures
        U4::spec_from_hi(spec_combine(a, b)) == a,
        U4::spec_from_lo(spec_combine(a, b)) == b,
{
    let x = a.value();
    let y = b.value();
    assert(x < 16 && y < 16 ==> ((x << 4) | y) >> 4 == x && ((x << 4) | y) & 0x0f == y)
        by (bit_vector);
}

/// Combining the two halves of a byte gives the byte back.
pub proof fn lemma_combine_halves(raw: u8)
    ensures
        spec_combine(U4::spec_from_hi(raw), U4::spec_from_lo(raw)) == raw,
        U4::spec_from_hi(raw).wf(),
        U4::spec_from_lo(raw).wf(),
{
    assert(((raw >> 4) << 4) | (raw & 0x0f) == raw) by (bit_vector);
    assert(raw >> 4 < 16 && raw & 0x0f < 16) by (bit_vector);
}

/// Whatever byte the high nibble was taken from, the low half of the
/// combined byte is the low nibble that went in.
pub proof fn lemma_low_half_survives(raw: u8, n: U4)
    requires
        n.wf(),
    ensures
        U4::spec_from_lo(spec_combine(U4::spec_from_hi(raw), n)).value() == n.value(),
        spec_combine(U4::spec_from_hi(raw), n) == U4::spec_from_hi(raw).spec_to_hi() | n.value(),
{
    lemma_combine_halves(raw);
    lemma_split_combined(U4::spec_from_hi(raw), n);
}

} // verus!
