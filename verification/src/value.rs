//! The value of a unit: a magnitude together with the base unit it counts.

use crate::base::BaseUnit;
use vstd::prelude::*;

verus! {

/// The magnitude one, as the bit pattern of an IEEE 754 binary64 number:
/// sign 0, biased exponent 1023 (that is, 2 to the power 0), fraction 0.
pub const MAGNITUDE_ONE: u64 = 0x3FF0_0000_0000_0000;

/// The sign bit of a binary64 bit pattern.
pub open spec fn sign(bits: u64) -> u64 {
    bits >> 63
}

/// The eleven exponent bits of a binary64 bit pattern, biased by 1023.
pub open spec fn biased_exponent(bits: u64) -> u64 {
    (bits >> 52) & 0x7FF
}

/// The fifty-two fraction bits of a binary64 bit pattern.
pub open spec fn fraction(bits: u64) -> u64 {
    bits & 0x000F_FFFF_FFFF_FFFF
}

/// `MAGNITUDE_ONE` is the one bit pattern that is positive, has exponent
/// zero after the bias is taken off, and has no fraction: the number one.
pub proof fn lemma_magnitude_one_is_one(bits: u64)
    ensures
        bits == MAGNITUDE_ONE <==> sign(bits) == 0 && biased_exponent(bits) == 1023 && fraction(
            bits,
        ) == 0,
{
    assert(bits == 0x3FF0_0000_0000_0000u64 <==> (bits >> 63) == 0 && ((bits >> 52) & 0x7FF) == 1023
        && (bits & 0x000F_FFFF_FFFF_FFFF) == 0) by (bit_vector);
}

/// What a unit resolves to: a magnitude and the base unit it is a multiple of.
///
/// The first field is the magnitude, held as the bit pattern of a binary64
/// number so that it is carried exactly. The second field borrows the base
/// unit; it never owns it.
#[derive(Clone, Copy, Debug)]
pub struct Value<'a>(pub u64, pub &'a BaseUnit);

/// Anything that resolves to a magnitude and a base unit.
pub trait Val {
    /// The base unit that this unit is expressed in.
    spec fn base(&self) -> BaseUnit;

    /// Resolves the unit. The magnitude is one, and the base unit handed
    /// back is the one that `base` names.
    fn value(&self) -> (v: Value<'_>)
        ensures
            v.0 == MAGNITUDE_ONE,
            *v.1 == self.base(),
    ;
}

} // verus!
