//! The binary64 interchange format, as far as complex numbers need it.
//!
//! A value is held as the 64 bits of its encoding: one sign bit, eleven
//! exponent bits, fifty-two fraction bits, from the most significant down.

use vstd::prelude::*;

verus! {

/// The sign bit of an encoding.
pub const SIGN_BIT: u64 = 0x8000_0000_0000_0000;

/// The exponent and fraction bits of an encoding.
pub const MAGNITUDE_MASK: u64 = 0x7fff_ffff_ffff_ffff;

/// The encoding of positive zero.
pub const ZERO: u64 = 0;

/// The encoding of one: sign clear, biased exponent 1023, fraction zero.
pub const ONE: u64 = 0x3ff0_0000_0000_0000;

/// The encoding of the negated value: the sign bit flipped, the magnitude
/// untouched. This is exact for every encoding, NaN included.
pub open spec fn negated(bits: u64) -> u64 {
    bits ^ SIGN_BIT
}

/// Whether `bits` encodes a zero. There are two of them, one of each sign,
/// and they compare equal as numbers.
pub open spec fn encodes_zero(bits: u64) -> bool {
    bits == ZERO || bits == SIGN_BIT
}

/// Negates the value that `bits` encodes.
pub fn negate(bits: u64) -> (out: u64)
    ensures
        out == negated(bits),
{
    bits ^ SIGN_BIT
}

/// Tells whether `bits` encodes positive or negative zero.
pub fn is_zero(bits: u64) -> (out: bool)
    ensures
        out == encodes_zero(bits),
{
    assert((bits & MAGNITUDE_MASK == 0) <==> (bits == ZERO || bits == SIGN_BIT)) by (bit_vector);
    bits & MAGNITUDE_MASK == 0
}

/// Negating twice gives the encoding back.
pub proof fn lemma_negated_twice(bits: u64)
    ensures
        negated(negated(bits)) == bits,
{
    assert((bits ^ SIGN_BIT) ^ SIGN_BIT == bits) by (bit_vector);
}

} // verus!
