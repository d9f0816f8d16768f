use vstd::prelude::*;

verus! {

/// Bits of the biased exponent field of a binary64 value, once shifted down.
pub const EXPONENT_MASK: u64 = 0x7ff;

/// Bits of the significand (fraction) field of a binary64 value.
pub const FRACTION_MASK: u64 = 0x000f_ffff_ffff_ffff;

/// Every bit of a binary64 value except the sign.
pub const MAGNITUDE_MASK: u64 = 0x7fff_ffff_ffff_ffff;

/// The biased exponent of a binary64 bit pattern.
pub open spec fn exponent_of(bits: u64) -> u64 {
    (bits >> 52u64) & EXPONENT_MASK
}

/// The fraction field of a binary64 bit pattern.
pub open spec fn fraction_of(bits: u64) -> u64 {
    bits & FRACTION_MASK
}

/// The bit pattern encodes a NaN: all exponent bits set, fraction non-zero.
pub open spec fn is_nan_bits(bits: u64) -> bool {
    exponent_of(bits) == EXPONENT_MASK && fraction_of(bits) != 0
}

/// The bit pattern encodes +infinity or -infinity.
pub open spec fn is_infinite_bits(bits: u64) -> bool {
    exponent_of(bits) == EXPONENT_MASK && fraction_of(bits) == 0
}

/// The bit pattern encodes a finite number (zero, subnormal or normal).
pub open spec fn is_finite_bits(bits: u64) -> bool {
    exponent_of(bits) != EXPONENT_MASK
}

/// The bit pattern encodes +0.0 or -0.0.
pub open spec fn is_zero_bits(bits: u64) -> bool {
    bits & MAGNITUDE_MASK == 0
}

/// IEEE-754 equality of two non-NaN values given by their bit patterns:
/// identical encodings, or the two zeros.
pub open spec fn same_value(a: u64, b: u64) -> bool {
    a == b || (is_zero_bits(a) && is_zero_bits(b))
}

/// The key under which a value is hashed: its bit pattern, with -0.0 folded
/// onto +0.0 so that equal values get equal keys.
pub open spec fn canonical_bits(bits: u64) -> u64 {
    if is_zero_bits(bits) {
        0
    } else {
        bits
    }
}

/// Equal values have equal keys, and equal keys come from equal values.
pub proof fn lemma_canonical_bits_exact(a: u64, b: u64)
    ensures
        same_value(a, b) <==> canonical_bits(a) == canonical_bits(b),
{
    lemma_nonzero_magnitude(a);
    lemma_nonzero_magnitude(b);
}

proof fn lemma_nonzero_magnitude(bits: u64)
    ensures
        bits & MAGNITUDE_MASK != 0 ==> bits != 0,
{
    assert(bits & 0x7fff_ffff_ffff_ffffu64 != 0 ==> bits != 0) by (bit_vector);
}

/// Whether `bits` encodes a NaN.
pub fn is_nan(bits: u64) -> (r: bool)
    ensures
        r == is_nan_bits(bits),
{
    (bits >> 52u64) & EXPONENT_MASK == EXPONENT_MASK && bits & FRACTION_MASK != 0
}

/// Whether `bits` encodes an infinity of either sign.
pub fn is_infinite(bits: u64) -> (r: bool)
    ensures
        r == is_infinite_bits(bits),
{
    (bits >> 52u64) & EXPONENT_MASK == EXPONENT_MASK && bits & FRACTION_MASK == 0
}

/// Whether `bits` encodes a finite number.
pub fn is_finite(bits: u64) -> (r: bool)
    ensures
        r == is_finite_bits(bits),
{
    (bits >> 52u64) & EXPONENT_MASK != EXPONENT_MASK
}

/// Exact IEEE-754 equality of two non-NaN values.
pub fn values_equal(a: u64, b: u64) -> (r: bool)
    ensures
        r == same_value(a, b),
{
    a == b || (a & MAGNITUDE_MASK == 0 && b & MAGNITUDE_MASK == 0)
}

/// The hashing key of a value, see [`canonical_bits`].
pub fn canonical(bits: u64) -> (r: u64)
    ensures
        r == canonical_bits(bits),
{
    if bits & MAGNITUDE_MASK == 0 {
        0
    } else {
        bits
    }
}

} // verus!
