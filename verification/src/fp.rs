use vstd::prelude::*;

verus! {

// An IEEE-754 binary64 value is carried as its 64-bit pattern: one sign bit,
// eleven exponent bits, fifty-two significand bits. Classification and
// comparison are pure functions of the pattern and are defined and verified
// here; rounding arithmetic is not, and lives behind the trusted items in
// `ops`.

/// Bit pattern of +0.0.
pub const POS_ZERO_BITS: u64 = 0;

/// Bit pattern of -0.0: only the sign bit set.
pub const NEG_ZERO_BITS: u64 = 0x8000_0000_0000_0000;

/// Bit pattern of 1.0.
pub const ONE_BITS: u64 = 0x3FF0_0000_0000_0000;

/// Bit pattern of +Infinity: exponent bits all set, significand zero.
pub const POS_INF_BITS: u64 = 0x7FF0_0000_0000_0000;

/// The quiet NaN pattern that the evaluator reports: sign clear, exponent
/// bits all set, highest significand bit set.
pub const NAN_BITS: u64 = 0x7FF8_0000_0000_0000;

/// Mask of everything but the sign bit.
pub const MAG_MASK: u64 = 0x7FFF_FFFF_FFFF_FFFF;

/// Mask of the sign bit alone.
pub const SIGN_MASK: u64 = 0x8000_0000_0000_0000;

/// The magnitude of a pattern: the sign bit cleared. Patterns of equal
/// magnitude encode values of equal absolute value, and among patterns whose
/// sign bit is clear the encoded order is the order of the magnitudes.
pub open spec fn mag(a: u64) -> u64 {
    a & MAG_MASK
}

/// The sign bit is set: the encoded value is negative, a negative zero, or a
/// NaN whose sign bit is set.
pub open spec fn is_sign_neg(a: u64) -> bool {
    a & SIGN_MASK == SIGN_MASK
}

/// The pattern encodes a NaN: exponent bits all set and a nonzero
/// significand, that is, a magnitude above the infinity pattern.
pub open spec fn is_nan_bits(a: u64) -> bool {
    mag(a) > POS_INF_BITS
}

/// The pattern encodes an infinity of either sign.
pub open spec fn is_inf_bits(a: u64) -> bool {
    mag(a) == POS_INF_BITS
}

/// The pattern encodes a zero of either sign.
pub open spec fn is_zero_bits(a: u64) -> bool {
    mag(a) == 0
}

/// The pattern encodes a finite value: zero, subnormal or normal.
pub open spec fn is_finite_bits(a: u64) -> bool {
    mag(a) < POS_INF_BITS
}

/// IEEE-754 `<` on two encoded values. Any NaN compares false; the two
/// zeros are equal; otherwise a negative is below a nonnegative, two
/// nonnegatives are ordered by magnitude, and two negatives in the reverse
/// order of their magnitudes.
pub open spec fn fp_lt_spec(a: u64, b: u64) -> bool {
    if is_nan_bits(a) || is_nan_bits(b) {
        false
    } else if is_sign_neg(a) && is_sign_neg(b) {
        mag(b) < mag(a)
    } else if !is_sign_neg(a) && !is_sign_neg(b) {
        mag(a) < mag(b)
    } else if is_sign_neg(a) {
        !(is_zero_bits(a) && is_zero_bits(b))
    } else {
        false
    }
}

/// IEEE-754 `>` on two encoded values.
pub open spec fn fp_gt_spec(a: u64, b: u64) -> bool {
    fp_lt_spec(b, a)
}

/// IEEE-754 `==` on two encoded values: false on any NaN, true on the two
/// zeros, otherwise equality of patterns.
pub open spec fn fp_eq_spec(a: u64, b: u64) -> bool {
    &&& !is_nan_bits(a)
    &&& !is_nan_bits(b)
    &&& (a == b || (is_zero_bits(a) && is_zero_bits(b)))
}

/// The absolute value of an encoded value is the pattern with the sign bit
/// cleared.
pub fn fp_abs(a: u64) -> (r: u64)
    ensures
        r == mag(a),
{
    a & MAG_MASK
}

/// The negation of an encoded value is the pattern with the sign bit
/// flipped.
pub open spec fn neg_bits(a: u64) -> u64 {
    a ^ SIGN_MASK
}

/// IEEE-754 negation: flip the sign bit.
pub fn fp_neg(a: u64) -> (r: u64)
    ensures
        r == neg_bits(a),
{
    a ^ SIGN_MASK
}

/// IEEE-754 `<` as executable code over the patterns.
pub fn fp_lt(a: u64, b: u64) -> (r: bool)
    ensures
        r == fp_lt_spec(a, b),
{
    let ma = a & MAG_MASK;
    let mb = b & MAG_MASK;
    if ma > POS_INF_BITS || mb > POS_INF_BITS {
        false
    } else if a & SIGN_MASK == SIGN_MASK {
        if b & SIGN_MASK == SIGN_MASK {
            mb < ma
        } else {
            !(ma == 0 && mb == 0)
        }
    } else if b & SIGN_MASK == SIGN_MASK {
        false
    } else {
        ma < mb
    }
}

/// IEEE-754 `>` as executable code over the patterns.
pub fn fp_gt(a: u64, b: u64) -> (r: bool)
    ensures
        r == fp_gt_spec(a, b),
{
    fp_lt(b, a)
}

/// IEEE-754 `==` as executable code over the patterns.
pub fn fp_eq(a: u64, b: u64) -> (r: bool)
    ensures
        r == fp_eq_spec(a, b),
{
    let ma = a & MAG_MASK;
    let mb = b & MAG_MASK;
    if ma > POS_INF_BITS || mb > POS_INF_BITS {
        false
    } else {
        a == b || (ma == 0 && mb == 0)
    }
}

/// Classification of the patterns the evaluator's constants carry, settled
/// once by bit-vector reasoning.
pub proof fn lemma_const_class()
    ensures
        is_zero_bits(POS_ZERO_BITS),
        !is_nan_bits(POS_ZERO_BITS),
        is_finite_bits(POS_ZERO_BITS),
        is_zero_bits(NEG_ZERO_BITS),
        is_finite_bits(NEG_ZERO_BITS),
        is_finite_bits(ONE_BITS),
        !is_nan_bits(ONE_BITS),
        !is_zero_bits(ONE_BITS),
        !is_inf_bits(ONE_BITS),
{
    assert(0u64 & 0x7FFF_FFFF_FFFF_FFFFu64 == 0u64) by (bit_vector);
    assert(0x8000_0000_0000_0000u64 & 0x7FFF_FFFF_FFFF_FFFFu64 == 0u64) by (bit_vector);
    assert(0x3FF0_0000_0000_0000u64 & 0x7FFF_FFFF_FFFF_FFFFu64 == 0x3FF0_0000_0000_0000u64)
        by (bit_vector);
}

/// Taking a magnitude is idempotent and clears the sign bit.
pub proof fn lemma_mag_idem(a: u64)
    ensures
        mag(mag(a)) == mag(a),
        !is_sign_neg(mag(a)),
{
    assert((a & 0x7FFF_FFFF_FFFF_FFFFu64) & 0x7FFF_FFFF_FFFF_FFFFu64 == a
        & 0x7FFF_FFFF_FFFF_FFFFu64) by (bit_vector);
    assert((a & 0x7FFF_FFFF_FFFF_FFFFu64) & 0x8000_0000_0000_0000u64 != 0x8000_0000_0000_0000u64)
        by (bit_vector);
}

} // verus!
