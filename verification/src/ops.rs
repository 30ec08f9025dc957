use vstd::prelude::*;
use rustc_apfloat::Float;
use rustc_apfloat::ieee::Double;
use crate::fp::{is_nan_bits, is_inf_bits, is_zero_bits, is_finite_bits, is_sign_neg, ONE_BITS, POS_ZERO_BITS, NEG_ZERO_BITS};

verus! {

// The four rounding operations of the evaluator are not modelled bit for
// bit: each result is given a name, a spec function of the operand patterns
// alone, and beside the name stand only the identities of IEEE-754 binary64
// arithmetic that the callers' proofs lean on. The executable bodies call
// rustc_apfloat's binary64 arithmetic, which rounds to nearest, ties to
// even, as a host double would.

/// The IEEE-754 binary64 sum of two encoded values, as a pattern.
pub uninterp spec fn add_of(a: u64, b: u64) -> u64;

/// The IEEE-754 binary64 difference of two encoded values, as a pattern.
pub uninterp spec fn sub_of(a: u64, b: u64) -> u64;

/// The IEEE-754 binary64 product of two encoded values, as a pattern.
pub uninterp spec fn mul_of(a: u64, b: u64) -> u64;

/// The IEEE-754 binary64 quotient of two encoded values, as a pattern.
pub uninterp spec fn div_of(a: u64, b: u64) -> u64;

/// The Gamma function of an encoded value, as a pattern.
pub uninterp spec fn gamma_of(a: u64) -> u64;

/// The first encoded value raised to the second, as a pattern.
pub uninterp spec fn pow_of(a: u64, b: u64) -> u64;

/// Relies on rustc_apfloat's `Double` addition (`add_r`, nearest-even): the
/// sum is NaN exactly on a NaN operand or on infinities of unlike sign;
/// addition of non-NaN values is commutative; adding a zero to a non-NaN,
/// nonzero value returns that value; a zero joins a nonzero non-NaN value
/// unchanged; and the sum of two zeros is -0.0 when both are, else +0.0.
#[verifier::external_body]
pub(crate) fn fp_add(a: u64, b: u64) -> (r: u64)
    ensures
        r == add_of(a, b),
        is_nan_bits(r) <==> (is_nan_bits(a) || is_nan_bits(b) || (is_inf_bits(a) && is_inf_bits(b)
            && is_sign_neg(a) != is_sign_neg(b))),
        !is_nan_bits(a) && !is_nan_bits(b) ==> r == add_of(b, a),
        !is_nan_bits(a) && !is_zero_bits(a) && is_zero_bits(b) ==> r == a,
        is_zero_bits(a) && !is_nan_bits(b) && !is_zero_bits(b) ==> r == b,
        is_zero_bits(a) && is_zero_bits(b) ==> r == (if is_sign_neg(a) && is_sign_neg(b) {
            NEG_ZERO_BITS
        } else {
            POS_ZERO_BITS
        }),
{
    (Double::from_bits(a as u128) + Double::from_bits(b as u128)).value.to_bits() as u64
}

/// Relies on rustc_apfloat's `Double` subtraction (`sub_r`, nearest-even).
#[verifier::external_body]
pub(crate) fn fp_sub(a: u64, b: u64) -> (r: u64)
    ensures
        r == sub_of(a, b),
{
    (Double::from_bits(a as u128) - Double::from_bits(b as u128)).value.to_bits() as u64
}

/// Relies on rustc_apfloat's `Double` multiplication (`mul_r`, nearest-even):
/// multiplication of non-NaN values is commutative; a non-NaN value times
/// 1.0 is returned unchanged; and a finite value times a zero is a zero.
#[verifier::external_body]
pub(crate) fn fp_mul(a: u64, b: u64) -> (r: u64)
    ensures
        r == mul_of(a, b),
        !is_nan_bits(a) && !is_nan_bits(b) ==> r == mul_of(b, a),
        !is_nan_bits(a) && b == ONE_BITS ==> r == a,
        is_finite_bits(a) && is_zero_bits(b) ==> is_zero_bits(r),
{
    (Double::from_bits(a as u128) * Double::from_bits(b as u128)).value.to_bits() as u64
}

/// Relies on rustc_apfloat's `Double` division (`div_r`, nearest-even): a
/// zero divided by a nonzero, non-NaN value is a zero.
#[verifier::external_body]
pub(crate) fn fp_div(a: u64, b: u64) -> (r: u64)
    ensures
        r == div_of(a, b),
        is_zero_bits(a) && !is_nan_bits(b) && !is_zero_bits(b) ==> is_zero_bits(r),
{
    (Double::from_bits(a as u128) / Double::from_bits(b as u128)).value.to_bits() as u64
}

/// Relies on libm::tgamma: the Gamma function of the encoded value, a
/// function of the operand pattern alone.
#[verifier::external_body]
pub(crate) fn fp_gamma(a: u64) -> (r: u64)
    ensures
        r == gamma_of(a),
{
    bytemuck::cast(libm::tgamma(bytemuck::cast(a)))
}

/// Relies on libm::pow: the first encoded value raised to the second, a
/// function of the operand patterns alone.
#[verifier::external_body]
pub(crate) fn fp_pow(a: u64, b: u64) -> (r: u64)
    ensures
        r == pow_of(a, b),
{
    bytemuck::cast(libm::pow(bytemuck::cast(a), bytemuck::cast(b)))
}

} // verus!
