use vstd::prelude::*;
use crate::fp::{fp_lt_spec, fp_gt_spec, fp_lt, fp_gt};
use crate::ops::{add_of, sub_of, mul_of, div_of, fp_add, fp_sub, fp_mul, fp_div};

verus! {

// The fitted threshold model: a per-parameter factor, a piecewise cubic in
// the normalized coordinate z = v / (v + 150) over thirteen breakpoints,
// combined as 46.9583277545962 * factor(a) * factor(b) / factor(c) - 0.001.
// The coefficients are fixed empirical data and are transcribed exactly; a
// wrong bit here silently selects the wrong evaluator near the boundary.

/// Bit pattern of 150.0, the span of the fold and the normalization shift.
pub const SPAN_BITS: u64 = 0x4062_C000_0000_0000;

/// Bit pattern of -150.0.
pub const NEG_SPAN_BITS: u64 = 0xC062_C000_0000_0000;

/// Bit pattern of -75.0, half the span: parameters below it are folded. The
/// quotient -150.0 / 2.0 is exact, so the constant stands for it.
pub const NEG_HALF_SPAN_BITS: u64 = 0xC052_C000_0000_0000;

/// Bit pattern of 46.9583277545962, the fitted overall scale.
pub const SCALE_BITS: u64 = 0x4047_7AAA_7BDE_6B7E;

/// Bit pattern of 0.001, the fitted overall offset.
pub const OFFSET_BITS: u64 = 0x3F50_624D_D2F1_A9FC;

/// The thirteen ascending breakpoints of the fitted spline, in the
/// normalized coordinate z, as bit patterns (-0.5 up to 0.75).
pub open spec fn knot_bits(i: int) -> u64 {
    if i == 0 {
        0xBFE0_0000_0000_0000
    } else if i == 1 {
        0xBFD0_0000_0000_0000
    } else if i == 2 {
        0xBFB9_9999_9999_999A
    } else if i == 3 {
        0xBFA9_9999_9999_999A
    } else if i == 4 {
        0xBF84_7AE1_47AE_147B
    } else if i == 5 {
        0xBF50_624D_D2F1_A9FC
    } else if i == 6 {
        0x3F50_624D_D2F1_A9FC
    } else if i == 7 {
        0x3F84_7AE1_47AE_147B
    } else if i == 8 {
        0x3FA9_9999_9999_999A
    } else if i == 9 {
        0x3FB9_9999_9999_999A
    } else if i == 10 {
        0x3FD0_0000_0000_0000
    } else if i == 11 {
        0x3FE0_0000_0000_0000
    } else {
        0x3FE8_0000_0000_0000
    }
}

/// The fourteen cubic coefficient quadruples of the fitted spline, one
/// per segment, highest power first; the last is the default segment.
pub open spec fn coeff_bits(i: int) -> (u64, u64, u64, u64) {
    if i == 0 {
        (0xBF83_6A30_7720_85CD, 0xBF65_5CE0_1AFF_5520, 0x0000_0000_0000_0000, 0x3FA2_8E8A_B402_E451)
    } else if i == 1 {
        (0xBFA8_D859_A145_B044, 0xBF91_3B40_5C8C_53FE, 0xBF83_E6DC_6018_39A2, 0x3FA1_9DC5_B01A_5BEE)
    } else if i == 2 {
        (0x3F95_5693_916B_1793, 0xBFAB_3FE3_673A_6E32, 0xBF9B_E22F_FA32_7A6A, 0x3F9E_E439_00FB_C927)
    } else if i == 3 {
        (0xC007_94E5_5F95_BCC0, 0xBFA6_72CF_005D_E7CA, 0xBFA5_657F_8D5E_34DA, 0x3F99_8E04_0A06_DC41)
    } else if i == 4 {
        (0x402B_5700_B2AD_66D6, 0xBFDF_1AA0_52A3_EF67, 0xBFB1_7AF1_D05E_CA07, 0x3F96_ECF1_0B6E_BEBD)
    } else if i == 5 {
        (0xC07D_C7D2_0D13_0DFA, 0x3FF2_7862_D2B3_15C2, 0xBFA5_4598_6F04_ED10, 0x3F94_3A73_5654_6E99)
    } else if i == 6 {
        (0x40A3_5F24_F377_5B81, 0xC027_6BEE_C397_99E5, 0xBFC1_7A9C_BEBD_149E, 0x3F93_95E2_2321_F860)
    } else if i == 7 {
        (0xC04C_0CD2_0AFA_2F06, 0x4009_5540_8805_7286, 0xBFC3_AA90_481D_614B, 0x3F93_4735_BD89_E054)
    } else if i == 8 {
        (0xC02B_D033_93AB_430F, 0x3FFA_6E46_79E1_EE47, 0xBFBC_3B07_ED23_1D55, 0x3F92_153D_523B_A42A)
    } else if i == 9 {
        (0x3FEB_A94E_7C7E_9A7F, 0xBF91_478F_437B_EC0F, 0xBFA6_F9B3_64E5_C08B, 0x3F8E_B8EE_CB2E_A4F5)
    } else if i == 10 {
        (0xBFCA_D81D_35CE_76A4, 0x3FBC_DFAD_8F9A_BD30, 0xBFA4_851F_3773_76D5, 0x3F8A_4320_1568_29DD)
    } else if i == 11 {
        (0xBF82_8C1D_D4D8_012F, 0x3F92_DB19_E768_CCA1, 0xBF94_E32C_02E9_F48E, 0x3F81_B2A8_F68F_2C18)
    } else if i == 12 {
        (0xBF82_6E3B_0665_43AC, 0x3F87_CD1D_71D9_4ADA, 0xBF8A_6583_B4CD_4916, 0x3F72_A48B_75F9_8630)
    } else {
        (0xBF5D_7990_65C4_7A20, 0x3F73_F4E2_5653_1E37, 0xBF81_F3A0_0DB8_8D98, 0x3F5F_5FED_C80D_540A)
    }
}

/// Breakpoint lookup for the executable scan.
fn knot_at(i: usize) -> (r: u64)
    requires
        i < 13,
    ensures
        r == knot_bits(i as int),
{
    match i {
        0 => 0xBFE0_0000_0000_0000,
        1 => 0xBFD0_0000_0000_0000,
        2 => 0xBFB9_9999_9999_999A,
        3 => 0xBFA9_9999_9999_999A,
        4 => 0xBF84_7AE1_47AE_147B,
        5 => 0xBF50_624D_D2F1_A9FC,
        6 => 0x3F50_624D_D2F1_A9FC,
        7 => 0x3F84_7AE1_47AE_147B,
        8 => 0x3FA9_9999_9999_999A,
        9 => 0x3FB9_9999_9999_999A,
        10 => 0x3FD0_0000_0000_0000,
        11 => 0x3FE0_0000_0000_0000,
        _ => 0x3FE8_0000_0000_0000,
    }
}

/// Coefficient quadruple lookup for the executable evaluation.
fn coeff_at(i: usize) -> (r: (u64, u64, u64, u64))
    requires
        i < 14,
    ensures
        r == coeff_bits(i as int),
{
    match i {
        0 => (0xBF83_6A30_7720_85CD, 0xBF65_5CE0_1AFF_5520, 0x0000_0000_0000_0000, 0x3FA2_8E8A_B402_E451),
        1 => (0xBFA8_D859_A145_B044, 0xBF91_3B40_5C8C_53FE, 0xBF83_E6DC_6018_39A2, 0x3FA1_9DC5_B01A_5BEE),
        2 => (0x3F95_5693_916B_1793, 0xBFAB_3FE3_673A_6E32, 0xBF9B_E22F_FA32_7A6A, 0x3F9E_E439_00FB_C927),
        3 => (0xC007_94E5_5F95_BCC0, 0xBFA6_72CF_005D_E7CA, 0xBFA5_657F_8D5E_34DA, 0x3F99_8E04_0A06_DC41),
        4 => (0x402B_5700_B2AD_66D6, 0xBFDF_1AA0_52A3_EF67, 0xBFB1_7AF1_D05E_CA07, 0x3F96_ECF1_0B6E_BEBD),
        5 => (0xC07D_C7D2_0D13_0DFA, 0x3FF2_7862_D2B3_15C2, 0xBFA5_4598_6F04_ED10, 0x3F94_3A73_5654_6E99),
        6 => (0x40A3_5F24_F377_5B81, 0xC027_6BEE_C397_99E5, 0xBFC1_7A9C_BEBD_149E, 0x3F93_95E2_2321_F860),
        7 => (0xC04C_0CD2_0AFA_2F06, 0x4009_5540_8805_7286, 0xBFC3_AA90_481D_614B, 0x3F93_4735_BD89_E054),
        8 => (0xC02B_D033_93AB_430F, 0x3FFA_6E46_79E1_EE47, 0xBFBC_3B07_ED23_1D55, 0x3F92_153D_523B_A42A),
        9 => (0x3FEB_A94E_7C7E_9A7F, 0xBF91_478F_437B_EC0F, 0xBFA6_F9B3_64E5_C08B, 0x3F8E_B8EE_CB2E_A4F5),
        10 => (0xBFCA_D81D_35CE_76A4, 0x3FBC_DFAD_8F9A_BD30, 0xBFA4_851F_3773_76D5, 0x3F8A_4320_1568_29DD),
        11 => (0xBF82_8C1D_D4D8_012F, 0x3F92_DB19_E768_CCA1, 0xBF94_E32C_02E9_F48E, 0x3F81_B2A8_F68F_2C18),
        12 => (0xBF82_6E3B_0665_43AC, 0x3F87_CD1D_71D9_4ADA, 0xBF8A_6583_B4CD_4916, 0x3F72_A48B_75F9_8630),
        _ => (0xBF5D_7990_65C4_7A20, 0x3F73_F4E2_5653_1E37, 0xBF81_F3A0_0DB8_8D98, 0x3F5F_5FED_C80D_540A),
    }
}
/// The first index at or after `i` whose breakpoint z exceeds, or 13 when z
/// exceeds none: the segment scan, ascending, first hit wins.
pub open spec fn scan_from(z: u64, i: int) -> int
    decreases 13 - i,
{
    if i < 0 || i >= 13 {
        13
    } else if fp_gt_spec(z, knot_bits(i)) {
        i
    } else {
        scan_from(z, i + 1)
    }
}

/// The scan as executable code.
fn scan(z: u64) -> (j: usize)
    ensures
        j as int == scan_from(z, 0),
        j <= 13,
{
    let mut i: usize = 0;
    while i < 13
        invariant
            i <= 13,
            scan_from(z, 0) == scan_from(z, i as int),
        decreases 13 - i,
    {
        if fp_gt(z, knot_at(i)) {
            return i;
        }
        i = i + 1;
    }
    13
}

/// The cubic of segment `seg` evaluated at zz: c0*zz^3 + c1*zz^2 + c2*zz +
/// c3, products first, sums left to right.
pub open spec fn cubic_spec(seg: int, zz: u64) -> u64 {
    let q = coeff_bits(seg);
    let z2 = mul_of(zz, zz);
    let z3 = mul_of(zz, z2);
    add_of(add_of(add_of(mul_of(q.0, z3), mul_of(q.1, z2)), mul_of(q.2, zz)), q.3)
}

/// The per-parameter factor: fold v below -75 to -150 - v, normalize to
/// z = v / (v + 150), pick the first breakpoint that z exceeds (its segment
/// and z rebased by the breakpoint) or the default segment with z as is, and
/// evaluate that segment's cubic.
pub open spec fn factor_spec(v: u64) -> u64 {
    let w = if fp_lt_spec(v, NEG_HALF_SPAN_BITS) {
        sub_of(NEG_SPAN_BITS, v)
    } else {
        v
    };
    let z = div_of(w, add_of(w, SPAN_BITS));
    let j = scan_from(z, 0);
    if j == 13 {
        cubic_spec(13, z)
    } else {
        cubic_spec(j + 1, sub_of(z, knot_bits(j)))
    }
}

/// The per-parameter factor of the threshold model, argument and result
/// IEEE-754 binary64 bit patterns.
pub fn thresh_factor(v: u64) -> (r: u64)
    ensures
        r == factor_spec(v),
{
    let w = if fp_lt(v, NEG_HALF_SPAN_BITS) {
        fp_sub(NEG_SPAN_BITS, v)
    } else {
        v
    };
    let z = fp_div(w, fp_add(w, SPAN_BITS));
    let j = scan(z);
    let (seg, zz) = if j == 13 {
        (13, z)
    } else {
        (j + 1, fp_sub(z, knot_at(j)))
    };
    let q = coeff_at(seg);
    let z2 = fp_mul(zz, zz);
    let z3 = fp_mul(zz, z2);
    fp_add(fp_add(fp_add(fp_mul(q.0, z3), fp_mul(q.1, z2)), fp_mul(q.2, zz)), q.3)
}

/// What the threshold model returns: the crossover x above which the
/// analytic continuation is preferred to the direct series.
pub open spec fn threshold_spec(a: u64, b: u64, c: u64) -> u64 {
    sub_of(
        div_of(mul_of(mul_of(SCALE_BITS, factor_spec(a)), factor_spec(b)), factor_spec(c)),
        OFFSET_BITS,
    )
}

/// The crossover x for parameters (a, b, c), all IEEE-754 binary64 bit
/// patterns: 46.9583277545962 * factor(a) * factor(b) / factor(c) - 0.001.
pub fn threshold(a: u64, b: u64, c: u64) -> (r: u64)
    ensures
        r == threshold_spec(a, b, c),
{
    let fa = thresh_factor(a);
    let fb = thresh_factor(b);
    let fc = thresh_factor(c);
    fp_sub(fp_div(fp_mul(fp_mul(SCALE_BITS, fa), fb), fc), OFFSET_BITS)
}

/// The threshold is a pure function of its arguments and the fixed
/// coefficient tables: two evaluations on the same patterns agree bit for
/// bit.
pub proof fn lemma_threshold_deterministic(a: u64, b: u64, c: u64, r1: u64, r2: u64)
    requires
        r1 == threshold_spec(a, b, c),
        r2 == threshold_spec(a, b, c),
    ensures
        r1 == r2,
{
}

} // verus!
