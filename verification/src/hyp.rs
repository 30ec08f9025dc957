use vstd::prelude::*;
use crate::fp::{neg_bits, is_finite_bits, fp_gt_spec, fp_gt, fp_neg, ONE_BITS, POS_ZERO_BITS};
use crate::ops::{add_of, sub_of, mul_of, div_of, gamma_of, pow_of, fp_add, fp_sub, fp_mul,
    fp_div, fp_gamma, fp_pow};
use crate::series::{series_spec, collapses_at_origin, series};
use crate::spline::{threshold_spec, threshold};

verus! {

/// What the analytic continuation returns: with s = 1-x and d = c-a-b,
/// Gamma(c) * [ Gamma(d)/(Gamma(c-a)Gamma(c-b)) * series(a, b, 1-d, s)
///            + s^d * Gamma(-d)/(Gamma(a)Gamma(b)) * series(c-a, c-b, 1+d, s) ],
/// every operation an IEEE-754 binary64 step on the patterns. When d is an
/// exact integer a Gamma pole turns a term into a non-finite sentinel; no
/// branch detects that.
pub open spec fn continuation_spec(a: u64, b: u64, c: u64, x: u64) -> u64 {
    let s = sub_of(ONE_BITS, x);
    let d = sub_of(sub_of(c, a), b);
    let ca = sub_of(c, a);
    let cb = sub_of(c, b);
    let t1 = mul_of(
        div_of(gamma_of(d), mul_of(gamma_of(ca), gamma_of(cb))),
        series_spec(a, b, sub_of(ONE_BITS, d), s),
    );
    let t2 = mul_of(
        div_of(gamma_of(neg_bits(d)), mul_of(gamma_of(a), gamma_of(b))),
        series_spec(ca, cb, add_of(ONE_BITS, d), s),
    );
    mul_of(gamma_of(c), add_of(t1, mul_of(pow_of(s, d), t2)))
}

/// Analytic continuation of 2F1(a,b,c;x) around 1-x, Abramowitz & Stegun
/// 15.3.6, all four arguments and the result IEEE-754 binary64 bit patterns.
/// Preferred when x is close to 1, where the direct series converges slowly
/// or not at all.
pub fn abr_ste_15_3_6(a: u64, b: u64, c: u64, x: u64) -> (r: u64)
    ensures
        r == continuation_spec(a, b, c, x),
{
    let s = fp_sub(ONE_BITS, x);
    let d = fp_sub(fp_sub(c, a), b);
    let ca = fp_sub(c, a);
    let cb = fp_sub(c, b);
    let gam_c = fp_gamma(c);
    let t1 = fp_mul(
        fp_div(fp_gamma(d), fp_mul(fp_gamma(ca), fp_gamma(cb))),
        series(a, b, fp_sub(ONE_BITS, d), s),
    );
    let t2 = fp_mul(
        fp_div(fp_gamma(fp_neg(d)), fp_mul(fp_gamma(a), fp_gamma(b))),
        series(ca, cb, fp_add(ONE_BITS, d), s),
    );
    fp_mul(gam_c, fp_add(t1, fp_mul(fp_pow(s, d), t2)))
}

/// What the dispatcher returns: the continuation when x lies above the
/// fitted threshold for (a, b, c), else the direct series.
pub open spec fn hyp2f1_spec(a: u64, b: u64, c: u64, x: u64) -> u64 {
    if fp_gt_spec(x, threshold_spec(a, b, c)) {
        continuation_spec(a, b, c, x)
    } else {
        series_spec(a, b, c, x)
    }
}

/// The Gauss hypergeometric function 2F1(a,b,c;x), all four arguments and
/// the result IEEE-754 binary64 bit patterns. The threshold is computed
/// once; exactly one evaluator runs, with no retry; non-finite sentinels
/// pass through unchecked.
///
/// The contract also carries the dispatcher's laws where the series is
/// selected: at x = +0.0 the value is exactly 1.0 whenever the series
/// collapses there, and a and b are interchangeable bit for bit whenever
/// both are finite and the two parameter orders give the threshold the same
/// pattern.
pub fn hyp2f1(a: u64, b: u64, c: u64, x: u64) -> (r: u64)
    ensures
        r == hyp2f1_spec(a, b, c, x),
        x == POS_ZERO_BITS && !fp_gt_spec(x, threshold_spec(a, b, c)) && collapses_at_origin(
            a,
            b,
            c,
        ) ==> r == ONE_BITS,
        is_finite_bits(a) && is_finite_bits(b) && threshold_spec(a, b, c) == threshold_spec(
            b,
            a,
            c,
        ) && !fp_gt_spec(x, threshold_spec(a, b, c)) ==> r == hyp2f1_spec(b, a, c, x),
{
    let t = threshold(a, b, c);
    if fp_gt(x, t) {
        abr_ste_15_3_6(a, b, c, x)
    } else {
        series(a, b, c, x)
    }
}

} // verus!
