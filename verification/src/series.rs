use vstd::prelude::*;
use crate::fp::{
    mag, is_nan_bits, is_zero_bits, is_finite_bits, is_sign_neg, fp_lt_spec, fp_eq_spec, fp_abs,
    fp_lt, fp_eq, lemma_const_class, lemma_mag_idem, ONE_BITS, POS_ZERO_BITS, POS_INF_BITS,
    NAN_BITS,
};
use crate::ops::{add_of, mul_of, div_of, fp_add, fp_mul, fp_div};

verus! {

/// Bit pattern of 1e-13: a parameter c below this magnitude counts as a
/// singular denominator and the series reports +Infinity at once.
pub const EPS_BITS: u64 = 0x3D3C_25C2_6849_7682;

/// One more than the largest number of terms summed before the series gives
/// up and reports NaN.
pub const MAX_ROUNDS: u64 = 10_001;

/// The guard constant is an ordinary positive pattern: sign clear, below the
/// infinity pattern, nonzero.
proof fn lemma_eps_class()
    ensures
        mag(EPS_BITS) == EPS_BITS,
        !is_sign_neg(EPS_BITS),
        !is_nan_bits(EPS_BITS),
        !is_zero_bits(EPS_BITS),
{
    assert(0x3D3C_25C2_6849_7682u64 & 0x7FFF_FFFF_FFFF_FFFFu64 == 0x3D3C_25C2_6849_7682u64
        && 0x3D3C_25C2_6849_7682u64 & 0x8000_0000_0000_0000u64 != 0x8000_0000_0000_0000u64)
        by (bit_vector);
}

/// One round of the summation, taken when `fuel` rounds are still allowed:
/// the running term `u` picks up the factor (a+k)(b+k)x / ((c+k)(k+1)), the
/// sum `s` absorbs it, and the sum is returned the moment a term no longer
/// changes it, the fixed-point halting rule. Out of fuel means the sum never
/// settled: NaN.
pub open spec fn series_loop_spec(
    a: u64,
    b: u64,
    c: u64,
    x: u64,
    s: u64,
    u: u64,
    k: u64,
    fuel: nat,
) -> u64
    decreases fuel,
{
    if fuel == 0 {
        NAN_BITS
    } else {
        let m = add_of(k, ONE_BITS);
        let u2 = mul_of(
            u,
            div_of(mul_of(mul_of(add_of(a, k), add_of(b, k)), x), mul_of(add_of(c, k), m)),
        );
        let s2 = add_of(s, u2);
        if fp_eq_spec(s2, s) {
            s2
        } else {
            series_loop_spec(a, b, c, x, s2, u2, m, (fuel - 1) as nat)
        }
    }
}

/// What the power-series evaluator returns: +Infinity when |c| is below
/// 1e-13, else the fixed point of the summation, with at most 10001 rounds.
pub open spec fn series_spec(a: u64, b: u64, c: u64, x: u64) -> u64 {
    if fp_lt_spec(mag(c), EPS_BITS) {
        POS_INF_BITS
    } else {
        series_loop_spec(a, b, c, x, ONE_BITS, ONE_BITS, POS_ZERO_BITS, MAX_ROUNDS as nat)
    }
}

/// The parameters under which the series at x = +0.0 collapses to 1.0 after
/// its first round: a, b, c finite, c past the singularity guard, and the
/// product (a+0)(b+0) still finite, so that multiplying it by zero gives a
/// zero term.
pub open spec fn collapses_at_origin(a: u64, b: u64, c: u64) -> bool {
    &&& is_finite_bits(a)
    &&& is_finite_bits(b)
    &&& is_finite_bits(c)
    &&& !fp_lt_spec(mag(c), EPS_BITS)
    &&& is_finite_bits(mul_of(add_of(a, POS_ZERO_BITS), add_of(b, POS_ZERO_BITS)))
}

/// Direct power-series summation of 2F1(a,b,c;x), all four arguments and the
/// result IEEE-754 binary64 bit patterns.
///
/// Besides computing exactly the summation that `series_spec` states, the
/// contract carries the series' laws: the singularity guard reports
/// +Infinity whenever |c| < 1e-13; the sum at x = +0.0 is exactly 1.0
/// whenever the first term collapses; and a and b are interchangeable bit
/// for bit whenever both are finite, since only their product enters a term.
pub fn series(a: u64, b: u64, c: u64, x: u64) -> (r: u64)
    ensures
        r == series_spec(a, b, c, x),
        fp_lt_spec(mag(c), EPS_BITS) ==> r == POS_INF_BITS,
        x == POS_ZERO_BITS && collapses_at_origin(a, b, c) ==> r == ONE_BITS,
        is_finite_bits(a) && is_finite_bits(b) ==> r == series_spec(b, a, c, x),
{
    if fp_lt(fp_abs(c), EPS_BITS) {
        return POS_INF_BITS;
    }
    let mut s: u64 = ONE_BITS;
    let mut u: u64 = ONE_BITS;
    let mut k: u64 = POS_ZERO_BITS;
    let mut fuel: u64 = MAX_ROUNDS;
    proof {
        lemma_const_class();
    }
    loop
        invariant
            !fp_lt_spec(mag(c), EPS_BITS),
            fuel <= MAX_ROUNDS,
            !is_nan_bits(k),
            series_loop_spec(a, b, c, x, s, u, k, fuel as nat) == series_spec(a, b, c, x),
            is_finite_bits(a) && is_finite_bits(b) ==> series_loop_spec(
                b,
                a,
                c,
                x,
                s,
                u,
                k,
                fuel as nat,
            ) == series_spec(b, a, c, x),
            fuel == MAX_ROUNDS ==> (s == ONE_BITS && u == ONE_BITS && k == POS_ZERO_BITS),
            fuel < MAX_ROUNDS ==> !(x == POS_ZERO_BITS && collapses_at_origin(a, b, c)),
        decreases fuel,
    {
        if fuel == 0 {
            return NAN_BITS;
        }
        let m = fp_add(k, ONE_BITS);
        let ak = fp_add(a, k);
        let bk = fp_add(b, k);
        let p = fp_mul(ak, bk);
        let num = fp_mul(p, x);
        let ck = fp_add(c, k);
        let den = fp_mul(ck, m);
        let quot = fp_div(num, den);
        let u2 = fp_mul(u, quot);
        let s2 = fp_add(s, u2);
        proof {
            lemma_const_class();
            if is_finite_bits(a) && is_finite_bits(b) {
                // Only the product of (a+k) and (b+k) tells the two
                // parameter orders apart, and that product commutes.
                assert(!is_nan_bits(ak) && !is_nan_bits(bk));
                assert(mul_of(ak, bk) == mul_of(bk, ak));
            }
            if x == POS_ZERO_BITS && collapses_at_origin(a, b, c) && fuel == MAX_ROUNDS {
                // In the first round every factor of the term is pinned by
                // the identities of the trusted operations: the term is a
                // zero, the sum stays exactly 1.0, and the halting rule
                // fires.
                lemma_mag_idem(c);
                lemma_eps_class();
                assert(!is_zero_bits(c));
                assert(ak == add_of(a, POS_ZERO_BITS) && is_finite_bits(ak));
                assert(bk == add_of(b, POS_ZERO_BITS) && is_finite_bits(bk));
                assert(is_zero_bits(num));
                assert(m == ONE_BITS);
                assert(den == c);
                assert(is_zero_bits(quot));
                assert(is_zero_bits(u2));
                assert(s2 == ONE_BITS);
                assert(fp_eq_spec(s2, s));
            }
        }
        if fp_eq(s2, s) {
            return s2;
        }
        u = u2;
        s = s2;
        k = m;
        fuel = fuel - 1;
    }
}

} // verus!
