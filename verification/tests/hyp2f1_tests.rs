use hyp2f1::{abr_ste_15_3_6, hyp2f1, series, thresh_factor, threshold};
use hyp2f1::{NAN_BITS, ONE_BITS, POS_INF_BITS};

fn b(x: f64) -> u64 {
    x.to_bits()
}

fn f(r: u64) -> f64 {
    f64::from_bits(r)
}

#[test]
fn unit_argument_is_exactly_one() {
    let params = [(2.0, 3.0, 5.0), (1.5, 0.25, 2.1), (0.3, 0.7, 1.1), (-3.0, 2.0, 4.5)];
    for (a, bb, c) in params {
        assert_eq!(series(b(a), b(bb), b(c), b(0.0)), ONE_BITS);
        assert_eq!(hyp2f1(b(a), b(bb), b(c), b(0.0)), ONE_BITS);
    }
}

#[test]
fn series_parameters_commute() {
    let cases = [
        (2.0, 3.0, 5.0, 0.9),
        (1.5, 0.25, 2.1, 0.5),
        (0.3, 0.7, 1.1, 0.25),
        (7.25, 0.125, 9.5, 0.75),
    ];
    for (a, bb, c, x) in cases {
        assert_eq!(series(b(a), b(bb), b(c), b(x)), series(b(bb), b(a), b(c), b(x)));
    }
}

#[test]
fn hyp2f1_parameters_commute_on_series_side() {
    // Both parameter orders put x = 0.9 below the fitted threshold, so both
    // dispatch to the series, which is symmetric bit for bit.
    assert_eq!(
        hyp2f1(b(2.0), b(3.0), b(5.0), b(0.9)),
        hyp2f1(b(3.0), b(2.0), b(5.0), b(0.9))
    );
}

#[test]
fn tiny_c_reports_infinity() {
    for c in [0.0, -0.0, 1e-14, -5e-14, 9.9e-14] {
        assert_eq!(series(b(2.0), b(3.0), b(c), b(0.5)), POS_INF_BITS);
        assert_eq!(series(b(-1.0), b(0.0), b(c), b(0.99)), POS_INF_BITS);
    }
}

#[test]
fn divergence_reports_nan() {
    // At x = 1 with a = b = c = 1 every term is 1, the sum never settles
    // within the round cap, and the evaluator gives up.
    assert_eq!(series(b(1.0), b(1.0), b(1.0), b(1.0)), NAN_BITS);
}

#[test]
fn threshold_matches_fit() {
    assert_eq!(thresh_factor(b(2.0)), 0x3F92_DFBC_E120_7B48);
    assert_eq!(threshold(b(2.0), b(3.0), b(5.0)), 0x3FED_0C21_4137_D17D);
}

#[test]
fn factor_default_segment() {
    // v = -60 normalizes to z = -2/3, below every breakpoint: the default
    // quadruple with z unrebased.
    assert_eq!(thresh_factor(b(-60.0)), 0x3F85_6A83_A037_A25C);
}

#[test]
fn factor_folds_below_half_span() {
    // v = -80 lies below -75 and folds to -150 - v = -70.
    assert_eq!(thresh_factor(b(-80.0)), thresh_factor(b(-70.0)));
}

#[test]
fn threshold_is_deterministic() {
    let t1 = threshold(b(1.5), b(0.25), b(2.1));
    let v = hyp2f1(b(1.5), b(0.25), b(2.1), b(0.5));
    let t2 = threshold(b(1.5), b(0.25), b(2.1));
    assert_eq!(t1, t2);
    let v2 = hyp2f1(b(1.5), b(0.25), b(2.1), b(0.5));
    assert_eq!(v, v2);
}

#[test]
fn matches_closed_form_log() {
    // 2F1(1,1;2;x) = -ln(1-x)/x on (0,1).
    for i in 1..10 {
        let x = i as f64 / 10.0;
        let got = f(hyp2f1(b(1.0), b(1.0), b(2.0), b(x)));
        let want = -(1.0 - x).ln() / x;
        assert!((got - want).abs() / want.abs() < 1e-9, "x={x} got={got} want={want}");
    }
}

#[test]
fn evaluators_agree_near_crossover() {
    let (a, bb, c) = (b(1.0), b(1.0), b(2.5));
    let t = f(threshold(a, bb, c));
    for x in [t - 1e-4, t + 1e-4] {
        let s = f(series(a, bb, c, b(x)));
        let k = f(abr_ste_15_3_6(a, bb, c, b(x)));
        assert!((s - k).abs() / k.abs() < 1e-8, "x={x} series={s} continuation={k}");
    }
}

#[test]
fn known_value_at_nine_tenths() {
    // 2F1(2,3;5;0.9) against a reference summed in exact rational arithmetic.
    let got = f(hyp2f1(b(2.0), b(3.0), b(5.0), b(0.9)));
    let want = 8.561538392187561;
    assert!((got - want).abs() / want < 1e-10, "got={got}");
}

#[test]
fn geometric_series_at_half() {
    // 2F1(1,1;1;x) is the geometric series: 1/(1-x), exactly 2 at one half.
    let got = f(series(b(1.0), b(1.0), b(1.0), b(0.5)));
    assert!((got - 2.0).abs() < 1e-12, "got={got}");
}

#[test]
fn continuation_agrees_with_series_inside_disc() {
    // Far from the crossover both evaluators still approximate the same
    // function; this exercises the Gamma and power steps of the
    // continuation.
    let (a, bb, c) = (b(1.0), b(1.0), b(2.5));
    let s = f(series(a, bb, c, b(0.95)));
    let k = f(abr_ste_15_3_6(a, bb, c, b(0.95)));
    assert!((s - k).abs() / k.abs() < 1e-8, "series={s} continuation={k}");
}

#[test]
fn negative_x_is_evaluated_as_given() {
    // Arguments outside [0,1) are not rejected; the alternating series at
    // x = -0.5 still reaches its fixed point.
    assert_eq!(series(b(2.0), b(3.0), b(5.0), b(-0.5)), 0x3FE3_4A1C_E09B_8E15);
}

#[test]
fn nonpositive_integer_a_terminates_series() {
    // a = -3 zeroes the running term after three rounds: 2F1 degenerates to
    // a cubic polynomial in x.
    assert_eq!(series(b(-3.0), b(2.0), b(4.5), b(0.25)), 0x3FE6_B699_F542_3CDE);
}

#[test]
fn dispatcher_takes_continuation_above_threshold() {
    // x = 0.95 lies above the fitted crossover for (1,1,2.5), so the
    // dispatcher and the continuation agree exactly, and both sit close to
    // a reference summed in exact rational arithmetic.
    let (a, bb, c) = (b(1.0), b(1.0), b(2.5));
    assert_eq!(hyp2f1(a, bb, c, b(0.95)), abr_ste_15_3_6(a, bb, c, b(0.95)));
    let got = f(hyp2f1(a, bb, c, b(0.95)));
    let want = 2.1832766255966387;
    assert!((got - want).abs() / want < 1e-10, "got={got}");
}
