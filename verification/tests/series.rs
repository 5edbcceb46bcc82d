use saha_sinha_pi::series::{
    evaluate, factorial_with, pochhammer_with, series_term, should_stop, FloatOps, FOUR_BITS,
    ONE_BITS, TWO_BITS, ZERO_BITS,
};

struct Ieee;

impl FloatOps for Ieee {
    fn fadd(&self, x: u64, y: u64) -> u64 {
        (f64::from_bits(x) + f64::from_bits(y)).to_bits()
    }

    fn fsub(&self, x: u64, y: u64) -> u64 {
        (f64::from_bits(x) - f64::from_bits(y)).to_bits()
    }

    fn fmul(&self, x: u64, y: u64) -> u64 {
        (f64::from_bits(x) * f64::from_bits(y)).to_bits()
    }

    fn fdiv(&self, x: u64, y: u64) -> u64 {
        (f64::from_bits(x) / f64::from_bits(y)).to_bits()
    }

    fn powi(&self, x: u64, k: i32) -> u64 {
        f64::from_bits(x).powi(k).to_bits()
    }

    fn from_u32(&self, n: u32) -> u64 {
        (n as f64).to_bits()
    }
}

/// The series evaluated directly in double precision, term by term, as a
/// reference for the bit-pattern evaluator.
fn reference_pi(lambda: f64, max_terms: u32, eps: f64) -> (f64, u32) {
    let mut sum: f64 = 0.0;
    let mut used: u32 = 0;
    for n in 1..=max_terms {
        let nf: f64 = n as f64;
        let a: f64 = (1.0 / (nf + lambda)) - (4.0 / (2.0 * nf + 1.0));
        let b: f64 = ((2.0 * nf + 1.0).powi(2)) / (4.0 * (nf + lambda)) - nf;
        let poch: f64 = (0..n - 1).fold(1.0, |acc, k| acc * (b + k as f64));
        let fact: f64 = (1..=n).fold(1.0, |acc, k| acc * (k as f64));
        let term: f64 = (1.0 / fact) * a * poch;
        sum += term;
        used = n;
        if term.is_nan() || term.is_infinite() {
            break;
        }
        if term.abs() < eps {
            break;
        }
    }
    (4.0 + sum, used)
}

#[test]
fn constants_encode_the_right_doubles() {
    assert_eq!(ZERO_BITS, 0.0f64.to_bits());
    assert_eq!(ONE_BITS, 1.0f64.to_bits());
    assert_eq!(TWO_BITS, 2.0f64.to_bits());
    assert_eq!(FOUR_BITS, 4.0f64.to_bits());
}

#[test]
fn factorial_of_zero_is_one() {
    let ops = Ieee;
    assert_eq!(factorial_with(&ops, 0), 1.0f64.to_bits());
}

#[test]
fn factorial_of_five_is_120() {
    let ops = Ieee;
    assert_eq!(factorial_with(&ops, 5), 120.0f64.to_bits());
}

#[test]
fn pochhammer_empty_product_is_one() {
    let ops = Ieee;
    assert_eq!(pochhammer_with(&ops, 3.7f64.to_bits(), 0), 1.0f64.to_bits());
    assert_eq!(
        pochhammer_with(&ops, (-12.5f64).to_bits(), 0),
        1.0f64.to_bits()
    );
    assert_eq!(pochhammer_with(&ops, f64::NAN.to_bits(), 0), 1.0f64.to_bits());
}

#[test]
fn pochhammer_of_two_taken_three_times_is_24() {
    let ops = Ieee;
    assert_eq!(
        pochhammer_with(&ops, 2.0f64.to_bits(), 3),
        24.0f64.to_bits()
    );
}

#[test]
fn first_term_matches_the_formula() {
    let ops = Ieee;
    let lambda: f64 = 10.0;
    let expected: f64 = (1.0 / (1.0 + lambda)) - (4.0 / (2.0 * 1.0 + 1.0));
    assert_eq!(series_term(&ops, lambda.to_bits(), 1), expected.to_bits());
}

#[test]
fn default_lambda_converges_to_pi() {
    let ops = Ieee;
    let (approx_bits, used, _) = evaluate(&ops, 10.0f64.to_bits(), 60, 1e-16f64.to_bits());
    let approx = f64::from_bits(approx_bits);
    assert!((approx - std::f64::consts::PI).abs() < 1e-10);
    assert!(used <= 60);
    assert!(used >= 1);
}

#[test]
fn evaluator_matches_direct_double_evaluation() {
    let ops = Ieee;
    for lambda in [3.0f64, 5.0, 10.0, 20.0] {
        let (bits, used, _) = evaluate(&ops, lambda.to_bits(), 60, 1e-16f64.to_bits());
        let (expected, expected_used) = reference_pi(lambda, 60, 1e-16);
        assert_eq!(bits, expected.to_bits());
        assert_eq!(used, expected_used);
    }
}

#[test]
fn tighter_threshold_never_uses_fewer_terms() {
    let ops = Ieee;
    let lambda_bits = 10.0f64.to_bits();
    let (_, used_loose, _) = evaluate(&ops, lambda_bits, 60, 1e-4f64.to_bits());
    let (_, used_mid, _) = evaluate(&ops, lambda_bits, 60, 1e-8f64.to_bits());
    let (_, used_tight, _) = evaluate(&ops, lambda_bits, 60, 1e-16f64.to_bits());
    assert!(used_loose <= used_mid);
    assert!(used_mid <= used_tight);
}

#[test]
fn zero_term_budget_returns_four_and_zero() {
    let ops = Ieee;
    let (bits, used, _) = evaluate(&ops, 10.0f64.to_bits(), 0, 1e-16f64.to_bits());
    assert_eq!(f64::from_bits(bits), 4.0);
    assert_eq!(bits, 4.0f64.to_bits());
    assert_eq!(used, 0);
}

#[test]
fn evaluation_is_bit_identical_across_calls() {
    let ops = Ieee;
    for lambda in [3.0f64, 5.0, 10.0, 20.0] {
        let (bits_a, used_a, _) = evaluate(&ops, lambda.to_bits(), 60, 1e-16f64.to_bits());
        let (bits_b, used_b, _) = evaluate(&ops, lambda.to_bits(), 60, 1e-16f64.to_bits());
        assert_eq!(bits_a, bits_b);
        assert_eq!(used_a, used_b);
    }
}

#[test]
fn non_finite_term_truncates_silently() {
    // With a zero threshold no term magnitude is ever below it, so the run
    // continues until factorial overflow drives a term non-finite; the
    // non-finite term is still added, leaving a non-finite approximation.
    let ops = Ieee;
    let (bits, used, _) = evaluate(&ops, 10.0f64.to_bits(), 400, 0.0f64.to_bits());
    let (expected, expected_used) = reference_pi(10.0, 400, 0.0);
    assert_eq!(bits, expected.to_bits());
    assert_eq!(used, expected_used);
    assert_eq!(used, 180);
    assert!(f64::from_bits(bits).is_nan());
}

#[test]
fn stop_rule_matches_double_semantics() {
    let eps: f64 = 1e-16;
    let samples = [
        0.0f64,
        -0.0,
        1.0,
        -1.0,
        0.5e-16,
        -0.5e-16,
        2e-16,
        -2e-16,
        1e-16,
        f64::MIN_POSITIVE,
        5e-324,
        f64::MAX,
        f64::INFINITY,
        f64::NEG_INFINITY,
        f64::NAN,
    ];
    for t in samples {
        let expected = t.is_nan() || t.is_infinite() || t.abs() < eps;
        assert_eq!(should_stop(t.to_bits(), eps.to_bits()), expected);
    }
}
