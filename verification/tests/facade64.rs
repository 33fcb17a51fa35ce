//! The 64-bit scalar facade against the native float operations.

use lanemath::fbits::{NEG_ONE_64, ONE_64, QNAN_64, ZERO_64};
use lanemath::scalar64;

fn samples() -> Vec<f64> {
    vec![
        0.0,
        -0.0,
        1.0,
        -1.0,
        0.5,
        -2.0,
        0.1,
        -0.1,
        1.0e-300,
        -1.0e-300,
        5.0e-324,
        -5.0e-324,
        f64::MIN_POSITIVE,
        1.0e300,
        -1.0e300,
        f64::MAX,
        f64::MIN,
        core::f64::consts::PI,
        -core::f64::consts::PI,
        f64::INFINITY,
        f64::NEG_INFINITY,
        f64::NAN,
        -f64::NAN,
    ]
}

#[test]
fn abs_and_signs_match_native() {
    for v in samples() {
        let b = v.to_bits();
        assert_eq!(scalar64::abs_f64(b), v.abs().to_bits(), "abs of {v:?}");
        assert_eq!(scalar64::is_sign_negative_f64(b), v.is_sign_negative());
        assert_eq!(scalar64::is_sign_positive_f64(b), v.is_sign_positive());
        assert_eq!(scalar64::is_nan_f64(b), v.is_nan());
    }
}

#[test]
fn copysign_matches_native_64() {
    for v in samples() {
        for s in samples() {
            assert_eq!(
                scalar64::copysign_f64(v.to_bits(), s.to_bits()),
                v.copysign(s).to_bits(),
                "copysign of {v:?} {s:?}"
            );
        }
    }
}

#[test]
fn signum_matches_native_64() {
    assert_eq!(scalar64::signum_f64(0.0_f64.to_bits()), 1.0_f64.to_bits());
    assert_eq!(scalar64::signum_f64((-0.0_f64).to_bits()), (-1.0_f64).to_bits());
    assert!(f64::from_bits(scalar64::signum_f64(f64::NAN.to_bits())).is_nan());
    for v in samples() {
        let r = scalar64::signum_f64(v.to_bits());
        if v.is_nan() {
            assert_eq!(r, QNAN_64);
        } else {
            assert_eq!(r, v.signum().to_bits(), "signum of {v:?}");
        }
    }
}

#[test]
fn sqrt_and_rsqrt_match_native_64() {
    for v in samples() {
        let r = scalar64::sqrt_f64(v.to_bits());
        let n = v.sqrt();
        if n.is_nan() {
            assert_eq!(r, QNAN_64, "sqrt of {v:?}");
        } else {
            assert_eq!(r, n.to_bits(), "sqrt of {v:?}");
        }
        let rr = scalar64::rsqrt_f64(v.to_bits());
        let nn = 1.0 / v.sqrt();
        if nn.is_nan() {
            assert_eq!(rr, QNAN_64, "rsqrt of {v:?}");
        } else {
            assert_eq!(rr, nn.to_bits(), "rsqrt of {v:?}");
        }
    }
}

#[test]
fn trig_matches_provider_64() {
    for v in samples() {
        let b = v.to_bits();
        if v.is_finite() {
            assert_eq!(scalar64::sin_f64(b), libm::sin(v).to_bits(), "sin of {v:?}");
            assert_eq!(scalar64::cos_f64(b), libm::cos(v).to_bits(), "cos of {v:?}");
            let (s, c) = scalar64::sin_cos_f64(b);
            let (ls, lc) = libm::sincos(v);
            assert_eq!((s, c), (ls.to_bits(), lc.to_bits()));
        } else {
            assert_eq!(scalar64::sin_f64(b), QNAN_64);
            assert_eq!(scalar64::cos_f64(b), QNAN_64);
            assert_eq!(scalar64::sin_cos_f64(b), (QNAN_64, QNAN_64));
        }
    }
}

#[test]
fn sin_cos_pair_close_to_single_calls_64() {
    // The pair call may reduce very small arguments differently from the
    // single calls, so the agreement here is numerical, not bitwise.
    let mut x = -8.0_f64;
    while x < 8.0 {
        let (s, c) = scalar64::sin_cos_f64(x.to_bits());
        assert!((f64::from_bits(s) - libm::sin(x)).abs() <= 1.0e-15);
        assert!((f64::from_bits(c) - libm::cos(x)).abs() <= 1.0e-15);
        x += 0.043;
    }
}

#[test]
fn asin_acos_atan2_match_provider_64() {
    for v in samples() {
        let b = v.to_bits();
        if !v.is_nan() && v.abs() <= 1.0 {
            assert_eq!(scalar64::asin_f64(b), libm::asin(v).to_bits());
        } else {
            assert_eq!(scalar64::asin_f64(b), QNAN_64);
        }
        let r = scalar64::acos_clamped_f64(b);
        if v.is_nan() {
            assert_eq!(r, QNAN_64);
        } else {
            assert_eq!(r, libm::acos(v.clamp(-1.0, 1.0)).to_bits());
        }
    }
    for y in [0.0_f64, -0.0, 1.0, -2.0, f64::INFINITY] {
        for x in [0.0_f64, -0.0, 3.0, -1.0, f64::NEG_INFINITY] {
            assert_eq!(
                scalar64::atan2_f64(y.to_bits(), x.to_bits()),
                libm::atan2(y, x).to_bits(),
                "atan2 of {y:?} {x:?}"
            );
        }
    }
}

#[test]
fn clamp_and_lt_match_native_64() {
    for v in samples() {
        for w in samples() {
            assert_eq!(scalar64::lt_f64(v.to_bits(), w.to_bits()), v < w, "lt of {v:?} {w:?}");
        }
        let r = scalar64::clamp_f64(v.to_bits(), (-1.0_f64).to_bits(), 1.0_f64.to_bits());
        assert_eq!(r, v.clamp(-1.0, 1.0).to_bits(), "clamp of {v:?}");
    }
}

#[test]
fn facade_constants_are_the_expected_patterns_64() {
    assert_eq!(ONE_64, 1.0_f64.to_bits());
    assert_eq!(NEG_ONE_64, (-1.0_f64).to_bits());
    assert_eq!(ZERO_64, 0.0_f64.to_bits());
    assert!(f64::from_bits(QNAN_64).is_nan());
}
