//! The 32-bit scalar facade against the native float operations.

use lanemath::fbits::{NEG_ONE_32, ONE_32, QNAN_32, ZERO_32};
use lanemath::scalar;

/// A spread of interesting 32-bit patterns: zeros, ones, subnormals,
/// ordinary values, huge values, infinities, and NaNs of both signs.
fn samples() -> Vec<f32> {
    vec![
        0.0,
        -0.0,
        1.0,
        -1.0,
        0.5,
        -0.5,
        2.0,
        -2.0,
        1.5,
        -1.5,
        0.1,
        -0.1,
        1.0e-3,
        -1.0e-3,
        1.0e-40,
        -1.0e-40,
        f32::MIN_POSITIVE,
        -f32::MIN_POSITIVE,
        1.0e-45,
        -1.0e-45,
        3.0e38,
        -3.0e38,
        f32::MAX,
        f32::MIN,
        1.0 + f32::EPSILON,
        1.0 - f32::EPSILON / 2.0,
        core::f32::consts::PI,
        -core::f32::consts::PI,
        f32::INFINITY,
        f32::NEG_INFINITY,
        f32::NAN,
        -f32::NAN,
    ]
}

#[test]
fn abs_matches_native() {
    for v in samples() {
        assert_eq!(scalar::abs(v.to_bits()), v.abs().to_bits(), "abs of {v:?}");
    }
}

#[test]
fn sign_tests_match_native() {
    for v in samples() {
        let b = v.to_bits();
        assert_eq!(scalar::is_sign_negative_f32(b), v.is_sign_negative());
        assert_eq!(scalar::is_sign_positive_f32(b), v.is_sign_positive());
        assert_eq!(scalar::is_nan(b), v.is_nan());
    }
}

#[test]
fn copysign_matches_native() {
    for v in samples() {
        for s in samples() {
            assert_eq!(
                scalar::copysign(v.to_bits(), s.to_bits()),
                v.copysign(s).to_bits(),
                "copysign of {v:?} {s:?}"
            );
        }
    }
}

#[test]
fn signum_of_zeros_and_nan() {
    assert_eq!(scalar::signum(0.0_f32.to_bits()), 1.0_f32.to_bits());
    assert_eq!(scalar::signum((-0.0_f32).to_bits()), (-1.0_f32).to_bits());
    assert!(f32::from_bits(scalar::signum(f32::NAN.to_bits())).is_nan());
}

#[test]
fn signum_matches_native() {
    for v in samples() {
        let r = scalar::signum(v.to_bits());
        if v.is_nan() {
            assert_eq!(r, QNAN_32);
        } else {
            assert_eq!(r, v.signum().to_bits(), "signum of {v:?}");
        }
    }
}

#[test]
fn comparisons_match_native() {
    for a in samples() {
        for b in samples() {
            let (ab, bb) = (a.to_bits(), b.to_bits());
            assert_eq!(scalar::lt(ab, bb), a < b, "lt of {a:?} {b:?}");
            assert_eq!(scalar::le(ab, bb), a <= b, "le of {a:?} {b:?}");
        }
    }
}

#[test]
fn min_max_match_native() {
    for a in samples() {
        for b in samples() {
            // The native minimum and maximum leave the choice between the
            // two zeros open; everywhere else they are pinned.
            if a == 0.0 && b == 0.0 {
                continue;
            }
            let (ab, bb) = (a.to_bits(), b.to_bits());
            let mn = f32::from_bits(scalar::min(ab, bb));
            let mx = f32::from_bits(scalar::max(ab, bb));
            if a.is_nan() && b.is_nan() {
                assert!(mn.is_nan());
                assert!(mx.is_nan());
            } else if a.is_nan() || b.is_nan() {
                assert_eq!(mn.to_bits(), a.min(b).to_bits());
                assert_eq!(mx.to_bits(), a.max(b).to_bits());
            } else {
                assert_eq!(mn, a.min(b), "min of {a:?} {b:?}");
                assert_eq!(mx, a.max(b), "max of {a:?} {b:?}");
            }
        }
    }
}

#[test]
fn min_max_of_signed_zeros_are_pinned() {
    let pz = 0.0_f32.to_bits();
    let nz = (-0.0_f32).to_bits();
    // The second operand wins a tie, so these four are fixed.
    assert_eq!(scalar::min(nz, pz), nz);
    assert_eq!(scalar::min(pz, nz), pz);
    assert_eq!(scalar::max(nz, pz), nz);
    assert_eq!(scalar::max(pz, nz), pz);
}

#[test]
fn clamp_matches_native() {
    for v in samples() {
        for lo in [-2.0_f32, -1.0, 0.0, 0.5] {
            for hi in [0.75_f32, 1.0, 3.0e38] {
                let r = scalar::clamp(v.to_bits(), lo.to_bits(), hi.to_bits());
                assert_eq!(r, v.clamp(lo, hi).to_bits(), "clamp of {v:?} in {lo:?}..{hi:?}");
            }
        }
    }
}

#[test]
fn sqrt_matches_native() {
    for v in samples() {
        let r = scalar::sqrt(v.to_bits());
        let n = v.sqrt();
        if n.is_nan() {
            assert_eq!(r, QNAN_32, "sqrt of {v:?}");
        } else {
            assert_eq!(r, n.to_bits(), "sqrt of {v:?}");
        }
    }
}

#[test]
fn rsqrt_matches_one_over_sqrt() {
    for v in samples() {
        let r = scalar::rsqrt(v.to_bits());
        let n = 1.0 / v.sqrt();
        if n.is_nan() {
            assert_eq!(r, QNAN_32, "rsqrt of {v:?}");
        } else {
            assert_eq!(r, n.to_bits(), "rsqrt of {v:?}");
        }
    }
}

#[test]
fn rsqrt_of_negative_zero_is_negative_infinity() {
    assert_eq!(
        scalar::rsqrt((-0.0_f32).to_bits()),
        f32::NEG_INFINITY.to_bits()
    );
}

#[test]
fn trig_matches_provider() {
    for v in samples() {
        let b = v.to_bits();
        if v.is_finite() {
            assert_eq!(scalar::sin(b), libm::sinf(v).to_bits(), "sin of {v:?}");
            assert_eq!(scalar::cos(b), libm::cosf(v).to_bits(), "cos of {v:?}");
        } else {
            assert_eq!(scalar::sin(b), QNAN_32);
            assert_eq!(scalar::cos(b), QNAN_32);
        }
    }
}

#[test]
fn sin_cos_halves_equal_the_single_calls() {
    // A fine sweep: the pair call must agree with the single calls bit for
    // bit, including across the argument-reduction thresholds.
    let mut x = -20.0_f32;
    while x < 20.0 {
        let (s, c) = scalar::sin_cos(x.to_bits());
        assert_eq!(s, scalar::sin(x.to_bits()), "sin half at {x:?}");
        assert_eq!(c, scalar::cos(x.to_bits()), "cos half at {x:?}");
        x += 0.037;
    }
    for v in [1.0e-9_f32, -1.0e-9, 1.0e-6, 7.0e-5, 1.0e3, -4.0e4] {
        let (s, c) = scalar::sin_cos(v.to_bits());
        assert_eq!(s, scalar::sin(v.to_bits()));
        assert_eq!(c, scalar::cos(v.to_bits()));
    }
}

#[test]
fn asin_matches_provider() {
    for v in samples() {
        let b = v.to_bits();
        if !v.is_nan() && v.abs() <= 1.0 {
            assert_eq!(scalar::asin(b), libm::asinf(v).to_bits(), "asin of {v:?}");
        } else {
            assert_eq!(scalar::asin(b), QNAN_32);
        }
    }
}

#[test]
fn atan2_matches_provider() {
    for y in samples() {
        for x in samples() {
            let r = scalar::atan2(y.to_bits(), x.to_bits());
            if y.is_nan() || x.is_nan() {
                assert_eq!(r, QNAN_32);
            } else {
                assert_eq!(r, libm::atan2f(y, x).to_bits(), "atan2 of {y:?} {x:?}");
            }
        }
    }
}

#[test]
fn acos_clamped_matches_provider() {
    for v in samples() {
        let r = scalar::acos_clamped(v.to_bits());
        if v.is_nan() {
            assert_eq!(r, QNAN_32);
        } else {
            let c = v.clamp(-1.0, 1.0);
            assert_eq!(r, libm::acosf(c).to_bits(), "acos_clamped of {v:?}");
        }
    }
}

/// The approximation recomputed with plain float arithmetic, term for
/// term.
fn acos_approx_reference(v: f32) -> f32 {
    let nonnegative = v >= 0.0;
    let x = v.abs();
    let mut omx = 1.0 - x;
    if omx < 0.0 {
        omx = 0.0;
    }
    let root = omx.sqrt();
    let mut result = ((((((-0.001_262_491_1 * x + 0.006_670_09) * x - 0.017_088_126) * x
        + 0.030_891_88)
        * x
        - 0.050_174_303)
        * x
        + 0.088_978_99)
        * x
        - 0.214_598_8)
        * x
        + 1.570_796_3;
    result *= root;
    if nonnegative {
        result
    } else {
        core::f32::consts::PI - result
    }
}

#[test]
fn acos_approx_matches_reference_bits() {
    let mut x = -1.25_f32;
    while x <= 1.25 {
        let r = scalar::acos_approx(x.to_bits());
        let n = acos_approx_reference(x);
        if n.is_nan() {
            assert_eq!(r, QNAN_32, "acos_approx of {x:?}");
        } else {
            assert_eq!(r, n.to_bits(), "acos_approx of {x:?}");
        }
        x += 0.000_83;
    }
    for v in samples() {
        let r = scalar::acos_approx(v.to_bits());
        let n = acos_approx_reference(v);
        if n.is_nan() {
            assert_eq!(r, QNAN_32, "acos_approx of {v:?}");
        } else {
            assert_eq!(r, n.to_bits(), "acos_approx of {v:?}");
        }
    }
}

#[test]
fn acos_approx_close_to_acos_clamped() {
    let mut x = -1.0_f32;
    while x <= 1.0 {
        let approx = f32::from_bits(scalar::acos_approx(x.to_bits()));
        let exact = f32::from_bits(scalar::acos_clamped(x.to_bits()));
        assert!(
            (approx - exact).abs() <= 1.0e-4,
            "approximation off at {x:?}: {approx:?} vs {exact:?}"
        );
        x += 0.000_61;
    }
}

#[test]
fn facade_constants_are_the_expected_patterns() {
    assert_eq!(ONE_32, 1.0_f32.to_bits());
    assert_eq!(NEG_ONE_32, (-1.0_f32).to_bits());
    assert_eq!(ZERO_32, 0.0_f32.to_bits());
    assert_eq!(lanemath::fbits::PI_32, core::f32::consts::PI.to_bits());
    assert_eq!(lanemath::fbits::TWO_32, 2.0_f32.to_bits());
    assert!(f32::from_bits(QNAN_32).is_nan());
}
