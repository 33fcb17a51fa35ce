//! The fused-multiply-add-based arithmetic against the native operations:
//! each must match the plain hardware operation bit for bit wherever the
//! result is not a NaN, and return the canonical quiet NaN where it is.

use lanemath::arith;
use lanemath::fbits::QNAN_32;

fn samples() -> Vec<f32> {
    vec![
        0.0,
        -0.0,
        1.0,
        -1.0,
        0.5,
        -0.5,
        2.0,
        -2.0,
        1.5,
        -1.5,
        0.1,
        -0.1,
        3.25,
        -7.75,
        1.0e-3,
        -1.0e-3,
        1.0e-40,
        -1.0e-40,
        f32::MIN_POSITIVE,
        -f32::MIN_POSITIVE,
        1.0e-45,
        -1.0e-45,
        1.9e38,
        -1.9e38,
        f32::MAX,
        f32::MIN,
        1.0 + f32::EPSILON,
        1.0 - f32::EPSILON / 2.0,
        core::f32::consts::PI,
        -core::f32::consts::PI,
        f32::INFINITY,
        f32::NEG_INFINITY,
        f32::NAN,
        -f32::NAN,
    ]
}

fn check(ours: u32, native: f32, what: &str) {
    if native.is_nan() {
        assert_eq!(ours, QNAN_32, "{what}: expected the canonical NaN");
    } else {
        assert_eq!(ours, native.to_bits(), "{what}");
    }
}

#[test]
fn mul_matches_native() {
    for a in samples() {
        for b in samples() {
            check(
                arith::mul32(a.to_bits(), b.to_bits()),
                a * b,
                &format!("{a:?} * {b:?}"),
            );
        }
    }
}

#[test]
fn add_matches_native() {
    for a in samples() {
        for b in samples() {
            check(
                arith::add32(a.to_bits(), b.to_bits()),
                a + b,
                &format!("{a:?} + {b:?}"),
            );
        }
    }
}

#[test]
fn sub_matches_native() {
    for a in samples() {
        for b in samples() {
            check(
                arith::sub32(a.to_bits(), b.to_bits()),
                a - b,
                &format!("{a:?} - {b:?}"),
            );
        }
    }
}

#[test]
fn fma_matches_native() {
    for a in samples() {
        for b in samples() {
            for c in [0.0_f32, -0.0, 1.0, -2.5, 1.0e-40, f32::MAX, f32::INFINITY] {
                check(
                    arith::fma32(a.to_bits(), b.to_bits(), c.to_bits()),
                    a.mul_add(b, c),
                    &format!("fma of {a:?} {b:?} {c:?}"),
                );
            }
        }
    }
}

#[test]
fn canonical_sqrt_matches_native() {
    for a in samples() {
        check(arith::sqrt32(a.to_bits()), a.sqrt(), &format!("sqrt of {a:?}"));
    }
}

#[test]
fn signed_zero_results_keep_their_sign() {
    // Products and sums that come out as a zero must carry the IEEE sign.
    assert_eq!(arith::mul32(0.0_f32.to_bits(), (-2.0_f32).to_bits()), (-0.0_f32).to_bits());
    assert_eq!(arith::mul32((-0.0_f32).to_bits(), (-2.0_f32).to_bits()), 0.0_f32.to_bits());
    assert_eq!(
        arith::add32((-0.0_f32).to_bits(), (-0.0_f32).to_bits()),
        (-0.0_f32).to_bits()
    );
    assert_eq!(arith::add32((-0.0_f32).to_bits(), 0.0_f32.to_bits()), 0.0_f32.to_bits());
    assert_eq!(arith::sub32(0.0_f32.to_bits(), 0.0_f32.to_bits()), 0.0_f32.to_bits());
    assert_eq!(
        arith::sub32((-0.0_f32).to_bits(), 0.0_f32.to_bits()),
        (-0.0_f32).to_bits()
    );
    assert_eq!(arith::add32(1.0_f32.to_bits(), (-1.0_f32).to_bits()), 0.0_f32.to_bits());
}

#[test]
fn rounding_matches_native_on_a_dense_grid() {
    // Walk a band of consecutive patterns so that every rounding direction
    // is exercised against the hardware result.
    let base = 1.2345678_f32.to_bits();
    for i in 0..2000u32 {
        let a = f32::from_bits(base + i);
        let b = f32::from_bits(base + 3 * i + 11);
        check(
            arith::mul32(a.to_bits(), b.to_bits()),
            a * b,
            &format!("{a:?} * {b:?}"),
        );
        check(
            arith::add32(a.to_bits(), b.to_bits()),
            a + b,
            &format!("{a:?} + {b:?}"),
        );
        check(
            arith::sub32(a.to_bits(), b.to_bits()),
            a - b,
            &format!("{a:?} - {b:?}"),
        );
    }
}
