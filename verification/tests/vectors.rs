//! The vector operations: scenarios with exact expected bits, agreement
//! with plainly computed float references, and the tolerance properties of
//! length and normalization.

use lanemath::vec2::Vec2;
use lanemath::vec3::{Vec3, Vec3A};
use lanemath::vec4::Vec4A;

fn v3(x: f32, y: f32, z: f32) -> Vec3A {
    Vec3A::new(x.to_bits(), y.to_bits(), z.to_bits())
}

fn v2(x: f32, y: f32) -> Vec2 {
    Vec2::new(x.to_bits(), y.to_bits())
}

fn v4(x: f32, y: f32, z: f32, w: f32) -> Vec4A {
    Vec4A::new(x.to_bits(), y.to_bits(), z.to_bits(), w.to_bits())
}

fn f(b: u32) -> f32 {
    f32::from_bits(b)
}

#[test]
fn cross_of_the_unit_axes() {
    let r = v3(1.0, 0.0, 0.0).cross(v3(0.0, 1.0, 0.0));
    assert_eq!((f(r.x), f(r.y), f(r.z)), (0.0, 0.0, 1.0));
}

#[test]
fn cross_matches_reference() {
    let cases = [
        ((1.5, -2.0, 3.25), (-0.5, 4.0, 2.0)),
        ((0.1, 0.2, 0.3), (9.0, -8.0, 7.0)),
        ((1.0e10, -2.0e-10, 3.0), (4.0, 5.0e10, -6.0e-10)),
    ];
    for ((ax, ay, az), (bx, by, bz)) in cases {
        let r = v3(ax, ay, az).cross(v3(bx, by, bz));
        assert_eq!(f(r.x).to_bits(), (ay * bz - az * by).to_bits());
        assert_eq!(f(r.y).to_bits(), (az * bx - ax * bz).to_bits());
        assert_eq!(f(r.z).to_bits(), (ax * by - ay * bx).to_bits());
    }
}

#[test]
fn lerp_midpoint_of_a_square() {
    let r = v2(0.0, 0.0).lerp(v2(10.0, 10.0), 0.5_f32.to_bits());
    assert_eq!((f(r.x), f(r.y)), (5.0, 5.0));
}

#[test]
fn lerp_extrapolates_outside_the_unit_interval() {
    let r = v2(1.0, 2.0).lerp(v2(3.0, 4.0), 2.0_f32.to_bits());
    assert_eq!((f(r.x), f(r.y)), (5.0, 6.0));
    let r = v2(1.0, 2.0).lerp(v2(3.0, 4.0), (-1.0_f32).to_bits());
    assert_eq!((f(r.x), f(r.y)), (-1.0, 0.0));
}

#[test]
fn dot_matches_reference() {
    let a = v3(1.5, -2.0, 3.25);
    let b = v3(-0.5, 4.0, 2.0);
    let expected = (1.5_f32 * -0.5 + -2.0 * 4.0) + 3.25 * 2.0;
    assert_eq!(a.dot(b), expected.to_bits());

    let a4 = v4(1.5, -2.0, 3.25, 0.5);
    let b4 = v4(-0.5, 4.0, 2.0, 8.0);
    let expected4 = ((1.5_f32 * -0.5 + -2.0 * 4.0) + 3.25 * 2.0) + 0.5 * 8.0;
    assert_eq!(a4.dot(b4), expected4.to_bits());

    let a2 = v2(1.5, -2.0);
    let b2 = v2(-0.5, 4.0);
    assert_eq!(a2.dot(b2), (1.5_f32 * -0.5 + -2.0 * 4.0).to_bits());
}

#[test]
fn length_squared_agrees_with_dot() {
    for (x, y, z) in [(3.0, 4.0, 12.0), (0.1, 0.2, 0.3), (-5.0, 2.5, -1.25)] {
        let v = v3(x, y, z);
        let len = f(v.length());
        let dot = f(v.dot(v));
        assert!((len * len - dot).abs() <= 1.0e-3_f32.max(dot.abs() * 1.0e-6));
        assert_eq!(v.length_squared(), v.dot(v));
    }
}

#[test]
fn normalize_gives_unit_length() {
    for (x, y, z) in [(3.0, 4.0, 12.0), (0.001, -0.002, 0.004), (1.0e10, -2.0e10, 0.5e10)] {
        let n = v3(x, y, z).normalize();
        let len = (f(n.x) * f(n.x) + f(n.y) * f(n.y) + f(n.z) * f(n.z)).sqrt();
        assert!((len - 1.0).abs() <= 1.0e-5, "length {len:?} after normalizing");
    }
    let n2 = v2(-3.0, 4.0).normalize();
    let len2 = (f(n2.x) * f(n2.x) + f(n2.y) * f(n2.y)).sqrt();
    assert!((len2 - 1.0).abs() <= 1.0e-5);
}

#[test]
fn normalize_of_zero_degenerates_without_trapping() {
    let n = v3(0.0, 0.0, 0.0).normalize();
    assert!(f(n.x).is_nan() && f(n.y).is_nan() && f(n.z).is_nan());
}

#[test]
fn try_normalize_guards_the_degenerate_inputs() {
    assert!(v3(0.0, 0.0, 0.0).try_normalize().is_none());
    assert!(v3(f32::NAN, 1.0, 0.0).try_normalize().is_none());
    // Short enough that the squared length underflows to zero.
    assert!(v3(1.0e-30, 0.0, 0.0).try_normalize().is_none());
    // Long enough that the squared length overflows to infinity.
    assert!(v3(3.0e38, 3.0e38, 0.0).try_normalize().is_none());
    let some = v3(3.0, 4.0, 12.0).try_normalize().unwrap();
    let plain = v3(3.0, 4.0, 12.0).normalize();
    assert_eq!((some.x, some.y, some.z), (plain.x, plain.y, plain.z));

    assert!(v2(0.0, 0.0).try_normalize().is_none());
    assert!(v4(0.0, 0.0, 0.0, 0.0).try_normalize().is_none());
    assert!(v2(3.0, 4.0).try_normalize().is_some());
}

#[test]
fn min_max_clamp_lanewise() {
    let a = v3(1.0, -2.0, 5.0);
    let b = v3(0.5, 3.0, 5.0);
    let mn = a.min(b);
    let mx = a.max(b);
    assert_eq!((f(mn.x), f(mn.y), f(mn.z)), (0.5, -2.0, 5.0));
    assert_eq!((f(mx.x), f(mx.y), f(mx.z)), (1.0, 3.0, 5.0));
    let c = v3(2.0, -9.0, 0.25).clamp(v3(-1.0, -1.0, -1.0), v3(1.0, 1.0, 1.0));
    assert_eq!((f(c.x), f(c.y), f(c.z)), (1.0, -1.0, 0.25));

    let c4 = v4(2.0, -9.0, 0.25, 1.5).clamp(v4(-1.0, -1.0, -1.0, -1.0), v4(1.0, 1.0, 1.0, 1.0));
    assert_eq!((f(c4.x), f(c4.y), f(c4.z), f(c4.w)), (1.0, -1.0, 0.25, 1.0));

    let c2 = v2(2.0, -9.0).clamp(v2(-1.0, -1.0), v2(1.0, 1.0));
    assert_eq!((f(c2.x), f(c2.y)), (1.0, -1.0));
}

#[test]
fn packed_and_aligned_layouts_round_trip() {
    let p = Vec3::new(1.5_f32.to_bits(), f32::NAN.to_bits(), (-0.0_f32).to_bits());
    let a = p.to_aligned();
    let back = a.to_packed();
    assert_eq!(back, p);
    assert_eq!((a.x, a.y, a.z), (p.x, p.y, p.z));
}

#[test]
fn vector_arithmetic_matches_reference() {
    let a = v4(1.5, -2.0, 3.25, 0.5);
    let b = v4(-0.5, 4.0, 2.0, 8.0);
    let s = a.add(b);
    assert_eq!(
        (f(s.x), f(s.y), f(s.z), f(s.w)),
        (1.0, 2.0, 5.25, 8.5)
    );
    let d = a.sub(b);
    assert_eq!(
        (f(d.x), f(d.y), f(d.z), f(d.w)),
        (2.0, -6.0, 1.25, -7.5)
    );
    let m = a.scale(2.0_f32.to_bits());
    assert_eq!(
        (f(m.x), f(m.y), f(m.z), f(m.w)),
        (3.0, -4.0, 6.5, 1.0)
    );
}
