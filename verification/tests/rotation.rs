//! Quaternions and matrices: the Hamilton product, vector rotation, and
//! the required agreement between rotating by a quaternion and
//! transforming by its rotation matrix.

use lanemath::mat4::Mat4;
use lanemath::quat::Quat;
use lanemath::vec3::Vec3A;
use lanemath::vec4::Vec4A;

fn f(b: u32) -> f32 {
    f32::from_bits(b)
}

fn quat(x: f32, y: f32, z: f32, w: f32) -> Quat {
    Quat::from_xyzw(x.to_bits(), y.to_bits(), z.to_bits(), w.to_bits())
}

/// A unit quaternion for a rotation of `angle` radians about the given
/// (unit) axis.
fn quat_axis_angle(ax: f32, ay: f32, az: f32, angle: f32) -> Quat {
    let (s, c) = (angle * 0.5).sin_cos();
    quat(ax * s, ay * s, az * s, c)
}

#[test]
fn hamilton_product_of_the_basis() {
    // i * j = k.
    let i = quat(1.0, 0.0, 0.0, 0.0);
    let j = quat(0.0, 1.0, 0.0, 0.0);
    let k = i.mul_quat(j);
    assert_eq!((f(k.x), f(k.y), f(k.z), f(k.w)), (0.0, 0.0, 1.0, 0.0));
    // j * i = -k: not commutative.
    let k2 = j.mul_quat(i);
    assert_eq!((f(k2.x), f(k2.y), f(k2.z), f(k2.w)), (0.0, 0.0, -1.0, 0.0));
}

#[test]
fn hamilton_product_composes_rotations() {
    let a = quat_axis_angle(0.0, 0.0, 1.0, 0.7);
    let b = quat_axis_angle(0.0, 0.0, 1.0, 0.5);
    let ab = a.mul_quat(b);
    let direct = quat_axis_angle(0.0, 0.0, 1.0, 1.2);
    for (got, want) in [
        (f(ab.x), f(direct.x)),
        (f(ab.y), f(direct.y)),
        (f(ab.z), f(direct.z)),
        (f(ab.w), f(direct.w)),
    ] {
        assert!((got - want).abs() <= 1.0e-6, "{got:?} vs {want:?}");
    }
}

#[test]
fn rotation_about_z_turns_x_into_y() {
    let q = quat_axis_angle(0.0, 0.0, 1.0, core::f32::consts::FRAC_PI_2);
    let v = Vec3A::new(1.0_f32.to_bits(), 0.0_f32.to_bits(), 0.0_f32.to_bits());
    let r = q.rotate_vec3a(v);
    assert!((f(r.x) - 0.0).abs() <= 1.0e-6);
    assert!((f(r.y) - 1.0).abs() <= 1.0e-6);
    assert!((f(r.z) - 0.0).abs() <= 1.0e-6);
}

#[test]
fn quaternion_rotation_agrees_with_its_matrix() {
    let cases: [(f32, f32, f32, f32, (f32, f32, f32)); 4] = [
        (0.0, 0.0, 1.0, 0.9, (1.0, 2.0, 3.0)),
        (1.0, 0.0, 0.0, -1.3, (0.5, -0.25, 2.0)),
        (0.0, 1.0, 0.0, 2.6, (-3.0, 1.5, 0.125)),
        (0.577_350_3, 0.577_350_3, 0.577_350_3, 0.4, (1.0, -1.0, 2.0)),
    ];
    for (ax, ay, az, angle, (vx, vy, vz)) in cases {
        let q = quat_axis_angle(ax, ay, az, angle);
        let v = Vec3A::new(vx.to_bits(), vy.to_bits(), vz.to_bits());
        let by_quat = q.rotate_vec3a(v);
        let m = Mat4::from_quat(q);
        let by_mat = m.mul_vec4(Vec4A::new(
            vx.to_bits(),
            vy.to_bits(),
            vz.to_bits(),
            0.0_f32.to_bits(),
        ));
        for (got, want) in [
            (f(by_quat.x), f(by_mat.x)),
            (f(by_quat.y), f(by_mat.y)),
            (f(by_quat.z), f(by_mat.z)),
        ] {
            assert!(
                (got - want).abs() <= 1.0e-5,
                "rotation disagrees: {got:?} vs {want:?}"
            );
        }
    }
}

#[test]
fn identity_matrix_leaves_vectors_unchanged() {
    let m = Mat4::identity();
    let vectors: [(f32, f32, f32, f32); 3] = [
        (1.0, 2.0, 3.0, 4.0),
        (-0.5, 0.25, -1.0e10, 7.0e-5),
        (1.0e-40, -3.0e38, 0.125, -1.0),
    ];
    for (x, y, z, w) in vectors {
        let v = Vec4A::new(x.to_bits(), y.to_bits(), z.to_bits(), w.to_bits());
        let r = m.mul_vec4(v);
        assert_eq!(r, v, "identity transform changed ({x:?}, {y:?}, {z:?}, {w:?})");
    }
}

#[test]
fn identity_matrix_is_neutral_for_multiplication() {
    let q = quat_axis_angle(0.0, 1.0, 0.0, 0.8);
    let m = Mat4::from_quat(q);
    let left = Mat4::identity().mul_mat4(m);
    let right = m.mul_mat4(Mat4::identity());
    assert_eq!(left, m);
    assert_eq!(right, m);
}

#[test]
fn matrix_of_the_identity_quaternion_is_the_identity() {
    let m = Mat4::from_quat(Quat::identity());
    assert_eq!(m, Mat4::identity());
}

#[test]
fn matrix_product_composes_rotations() {
    let a = quat_axis_angle(0.0, 0.0, 1.0, 0.7);
    let b = quat_axis_angle(0.0, 0.0, 1.0, 0.5);
    let ma = Mat4::from_quat(a);
    let mb = Mat4::from_quat(b);
    let mab = ma.mul_mat4(mb);
    let direct = Mat4::from_quat(a.mul_quat(b));
    for (got, want) in [
        (mab.x_axis, direct.x_axis),
        (mab.y_axis, direct.y_axis),
        (mab.z_axis, direct.z_axis),
        (mab.w_axis, direct.w_axis),
    ] {
        for (g, w) in [
            (f(got.x), f(want.x)),
            (f(got.y), f(want.y)),
            (f(got.z), f(want.z)),
            (f(got.w), f(want.w)),
        ] {
            assert!((g - w).abs() <= 1.0e-5, "{g:?} vs {w:?}");
        }
    }
}
