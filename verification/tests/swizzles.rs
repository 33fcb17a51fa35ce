//! The swizzle subsystem: pure lane selection, bit for bit — checked with
//! lanes that are NaN payloads and signed zeros, which any arithmetic
//! would disturb.

use lanemath::vec4::Vec4A;

// Four distinguishable patterns, none of which survives arithmetic
// unchanged: two odd NaN payloads, a negative zero, and a subnormal.
const LX: u32 = 0x7FC1_2345;
const LY: u32 = 0xFF81_ABCD;
const LZ: u32 = 0x8000_0000;
const LW: u32 = 0x0000_0007;

fn sample() -> Vec4A {
    Vec4A::new(LX, LY, LZ, LW)
}

#[test]
fn identity_swizzle_is_bit_equal() {
    let v = sample();
    assert_eq!(v.xyzw(), v);
}

#[test]
fn two_lane_swizzles_select_exactly() {
    let v = sample();
    assert_eq!((v.xx().x, v.xx().y), (LX, LX));
    assert_eq!((v.xy().x, v.xy().y), (LX, LY));
    assert_eq!((v.wz().x, v.wz().y), (LW, LZ));
    assert_eq!((v.yw().x, v.yw().y), (LY, LW));
    assert_eq!((v.zz().x, v.zz().y), (LZ, LZ));
}

#[test]
fn three_lane_swizzles_select_exactly() {
    let v = sample();
    let a = v.xyz();
    assert_eq!((a.x, a.y, a.z), (LX, LY, LZ));
    let b = v.wwx();
    assert_eq!((b.x, b.y, b.z), (LW, LW, LX));
    let c = v.zyx();
    assert_eq!((c.x, c.y, c.z), (LZ, LY, LX));
}

#[test]
fn four_lane_swizzles_select_exactly() {
    let v = sample();
    let a = v.wzyx();
    assert_eq!((a.x, a.y, a.z, a.w), (LW, LZ, LY, LX));
    let b = v.yyww();
    assert_eq!((b.x, b.y, b.z, b.w), (LY, LY, LW, LW));
    let c = v.zxxw();
    assert_eq!((c.x, c.y, c.z, c.w), (LZ, LX, LX, LW));
}

#[test]
fn swizzles_compose() {
    let v = sample();
    // Rotating the lanes one step, four times over, is the identity.
    assert_eq!(v.yzwx().yzwx().yzwx().yzwx(), v);
    // Two steps of the rotation equal the half-turn swizzle.
    assert_eq!(v.yzwx().yzwx(), v.zwxy());
    // Reversing twice is the identity.
    assert_eq!(v.wzyx().wzyx(), v);
    // A repeat-heavy composition: selecting (y, y, w, w) after reversal.
    assert_eq!(v.wzyx().yyww(), v.zzxx());
}

#[test]
fn swizzles_move_bits_not_values() {
    // A swizzle of NaN payloads and signed zeros must carry the exact
    // patterns across; equality of float values would not see the
    // difference, so compare the raw lanes.
    let v = Vec4A::new(0x7FC0_0001, 0x7FC0_0002, 0x7FC0_0003, 0x7FC0_0004);
    let r = v.wxyz();
    assert_eq!(
        (r.x, r.y, r.z, r.w),
        (0x7FC0_0004, 0x7FC0_0001, 0x7FC0_0002, 0x7FC0_0003)
    );
}
