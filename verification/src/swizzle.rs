//! The permutation model of the swizzle subsystem.
//!
//! A swizzle is a pure selection: lane `i` of the result is lane `perm[i]`
//! of the source, the same bits, never a computed or rounded value.
//! Repeats and reorderings are both legal, and the padding lane of an
//! aligned three-vector is never selectable. The named swizzle methods on
//! [`Vec4A`] each realize one fixed permutation; the lemmas here state the
//! two algebraic laws every permutation obeys: selecting the lanes in their
//! original order returns the input bit for bit, and two swizzles in
//! sequence equal the one composed swizzle.

use vstd::prelude::*;
use crate::vec4::Vec4A;

verus! {

/// Lane `i` of a four-lane vector, counted `x, y, z, w`.
pub open spec fn lane4(v: Vec4A, i: int) -> u32 {
    if i == 0 {
        v.x
    } else if i == 1 {
        v.y
    } else if i == 2 {
        v.z
    } else {
        v.w
    }
}

/// The four-lane swizzle of `v` by the permutation `(i0, i1, i2, i3)`,
/// repeats allowed.
pub open spec fn swizzle4_s(v: Vec4A, i0: int, i1: int, i2: int, i3: int) -> Vec4A {
    Vec4A { x: lane4(v, i0), y: lane4(v, i1), z: lane4(v, i2), w: lane4(v, i3) }
}

/// Lane `i` of the permutation `(p0, p1, p2, p3)` itself.
pub open spec fn perm4_at(p0: int, p1: int, p2: int, p3: int, i: int) -> int {
    if i == 0 {
        p0
    } else if i == 1 {
        p1
    } else if i == 2 {
        p2
    } else {
        p3
    }
}

/// The identity swizzle returns its input bit for bit.
pub proof fn lemma_swizzle_identity(v: Vec4A)
    ensures
        swizzle4_s(v, 0, 1, 2, 3) == v,
{
}

/// Two swizzles in sequence equal the single composed swizzle: applying
/// the permutation `p` and then `q` selects, at each lane `i`, the source
/// lane `p[q[i]]`.
pub proof fn lemma_swizzle_compose(
    v: Vec4A,
    p0: int,
    p1: int,
    p2: int,
    p3: int,
    q0: int,
    q1: int,
    q2: int,
    q3: int,
)
    requires
        0 <= p0 < 4 && 0 <= p1 < 4 && 0 <= p2 < 4 && 0 <= p3 < 4,
        0 <= q0 < 4 && 0 <= q1 < 4 && 0 <= q2 < 4 && 0 <= q3 < 4,
    ensures
        swizzle4_s(swizzle4_s(v, p0, p1, p2, p3), q0, q1, q2, q3) == swizzle4_s(
            v,
            perm4_at(p0, p1, p2, p3, q0),
            perm4_at(p0, p1, p2, p3, q1),
            perm4_at(p0, p1, p2, p3, q2),
            perm4_at(p0, p1, p2, p3, q3),
        ),
{
}

} // verus!
