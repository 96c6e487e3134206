//! Fixed-point scalar and vector types shared by the locomotion modules.

use vstd::prelude::*;

verus! {

/// One whole unit expressed in milli steps: analog stick components and
/// direction-vector components range over `[-MILLI_ONE, MILLI_ONE]`.
pub const MILLI_ONE: i64 = 1000;

/// An analog two-vector read from a stick, in thousandths of full
/// deflection; each component lies in `[-1000, 1000]`.
#[derive(Clone, Copy, PartialEq, Eq, Structural, Debug)]
pub struct StickInput {
    pub x: i64,
    pub y: i64,
}

/// A direction in space, in thousandths of a unit; a unit direction has
/// components in `[-1000, 1000]`.
#[derive(Clone, Copy, PartialEq, Eq, Structural, Debug)]
pub struct Vec3Milli {
    pub x: i64,
    pub y: i64,
    pub z: i64,
}

/// A position or translation in space, in billionths of a scene unit.
#[derive(Clone, Copy, PartialEq, Eq, Structural, Debug)]
pub struct Vec3Nano {
    pub x: i64,
    pub y: i64,
    pub z: i64,
}

pub open spec fn abs_val(x: int) -> int {
    if x < 0 {
        -x
    } else {
        x
    }
}

/// Both components of the stick reading lie within full deflection.
pub open spec fn stick_in_range(v: StickInput) -> bool {
    abs_val(v.x as int) <= MILLI_ONE && abs_val(v.y as int) <= MILLI_ONE
}

/// Squared length of a stick reading, in squared milli steps.
pub open spec fn stick_len_sq(v: StickInput) -> int {
    v.x * v.x + v.y * v.y
}

/// All components of a direction lie within one unit.
pub open spec fn dir_in_range(d: Vec3Milli) -> bool {
    abs_val(d.x as int) <= MILLI_ONE && abs_val(d.y as int) <= MILLI_ONE && abs_val(d.z as int)
        <= MILLI_ONE
}

/// Squared length of a stick reading; used for the locomotion dead-zone.
pub fn stick_magnitude_sq(v: StickInput) -> (r: i64)
    requires
        stick_in_range(v),
    ensures
        r == stick_len_sq(v),
{
    proof {
        assert(v.x * v.x <= MILLI_ONE * MILLI_ONE && v.x * v.x >= 0) by (nonlinear_arith)
            requires
                abs_val(v.x as int) <= MILLI_ONE,
        ;
        assert(v.y * v.y <= MILLI_ONE * MILLI_ONE && v.y * v.y >= 0) by (nonlinear_arith)
            requires
                abs_val(v.y as int) <= MILLI_ONE,
        ;
    }
    v.x * v.x + v.y * v.y
}

} // verus!
