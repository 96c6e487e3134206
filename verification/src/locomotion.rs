//! Continuous locomotion: per-tick translation of the tracked root from an
//! analog stick reading and the current forward/right basis, with a
//! dead-zone, and the composition of a movement direction from keyboard
//! state.

use vstd::prelude::*;
use crate::geom::MILLI_ONE;
use crate::geom::StickInput;
use crate::geom::Vec3Milli;
use crate::geom::Vec3Nano;
use crate::geom::abs_val;
use crate::geom::dir_in_range;
use crate::geom::stick_in_range;
use crate::geom::stick_len_sq;
use crate::geom::stick_magnitude_sq;

verus! {

/// Squared dead-zone radius in squared milli steps: readings with
/// `|v|^2 <= 0.05` square units are treated as stick noise at rest.
pub const DEAD_ZONE_SQ_MILLI: i64 = 50_000;

/// Movement speed: nano units of translation contributed per milli step of
/// stick deflection times milli step of basis direction, per tick. The
/// value 10 makes a full deflection along a unit axis advance the root by
/// one hundredth of a scene unit each tick.
pub const SPEED_NANO: i64 = 10;

/// World positions the mover accepts; leaves ample headroom above the
/// largest per-tick translation delta.
pub const POS_LIMIT_NANO: i64 = 0x4000_0000_0000_0000;

/// The reading lies in the dead-zone, where locomotion must not move the
/// root at all.
pub open spec fn in_dead_zone(v: StickInput) -> bool {
    stick_len_sq(v) <= DEAD_ZONE_SQ_MILLI
}

pub open spec fn pos_in_bounds(p: Vec3Nano) -> bool {
    abs_val(p.x as int) <= POS_LIMIT_NANO && abs_val(p.y as int) <= POS_LIMIT_NANO && abs_val(
        p.z as int,
    ) <= POS_LIMIT_NANO
}

/// One component of the translation delta applied outside the dead-zone:
/// the forward basis scaled by the stick's y deflection plus the right
/// basis scaled by the stick's x deflection, both at the fixed speed.
pub open spec fn move_delta(f_c: int, r_c: int, v: StickInput) -> int {
    f_c * v.y * SPEED_NANO + r_c * v.x * SPEED_NANO
}

/// One summand of the delta formula, with its overflow bound.
fn scaled_term(d: i64, s: i64) -> (r: i64)
    requires
        abs_val(d as int) <= MILLI_ONE,
        abs_val(s as int) <= MILLI_ONE,
    ensures
        r == d * s * SPEED_NANO,
        abs_val(r as int) <= MILLI_ONE * MILLI_ONE * SPEED_NANO,
{
    proof {
        assert(-(MILLI_ONE * MILLI_ONE) <= d * s <= MILLI_ONE * MILLI_ONE) by (nonlinear_arith)
            requires
                abs_val(d as int) <= MILLI_ONE,
                abs_val(s as int) <= MILLI_ONE,
        ;
    }
    d * s * SPEED_NANO
}

/// Continuous locomotion for one tick: below the dead-zone the root is left
/// untouched, above it the root is translated by exactly
/// `forward * v.y * SPEED_NANO + right * v.x * SPEED_NANO`. The caller
/// supplies `forward` and `right` as the images of the canonical -Z and +X
/// axes under the orientation current at this tick.
pub fn continuous_move(root: &mut Vec3Nano, v: StickInput, forward: Vec3Milli, right: Vec3Milli)
    requires
        stick_in_range(v),
        dir_in_range(forward),
        dir_in_range(right),
        pos_in_bounds(*old(root)),
    ensures
        in_dead_zone(v) ==> *final(root) == *old(root),
        !in_dead_zone(v) ==> final(root).x == old(root).x + move_delta(
            forward.x as int,
            right.x as int,
            v,
        ),
        !in_dead_zone(v) ==> final(root).y == old(root).y + move_delta(
            forward.y as int,
            right.y as int,
            v,
        ),
        !in_dead_zone(v) ==> final(root).z == old(root).z + move_delta(
            forward.z as int,
            right.z as int,
            v,
        ),
{
    let mag_sq = stick_magnitude_sq(v);
    if mag_sq > DEAD_ZONE_SQ_MILLI {
        let dx = scaled_term(forward.x, v.y) + scaled_term(right.x, v.x);
        let dy = scaled_term(forward.y, v.y) + scaled_term(right.y, v.x);
        let dz = scaled_term(forward.z, v.y) + scaled_term(right.z, v.x);
        root.x = root.x + dx;
        root.y = root.y + dy;
        root.z = root.z + dz;
    }
}

/// The keyboard state read once per tick; each flag is one held key.
#[derive(Clone, Copy, PartialEq, Eq, Structural, Debug)]
pub struct KeyboardMove {
    pub left: bool,
    pub right: bool,
    pub forward: bool,
    pub backward: bool,
    pub up: bool,
    pub down: bool,
}

impl KeyboardMove {
    /// Some key of the movement set is held.
    pub open spec fn any(self) -> bool {
        self.left || self.right || self.forward || self.backward || self.up || self.down
    }
}

/// Composes the planar direction (to be turned into the view's frame) and
/// the vertical direction (applied as-is) from the held keys, one unit per
/// axis, opposite keys cancelling; also reports whether any key is held.
pub fn keyboard_direction(k: KeyboardMove) -> (r: (Vec3Milli, Vec3Milli, bool))
    ensures
        r.0.x == (if k.right {
            MILLI_ONE as int
        } else {
            0int
        }) - (if k.left {
            MILLI_ONE as int
        } else {
            0int
        }),
        r.0.y == 0,
        r.0.z == (if k.backward {
            MILLI_ONE as int
        } else {
            0int
        }) - (if k.forward {
            MILLI_ONE as int
        } else {
            0int
        }),
        r.1.x == 0,
        r.1.y == (if k.up {
            MILLI_ONE as int
        } else {
            0int
        }) - (if k.down {
            MILLI_ONE as int
        } else {
            0int
        }),
        r.1.z == 0,
        r.2 == k.any(),
        dir_in_range(r.0),
        dir_in_range(r.1),
{
    let mut planar = Vec3Milli { x: 0, y: 0, z: 0 };
    let mut vertical = Vec3Milli { x: 0, y: 0, z: 0 };
    let mut moved = false;
    if k.left {
        planar.x = planar.x - MILLI_ONE;
        moved = true;
    }
    if k.right {
        planar.x = planar.x + MILLI_ONE;
        moved = true;
    }
    if k.forward {
        planar.z = planar.z - MILLI_ONE;
        moved = true;
    }
    if k.backward {
        planar.z = planar.z + MILLI_ONE;
        moved = true;
    }
    if k.up {
        vertical.y = vertical.y + MILLI_ONE;
        moved = true;
    }
    if k.down {
        vertical.y = vertical.y - MILLI_ONE;
        moved = true;
    }
    (planar, vertical, moved)
}

} // verus!
