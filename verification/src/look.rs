//! Mouse look: integrating per-tick mouse motion into a yaw and a pitch
//! angle, with the pitch clamped so the view cannot flip over.

use vstd::prelude::*;
use crate::geom::abs_val;

verus! {

/// How far the pitch may tilt from the horizon, in microradians (about 88
/// degrees either way).
pub const PITCH_LIMIT_MICRORAD: i64 = 1_540_000;

/// Microradians of rotation per milli step of reported mouse motion: one
/// whole count of motion turns the view by a fiftieth of a radian.
pub const LOOK_SENSITIVITY: i64 = 20;

/// Largest per-tick mouse motion the integrator accepts, in milli steps.
pub const LOOK_DELTA_LIMIT_MILLI: i64 = 1_000_000_000_000;

/// Largest accumulated yaw magnitude the integrator accepts, in
/// microradians; far beyond any reachable spin, it only keeps the
/// arithmetic inside the machine word.
pub const YAW_ACCUM_LIMIT_MICRORAD: i64 = 0x3000_0000_0000_0000;

pub open spec fn clamp_val(x: int, lo: int, hi: int) -> int {
    if x < lo {
        lo
    } else if x > hi {
        hi
    } else {
        x
    }
}

/// The view angles accumulated from mouse motion, in microradians.
#[derive(Clone, Copy, PartialEq, Eq, Structural, Debug)]
pub struct MouseState {
    pub yaw: i64,
    pub pitch: i64,
}

impl MouseState {
    /// Starts level, looking along the initial heading.
    pub fn new() -> (s: MouseState)
        ensures
            s.yaw == 0,
            s.pitch == 0,
    {
        MouseState { yaw: 0, pitch: 0 }
    }

    /// Integrates one tick of mouse motion, given in milli steps of
    /// reported counts: motion to the right turns the yaw negative, motion
    /// downward tips the pitch negative, and the pitch is clamped to the
    /// tilt limit. Zero motion leaves the state unchanged.
    pub fn apply_look(&mut self, delta_x_milli: i64, delta_y_milli: i64)
        requires
            abs_val(old(self).yaw as int) <= YAW_ACCUM_LIMIT_MICRORAD,
            abs_val(old(self).pitch as int) <= PITCH_LIMIT_MICRORAD,
            abs_val(delta_x_milli as int) <= LOOK_DELTA_LIMIT_MILLI,
            abs_val(delta_y_milli as int) <= LOOK_DELTA_LIMIT_MILLI,
        ensures
            final(self).yaw == old(self).yaw - delta_x_milli * LOOK_SENSITIVITY,
            final(self).pitch == clamp_val(
                old(self).pitch - delta_y_milli * LOOK_SENSITIVITY,
                -PITCH_LIMIT_MICRORAD as int,
                PITCH_LIMIT_MICRORAD as int,
            ),
            abs_val(final(self).pitch as int) <= PITCH_LIMIT_MICRORAD,
    {
        self.yaw = self.yaw - delta_x_milli * LOOK_SENSITIVITY;
        let mut pitch = self.pitch - delta_y_milli * LOOK_SENSITIVITY;
        if pitch < -PITCH_LIMIT_MICRORAD {
            pitch = -PITCH_LIMIT_MICRORAD;
        }
        if pitch > PITCH_LIMIT_MICRORAD {
            pitch = PITCH_LIMIT_MICRORAD;
        }
        self.pitch = pitch;
    }
}

} // verus!
