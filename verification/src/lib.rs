//! Verified fixed-point models of the player-facing logic of a VR scene
//! viewer: continuous thumbstick locomotion with a dead-zone, a snap-turn
//! state machine with a hysteresis band, mouse-look integration with a pitch
//! clamp, keyboard movement composition, a scene-cycling button debounce, an
//! asset registry looked up by ordinal index, and the catalogue of logical
//! input actions.
//!
//! Analog readings and direction vectors are carried in thousandths of a
//! unit ("milli" values), world positions in billionths of a unit ("nano"
//! values), and angles in degrees or microradians, so that every formula is
//! exact integer arithmetic. The surrounding engine glue converts to and
//! from its own floating-point types at the boundary.

pub mod animation;
pub mod asset_handler;
pub mod bindings;
pub mod geom;
pub mod locomotion;
pub mod look;
pub mod scene_cycle;
pub mod turn;
