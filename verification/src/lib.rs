//! Core logic of a small interactive 3D-dice demo.
//!
//! A die entity either spins continuously, or — when a mouse ray hits its
//! bounding sphere — tumbles with a decelerating roll for a fixed duration.
//! The host engine owns rendering, input polling and the frame loop; this
//! crate holds the per-frame decisions: the ray–sphere hit test, the roll
//! state machine, and the rotation deltas to apply each frame.
//!
//! All quantities are fixed-point integers so that every step is exact:
//! positions and radii in thousandths of a world unit (milli-units), time in
//! milliseconds, angular speed in thousandths of a radian per second, and
//! rotation angles in ten-millionths of a radian.

pub mod arith;
pub mod faces;
pub mod geom;
pub mod input;
pub mod roll;
pub mod scene;
pub mod spin;
