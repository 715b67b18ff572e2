//! The timed-roll animation: a die is idle until a hit starts a roll, tumbles
//! with linearly decreasing angular speed, and stops after a fixed duration.
//!
//! Time is counted in milliseconds, angular speed in thousandths of a radian
//! per second (millirad/s), and per-frame rotation angles in units of
//! `ANGLE_UNITS_PER_RAD` per radian, so that each speed and delta below is an
//! exact integer.

use vstd::prelude::*;

verus! {

use crate::arith::lemma_mul_bound;
use vstd::arithmetic::div_mod::lemma_div_is_ordered;
use vstd::arithmetic::div_mod::lemma_div_by_multiple;
use vstd::arithmetic::div_mod::lemma_div_plus_one;

/// Fixed-point rotation units per radian.
pub const ANGLE_UNITS_PER_RAD: u64 = 10_000_000;

/// Angular speed at the start of a roll, in millirad/s (15 rad/s).
pub const BASE_SPEED_MILLIRAD: u64 = 15_000;

/// How much of the base speed is lost over a full roll, in millirad/s:
/// the speed decreases linearly to 15 % of its base value (2.25 rad/s).
pub const SPEED_DROP_MILLIRAD: u64 = 12_750;

/// Roll duration of the demo die, in milliseconds (1.5 s).
pub const DEFAULT_DURATION_MS: u64 = 1500;

/// Largest accepted roll duration, in milliseconds (one day); it keeps the
/// speed and delta arithmetic inside `u64`.
pub const MAX_DURATION_MS: u64 = 86_400_000;

/// Per-frame rotation to apply about each local axis, in fixed-point angle
/// units (`ANGLE_UNITS_PER_RAD` per radian), composed in the order X, Y, Z.
#[derive(Clone, Copy, PartialEq, Eq, Structural, Debug)]
pub struct RotationDelta {
    pub x_units: u64,
    pub y_units: u64,
    pub z_units: u64,
}

/// Animation state of one die: `Idle` (`is_rolling == false`) or `Rolling`.
#[derive(Clone, Copy, PartialEq, Eq, Structural, Debug)]
pub struct RollState {
    pub is_rolling: bool,
    pub elapsed_ms: u64,
    pub duration_ms: u64,
}

/// Angular speed while rolling, in millirad/s: the fixed-point form of
/// `15 * (1 - 0.85 * elapsed / duration)` rad/s.
pub open spec fn speed_millirad_spec(elapsed: int, duration: int) -> int
    recommends
        0 < duration,
        0 <= elapsed <= duration,
{
    (BASE_SPEED_MILLIRAD * duration - SPEED_DROP_MILLIRAD * elapsed) / duration
}

/// The rotation applied over a frame of `dt` milliseconds at `speed`
/// millirad/s: about X by `speed * dt`, about Y by 0.7 of that, about Z by
/// 0.3 of that. One millirad/s over one millisecond is a microradian, i.e.
/// ten angle units, so the three deltas are `10`, `7` and `3` times
/// `speed * dt`.
pub open spec fn roll_delta_spec(speed: int, dt: int) -> RotationDelta
    recommends
        0 <= speed,
        0 <= dt,
        10 * speed * dt <= u64::MAX,
{
    RotationDelta {
        x_units: (10 * speed * dt) as u64,
        y_units: (7 * speed * dt) as u64,
        z_units: (3 * speed * dt) as u64,
    }
}

impl RollState {
    /// Well-formedness, maintained by every method: an idle die has no
    /// elapsed time, a rolling die has not yet reached its duration, and the
    /// duration is a positive bounded constant.
    pub open spec fn wf(self) -> bool {
        &&& 0 < self.duration_ms <= MAX_DURATION_MS
        &&& !self.is_rolling ==> self.elapsed_ms == 0
        &&& self.is_rolling ==> self.elapsed_ms < self.duration_ms
    }

    /// A fresh idle die with the given roll duration.
    pub fn new(duration_ms: u64) -> (s: Self)
        requires
            0 < duration_ms <= MAX_DURATION_MS,
        ensures
            s.wf(),
            !s.is_rolling,
            s.elapsed_ms == 0,
            s.duration_ms == duration_ms,
    {
        RollState { is_rolling: false, elapsed_ms: 0, duration_ms }
    }

    /// Reaction to a hit on the die's bounding sphere: an idle die starts
    /// rolling from zero elapsed time; a die already rolling is left exactly
    /// as it is — in particular its elapsed time is not reset.
    pub fn register_hit(&mut self) -> (started: bool)
        requires
            old(self).wf(),
        ensures
            final(self).wf(),
            final(self).duration_ms == old(self).duration_ms,
            started == !old(self).is_rolling,
            old(self).is_rolling ==> *final(self) == *old(self),
            !old(self).is_rolling ==> final(self).is_rolling && final(self).elapsed_ms == 0,
    {
        if self.is_rolling {
            false
        } else {
            self.is_rolling = true;
            self.elapsed_ms = 0;
            true
        }
    }

    /// One frame of the animator for this die.
    ///
    /// An idle die is untouched. A rolling die advances its elapsed time by
    /// `dt_ms`; if that reaches the duration the roll ends (back to idle,
    /// elapsed reset, no rotation this frame — an overshoot clamps to the
    /// terminal state), otherwise the frame's rotation delta is computed from
    /// the speed at the new elapsed time.
    pub fn advance(&mut self, dt_ms: u64) -> (delta: Option<RotationDelta>)
        requires
            old(self).wf(),
        ensures
            final(self).wf(),
            final(self).duration_ms == old(self).duration_ms,
            !final(self).is_rolling ==> final(self).elapsed_ms == 0,
            !old(self).is_rolling ==> *final(self) == *old(self) && delta is None,
            old(self).is_rolling && old(self).elapsed_ms + dt_ms >= old(self).duration_ms ==> {
                &&& !final(self).is_rolling
                &&& final(self).elapsed_ms == 0
                &&& delta is None
            },
            old(self).is_rolling && old(self).elapsed_ms + dt_ms < old(self).duration_ms ==> {
                &&& final(self).is_rolling
                &&& final(self).elapsed_ms == old(self).elapsed_ms + dt_ms
                &&& delta == Some(roll_delta_spec(
                    speed_millirad_spec(
                        old(self).elapsed_ms + dt_ms,
                        old(self).duration_ms as int,
                    ),
                    dt_ms as int,
                ))
            },
    {
        if !self.is_rolling {
            return None;
        }
        let remaining: u64 = self.duration_ms - self.elapsed_ms;
        if dt_ms >= remaining {
            self.is_rolling = false;
            self.elapsed_ms = 0;
            None
        } else {
            self.elapsed_ms = self.elapsed_ms + dt_ms;
            let speed: u64 = speed_millirad(self.elapsed_ms, self.duration_ms);
            proof {
                lemma_mul_bound(speed as int, dt_ms as int, 15_000, 86_400_000);
            }
            let base: u64 = speed * dt_ms;
            proof {
                let s = speed as int;
                let t = dt_ms as int;
                assert(10 * s * t == 10 * (s * t)) by (nonlinear_arith);
                assert(7 * s * t == 7 * (s * t)) by (nonlinear_arith);
                assert(3 * s * t == 3 * (s * t)) by (nonlinear_arith);
            }
            Some(RotationDelta { x_units: 10 * base, y_units: 7 * base, z_units: 3 * base })
        }
    }
}

/// Angular speed of a rolling die, in millirad/s, from its elapsed time:
/// 15 rad/s at the start, decreasing linearly to 2.25 rad/s at the end.
pub fn speed_millirad(elapsed_ms: u64, duration_ms: u64) -> (speed: u64)
    requires
        0 < duration_ms <= MAX_DURATION_MS,
        elapsed_ms <= duration_ms,
    ensures
        speed == speed_millirad_spec(elapsed_ms as int, duration_ms as int),
        2250 <= speed <= BASE_SPEED_MILLIRAD,
{
    proof {
        let e = elapsed_ms as int;
        let d = duration_ms as int;
        assert(SPEED_DROP_MILLIRAD * e <= SPEED_DROP_MILLIRAD * d);
        lemma_div_is_ordered(2250 * d, BASE_SPEED_MILLIRAD * d - SPEED_DROP_MILLIRAD * e, d);
        lemma_div_is_ordered(BASE_SPEED_MILLIRAD * d - SPEED_DROP_MILLIRAD * e,
            BASE_SPEED_MILLIRAD * d, d);
        lemma_div_by_multiple(2250, d);
        lemma_div_by_multiple(BASE_SPEED_MILLIRAD as int, d);
    }
    (BASE_SPEED_MILLIRAD * duration_ms - SPEED_DROP_MILLIRAD * elapsed_ms) / duration_ms
}

/// The speed never increases as a roll progresses: a later elapsed time gives
/// an angular speed no greater than an earlier one.
pub proof fn lemma_speed_monotonic(e1: int, e2: int, d: int)
    requires
        0 < d,
        0 <= e1 <= e2 <= d,
    ensures
        speed_millirad_spec(e2, d) <= speed_millirad_spec(e1, d),
{
    assert(SPEED_DROP_MILLIRAD * e1 <= SPEED_DROP_MILLIRAD * e2);
    lemma_div_is_ordered(BASE_SPEED_MILLIRAD * d - SPEED_DROP_MILLIRAD * e2,
        BASE_SPEED_MILLIRAD * d - SPEED_DROP_MILLIRAD * e1, d);
}

/// For durations up to `SPEED_DROP_MILLIRAD` milliseconds — the demo's
/// 1.5 s roll among them — the decrease is strict: every further millisecond
/// of elapsed time lowers the speed.
pub proof fn lemma_speed_strictly_decreasing(e1: int, e2: int, d: int)
    requires
        0 < d <= SPEED_DROP_MILLIRAD,
        0 <= e1 < e2 <= d,
    ensures
        speed_millirad_spec(e2, d) < speed_millirad_spec(e1, d),
{
    let n1 = BASE_SPEED_MILLIRAD * d - SPEED_DROP_MILLIRAD * e1;
    let n2 = BASE_SPEED_MILLIRAD * d - SPEED_DROP_MILLIRAD * e2;
    assert(SPEED_DROP_MILLIRAD * e2 >= SPEED_DROP_MILLIRAD * (e1 + 1));
    assert(n2 <= n1 - d);
    lemma_div_is_ordered(n2, n1 - d, d);
    lemma_div_plus_one(n1 - d, d);
}

/// At the start of a roll the speed is exactly 15 rad/s; at the very end it
/// is exactly 2.25 rad/s.
pub proof fn lemma_speed_endpoints(d: int)
    requires
        0 < d,
    ensures
        speed_millirad_spec(0, d) == BASE_SPEED_MILLIRAD,
        speed_millirad_spec(d, d) == 2250,
{
    lemma_div_by_multiple(BASE_SPEED_MILLIRAD as int, d);
    lemma_div_by_multiple(2250, d);
    assert(BASE_SPEED_MILLIRAD * d - SPEED_DROP_MILLIRAD * d == 2250 * d)
        by (nonlinear_arith);
}

} // verus!
