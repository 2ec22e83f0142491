//! Per-pole glow easing: one step function for each animation state.
//!
//! Each easing moves the pole's two glow levels by an amount proportional to
//! the elapsed time, toward the target its state calls for. Touch ramps run
//! at `0.3 / TOUCH_RAMP_MS`; connect and explode ramps at
//! `1.0 / CONNECT_RAMP_MS`. Levels never leave `[0, LEVEL_MAX]`.

use vstd::prelude::*;

use crate::phase::MAX_DELTA_MS;
use crate::pole::{Pole, LEVEL_MAX};

verus! {

/// Touch ramps reach the 0.3 resting glow in five seconds.
pub const TOUCH_RAMP_MS: u64 = 5_000;

/// Connect and explode ramps reach full glow in ten seconds.
pub const CONNECT_RAMP_MS: u64 = 10_000;

/// The resting glow a held touch eases toward (0.3 of full scale).
pub const TOUCH_TARGET: u32 = 300_000;

/// Touch easing per millisecond: `0.3 * LEVEL_MAX / TOUCH_RAMP_MS`.
pub const TOUCH_RATE: u64 = 60;

/// Connect/explode easing per millisecond: `LEVEL_MAX / CONNECT_RAMP_MS`.
pub const CONNECT_RATE: u64 = 100;

/// Moves `level` by at most `d` toward `target`, never overshooting.
pub open spec fn ease_toward_spec(level: u32, target: u32, d: int) -> u32 {
    if level < target {
        if level + d <= target {
            (level + d) as u32
        } else {
            target
        }
    } else if level > target {
        if level - d >= target {
            (level - d) as u32
        } else {
            target
        }
    } else {
        level
    }
}

/// Drains `d` out of `touch_level` first; an undershoot borrows from `level`,
/// and both floors are zero.
pub open spec fn drain_spec(level: u32, touch_level: u32, d: int) -> (u32, u32) {
    if touch_level >= d {
        (level, (touch_level - d) as u32)
    } else {
        let borrow = d - touch_level;
        (
            if level >= borrow {
                (level - borrow) as u32
            } else {
                0u32
            },
            0u32,
        )
    }
}

/// One `Touching` step: drain the self-touch glow first, else ease the
/// connection glow toward the 0.3 resting target.
pub open spec fn touch_step_spec(level: u32, touch_level: u32, delta_ms: u64) -> (u32, u32) {
    let d = TOUCH_RATE * delta_ms;
    if touch_level > 0 {
        drain_spec(level, touch_level, d as int)
    } else {
        (ease_toward_spec(level, TOUCH_TARGET, d as int), touch_level)
    }
}

/// One idle (reverse) step: like `Touching` but easing toward darkness.
pub open spec fn reverse_step_spec(level: u32, touch_level: u32, delta_ms: u64) -> (u32, u32) {
    let d = TOUCH_RATE * delta_ms;
    if touch_level > 0 {
        drain_spec(level, touch_level, d as int)
    } else {
        (ease_toward_spec(level, 0u32, d as int), touch_level)
    }
}

/// One `Connecting` step: the connection glow rises monotonically to full.
pub open spec fn connect_step_spec(level: u32, touch_level: u32, delta_ms: u64) -> (u32, u32) {
    let d = CONNECT_RATE * delta_ms;
    (ease_toward_spec(level, LEVEL_MAX, d as int), touch_level)
}

/// One `Exploding` step: the connection glow rises, and once it saturates the
/// excess overflows into the self-touch glow, which clamps at full.
pub open spec fn explode_step_spec(level: u32, touch_level: u32, delta_ms: u64) -> (u32, u32) {
    let d = CONNECT_RATE * delta_ms;
    let raw = level + d;
    if raw >= LEVEL_MAX {
        let spill = raw - LEVEL_MAX;
        (
            LEVEL_MAX,
            if touch_level + spill <= LEVEL_MAX {
                (touch_level + spill) as u32
            } else {
                LEVEL_MAX
            },
        )
    } else {
        (raw as u32, touch_level)
    }
}

/// Every easing step keeps both glow levels in `[0, LEVEL_MAX]`, whatever the
/// (non-negative) time step.
pub proof fn lemma_easing_bounded(level: u32, touch_level: u32, delta_ms: u64)
    requires
        level <= LEVEL_MAX,
        touch_level <= LEVEL_MAX,
    ensures
        touch_step_spec(level, touch_level, delta_ms).0 <= LEVEL_MAX,
        touch_step_spec(level, touch_level, delta_ms).1 <= LEVEL_MAX,
        reverse_step_spec(level, touch_level, delta_ms).0 <= LEVEL_MAX,
        reverse_step_spec(level, touch_level, delta_ms).1 <= LEVEL_MAX,
        connect_step_spec(level, touch_level, delta_ms).0 <= LEVEL_MAX,
        connect_step_spec(level, touch_level, delta_ms).1 <= LEVEL_MAX,
        explode_step_spec(level, touch_level, delta_ms).0 <= LEVEL_MAX,
        explode_step_spec(level, touch_level, delta_ms).1 <= LEVEL_MAX,
{
}

/// The LED buffer and every field but the two glow levels are unchanged.
pub open spec fn levels_only_changed(a: Pole, b: Pole) -> bool {
    &&& a.base_color == b.base_color
    &&& a.current_color == b.current_color
    &&& a.state == b.state
    &&& a.anim == b.anim
    &&& a.internal_leds == b.internal_leds
    &&& a.pole_length == b.pole_length
    &&& a.cp1 == b.cp1
    &&& a.cp2 == b.cp2
    &&& a.heart_start == b.heart_start
    &&& a.heart_end == b.heart_end
}

/// An easing applied to a single pole each frame. Each implementation's
/// `step` says exactly where it moves the glow levels.
pub trait SinglePoleAnimation {
    /// Where one step moves the glow levels.
    spec fn step(level: u32, touch_level: u32, delta_ms: u64) -> (u32, u32);

    /// Applies one step to the pole.
    fn animate_pole(pole: &mut Pole, delta_ms: u64)
        requires
            old(pole).wf(),
            delta_ms <= MAX_DELTA_MS,
        ensures
            final(pole).wf(),
            levels_only_changed(*old(pole), *final(pole)),
            final(pole).level == Self::step(old(pole).level, old(pole).touch_level, delta_ms).0,
            final(pole).touch_level == Self::step(
                old(pole).level,
                old(pole).touch_level,
                delta_ms,
            ).1,
    ;
}

/// Moves `level` by at most `d` toward `target` without overshooting.
fn ease_toward(level: u32, target: u32, d: u64) -> (r: u32)
    requires
        level <= LEVEL_MAX,
        target <= LEVEL_MAX,
        d <= CONNECT_RATE * MAX_DELTA_MS,
    ensures
        r == ease_toward_spec(level, target, d as int),
        r <= LEVEL_MAX,
{
    if level < target {
        if (level as u64) + d <= target as u64 {
            level + (d as u32)
        } else {
            target
        }
    } else if level > target {
        if (level as u64) >= d && (level as u64) - d >= target as u64 {
            level - (d as u32)
        } else {
            target
        }
    } else {
        level
    }
}

/// Drains `d` out of the self-touch glow, borrowing any undershoot from the
/// connection glow; both floors are zero.
fn drain(pole: &mut Pole, d: u64)
    requires
        old(pole).wf(),
    ensures
        final(pole).wf(),
        levels_only_changed(*old(pole), *final(pole)),
        final(pole).level == drain_spec(old(pole).level, old(pole).touch_level, d as int).0,
        final(pole).touch_level == drain_spec(old(pole).level, old(pole).touch_level, d as int).1,
{
    let t = pole.touch_level as u64;
    if t >= d {
        pole.touch_level = (t - d) as u32;
    } else {
        let borrow = d - t;
        pole.touch_level = 0;
        let l = pole.level as u64;
        pole.level = if l >= borrow {
            (l - borrow) as u32
        } else {
            0
        };
    }
}

/// The easing of a held touch: glow eases to the 0.3 resting target.
pub struct TouchAnim;

impl SinglePoleAnimation for TouchAnim {
    open spec fn step(level: u32, touch_level: u32, delta_ms: u64) -> (u32, u32) {
        touch_step_spec(level, touch_level, delta_ms)
    }

    fn animate_pole(pole: &mut Pole, delta_ms: u64) {
        let d: u64 = TOUCH_RATE * delta_ms;
        if pole.touch_level > 0 {
            drain(pole, d);
        } else {
            pole.level = ease_toward(pole.level, TOUCH_TARGET, d);
        }
    }
}

/// The easing of a released pole: glow eases back to darkness.
pub struct ReverseTouchAnim;

impl SinglePoleAnimation for ReverseTouchAnim {
    open spec fn step(level: u32, touch_level: u32, delta_ms: u64) -> (u32, u32) {
        reverse_step_spec(level, touch_level, delta_ms)
    }

    fn animate_pole(pole: &mut Pole, delta_ms: u64) {
        let d: u64 = TOUCH_RATE * delta_ms;
        if pole.touch_level > 0 {
            drain(pole, d);
        } else {
            pole.level = ease_toward(pole.level, 0, d);
        }
    }
}

/// The easing of a connected pole: glow rises monotonically to full.
pub struct ConnectedAnim;

impl SinglePoleAnimation for ConnectedAnim {
    open spec fn step(level: u32, touch_level: u32, delta_ms: u64) -> (u32, u32) {
        connect_step_spec(level, touch_level, delta_ms)
    }

    fn animate_pole(pole: &mut Pole, delta_ms: u64) {
        let d: u64 = CONNECT_RATE * delta_ms;
        pole.level = ease_toward(pole.level, LEVEL_MAX, d);
    }
}

/// The easing of an exploding pole: the saturated glow spills into the
/// self-touch channel.
pub struct ExplodingAnim;

impl SinglePoleAnimation for ExplodingAnim {
    open spec fn step(level: u32, touch_level: u32, delta_ms: u64) -> (u32, u32) {
        explode_step_spec(level, touch_level, delta_ms)
    }

    fn animate_pole(pole: &mut Pole, delta_ms: u64) {
        let d: u64 = CONNECT_RATE * delta_ms;
        let raw: u64 = (pole.level as u64) + d;
        if raw >= LEVEL_MAX as u64 {
            let spill: u64 = raw - LEVEL_MAX as u64;
            pole.level = LEVEL_MAX;
            let t: u64 = pole.touch_level as u64;
            pole.touch_level = if t + spill <= LEVEL_MAX as u64 {
                (t + spill) as u32
            } else {
                LEVEL_MAX
            };
        } else {
            pole.level = raw as u32;
        }
    }
}

} // verus!
