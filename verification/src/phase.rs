//! A reusable normalized time-progress primitive.
//!
//! An `AnimPhase` tracks how far an animation has progressed through a cycle
//! of a fixed duration. Progress is a fixed-point fraction: `UNIT` units mean
//! one whole cycle. The position is allowed to run past one cycle; `cycle`
//! folds it back into `[0, UNIT)`.

use vstd::prelude::*;

use crate::UNIT;

verus! {

/// Largest time step a single frame may carry, in milliseconds (about 11 days;
/// a machine limit so the fixed-point arithmetic below cannot overflow).
pub const MAX_DELTA_MS: u64 = 1_000_000_000;

/// Progress a phase position makes from `delta_ms` elapsed milliseconds
/// against a cycle of `total_ms` milliseconds, saturating at `u64::MAX`.
pub open spec fn phase_advance(pos: u64, delta_ms: u64, total_ms: u64) -> u64
    recommends
        total_ms > 0,
{
    let inc = (delta_ms as int) * (UNIT as int) / (total_ms as int);
    if pos + inc <= u64::MAX {
        (pos + inc) as u64
    } else {
        u64::MAX
    }
}

/// Normalized time progress through a cycle of a fixed duration.
#[derive(Clone, Copy, Debug)]
pub struct AnimPhase {
    /// Cycle duration in milliseconds; always positive.
    total_ms: u64,
    /// Current position in fixed point: `UNIT` is one whole cycle. May exceed
    /// `UNIT` until `cycle` folds it back.
    pos: u64,
}

impl AnimPhase {
    /// The duration invariant every constructed phase carries.
    pub closed spec fn wf(self) -> bool {
        self.total_ms > 0
    }

    /// Current position, for contracts.
    pub closed spec fn spec_pos(self) -> u64 {
        self.pos
    }

    /// Cycle duration, for contracts.
    pub closed spec fn spec_total_ms(self) -> u64 {
        self.total_ms
    }

    /// Creates a phase at the start of a cycle of `total_ms` milliseconds.
    pub fn new(total_ms: u64) -> (r: AnimPhase)
        requires
            total_ms > 0,
        ensures
            r.wf(),
            r.spec_total_ms() == total_ms,
            r.spec_pos() == 0,
    {
        AnimPhase { total_ms, pos: 0 }
    }

    /// Advances the position by `delta_ms / total_ms` of a cycle and returns
    /// the new position.
    pub fn update(&mut self, delta_ms: u64) -> (p: u64)
        requires
            old(self).wf(),
            delta_ms <= MAX_DELTA_MS,
        ensures
            final(self).wf(),
            final(self).spec_total_ms() == old(self).spec_total_ms(),
            final(self).spec_pos() == phase_advance(
                old(self).spec_pos(),
                delta_ms,
                old(self).spec_total_ms(),
            ),
            p == final(self).spec_pos(),
    {
        proof {
            assert(delta_ms * UNIT <= MAX_DELTA_MS * UNIT) by (nonlinear_arith)
                requires
                    delta_ms <= MAX_DELTA_MS,
            ;
        }
        let inc: u64 = delta_ms * UNIT / self.total_ms;
        self.pos = if self.pos <= u64::MAX - inc {
            self.pos + inc
        } else {
            u64::MAX
        };
        self.pos
    }

    /// Folds the position back into `[0, UNIT)` and returns it.
    pub fn cycle(&mut self) -> (p: u64)
        ensures
            final(self).wf() == old(self).wf(),
            final(self).spec_total_ms() == old(self).spec_total_ms(),
            final(self).spec_pos() == old(self).spec_pos() % UNIT,
            p == final(self).spec_pos(),
            p < UNIT,
    {
        self.pos = self.pos % UNIT;
        self.pos
    }

    /// `update` followed by `cycle`: advance through a repeating cycle.
    pub fn cyclic_update(&mut self, delta_ms: u64) -> (p: u64)
        requires
            old(self).wf(),
            delta_ms <= MAX_DELTA_MS,
        ensures
            final(self).wf(),
            final(self).spec_total_ms() == old(self).spec_total_ms(),
            final(self).spec_pos() == phase_advance(
                old(self).spec_pos(),
                delta_ms,
                old(self).spec_total_ms(),
            ) % UNIT,
            p == final(self).spec_pos(),
            p < UNIT,
    {
        self.update(delta_ms);
        self.cycle()
    }

    /// Current position without advancing.
    pub fn current(&self) -> (p: u64)
        ensures
            p == self.spec_pos(),
    {
        self.pos
    }

    /// True once the position has reached a whole cycle.
    pub fn is_done(&self) -> (r: bool)
        ensures
            r == (self.spec_pos() >= UNIT),
    {
        self.pos >= UNIT
    }
}

} // verus!
