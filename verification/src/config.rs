//! The runtime-adjustable configuration: the pole's view-range lengths and
//! the heart sub-range, applied between frames through the poles' clamped
//! setters.

use vstd::prelude::*;

verus! {

/// The segment lengths a configuration provider can adjust at run time.
pub struct Config {
    /// How many LEDs of each buffer the main pole range uses.
    pub num_leds_for_pole: usize,
    /// Length of the control-point-1 prefix.
    pub cp1: usize,
    /// Length of the control-point-2 prefix.
    pub cp2: usize,
    /// Start of the heart sub-range.
    pub heart_start: usize,
    /// End (exclusive) of the heart sub-range.
    pub heart_end: usize,
}

impl Config {
    /// The installation's default segment layout.
    pub fn new() -> (c: Config)
        ensures
            c.num_leds_for_pole == 54,
            c.cp1 == 20,
            c.cp2 == 34,
            c.heart_start == 54,
            c.heart_end == 68,
    {
        Config { num_leds_for_pole: 54, cp1: 20, cp2: 34, heart_start: 54, heart_end: 68 }
    }

    /// The configured main pole length.
    pub fn get_num_leds_for_pole(&self) -> (n: usize)
        ensures
            n == self.num_leds_for_pole,
    {
        self.num_leds_for_pole
    }

    /// The configured control-point-1 length.
    pub fn get_cp1(&self) -> (n: usize)
        ensures
            n == self.cp1,
    {
        self.cp1
    }

    /// The configured control-point-2 length.
    pub fn get_cp2(&self) -> (n: usize)
        ensures
            n == self.cp2,
    {
        self.cp2
    }

    /// The configured heart sub-range.
    pub fn get_heart(&self) -> (r: (usize, usize))
        ensures
            r.0 == self.heart_start,
            r.1 == self.heart_end,
    {
        (self.heart_start, self.heart_end)
    }

    /// Replaces the main pole length (a provider's `/pole_leds` update).
    pub fn set_num_leds_for_pole(&mut self, n: usize)
        ensures
            *final(self) == (Config { num_leds_for_pole: n, ..*old(self) }),
    {
        self.num_leds_for_pole = n;
    }
}

} // verus!
