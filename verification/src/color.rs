//! The color model of the engine.
//!
//! Color science is out of scope here: a color is an abstract HSL value held
//! in integer fixed point. The hue is a fraction of a full turn of the color
//! circle in `UNIT` units; saturation and lightness run from 0 to
//! `CHANNEL_MAX` per mille. A display backend converts these to its own
//! color space.

use vstd::prelude::*;

use crate::UNIT;

verus! {

/// Full scale of the saturation and lightness channels (per mille).
pub const CHANNEL_MAX: u32 = 1000;

/// An HSL color in integer fixed point.
#[derive(Clone, Copy, Debug, PartialEq, Eq, Structural)]
pub struct Hsl {
    /// Fraction of a full turn of the hue circle, in `UNIT` units; below `UNIT`.
    pub hue: u32,
    /// Saturation per mille, at most `CHANNEL_MAX`.
    pub saturation: u32,
    /// Lightness per mille, at most `CHANNEL_MAX`.
    pub lightness: u32,
}

impl Hsl {
    /// All channels within their scales.
    pub open spec fn wf(self) -> bool {
        self.hue < UNIT && self.saturation <= CHANNEL_MAX && self.lightness <= CHANNEL_MAX
    }

    /// Builds a color from in-range channel values.
    pub fn new(hue: u32, saturation: u32, lightness: u32) -> (c: Hsl)
        requires
            hue < UNIT,
            saturation <= CHANNEL_MAX,
            lightness <= CHANNEL_MAX,
        ensures
            c == (Hsl { hue, saturation, lightness }),
            c.wf(),
    {
        Hsl { hue, saturation, lightness }
    }

    /// Black: the color buffers are cleared to this.
    pub fn black() -> (c: Hsl)
        ensures
            c == (Hsl { hue: 0u32, saturation: 0u32, lightness: 0u32 }),
            c.wf(),
    {
        Hsl { hue: 0, saturation: 0, lightness: 0 }
    }
}

} // verus!
