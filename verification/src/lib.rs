//! Interactive animation and event-dispatch engine for a ring of touch-sensitive
//! LED poles.
//!
//! The engine turns pairwise contact events (people touching poles or bridging
//! two poles) into a per-pole logical state, renders that state into per-pole
//! color buffers through layered animations, and diffs the logical state into
//! minimal discrete sound-trigger events for an external audio engine.
//!
//! All time is carried in integer milliseconds and all continuous quantities
//! (animation phases, glow levels, hues) in integer fixed point, one million
//! units to the whole.

use vstd::prelude::*;

pub mod animator;
pub mod color;
pub mod config;
pub mod events;
pub mod peers;
pub mod phase;
pub mod pixels;
pub mod pole;
pub mod rng;
pub mod sound;
pub mod sprites;
pub mod touch;
pub mod touchmap;

verus! {

/// Number of poles in the ring.
pub const NUM_POLES: usize = 20;

/// Number of LEDs allocated to each pole's color buffer.
pub const LEDS_PER_STRING: usize = 100;

/// Fixed-point scale: one million units represent 1.0 (a full glow level, a
/// full phase cycle, or a full turn of the hue circle).
pub const UNIT: u64 = 1_000_000;

} // verus!
