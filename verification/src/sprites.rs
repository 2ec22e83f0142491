//! Ephemeral overlay sprites: self-contained animations layered on top of the
//! base pole rendering, each owning its own phase timer, color and targets.
//!
//! Sprites write only into the LED buffers: they never move a pole's levels,
//! state or geometry. Rendering is last write wins, with no blending, and
//! each sprite's contract says exactly which pixels it sets.

use vstd::prelude::*;

use crate::color::Hsl;
use crate::phase::{phase_advance, AnimPhase, MAX_DELTA_MS};
use crate::pole::{poles_wf, same_shapes, Pole};
use crate::rng::random_usize;
use crate::{NUM_POLES, UNIT};

verus! {

/// How many pixels wide an explosion flash is at phase position `pos`: the
/// floor of eight times the sine of a half-turn swept over the flash's life,
/// in fixed point. The breakpoints are `asin(k/8)` as fractions of a
/// half-turn, scaled to `UNIT` and symmetric about the midpoint; the width
/// grows to eight pixels mid-flash and shrinks back, and a position past one
/// cycle paints nothing.
pub open spec fn explosion_pixels(pos: u64) -> int {
    if pos >= UNIT {
        0
    } else {
        let m: int = if pos <= UNIT / 2 {
            pos as int
        } else {
            (UNIT - pos) as int
        };
        if m >= 500_000 {
            8
        } else if m >= 339_139 {
            7
        } else if m >= 269_947 {
            6
        } else if m >= 214_902 {
            5
        } else if m >= 166_667 {
            4
        } else if m >= 122_358 {
            3
        } else if m >= 80_431 {
            2
        } else if m >= 39_894 {
            1
        } else {
            0
        }
    }
}

/// The index the circle sprite centers on at phase position `pos`, over a
/// main range of `len` LEDs.
pub open spec fn circle_index(pos: u64, len: int) -> int {
    (pos as int) * len / (UNIT as int)
}

/// Whether the circle sprite lights LED `k` of a pole whose main range holds
/// `len` LEDs: the three pixels around the phase-scaled index.
pub open spec fn circle_hit(pos: u64, len: int, k: int) -> bool {
    let ci = circle_index(pos, len);
    0 <= k < len && (k + 1 == ci || k == ci || k == ci + 1)
}

/// `after` is `before` with the circle sprite drawn: exactly the hit pixels
/// of every pole carry the sprite's color.
pub open spec fn circle_rendered(a: CircleAnim, before: Seq<Pole>, after: Seq<Pole>) -> bool {
    forall|p: int, k: int|
        0 <= p < before.len() && 0 <= k < before[p].spec_leds().len()
            ==> #[trigger] after[p].spec_leds()[k] == if circle_hit(
            a.phase.spec_pos(),
            before[p].spec_pole_length(),
            k,
        ) {
            a.color
        } else {
            before[p].spec_leds()[k]
        }
}

/// `after` is `before` with the explosion flash drawn: exactly the first
/// `explosion_pixels` LEDs of every pole's main range carry the flash color.
pub open spec fn explosion_rendered(a: ExplosionAnim, before: Seq<Pole>, after: Seq<Pole>) -> bool {
    forall|p: int, k: int|
        0 <= p < before.len() && 0 <= k < before[p].spec_leds().len()
            ==> #[trigger] after[p].spec_leds()[k] == if k < explosion_pixels(a.phase.spec_pos())
            && k < before[p].spec_pole_length() {
            a.color
        } else {
            before[p].spec_leds()[k]
        }
}

/// LED `k` of pole `p` is one of the twinkle's stored targets.
pub open spec fn twinkle_hit(a: TwinkleAnim, p: int, k: int) -> bool {
    exists|t: int| 0 <= t < a.index@.len() && #[trigger] a.index@[t] == (p as usize, k as usize)
}

/// `after` is `before` with the twinkle drawn: exactly the stored targets
/// that lie within their pole's main range carry the sprite's color.
pub open spec fn twinkle_rendered(a: TwinkleAnim, before: Seq<Pole>, after: Seq<Pole>) -> bool {
    forall|p: int, k: int|
        0 <= p < before.len() && 0 <= k < before[p].spec_leds().len()
            ==> #[trigger] after[p].spec_leds()[k] == if k < before[p].spec_pole_length()
            && twinkle_hit(a, p, k) {
            a.color
        } else {
            before[p].spec_leds()[k]
        }
}

/// An overlay animation driven once per frame.
pub trait PoleAnimation {
    /// The invariant the sprite maintains across frames.
    spec fn inv(&self) -> bool;

    /// Advances the sprite's own clock.
    fn update(&mut self, delta_ms: u64)
        requires
            old(self).inv(),
            delta_ms <= MAX_DELTA_MS,
        ensures
            final(self).inv(),
    ;

    /// True once the sprite has played out and can be dropped.
    fn is_done(&self) -> bool;

    /// Renders the sprite into the pole buffers; only buffers change.
    fn animate_poles(&self, poles: &mut Vec<Pole>)
        requires
            self.inv(),
            poles_wf(old(poles)@),
        ensures
            poles_wf(final(poles)@),
            same_shapes(old(poles)@, final(poles)@),
    ;
}

/// A ring of three lit pixels wandering up the poles over the sprite's life.
pub struct CircleAnim {
    pub phase: AnimPhase,
    pub color: Hsl,
}

impl CircleAnim {
    /// A circle sprite that lives for `total_ms` milliseconds.
    pub fn new(color: Hsl, total_ms: u64) -> (r: CircleAnim)
        requires
            color.wf(),
            total_ms > 0,
        ensures
            r.inv(),
            r.phase.spec_pos() == 0,
            r.phase.spec_total_ms() == total_ms,
            r.color == color,
    {
        CircleAnim { phase: AnimPhase::new(total_ms), color }
    }
}

impl PoleAnimation for CircleAnim {
    open spec fn inv(&self) -> bool {
        self.phase.wf() && self.color.wf()
    }

    fn update(&mut self, delta_ms: u64)
        ensures
            final(self).phase.spec_pos() == phase_advance(
                old(self).phase.spec_pos(),
                delta_ms,
                old(self).phase.spec_total_ms(),
            ),
            final(self).phase.spec_total_ms() == old(self).phase.spec_total_ms(),
            final(self).color == old(self).color,
    {
        self.phase.update(delta_ms);
    }

    fn is_done(&self) -> (r: bool)
        ensures
            r == (self.phase.spec_pos() >= UNIT),
    {
        self.phase.is_done()
    }

    fn animate_poles(&self, poles: &mut Vec<Pole>)
        ensures
            circle_rendered(*self, old(poles)@, final(poles)@),
    {
        let pos = self.phase.current();
        let mut i: usize = 0;
        while i < poles.len()
            invariant
                self.inv(),
                pos == self.phase.spec_pos(),
                poles_wf(poles@),
                same_shapes(old(poles)@, poles@),
                i <= poles@.len(),
                forall|p: int, k: int|
                    0 <= p < i && 0 <= k < old(poles)@[p].spec_leds().len()
                        ==> #[trigger] poles@[p].spec_leds()[k] == if circle_hit(
                        self.phase.spec_pos(),
                        old(poles)@[p].spec_pole_length(),
                        k,
                    ) {
                        self.color
                    } else {
                        old(poles)@[p].spec_leds()[k]
                    },
                forall|p: int| i <= p < poles@.len() ==> poles@[p] == old(poles)@[p],
            decreases poles@.len() - i,
        {
            let len = poles[i].pole_length();
            proof {
                assert((pos as int) * (len as int) <= (u64::MAX as int) * (u64::MAX as int))
                    by (nonlinear_arith)
                    requires
                        pos <= u64::MAX,
                        len <= u64::MAX,
                ;
            }
            let ci128: u128 = (pos as u128) * (len as u128) / (UNIT as u128);
            proof {
                assert(ci128 as int == circle_index(pos, len as int));
            }
            if ci128 >= 1 && ci128 - 1 < len as u128 {
                let p = &mut poles[i];
                p.paint_led((ci128 - 1) as usize, self.color);
            }
            if ci128 < len as u128 {
                let p = &mut poles[i];
                p.paint_led(ci128 as usize, self.color);
            }
            if ci128 + 1 < len as u128 {
                let p = &mut poles[i];
                p.paint_led((ci128 + 1) as usize, self.color);
            }
            proof {
                assert forall|k: int|
                    0 <= k < old(poles)@[i as int].spec_leds().len() implies #[trigger] poles@[i as int].spec_leds()[k]
                    == if circle_hit(
                    self.phase.spec_pos(),
                    old(poles)@[i as int].spec_pole_length(),
                    k,
                ) {
                    self.color
                } else {
                    old(poles)@[i as int].spec_leds()[k]
                } by {}
            }
            i = i + 1;
        }
    }
}

/// A short white flash across the feet of all poles when a pair explodes.
pub struct ExplosionAnim {
    pub phase: AnimPhase,
    pub color: Hsl,
}

impl ExplosionAnim {
    /// A half-second full-ring white flash.
    pub fn new() -> (r: ExplosionAnim)
        ensures
            r.inv(),
            r.phase.spec_pos() == 0,
            r.phase.spec_total_ms() == 500,
            r.color == (Hsl { hue: 0u32, saturation: 1000u32, lightness: 1000u32 }),
    {
        ExplosionAnim { phase: AnimPhase::new(500), color: Hsl::new(0, 1000, 1000) }
    }
}

impl PoleAnimation for ExplosionAnim {
    open spec fn inv(&self) -> bool {
        self.phase.wf() && self.color.wf()
    }

    fn update(&mut self, delta_ms: u64)
        ensures
            final(self).phase.spec_pos() == phase_advance(
                old(self).phase.spec_pos(),
                delta_ms,
                old(self).phase.spec_total_ms(),
            ),
            final(self).phase.spec_total_ms() == old(self).phase.spec_total_ms(),
            final(self).color == old(self).color,
    {
        self.phase.update(delta_ms);
    }

    fn is_done(&self) -> (r: bool)
        ensures
            r == (self.phase.spec_pos() >= UNIT),
    {
        self.phase.is_done()
    }

    fn animate_poles(&self, poles: &mut Vec<Pole>)
        ensures
            explosion_rendered(*self, old(poles)@, final(poles)@),
    {
        let pos = self.phase.current();
        let cp: u64 = if pos >= UNIT {
            0
        } else {
            let m: u64 = if pos <= UNIT / 2 {
                pos
            } else {
                UNIT - pos
            };
            if m >= 500_000 {
                8
            } else if m >= 339_139 {
                7
            } else if m >= 269_947 {
                6
            } else if m >= 214_902 {
                5
            } else if m >= 166_667 {
                4
            } else if m >= 122_358 {
                3
            } else if m >= 80_431 {
                2
            } else if m >= 39_894 {
                1
            } else {
                0
            }
        };
        proof {
            assert(cp as int == explosion_pixels(pos));
        }
        let mut i: usize = 0;
        while i < poles.len()
            invariant
                self.inv(),
                cp <= 16,
                cp as int == explosion_pixels(self.phase.spec_pos()),
                poles_wf(poles@),
                same_shapes(old(poles)@, poles@),
                i <= poles@.len(),
                forall|p2: int, k: int|
                    0 <= p2 < i && 0 <= k < old(poles)@[p2].spec_leds().len()
                        ==> #[trigger] poles@[p2].spec_leds()[k] == if k < explosion_pixels(
                        self.phase.spec_pos(),
                    ) && k < old(poles)@[p2].spec_pole_length() {
                        self.color
                    } else {
                        old(poles)@[p2].spec_leds()[k]
                    },
                forall|p2: int| i <= p2 < poles@.len() ==> poles@[p2] == old(poles)@[p2],
            decreases poles@.len() - i,
        {
            let len = poles[i].pole_length();
            let n: usize = if (cp as usize) < len {
                cp as usize
            } else {
                len
            };
            let p = &mut poles[i];
            p.paint_range(0, n, self.color);
            i = i + 1;
        }
    }
}

/// Five pixels, chosen at random once at construction, lit for the sprite's
/// whole life.
pub struct TwinkleAnim {
    pub phase: AnimPhase,
    pub color: Hsl,
    pub index: Vec<(usize, usize)>,
}

impl TwinkleAnim {
    /// Picks five random (pole, pixel) targets, never recomputed: five random
    /// poles, all sharing one random pixel below 32.
    pub fn new(color: Hsl, total_ms: u64) -> (r: TwinkleAnim)
        requires
            color.wf(),
            total_ms > 0,
        ensures
            r.inv(),
            r.phase.spec_pos() == 0,
            r.phase.spec_total_ms() == total_ms,
            r.color == color,
            r.index@.len() == 5,
            forall|t: int|
                0 <= t < 5 ==> (#[trigger] r.index@[t]).0 < NUM_POLES && r.index@[t].1 < 32,
            forall|t1: int, t2: int|
                0 <= t1 < 5 && 0 <= t2 < 5 ==> (#[trigger] r.index@[t1]).1 == (
                #[trigger] r.index@[t2]).1,
    {
        let rand_pixel = random_usize() % 32;
        let mut index: Vec<(usize, usize)> = Vec::new();
        let mut k: usize = 0;
        while k < 5
            invariant
                k <= 5,
                rand_pixel < 32,
                index@.len() == k,
                forall|m: int|
                    0 <= m < k ==> (#[trigger] index@[m]).0 < NUM_POLES && index@[m].1
                        == rand_pixel,
            decreases 5 - k,
        {
            let rand_pole = random_usize() % NUM_POLES;
            index.push((rand_pole, rand_pixel));
            k = k + 1;
        }
        TwinkleAnim { phase: AnimPhase::new(total_ms), color, index }
    }
}

impl PoleAnimation for TwinkleAnim {
    open spec fn inv(&self) -> bool {
        &&& self.phase.wf()
        &&& self.color.wf()
        &&& forall|m: int| 0 <= m < self.index@.len() ==> (#[trigger] self.index@[m]).0 < NUM_POLES
    }

    fn update(&mut self, delta_ms: u64)
        ensures
            final(self).phase.spec_pos() == phase_advance(
                old(self).phase.spec_pos(),
                delta_ms,
                old(self).phase.spec_total_ms(),
            ),
            final(self).phase.spec_total_ms() == old(self).phase.spec_total_ms(),
            final(self).color == old(self).color,
            final(self).index == old(self).index,
    {
        self.phase.update(delta_ms);
    }

    fn is_done(&self) -> (r: bool)
        ensures
            r == (self.phase.spec_pos() >= UNIT),
    {
        self.phase.is_done()
    }

    fn animate_poles(&self, poles: &mut Vec<Pole>)
        ensures
            twinkle_rendered(*self, old(poles)@, final(poles)@),
    {
        let mut t: usize = 0;
        while t < self.index.len()
            invariant
                self.inv(),
                poles_wf(poles@),
                same_shapes(old(poles)@, poles@),
                t <= self.index@.len(),
                poles@.len() == old(poles)@.len(),
                forall|p: int, k: int|
                    0 <= p < poles@.len() && 0 <= k < old(poles)@[p].spec_leds().len()
                        ==> #[trigger] poles@[p].spec_leds()[k] == if k < old(
                        poles,
                    )@[p].spec_pole_length() && (exists|m: int|
                        0 <= m < t && #[trigger] self.index@[m] == (p as usize, k as usize)) {
                        self.color
                    } else {
                        old(poles)@[p].spec_leds()[k]
                    },
            decreases self.index@.len() - t,
        {
            let (pole, led) = self.index[t];
            if pole < poles.len() {
                let plen = poles[pole].pole_length();
                if led < plen {
                    let p = &mut poles[pole];
                    p.paint_led(led, self.color);
                }
            }
            proof {
                assert(self.index@[t as int] == (pole, led));
                assert forall|p: int, k: int|
                    0 <= p < poles@.len() && 0 <= k < old(poles)@[p].spec_leds().len()
                        implies #[trigger] poles@[p].spec_leds()[k] == if k < old(
                    poles,
                )@[p].spec_pole_length() && (exists|m: int|
                    0 <= m < t + 1 && #[trigger] self.index@[m] == (p as usize, k as usize)) {
                    self.color
                } else {
                    old(poles)@[p].spec_leds()[k]
                } by {
                    if p == pole as int && k == led as int {
                        assert(self.index@[t as int] == (p as usize, k as usize));
                    }
                }
            }
            t = t + 1;
        }
    }
}

/// One live overlay sprite: the closed set of sprite kinds, dispatched by
/// matching.
pub enum Sprite {
    Circle(CircleAnim),
    Explosion(ExplosionAnim),
    Twinkle(TwinkleAnim),
}

impl Sprite {
    /// The invariant of whichever sprite this is.
    pub open spec fn inv(&self) -> bool {
        match self {
            Sprite::Circle(a) => a.inv(),
            Sprite::Explosion(a) => a.inv(),
            Sprite::Twinkle(a) => a.inv(),
        }
    }

    /// The phase timer of whichever sprite this is.
    pub open spec fn spec_phase(&self) -> AnimPhase {
        match self {
            Sprite::Circle(a) => a.phase,
            Sprite::Explosion(a) => a.phase,
            Sprite::Twinkle(a) => a.phase,
        }
    }

    /// Two sprites are of one kind with one color and one target set; only
    /// their clocks may differ.
    pub open spec fn same_config(a: Sprite, b: Sprite) -> bool {
        match (a, b) {
            (Sprite::Circle(x), Sprite::Circle(y)) => x.color == y.color,
            (Sprite::Explosion(x), Sprite::Explosion(y)) => x.color == y.color,
            (Sprite::Twinkle(x), Sprite::Twinkle(y)) => x.color == y.color && x.index == y.index,
            _ => false,
        }
    }

    /// Advances the sprite's own clock and changes nothing else.
    pub fn update(&mut self, delta_ms: u64)
        requires
            old(self).inv(),
            delta_ms <= MAX_DELTA_MS,
        ensures
            final(self).inv(),
            final(self).spec_phase().spec_pos() == phase_advance(
                old(self).spec_phase().spec_pos(),
                delta_ms,
                old(self).spec_phase().spec_total_ms(),
            ),
            final(self).spec_phase().spec_total_ms() == old(self).spec_phase().spec_total_ms(),
            Self::same_config(*old(self), *final(self)),
    {
        match self {
            Sprite::Circle(a) => a.update(delta_ms),
            Sprite::Explosion(a) => a.update(delta_ms),
            Sprite::Twinkle(a) => a.update(delta_ms),
        }
    }

    /// True once the sprite has played out and can be dropped.
    pub fn is_done(&self) -> (r: bool)
        ensures
            r == (self.spec_phase().spec_pos() >= UNIT),
    {
        match self {
            Sprite::Circle(a) => a.is_done(),
            Sprite::Explosion(a) => a.is_done(),
            Sprite::Twinkle(a) => a.is_done(),
        }
    }

    /// Renders the sprite into the pole buffers: exactly the pixels its kind
    /// hits carry its color, and nothing else changes.
    pub fn animate_poles(&self, poles: &mut Vec<Pole>)
        requires
            self.inv(),
            poles_wf(old(poles)@),
        ensures
            poles_wf(final(poles)@),
            same_shapes(old(poles)@, final(poles)@),
            (match self {
                Sprite::Circle(a) => circle_rendered(*a, old(poles)@, final(poles)@),
                Sprite::Explosion(a) => explosion_rendered(*a, old(poles)@, final(poles)@),
                Sprite::Twinkle(a) => twinkle_rendered(*a, old(poles)@, final(poles)@),
            }),
    {
        match self {
            Sprite::Circle(a) => a.animate_poles(poles),
            Sprite::Explosion(a) => a.animate_poles(poles),
            Sprite::Twinkle(a) => a.animate_poles(poles),
        }
    }
}

/// The idle-ambient generator: paints the low background wash every frame and
/// spawns a twinkle sprite on a fixed period.
pub struct IdleAnim {
    pub add_circle_phase: AnimPhase,
}

/// The background wash every frame lays under all other layers.
pub open spec fn wash_color() -> Hsl {
    Hsl { hue: 688_888, saturation: 980, lightness: 150 }
}

/// How often the idle generator spawns an ambient twinkle, and how long each
/// twinkle lives, in milliseconds.
pub const AMBIENT_PERIOD_MS: u64 = 200;

impl IdleAnim {
    /// A generator that considers spawning a twinkle once per ambient period.
    pub fn new() -> (r: IdleAnim)
        ensures
            r.add_circle_phase.wf(),
            r.add_circle_phase.spec_pos() == 0,
            r.add_circle_phase.spec_total_ms() == AMBIENT_PERIOD_MS,
    {
        IdleAnim { add_circle_phase: AnimPhase::new(AMBIENT_PERIOD_MS) }
    }

    /// Paints the background wash into every pole's main range and, exactly
    /// when the spawn period has elapsed, hands back a fresh white twinkle.
    pub fn animate_poles(&mut self, poles: &mut Vec<Pole>, delta_ms: u64) -> (spawned: Option<
        Sprite,
    >)
        requires
            old(self).add_circle_phase.wf(),
            delta_ms <= MAX_DELTA_MS,
            poles_wf(old(poles)@),
        ensures
            final(self).add_circle_phase.wf(),
            final(self).add_circle_phase.spec_total_ms() == old(
                self,
            ).add_circle_phase.spec_total_ms(),
            final(self).add_circle_phase.spec_pos() == phase_advance(
                old(self).add_circle_phase.spec_pos(),
                delta_ms,
                old(self).add_circle_phase.spec_total_ms(),
            ) % UNIT,
            poles_wf(final(poles)@),
            same_shapes(old(poles)@, final(poles)@),
            (spawned is Some) == (phase_advance(
                old(self).add_circle_phase.spec_pos(),
                delta_ms,
                old(self).add_circle_phase.spec_total_ms(),
            ) >= UNIT),
            match spawned {
                Some(s) => {
                    &&& s.inv()
                    &&& s is Twinkle
                    &&& s.spec_phase().spec_pos() == 0
                    &&& s.spec_phase().spec_total_ms() == AMBIENT_PERIOD_MS
                },
                None => true,
            },
            forall|i: int, k: int|
                0 <= i < final(poles)@.len() && 0 <= k < final(poles)@[i].spec_pole_length()
                    ==> #[trigger] final(poles)@[i].spec_leds()[k] == wash_color(),
    {
        self.add_circle_phase.update(delta_ms);
        let spawned: Option<Sprite> = if self.add_circle_phase.is_done() {
            Some(
                Sprite::Twinkle(TwinkleAnim::new(Hsl::new(0, 1000, 1000), AMBIENT_PERIOD_MS)),
            )
        } else {
            None
        };
        self.add_circle_phase.cycle();
        let wash = Hsl::new(688_888, 980, 150);
        let mut i: usize = 0;
        while i < poles.len()
            invariant
                wash == wash_color(),
                poles_wf(poles@),
                same_shapes(old(poles)@, poles@),
                i <= poles@.len(),
                forall|m: int, k: int|
                    0 <= m < i && 0 <= k < poles@[m].spec_pole_length()
                        ==> #[trigger] poles@[m].spec_leds()[k] == wash,
            decreases poles@.len() - i,
        {
            let n = poles[i].pole_length();
            let p = &mut poles[i];
            p.paint_range(0, n, wash);
            i = i + 1;
        }
        spawned
    }
}

} // verus!
