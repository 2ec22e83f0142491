//! The orchestrator: consumes the contact matrix and the elapsed time each
//! frame, derives each pole's logical state, drives the animation state
//! machine and the easing, renders the layered light animations into the pole
//! buffers, and hands the sound dispatcher's event batches back to the
//! caller.

use vstd::prelude::*;

use crate::color::Hsl;
use crate::phase::{AnimPhase, MAX_DELTA_MS};
use crate::pole::{
    derive_state, poles_wf, row_has_peer, row_peers, row_self, same_shapes, state_equiv,
    state_matches, state_wf, Pole, PoleAnimations, PoleState, LEVEL_MAX,
};
use crate::sound::{desired_state, risers_after, update_events, SoundState, SoundStateTracker};
use crate::sprites::Sprite;
use crate::touch::{
    connect_step_spec, explode_step_spec, reverse_step_spec, touch_step_spec, ConnectedAnim,
    ExplodingAnim, ReverseTouchAnim, SinglePoleAnimation, TouchAnim,
};
use crate::touchmap::TouchMap;
use crate::{NUM_POLES, UNIT};

verus! {

/// The animation the transition table assigns, keyed by old and new logical
/// state: unchanged states keep the current animation, a change selects the
/// animation of the new state.
pub open spec fn transition_anim(
    old_state: PoleState,
    m: TouchMap,
    i: int,
    cur_anim: Option<PoleAnimations>,
) -> Option<PoleAnimations> {
    if state_matches(old_state, m, i) {
        cur_anim
    } else if row_has_peer(m, i) {
        Some(PoleAnimations::Connecting)
    } else if row_self(m, i) {
        Some(PoleAnimations::Touching)
    } else {
        None
    }
}

/// Whether the transition table fires the sound dispatcher: every state
/// change does, except one connected peer set replacing another.
pub open spec fn transition_sound_flag(old_state: PoleState, m: TouchMap, i: int) -> bool {
    if state_matches(old_state, m, i) {
        false
    } else if row_has_peer(m, i) {
        !(old_state is ConnectedTo)
    } else {
        true
    }
}

/// The transition table keyed by the old and new state values themselves:
/// unchanged states keep the current animation, a change selects the new
/// state's animation.
pub open spec fn table_anim(
    old_state: PoleState,
    new_state: PoleState,
    cur_anim: Option<PoleAnimations>,
) -> Option<PoleAnimations> {
    if state_equiv(old_state, new_state) {
        cur_anim
    } else {
        match new_state {
            PoleState::NotTouched => None,
            PoleState::Touched => Some(PoleAnimations::Touching),
            PoleState::ConnectedTo(_) => Some(PoleAnimations::Connecting),
        }
    }
}

/// Whether the table fires the sound dispatcher: every state change does,
/// except one connected peer set replacing another.
pub open spec fn table_flag(old_state: PoleState, new_state: PoleState) -> bool {
    if state_equiv(old_state, new_state) {
        false
    } else {
        match new_state {
            PoleState::ConnectedTo(_) => !(old_state is ConnectedTo),
            _ => true,
        }
    }
}

/// On a row that classifies to `new_state`, the value-keyed table agrees with
/// the row-keyed one.
pub proof fn lemma_table_matches(
    old_state: PoleState,
    new_state: PoleState,
    cur_anim: Option<PoleAnimations>,
    m: TouchMap,
    i: int,
)
    requires
        state_matches(new_state, m, i),
    ensures
        table_anim(old_state, new_state, cur_anim) == transition_anim(old_state, m, i, cur_anim),
        table_flag(old_state, new_state) == transition_sound_flag(old_state, m, i),
{
    assert(state_equiv(old_state, new_state) == state_matches(old_state, m, i));
}

/// The every-frame exploding override: a connected pole at full glow with
/// some peer also at full glow is forced into `Exploding`.
pub open spec fn pole_is_exploding(m: TouchMap, i: int, levels: Seq<u32>) -> bool {
    &&& row_has_peer(m, i)
    &&& levels[i] == LEVEL_MAX
    &&& exists|j: int| #[trigger] row_peers(m, i).contains(j) && levels[j] == LEVEL_MAX
}

/// The animation pole `i` ends the frame with: the table's choice, overridden
/// to `Exploding` while the pole and a peer sit at full glow. The override is
/// evaluated every frame in both directions: a connected pole whose mutual
/// full glow is gone leaves `Exploding` for the connecting ramp even without
/// a logical-state transition.
pub open spec fn frame_anim(p: Pole, m: TouchMap, i: int, levels: Seq<u32>) -> Option<
    PoleAnimations,
> {
    if pole_is_exploding(m, i, levels) {
        Some(PoleAnimations::Exploding)
    } else {
        let t = transition_anim(p.state, m, i, p.anim);
        if row_has_peer(m, i) && t == Some(PoleAnimations::Exploding) {
            Some(PoleAnimations::Connecting)
        } else {
            t
        }
    }
}

/// Whether pole `i` calls the sound dispatcher this frame: on the table's
/// transitions and on every flip of the exploding override.
pub open spec fn frame_sound_flag(p: Pole, m: TouchMap, i: int, levels: Seq<u32>) -> bool {
    ||| transition_sound_flag(p.state, m, i)
    ||| (row_has_peer(m, i) && ((p.anim == Some(PoleAnimations::Exploding)) != pole_is_exploding(
        m,
        i,
        levels,
    )))
}

/// The pole pair a control-point-1 petal covers: the even pole of the pair
/// and its lower neighbour on the ring.
pub open spec fn petal_cp1_poles(index: int) -> (int, int) {
    (2 * index, if index == 0 {
        (NUM_POLES - 1) as int
    } else {
        2 * index - 1
    })
}

/// The pole pair a control-point-2 petal covers: the even pole of the pair
/// and the pole three places below it on the ring.
pub open spec fn petal_cp2_poles(index: int) -> (int, int) {
    (2 * index, if index <= 1 {
        (NUM_POLES as int) + 2 * index - 3
    } else {
        2 * index - 3
    })
}

/// `after` is `before` with the first `upto` LEDs painted `c` and nothing
/// else moved.
pub open spec fn painted_prefix(before: Pole, after: Pole, c: Hsl, upto: int) -> bool {
    &&& Pole::same_non_buffer(before, after)
    &&& forall|k: int| 0 <= k < upto ==> after.spec_leds()[k] == c
    &&& forall|k: int|
        upto <= k < before.spec_leds().len() ==> after.spec_leds()[k] == before.spec_leds()[k]
}

/// Which control-point-1 petal pair covers pole `p`.
pub open spec fn cp1_petal_of(p: int) -> int {
    if p % 2 == 0 {
        p / 2
    } else if p == (NUM_POLES - 1) as int {
        0
    } else {
        (p + 1) / 2
    }
}

/// The hue the flower sweep gives the control-point-1 petal of pair `i` at
/// phase position `pos`.
pub open spec fn flower_cp1_hue(pos: u64, i: int) -> u32 {
    (((pos as int) + (2 * i) * (UNIT as int) / (NUM_POLES as int)) % (UNIT as int)) as u32
}

/// Which control-point-2 petal pair covers pole `p`.
pub open spec fn cp2_petal_of(p: int) -> int {
    if p % 2 == 0 {
        p / 2
    } else if p == (NUM_POLES - 3) as int {
        0
    } else if p == (NUM_POLES - 1) as int {
        1
    } else {
        (p + 3) / 2
    }
}

/// The hue the flower sweep gives the control-point-2 petal of pair `i`: the
/// opposite of the pair's control-point-1 hue.
pub open spec fn flower_cp2_hue(pos: u64, i: int) -> u32 {
    (((flower_cp1_hue(pos, i) as int) + (UNIT as int) / 2) % (UNIT as int)) as u32
}

/// Pole `q` is one of the chase's active targets.
pub open spec fn chase_selected(sel: Seq<Option<usize>>, q: int) -> bool {
    exists|t: int| 0 <= t < sel.len() && #[trigger] sel[t] == Some(q as usize)
}

/// The hue one disco step gives a petal: a fixed large stride around the hue
/// circle, scaled from the step counter plus the petal's offset.
pub open spec fn disco_hue(state: u64, off: int) -> u32 {
    ((((state as int) % (UNIT as int)) + off) * 324_525 % (UNIT as int)) as u32
}

/// The heart lightness the breathing phase gives at position `val` of its
/// cycle: a triangle wave between 0.1 and 0.6 of full scale.
pub open spec fn heart_lightness(val: u64) -> u32
    recommends
        val < UNIT,
{
    let breath = if val <= UNIT / 2 {
        val as int
    } else {
        (UNIT - val) as int
    };
    (100 + 1000 * breath / (UNIT as int)) as u32
}

/// The orchestrator's own state: the ambient generator, the live sprites, the
/// sound dispatcher, and the phase timers of the display modes.
pub struct Animator {
    /// Spawns ambient twinkles and paints the background wash.
    pub idle_anim: crate::sprites::IdleAnim,
    /// Background sprites, rendered beneath the glow layers.
    pub backgroundsprites: Vec<crate::sprites::Sprite>,
    /// Foreground sprites, rendered on top of everything.
    pub sprites: Vec<crate::sprites::Sprite>,
    /// The sound dispatcher's stored state.
    pub sound: SoundStateTracker,
    /// Drives the heart breathing, one cycle per five seconds.
    pub heart_phase: AnimPhase,
    /// Drives the flower mode sweep, one cycle per ten seconds.
    pub flower_phase: AnimPhase,
    /// Drives the disco mode stepping, one step per half second.
    pub disco_phase: AnimPhase,
    /// How many disco steps have run.
    pub disco_state: u64,
    /// Drives the chase animation, one sweep per two seconds.
    pub anim1_phase: AnimPhase,
    /// Which poles the chase is currently running on.
    pub anim1_poles: Vec<Option<usize>>,
    /// The chase's current hue, drawn from just under six radians of the hue
    /// circle (at most `359 * 2652` fixed-point units).
    pub anim1_color: u32,
    /// Whether the chase runs up the poles (else down).
    pub anim1_direction: bool,
    /// Which poles a sweep has visited since everything last lit up.
    pub anim1_cleared_poles: Vec<bool>,
}

impl Animator {
    /// All parts well-formed.
    pub open spec fn wf(self) -> bool {
        &&& self.idle_anim.add_circle_phase.wf()
        &&& forall|k: int|
            0 <= k < self.backgroundsprites@.len() ==> (#[trigger] self.backgroundsprites@[k]).inv()
        &&& forall|k: int| 0 <= k < self.sprites@.len() ==> (#[trigger] self.sprites@[k]).inv()
        &&& self.sound.wf()
        &&& self.heart_phase.wf()
        &&& self.flower_phase.wf()
        &&& self.disco_phase.wf()
        &&& self.anim1_phase.wf()
        &&& self.anim1_poles@.len() == 5
        &&& forall|k: int|
            0 <= k < 5 ==> match #[trigger] self.anim1_poles@[k] {
                Some(p) => p < NUM_POLES,
                None => true,
            }
        &&& self.anim1_color <= 359 * 2652
        &&& self.anim1_cleared_poles@.len() == NUM_POLES
    }

    /// An animator with no live sprites, no sound playing, and the
    /// installation's cycle lengths: a five-second heartbeat, a ten-second
    /// flower sweep, a half-second disco beat and a two-second chase sweep.
    pub fn new() -> (a: Animator)
        ensures
            a.wf(),
            a.sound.risers == 0,
            a.sprites@.len() == 0,
            a.backgroundsprites@.len() == 0,
            forall|k: int|
                0 <= k < NUM_POLES ==> a.sound.sound_state@[k]
                    == crate::sound::SoundState::spec_empty(),
            a.heart_phase.spec_total_ms() == 5_000 && a.heart_phase.spec_pos() == 0,
            a.flower_phase.spec_total_ms() == 10_000 && a.flower_phase.spec_pos() == 0,
            a.disco_phase.spec_total_ms() == 500 && a.disco_phase.spec_pos() == 0,
            a.anim1_phase.spec_total_ms() == 2_000 && a.anim1_phase.spec_pos() == 0,
            a.idle_anim.add_circle_phase.spec_total_ms() == crate::sprites::AMBIENT_PERIOD_MS,
            a.idle_anim.add_circle_phase.spec_pos() == 0,
            a.disco_state == 0,
    {
        let mut anim1_poles: Vec<Option<usize>> = Vec::new();
        anim1_poles.push(Some(0));
        anim1_poles.push(None);
        anim1_poles.push(None);
        anim1_poles.push(None);
        anim1_poles.push(None);
        let mut anim1_cleared_poles: Vec<bool> = Vec::new();
        let mut k: usize = 0;
        while k < NUM_POLES
            invariant
                k <= NUM_POLES,
                anim1_cleared_poles@.len() == k,
            decreases NUM_POLES - k,
        {
            anim1_cleared_poles.push(false);
            k = k + 1;
        }
        Animator {
            idle_anim: crate::sprites::IdleAnim::new(),
            backgroundsprites: Vec::new(),
            sprites: Vec::new(),
            sound: SoundStateTracker::new(),
            heart_phase: AnimPhase::new(5_000),
            flower_phase: AnimPhase::new(10_000),
            disco_phase: AnimPhase::new(500),
            disco_state: 0,
            anim1_phase: AnimPhase::new(2_000),
            anim1_poles,
            anim1_color: 0,
            anim1_direction: false,
            anim1_cleared_poles,
        }
    }

    /// The transition table of the animation state machine: returns the new
    /// animation and whether the sound dispatcher must run. `new_state` is
    /// this frame's classification of the pole's row.
    pub fn transition(
        old_state: &PoleState,
        new_state: &PoleState,
        cur_anim: Option<PoleAnimations>,
    ) -> (r: (Option<PoleAnimations>, bool))
        ensures
            r.0 == table_anim(*old_state, *new_state, cur_anim),
            r.1 == table_flag(*old_state, *new_state),
    {
        let unchanged = crate::pole::pole_state_eq(old_state, new_state);
        if unchanged {
            (cur_anim, false)
        } else {
            match new_state {
                PoleState::NotTouched => (None, true),
                PoleState::Touched => (Some(PoleAnimations::Touching), true),
                PoleState::ConnectedTo(_) => {
                    let was_connected = match old_state {
                        PoleState::ConnectedTo(_) => true,
                        _ => false,
                    };
                    (Some(PoleAnimations::Connecting), !was_connected)
                },
            }
        }
    }

    /// Breathes every pole's heart range: the base hue with a lightness that
    /// rises and falls sinusoid-like over a five-second cycle.
    pub fn animate_hearts(&mut self, poles: &mut Vec<Pole>, delta_ms: u64)
        requires
            old(self).wf(),
            delta_ms <= MAX_DELTA_MS,
            poles_wf(old(poles)@),
        ensures
            final(self).wf(),
            poles_wf(final(poles)@),
            same_shapes(old(poles)@, final(poles)@),
            final(self).sound == old(self).sound,
            final(self).heart_phase.spec_pos() == crate::phase::phase_advance(
                old(self).heart_phase.spec_pos(),
                delta_ms,
                old(self).heart_phase.spec_total_ms(),
            ) % UNIT,
            forall|i: int, k: int|
                0 <= i < final(poles)@.len() && final(poles)@[i].spec_heart().0 <= k
                    < final(poles)@[i].spec_heart().1
                    ==> #[trigger] final(poles)@[i].spec_leds()[k] == (Hsl {
                    hue: final(poles)@[i].base_color.hue,
                    saturation: final(poles)@[i].base_color.saturation,
                    lightness: heart_lightness(final(self).heart_phase.spec_pos()),
                }),
            forall|i: int, k: int|
                0 <= i < final(poles)@.len() && 0 <= k < old(poles)@[i].spec_leds().len() && !(old(
                    poles,
                )@[i].spec_heart().0 <= k < old(poles)@[i].spec_heart().1)
                    ==> #[trigger] final(poles)@[i].spec_leds()[k] == old(poles)@[i].spec_leds()[k],
    {
        let val = self.heart_phase.cyclic_update(delta_ms);
        let breath: u64 = if val <= UNIT / 2 {
            val
        } else {
            UNIT - val
        };
        let light: u32 = (100 + 1000 * breath / UNIT) as u32;
        proof {
            assert(light == heart_lightness(val));
            assert(light <= 600);
        }
        let mut i: usize = 0;
        while i < poles.len()
            invariant
                light == heart_lightness(self.heart_phase.spec_pos()),
                light <= 600,
                poles_wf(poles@),
                same_shapes(old(poles)@, poles@),
                i <= poles@.len(),
                forall|m: int, k: int|
                    0 <= m < i && poles@[m].spec_heart().0 <= k < poles@[m].spec_heart().1
                        ==> #[trigger] poles@[m].spec_leds()[k] == (Hsl {
                        hue: poles@[m].base_color.hue,
                        saturation: poles@[m].base_color.saturation,
                        lightness: light,
                    }),
                forall|m: int, k: int|
                    0 <= m < i && 0 <= k < old(poles)@[m].spec_leds().len() && !(old(
                        poles,
                    )@[m].spec_heart().0 <= k < old(poles)@[m].spec_heart().1)
                        ==> #[trigger] poles@[m].spec_leds()[k] == old(poles)@[m].spec_leds()[k],
                forall|m: int| i <= m < poles@.len() ==> poles@[m] == old(poles)@[m],
            decreases poles@.len() - i,
        {
            let base = poles[i].base_color;
            let curhue = Hsl::new(base.hue, base.saturation, light);
            let (hs, he) = poles[i].heart();
            let p = &mut poles[i];
            p.paint_range(hs, he, curhue);
            i = i + 1;
        }
    }

    /// Paints the control-point-1 petal of pole pair `index`: the even pole
    /// and its lower neighbour on the ring.
    pub fn draw_petal_cp1(poles: &mut Vec<Pole>, index: usize, c: Hsl)
        requires
            poles_wf(old(poles)@),
            old(poles)@.len() == NUM_POLES,
            index < NUM_POLES / 2,
            c.wf(),
        ensures
            poles_wf(final(poles)@),
            same_shapes(old(poles)@, final(poles)@),
            painted_prefix(
                old(poles)@[petal_cp1_poles(index as int).0],
                final(poles)@[petal_cp1_poles(index as int).0],
                c,
                old(poles)@[petal_cp1_poles(index as int).0].spec_cp1(),
            ),
            painted_prefix(
                old(poles)@[petal_cp1_poles(index as int).1],
                final(poles)@[petal_cp1_poles(index as int).1],
                c,
                old(poles)@[petal_cp1_poles(index as int).1].spec_cp1(),
            ),
            forall|p: int|
                0 <= p < NUM_POLES && p != petal_cp1_poles(index as int).0 && p != petal_cp1_poles(
                    index as int,
                ).1 ==> final(poles)@[p] == old(poles)@[p],
    {
        let string1 = index * 2;
        let string2 = if index == 0 {
            NUM_POLES - 1
        } else {
            string1 - 1
        };
        let n1 = poles[string1].cp1();
        let p1 = &mut poles[string1];
        p1.paint_range(0, n1, c);
        let n2 = poles[string2].cp1();
        let p2 = &mut poles[string2];
        p2.paint_range(0, n2, c);
    }

    /// Paints the control-point-2 petal of pole pair `index`: the even pole
    /// and the pole three places below it on the ring.
    pub fn draw_petal_cp2(poles: &mut Vec<Pole>, index: usize, c: Hsl)
        requires
            poles_wf(old(poles)@),
            old(poles)@.len() == NUM_POLES,
            index < NUM_POLES / 2,
            c.wf(),
        ensures
            poles_wf(final(poles)@),
            same_shapes(old(poles)@, final(poles)@),
            painted_prefix(
                old(poles)@[petal_cp2_poles(index as int).0],
                final(poles)@[petal_cp2_poles(index as int).0],
                c,
                old(poles)@[petal_cp2_poles(index as int).0].spec_cp2(),
            ),
            painted_prefix(
                old(poles)@[petal_cp2_poles(index as int).1],
                final(poles)@[petal_cp2_poles(index as int).1],
                c,
                old(poles)@[petal_cp2_poles(index as int).1].spec_cp2(),
            ),
            forall|p: int|
                0 <= p < NUM_POLES && p != petal_cp2_poles(index as int).0 && p != petal_cp2_poles(
                    index as int,
                ).1 ==> final(poles)@[p] == old(poles)@[p],
    {
        let string1 = index * 2;
        let string2 = if index <= 1 {
            NUM_POLES + string1 - 3
        } else {
            string1 - 3
        };
        let n1 = poles[string1].cp2();
        let p1 = &mut poles[string1];
        p1.paint_range(0, n1, c);
        let n2 = poles[string2].cp2();
        let p2 = &mut poles[string2];
        p2.paint_range(0, n2, c);
    }

    /// Flower mode: two angular hue sweeps, one per control-point layer,
    /// rotating around the ring over a ten-second cycle.
    pub fn animate_flower(&mut self, poles: &mut Vec<Pole>, delta_ms: u64)
        requires
            old(self).wf(),
            delta_ms <= MAX_DELTA_MS,
            poles_wf(old(poles)@),
            old(poles)@.len() == NUM_POLES,
        ensures
            final(self).wf(),
            poles_wf(final(poles)@),
            same_shapes(old(poles)@, final(poles)@),
            final(self).flower_phase.spec_pos() == crate::phase::phase_advance(
                old(self).flower_phase.spec_pos(),
                delta_ms,
                old(self).flower_phase.spec_total_ms(),
            ) % UNIT,
            final(self).sound == old(self).sound,
            final(self).heart_phase == old(self).heart_phase,
            final(self).disco_phase == old(self).disco_phase,
            forall|p: int, k: int|
                0 <= p < NUM_POLES && 0 <= k < old(poles)@[p].spec_cp1()
                    ==> #[trigger] final(poles)@[p].spec_leds()[k] == (Hsl {
                    hue: flower_cp1_hue(final(self).flower_phase.spec_pos(), cp1_petal_of(p)),
                    saturation: 1000u32,
                    lightness: 500u32,
                }),
            forall|p: int, k: int|
                0 <= p < NUM_POLES && old(poles)@[p].spec_cp1() <= k < old(poles)@[p].spec_cp2()
                    ==> #[trigger] final(poles)@[p].spec_leds()[k] == (Hsl {
                    hue: flower_cp2_hue(final(self).flower_phase.spec_pos(), cp2_petal_of(p)),
                    saturation: 1000u32,
                    lightness: 500u32,
                }),
    {
        let current = self.flower_phase.cyclic_update(delta_ms);
        let mut i: usize = 0;
        while i < NUM_POLES / 2
            invariant
                current < UNIT,
                current == self.flower_phase.spec_pos(),
                poles_wf(poles@),
                same_shapes(old(poles)@, poles@),
                poles@.len() == NUM_POLES,
                i <= NUM_POLES / 2,
                forall|p: int, k: int|
                    0 <= p < NUM_POLES && cp2_petal_of(p) < i && 0 <= k < poles@[p].spec_cp2()
                        ==> #[trigger] poles@[p].spec_leds()[k] == (Hsl {
                        hue: flower_cp2_hue(current, cp2_petal_of(p)),
                        saturation: 1000u32,
                        lightness: 500u32,
                    }),
            decreases NUM_POLES / 2 - i,
        {
            let string1: u64 = (i as u64) * 2;
            let currentangle: u64 = (current + string1 * UNIT / (NUM_POLES as u64)) % UNIT;
            let oppositeangle: u64 = (currentangle + UNIT / 2) % UNIT;
            let ophue = Hsl::new(oppositeangle as u32, 1000, 500);
            proof {
                assert(ophue.hue == flower_cp2_hue(current, i as int));
                assert(cp2_petal_of(petal_cp2_poles(i as int).0) == i as int);
                assert(cp2_petal_of(petal_cp2_poles(i as int).1) == i as int);
            }
            Self::draw_petal_cp2(poles, i, ophue);
            proof {
                assert forall|p: int, k: int|
                    0 <= p < NUM_POLES && cp2_petal_of(p) < i + 1 && 0 <= k
                        < poles@[p].spec_cp2() implies #[trigger] poles@[p].spec_leds()[k] == (Hsl {
                    hue: flower_cp2_hue(current, cp2_petal_of(p)),
                    saturation: 1000u32,
                    lightness: 500u32,
                }) by {
                    if p == petal_cp2_poles(i as int).0 || p == petal_cp2_poles(i as int).1 {
                        assert(cp2_petal_of(p) == i as int);
                    } else {
                        assert(cp2_petal_of(p) != i as int);
                    }
                }
            }
            i = i + 1;
        }
        let mut i: usize = 0;
        while i < NUM_POLES / 2
            invariant
                current < UNIT,
                current == self.flower_phase.spec_pos(),
                poles_wf(poles@),
                same_shapes(old(poles)@, poles@),
                poles@.len() == NUM_POLES,
                i <= NUM_POLES / 2,
                forall|p: int, k: int|
                    0 <= p < NUM_POLES && cp1_petal_of(p) < i && 0 <= k < poles@[p].spec_cp1()
                        ==> #[trigger] poles@[p].spec_leds()[k] == (Hsl {
                        hue: flower_cp1_hue(current, cp1_petal_of(p)),
                        saturation: 1000u32,
                        lightness: 500u32,
                    }),
                forall|p: int, k: int|
                    0 <= p < NUM_POLES && poles@[p].spec_cp1() <= k < poles@[p].spec_cp2()
                        ==> #[trigger] poles@[p].spec_leds()[k] == (Hsl {
                        hue: flower_cp2_hue(current, cp2_petal_of(p)),
                        saturation: 1000u32,
                        lightness: 500u32,
                    }),
            decreases NUM_POLES / 2 - i,
        {
            let string1: u64 = (i as u64) * 2;
            let currentangle: u64 = (current + string1 * UNIT / (NUM_POLES as u64)) % UNIT;
            let curhue = Hsl::new(currentangle as u32, 1000, 500);
            proof {
                assert(curhue.hue == flower_cp1_hue(current, i as int));
                assert(petal_cp1_poles(i as int).0 % 2 == 0);
                assert(cp1_petal_of(petal_cp1_poles(i as int).0) == i as int);
                assert(cp1_petal_of(petal_cp1_poles(i as int).1) == i as int);
            }
            Self::draw_petal_cp1(poles, i, curhue);
            proof {
                assert forall|p: int, k: int|
                    0 <= p < NUM_POLES && cp1_petal_of(p) < i + 1 && 0 <= k
                        < poles@[p].spec_cp1() implies #[trigger] poles@[p].spec_leds()[k] == (Hsl {
                    hue: flower_cp1_hue(current, cp1_petal_of(p)),
                    saturation: 1000u32,
                    lightness: 500u32,
                }) by {
                    if p == petal_cp1_poles(i as int).0 || p == petal_cp1_poles(i as int).1 {
                        assert(cp1_petal_of(p) == i as int);
                    } else {
                        assert(cp1_petal_of(p) != i as int);
                    }
                }
            }
            i = i + 1;
        }
    }

    /// Disco mode: on a half-second beat, repaints both petal layers with
    /// fixed-stride hue steps around the ring; between beats it leaves the
    /// buffers untouched.
    pub fn animate_disco(&mut self, poles: &mut Vec<Pole>, delta_ms: u64)
        requires
            old(self).wf(),
            delta_ms <= MAX_DELTA_MS,
            poles_wf(old(poles)@),
            old(poles)@.len() == NUM_POLES,
        ensures
            final(self).wf(),
            poles_wf(final(poles)@),
            same_shapes(old(poles)@, final(poles)@),
            final(self).sound == old(self).sound,
            final(self).heart_phase == old(self).heart_phase,
            final(self).flower_phase == old(self).flower_phase,
            ({
                let p = crate::phase::phase_advance(
                    old(self).disco_phase.spec_pos(),
                    delta_ms,
                    old(self).disco_phase.spec_total_ms(),
                );
                if p >= UNIT {
                    &&& final(self).disco_phase.spec_pos() == p % UNIT
                    &&& final(self).disco_state == old(self).disco_state.wrapping_add(1)
                    &&& forall|q: int, k: int|
                        0 <= q < NUM_POLES && 0 <= k < old(poles)@[q].spec_cp1()
                            ==> #[trigger] final(poles)@[q].spec_leds()[k] == (Hsl {
                            hue: disco_hue(final(self).disco_state, 5 + cp1_petal_of(q)),
                            saturation: 1000u32,
                            lightness: 500u32,
                        })
                    &&& forall|q: int, k: int|
                        0 <= q < NUM_POLES && old(poles)@[q].spec_cp1() <= k < old(
                            poles,
                        )@[q].spec_cp2() ==> #[trigger] final(poles)@[q].spec_leds()[k] == (Hsl {
                            hue: disco_hue(final(self).disco_state, cp2_petal_of(q)),
                            saturation: 1000u32,
                            lightness: 500u32,
                        })
                } else {
                    &&& final(self).disco_phase.spec_pos() == p
                    &&& final(self).disco_state == old(self).disco_state
                    &&& final(poles)@ == old(poles)@
                }
            }),
    {
        self.disco_phase.update(delta_ms);
        if self.disco_phase.is_done() {
            self.disco_state = self.disco_state.wrapping_add(1);
            self.disco_phase.cycle();
        } else {
            return ;
        }
        let ghost state1 = self.disco_state;
        let s_mod: u64 = self.disco_state % UNIT;
        let mut i: usize = 0;
        while i < NUM_POLES / 2
            invariant
                s_mod < UNIT,
                s_mod as int == (state1 as int) % (UNIT as int),
                poles_wf(poles@),
                same_shapes(old(poles)@, poles@),
                poles@.len() == NUM_POLES,
                i <= NUM_POLES / 2,
                forall|q: int, k: int|
                    0 <= q < NUM_POLES && cp2_petal_of(q) < i && 0 <= k < poles@[q].spec_cp2()
                        ==> #[trigger] poles@[q].spec_leds()[k] == (Hsl {
                        hue: disco_hue(state1, cp2_petal_of(q)),
                        saturation: 1000u32,
                        lightness: 500u32,
                    }),
            decreases NUM_POLES / 2 - i,
        {
            let hue: u64 = ((s_mod + i as u64) * 324_525) % UNIT;
            let c = Hsl::new(hue as u32, 1000, 500);
            proof {
                assert(c.hue == disco_hue(state1, i as int));
                assert(cp2_petal_of(petal_cp2_poles(i as int).0) == i as int);
                assert(cp2_petal_of(petal_cp2_poles(i as int).1) == i as int);
            }
            Self::draw_petal_cp2(poles, i, c);
            proof {
                assert forall|q: int, k: int|
                    0 <= q < NUM_POLES && cp2_petal_of(q) < i + 1 && 0 <= k
                        < poles@[q].spec_cp2() implies #[trigger] poles@[q].spec_leds()[k] == (Hsl {
                    hue: disco_hue(state1, cp2_petal_of(q)),
                    saturation: 1000u32,
                    lightness: 500u32,
                }) by {
                    if q == petal_cp2_poles(i as int).0 || q == petal_cp2_poles(i as int).1 {
                        assert(cp2_petal_of(q) == i as int);
                    } else {
                        assert(cp2_petal_of(q) != i as int);
                    }
                }
            }
            i = i + 1;
        }
        let mut i: usize = 0;
        while i < NUM_POLES / 2
            invariant
                s_mod < UNIT,
                s_mod as int == (state1 as int) % (UNIT as int),
                poles_wf(poles@),
                same_shapes(old(poles)@, poles@),
                poles@.len() == NUM_POLES,
                i <= NUM_POLES / 2,
                forall|q: int, k: int|
                    0 <= q < NUM_POLES && cp1_petal_of(q) < i && 0 <= k < poles@[q].spec_cp1()
                        ==> #[trigger] poles@[q].spec_leds()[k] == (Hsl {
                        hue: disco_hue(state1, 5 + cp1_petal_of(q)),
                        saturation: 1000u32,
                        lightness: 500u32,
                    }),
                forall|q: int, k: int|
                    0 <= q < NUM_POLES && poles@[q].spec_cp1() <= k < poles@[q].spec_cp2()
                        ==> #[trigger] poles@[q].spec_leds()[k] == (Hsl {
                        hue: disco_hue(state1, cp2_petal_of(q)),
                        saturation: 1000u32,
                        lightness: 500u32,
                    }),
            decreases NUM_POLES / 2 - i,
        {
            let hue: u64 = ((s_mod + 5 + i as u64) * 324_525) % UNIT;
            let c = Hsl::new(hue as u32, 1000, 500);
            proof {
                assert(c.hue == disco_hue(state1, 5 + i as int));
                assert(cp1_petal_of(petal_cp1_poles(i as int).0) == i as int);
                assert(cp1_petal_of(petal_cp1_poles(i as int).1) == i as int);
            }
            Self::draw_petal_cp1(poles, i, c);
            proof {
                assert forall|q: int, k: int|
                    0 <= q < NUM_POLES && cp1_petal_of(q) < i + 1 && 0 <= k
                        < poles@[q].spec_cp1() implies #[trigger] poles@[q].spec_leds()[k] == (Hsl {
                    hue: disco_hue(state1, 5 + cp1_petal_of(q)),
                    saturation: 1000u32,
                    lightness: 500u32,
                }) by {
                    if q == petal_cp1_poles(i as int).0 || q == petal_cp1_poles(i as int).1 {
                        assert(cp1_petal_of(q) == i as int);
                    } else {
                        assert(cp1_petal_of(q) != i as int);
                    }
                }
            }
            i = i + 1;
        }
    }
}

impl Animator {
    /// The chase animation: a bright ten-pixel head sweeps along a handful of
    /// randomly chosen poles, clearing its trail; each sweep marks its poles
    /// visited, and once every pole has been visited the whole ring lights up
    /// and the tally starts over.
    pub fn animate_anim1(&mut self, poles: &mut Vec<Pole>, delta_ms: u64)
        requires
            old(self).wf(),
            delta_ms <= MAX_DELTA_MS,
            poles_wf(old(poles)@),
            old(poles)@.len() == NUM_POLES,
        ensures
            final(self).wf(),
            poles_wf(final(poles)@),
            same_shapes(old(poles)@, final(poles)@),
            final(self).sound == old(self).sound,
            ({
                let p = crate::phase::phase_advance(
                    old(self).anim1_phase.spec_pos(),
                    delta_ms,
                    old(self).anim1_phase.spec_total_ms(),
                );
                &&& final(self).anim1_phase.spec_pos() == if p >= UNIT {
                    p % UNIT
                } else {
                    p
                }
                &&& final(self).anim1_direction == if p >= UNIT {
                    !old(self).anim1_direction
                } else {
                    old(self).anim1_direction
                }
                &&& (p >= UNIT ==> exists|t: int|
                    0 <= t < 5 && (#[trigger] final(self).anim1_poles@[t]) is Some)
                &&& (p < UNIT ==> final(self).anim1_poles@ == old(self).anim1_poles@ && (forall|
                    q: int,
                |
                    0 <= q < NUM_POLES && !chase_selected(final(self).anim1_poles@, q)
                        ==> final(poles)@[q] == old(poles)@[q]))
            }),
    {
        let current = self.anim1_phase.update(delta_ms);
        let ghost phase_up = self.anim1_phase;
        let ghost fired = phase_up.spec_pos() >= UNIT;
        let lights: Vec<u32> = vec![100, 300, 500, 600, 800, 800, 600, 500, 300, 100, 0];
        if self.anim1_phase.is_done() {
            let mut t: usize = 0;
            while t < 5
                invariant
                    self.wf(),
                    self.sound == old(self).sound,
                    self.anim1_phase == phase_up,
                    self.anim1_direction == old(self).anim1_direction,
                    poles_wf(poles@),
                    same_shapes(old(poles)@, poles@),
                    poles@.len() == NUM_POLES,
                    t <= 5,
                decreases 5 - t,
            {
                match self.anim1_poles[t] {
                    Some(ap) => {
                        let dark = Hsl::new(self.anim1_color, 1000, 0);
                        let n = poles[ap].pole_length();
                        let p = &mut poles[ap];
                        p.paint_range(0, n, dark);
                        self.anim1_cleared_poles[ap] = true;
                    },
                    None => (),
                }
                t = t + 1;
            }
            let num_active = crate::rng::random_range_usize(1, 6);
            let mut t: usize = 0;
            while t < 5
                invariant
                    self.wf(),
                    self.sound == old(self).sound,
                    self.anim1_phase == phase_up,
                    self.anim1_direction == old(self).anim1_direction,
                    num_active >= 1,
                    t >= 1 ==> self.anim1_poles@[0] is Some,
                    t <= 5,
                decreases 5 - t,
            {
                if t < num_active {
                    self.anim1_poles[t] = Some(crate::rng::random_range_usize(0, NUM_POLES));
                } else {
                    self.anim1_poles[t] = None;
                }
                t = t + 1;
            }
            let mut all_cleared = true;
            let mut t: usize = 0;
            while t < NUM_POLES
                invariant
                    self.wf(),
                    self.sound == old(self).sound,
                    self.anim1_phase == phase_up,
                    self.anim1_direction == old(self).anim1_direction,
                    self.anim1_poles@[0] is Some,
                    t <= NUM_POLES,
                decreases NUM_POLES - t,
            {
                if !self.anim1_cleared_poles[t] {
                    all_cleared = false;
                }
                t = t + 1;
            }
            if all_cleared {
                let lit = Hsl::new(self.anim1_color, 1000, 600);
                let mut t: usize = 0;
                while t < NUM_POLES
                    invariant
                        self.wf(),
                        self.sound == old(self).sound,
                        self.anim1_phase == phase_up,
                        self.anim1_direction == old(self).anim1_direction,
                        self.anim1_poles@[0] is Some,
                        poles_wf(poles@),
                        same_shapes(old(poles)@, poles@),
                        poles@.len() == NUM_POLES,
                        lit.wf(),
                        t <= NUM_POLES,
                    decreases NUM_POLES - t,
                {
                    let n = poles[t].pole_length();
                    let p = &mut poles[t];
                    p.paint_range(0, n, lit);
                    t = t + 1;
                }
                let mut t: usize = 0;
                while t < NUM_POLES
                    invariant
                        self.wf(),
                        self.sound == old(self).sound,
                        self.anim1_phase == phase_up,
                        self.anim1_direction == old(self).anim1_direction,
                        self.anim1_poles@[0] is Some,
                        t <= NUM_POLES,
                    decreases NUM_POLES - t,
                {
                    self.anim1_cleared_poles[t] = false;
                    t = t + 1;
                }
            }
            let r = crate::rng::random_range_usize(0, 360);
            proof {
                assert((r as int) * 2652 <= 359 * 2652) by (nonlinear_arith)
                    requires
                        r < 360,
                ;
            }
            self.anim1_color = (r as u32) * 2652;
            self.anim1_direction = !self.anim1_direction;
            self.anim1_phase.cycle();
        }
        let ghost phase_end = self.anim1_phase;
        let ghost dir_end = self.anim1_direction;
        let ghost sel_end = self.anim1_poles@;
        let ghost poles_r = poles@;
        proof {
            assert(dir_end == if fired {
                !old(self).anim1_direction
            } else {
                old(self).anim1_direction
            });
            assert(fired ==> self.anim1_poles@[0] is Some);
            assert(!fired ==> sel_end == old(self).anim1_poles@ && poles_r == old(poles)@);
        }
        let cur2: u64 = if current < UNIT {
            current
        } else {
            UNIT
        };
        let mut t: usize = 0;
        while t < 5
            invariant
                self.wf(),
                self.sound == old(self).sound,
                self.anim1_phase == phase_end,
                self.anim1_direction == dir_end,
                self.anim1_poles@ == sel_end,
                fired ==> self.anim1_poles@[0] is Some,
                forall|q: int|
                    0 <= q < NUM_POLES && !chase_selected(sel_end, q) ==> poles@[q] == poles_r[q],
                poles_wf(poles@),
                same_shapes(old(poles)@, poles@),
                poles@.len() == NUM_POLES,
                cur2 <= UNIT,
                lights@.len() == 11,
                forall|k: int| 0 <= k < 11 ==> #[trigger] lights@[k] <= 1000,
                t <= 5,
            decreases 5 - t,
        {
            match self.anim1_poles[t] {
                Some(ap) => {
                    proof {
                        assert(self.anim1_poles@[t as int] == Some(ap));
                        assert(chase_selected(sel_end, ap as int));
                    }
                    let color_hue = self.anim1_color;
                    if self.anim1_direction {
                        let leadp: i64 = ((cur2 * 159) / UNIT) as i64;
                        let mut pixel_i: usize = 0;
                        while pixel_i < 10
                            invariant
                                self.wf(),
                                self.sound == old(self).sound,
                                self.anim1_phase == phase_end,
                                self.anim1_direction == dir_end,
                                self.anim1_poles@ == sel_end,
                                fired ==> self.anim1_poles@[0] is Some,
                                forall|q: int|
                                    0 <= q < NUM_POLES && !chase_selected(sel_end, q)
                                        ==> poles@[q] == poles_r[q],
                                poles_wf(poles@),
                                same_shapes(old(poles)@, poles@),
                                poles@.len() == NUM_POLES,
                                ap < NUM_POLES,
                                chase_selected(sel_end, ap as int),
                                color_hue < UNIT,
                                0 <= leadp <= 159,
                                lights@.len() == 11,
                                forall|k: int| 0 <= k < 11 ==> #[trigger] lights@[k] <= 1000,
                                pixel_i <= 10,
                            decreases 10 - pixel_i,
                        {
                            let idx: i64 = leadp - (pixel_i as i64);
                            if idx >= 0 && idx < 150 {
                                let c = Hsl::new(color_hue, 1000, lights[pixel_i]);
                                let p = &mut poles[ap];
                                p.paint_led((idx + 1) as usize, c);
                            }
                            pixel_i = pixel_i + 1;
                        }
                        let trail = Hsl::new(color_hue, 1000, 0);
                        let mut clean: i64 = 0;
                        while clean < 150
                            invariant
                                self.wf(),
                                self.sound == old(self).sound,
                                self.anim1_phase == phase_end,
                                self.anim1_direction == dir_end,
                                self.anim1_poles@ == sel_end,
                                fired ==> self.anim1_poles@[0] is Some,
                                forall|q: int|
                                    0 <= q < NUM_POLES && !chase_selected(sel_end, q)
                                        ==> poles@[q] == poles_r[q],
                                poles_wf(poles@),
                                same_shapes(old(poles)@, poles@),
                                poles@.len() == NUM_POLES,
                                ap < NUM_POLES,
                                chase_selected(sel_end, ap as int),
                                trail.wf(),
                                0 <= leadp <= 159,
                                0 <= clean <= 150,
                            decreases 150 - clean,
                        {
                            if clean > leadp || clean < leadp - 10 {
                                let p = &mut poles[ap];
                                p.paint_led((clean + 1) as usize, trail);
                            }
                            clean = clean + 1;
                        }
                    } else {
                        let leadp: i64 = (((UNIT - cur2) * 159) / UNIT) as i64 - 10;
                        let mut pixel_i: usize = 0;
                        while pixel_i < 10
                            invariant
                                self.wf(),
                                self.sound == old(self).sound,
                                self.anim1_phase == phase_end,
                                self.anim1_direction == dir_end,
                                self.anim1_poles@ == sel_end,
                                fired ==> self.anim1_poles@[0] is Some,
                                forall|q: int|
                                    0 <= q < NUM_POLES && !chase_selected(sel_end, q)
                                        ==> poles@[q] == poles_r[q],
                                poles_wf(poles@),
                                same_shapes(old(poles)@, poles@),
                                poles@.len() == NUM_POLES,
                                ap < NUM_POLES,
                                chase_selected(sel_end, ap as int),
                                color_hue < UNIT,
                                -10 <= leadp <= 149,
                                lights@.len() == 11,
                                forall|k: int| 0 <= k < 11 ==> #[trigger] lights@[k] <= 1000,
                                pixel_i <= 10,
                            decreases 10 - pixel_i,
                        {
                            let idx: i64 = leadp + (pixel_i as i64);
                            if idx >= 0 && idx < 150 {
                                let c = Hsl::new(color_hue, 1000, lights[10 - pixel_i]);
                                let p = &mut poles[ap];
                                p.paint_led((idx + 1) as usize, c);
                            }
                            pixel_i = pixel_i + 1;
                        }
                        let trail = Hsl::new(color_hue, 1000, 0);
                        let mut clean: i64 = 0;
                        while clean < 150
                            invariant
                                self.wf(),
                                self.sound == old(self).sound,
                                self.anim1_phase == phase_end,
                                self.anim1_direction == dir_end,
                                self.anim1_poles@ == sel_end,
                                fired ==> self.anim1_poles@[0] is Some,
                                forall|q: int|
                                    0 <= q < NUM_POLES && !chase_selected(sel_end, q)
                                        ==> poles@[q] == poles_r[q],
                                poles_wf(poles@),
                                same_shapes(old(poles)@, poles@),
                                poles@.len() == NUM_POLES,
                                ap < NUM_POLES,
                                chase_selected(sel_end, ap as int),
                                trail.wf(),
                                -10 <= leadp <= 149,
                                0 <= clean <= 150,
                            decreases 150 - clean,
                        {
                            if clean < leadp || clean > leadp + 10 {
                                let p = &mut poles[ap];
                                p.paint_led((clean + 1) as usize, trail);
                            }
                            clean = clean + 1;
                        }
                    }
                },
                None => (),
            }
            t = t + 1;
        }
    }
}

/// The glow levels of a pole sequence, as sampled at the top of a frame.
pub open spec fn levels_of(s: Seq<Pole>) -> Seq<u32> {
    Seq::new(s.len(), |i: int| s[i].level)
}

/// Where one frame's easing moves a pole's levels, by its animation.
pub open spec fn apply_easing(
    anim: Option<PoleAnimations>,
    level: u32,
    touch_level: u32,
    delta_ms: u64,
) -> (u32, u32) {
    match anim {
        Some(PoleAnimations::Touching) => touch_step_spec(level, touch_level, delta_ms),
        Some(PoleAnimations::Connecting) => connect_step_spec(level, touch_level, delta_ms),
        Some(PoleAnimations::Exploding) => explode_step_spec(level, touch_level, delta_ms),
        None => reverse_step_spec(level, touch_level, delta_ms),
    }
}

/// The riser counter after the dispatch pass has handled the first `n` poles,
/// given the poles, the matrix, the level snapshot and the dispatcher's state
/// at the top of the frame.
pub open spec fn frame_risers(
    poles0: Seq<Pole>,
    m: TouchMap,
    levels: Seq<u32>,
    states0: Seq<SoundState>,
    risers0: int,
    n: int,
) -> int
    decreases n,
{
    if n <= 0 {
        risers0
    } else {
        let i = n - 1;
        let prev = frame_risers(poles0, m, levels, states0, risers0, i);
        if frame_sound_flag(poles0[i], m, i, levels) {
            risers_after(states0[i], prev, frame_anim(poles0[i], m, i, levels))
        } else {
            prev
        }
    }
}

/// The sound events the dispatch pass emits for the first `n` poles, in pole
/// order: each flagged pole contributes exactly its `update_events` batch.
pub open spec fn frame_events(
    poles0: Seq<Pole>,
    m: TouchMap,
    levels: Seq<u32>,
    states0: Seq<SoundState>,
    risers0: int,
    n: int,
) -> Seq<crate::sound::OSCEvent>
    decreases n,
{
    if n <= 0 {
        Seq::<crate::sound::OSCEvent>::empty()
    } else {
        let i = n - 1;
        frame_events(poles0, m, levels, states0, risers0, i) + (if frame_sound_flag(
            poles0[i],
            m,
            i,
            levels,
        ) {
            update_events(
                states0[i],
                frame_risers(poles0, m, levels, states0, risers0, i),
                i as usize,
                poles0[i].anim,
                frame_anim(poles0[i], m, i, levels),
            )
        } else {
            Seq::<crate::sound::OSCEvent>::empty()
        })
    }
}

/// The fields of a pole the dispatch pass leaves alone.
spec fn dispatch_keeps(pm: Pole, p: Pole) -> bool {
    &&& p.level == pm.level
    &&& p.touch_level == pm.touch_level
    &&& p.base_color == pm.base_color
    &&& p.current_color == pm.current_color
    &&& p.internal_leds == pm.internal_leds
    &&& p.pole_length == pm.pole_length
    &&& p.cp1 == pm.cp1
    &&& p.cp2 == pm.cp2
    &&& p.heart_start == pm.heart_start
    &&& p.heart_end == pm.heart_end
}

/// The fields of a pole the easing-and-glow pass leaves alone.
spec fn ease_keeps(pm: Pole, p: Pole) -> bool {
    &&& p.state == pm.state
    &&& p.anim == pm.anim
    &&& p.base_color == pm.base_color
    &&& p.current_color == pm.current_color
    &&& p.internal_leds@.len() == pm.internal_leds@.len()
    &&& p.pole_length == pm.pole_length
    &&& p.cp1 == pm.cp1
    &&& p.cp2 == pm.cp2
    &&& p.heart_start == pm.heart_start
    &&& p.heart_end == pm.heart_end
}

/// Advances every live sprite's clock.
fn update_sprites(sprites: &mut Vec<Sprite>, delta_ms: u64)
    requires
        forall|k: int| 0 <= k < old(sprites)@.len() ==> (#[trigger] old(sprites)@[k]).inv(),
        delta_ms <= MAX_DELTA_MS,
    ensures
        forall|k: int| 0 <= k < final(sprites)@.len() ==> (#[trigger] final(sprites)@[k]).inv(),
{
    let mut k: usize = 0;
    while k < sprites.len()
        invariant
            delta_ms <= MAX_DELTA_MS,
            k <= sprites@.len(),
            forall|m: int| 0 <= m < sprites@.len() ==> (#[trigger] sprites@[m]).inv(),
        decreases sprites@.len() - k,
    {
        let sp = &mut sprites[k];
        sp.update(delta_ms);
        k = k + 1;
    }
}

/// Drops every sprite that has played out, keeping the rest in order.
fn drop_done_sprites(sprites: &mut Vec<Sprite>)
    requires
        forall|k: int| 0 <= k < old(sprites)@.len() ==> (#[trigger] old(sprites)@[k]).inv(),
    ensures
        forall|k: int| 0 <= k < final(sprites)@.len() ==> (#[trigger] final(sprites)@[k]).inv(),
{
    let mut rev: Vec<Sprite> = Vec::new();
    while sprites.len() > 0
        invariant
            forall|m: int| 0 <= m < sprites@.len() ==> (#[trigger] sprites@[m]).inv(),
            forall|m: int| 0 <= m < rev@.len() ==> (#[trigger] rev@[m]).inv(),
        decreases sprites@.len(),
    {
        let s = sprites.pop().unwrap();
        if !s.is_done() {
            rev.push(s);
        }
    }
    while rev.len() > 0
        invariant
            forall|m: int| 0 <= m < sprites@.len() ==> (#[trigger] sprites@[m]).inv(),
            forall|m: int| 0 <= m < rev@.len() ==> (#[trigger] rev@[m]).inv(),
        decreases rev@.len(),
    {
        let s = rev.pop().unwrap();
        sprites.push(s);
    }
}

/// Renders every sprite into the pole buffers, in order: last write wins.
fn render_sprites(sprites: &Vec<Sprite>, poles: &mut Vec<Pole>)
    requires
        forall|k: int| 0 <= k < sprites@.len() ==> (#[trigger] sprites@[k]).inv(),
        poles_wf(old(poles)@),
    ensures
        poles_wf(final(poles)@),
        same_shapes(old(poles)@, final(poles)@),
{
    let mut k: usize = 0;
    while k < sprites.len()
        invariant
            forall|m: int| 0 <= m < sprites@.len() ==> (#[trigger] sprites@[m]).inv(),
            k <= sprites@.len(),
            poles_wf(poles@),
            same_shapes(old(poles)@, poles@),
        decreases sprites@.len() - k,
    {
        let s = &sprites[k];
        s.animate_poles(poles);
        k = k + 1;
    }
}

impl Animator {
    /// One frame of the interactive mode: advances and renders the ambient
    /// and overlay sprites, classifies every pole from the contact matrix,
    /// drives the animation table and the exploding override, dispatches the
    /// sound diffs, applies the easing and paints the glow layers. Returns
    /// the frame's sound events in pole order.
    pub fn animate_poles(
        &mut self,
        poles: &mut Vec<Pole>,
        touches: &TouchMap,
        delta_ms: u64,
    ) -> (events: Vec<crate::sound::OSCEvent>)
        requires
            old(self).wf(),
            poles_wf(old(poles)@),
            old(poles)@.len() == NUM_POLES,
            touches.wf(),
            delta_ms <= MAX_DELTA_MS,
        ensures
            final(self).wf(),
            poles_wf(final(poles)@),
            final(poles)@.len() == NUM_POLES,
            forall|i: int|
                0 <= i < NUM_POLES ==> state_matches(
                    (#[trigger] final(poles)@[i]).state,
                    *touches,
                    i,
                ),
            forall|i: int|
                0 <= i < NUM_POLES ==> (#[trigger] final(poles)@[i]).anim == frame_anim(
                    old(poles)@[i],
                    *touches,
                    i,
                    levels_of(old(poles)@),
                ),
            forall|i: int|
                0 <= i < NUM_POLES ==> ((#[trigger] final(poles)@[i]).level,
                    final(poles)@[i].touch_level) == apply_easing(
                    frame_anim(old(poles)@[i], *touches, i, levels_of(old(poles)@)),
                    old(poles)@[i].level,
                    old(poles)@[i].touch_level,
                    delta_ms,
                ),
            events@ == frame_events(
                old(poles)@,
                *touches,
                levels_of(old(poles)@),
                old(self).sound.sound_state@,
                old(self).sound.risers as int,
                NUM_POLES as int,
            ),
            final(self).sound.risers as int == frame_risers(
                old(poles)@,
                *touches,
                levels_of(old(poles)@),
                old(self).sound.sound_state@,
                old(self).sound.risers as int,
                NUM_POLES as int,
            ),
            forall|i: int|
                0 <= i < NUM_POLES ==> final(self).sound.sound_state@[i] == (if frame_sound_flag(
                    old(poles)@[i],
                    *touches,
                    i,
                    levels_of(old(poles)@),
                ) {
                    desired_state(frame_anim(old(poles)@[i], *touches, i, levels_of(old(poles)@)))
                } else {
                    old(self).sound.sound_state@[i]
                }),
    {
        let ghost poles0 = old(poles)@;
        let ghost levels0 = levels_of(old(poles)@);
        let ghost states0 = old(self).sound.sound_state@;
        let ghost risers0 = old(self).sound.risers as int;
        let ghost m = *touches;

        update_sprites(&mut self.sprites, delta_ms);
        update_sprites(&mut self.backgroundsprites, delta_ms);

        let spawned = self.idle_anim.animate_poles(poles, delta_ms);
        match spawned {
            Some(sp) => self.backgroundsprites.push(sp),
            None => (),
        }

        drop_done_sprites(&mut self.backgroundsprites);
        render_sprites(&self.backgroundsprites, poles);

        let mut levels: Vec<u32> = Vec::new();
        let mut k: usize = 0;
        while k < poles.len()
            invariant
                poles_wf(poles@),
                same_shapes(poles0, poles@),
                poles0.len() == NUM_POLES,
                levels0 == levels_of(poles0),
                poles@.len() == NUM_POLES,
                k <= NUM_POLES,
                levels@.len() == k,
                forall|j: int| 0 <= j < k ==> levels@[j] == levels0[j],
            decreases poles@.len() - k,
        {
            levels.push(poles[k].level);
            k = k + 1;
        }

        let ghost poles_mid = poles@;
        let mut events: Vec<crate::sound::OSCEvent> = Vec::new();
        let mut i: usize = 0;
        while i < NUM_POLES
            invariant
                touches.wf(),
                m == *touches,
                delta_ms <= MAX_DELTA_MS,
                poles0.len() == NUM_POLES,
                levels0 == levels_of(poles0),
                i <= NUM_POLES,
                poles@.len() == NUM_POLES,
                poles_mid.len() == NUM_POLES,
                same_shapes(poles0, poles_mid),
                poles_wf(poles_mid),
                levels@.len() == NUM_POLES,
                forall|j: int| 0 <= j < NUM_POLES ==> levels@[j] == levels0[j],
                self.idle_anim.add_circle_phase.wf(),
                self.heart_phase.wf(),
                self.flower_phase.wf(),
                self.disco_phase.wf(),
                self.anim1_phase.wf(),
                self.anim1_poles@.len() == 5,
                forall|k2: int|
                    0 <= k2 < 5 ==> match #[trigger] self.anim1_poles@[k2] {
                        Some(p) => p < NUM_POLES,
                        None => true,
                    },
                self.anim1_color <= 359 * 2652,
                self.anim1_cleared_poles@.len() == NUM_POLES,
                forall|k2: int|
                    0 <= k2 < self.backgroundsprites@.len() ==> (
                    #[trigger] self.backgroundsprites@[k2]).inv(),
                forall|k2: int| 0 <= k2 < self.sprites@.len() ==> (#[trigger] self.sprites@[k2]).inv(),
                self.sound.wf(),
                forall|j: int| 0 <= j < i ==> state_matches((#[trigger] poles@[j]).state, m, j),
                forall|j: int|
                    0 <= j < i ==> (#[trigger] poles@[j]).anim == frame_anim(
                        poles0[j],
                        m,
                        j,
                        levels0,
                    ),
                forall|j: int| 0 <= j < i ==> dispatch_keeps(poles_mid[j], #[trigger] poles@[j]),
                forall|j: int| 0 <= j < i ==> (#[trigger] poles@[j]).wf(),
                forall|j: int| i <= j < NUM_POLES ==> poles@[j] == poles_mid[j],
                self.sound.sound_state@.len() == NUM_POLES,
                self.sound.risers as int == frame_risers(
                    poles0,
                    m,
                    levels0,
                    states0,
                    risers0,
                    i as int,
                ),
                events@ == frame_events(poles0, m, levels0, states0, risers0, i as int),
                forall|j: int|
                    0 <= j < i ==> self.sound.sound_state@[j] == (if frame_sound_flag(
                        poles0[j],
                        m,
                        j,
                        levels0,
                    ) {
                        desired_state(frame_anim(poles0[j], m, j, levels0))
                    } else {
                        states0[j]
                    }),
                forall|j: int| i <= j < NUM_POLES ==> self.sound.sound_state@[j] == states0[j],
            decreases NUM_POLES - i,
        {
            let ghost expl_spec = pole_is_exploding(m, i as int, levels0);
            let new_state = derive_state(touches, i);
            let old_anim = poles[i].anim;
            proof {
                assert(poles@[i as int] == poles_mid[i as int]);
                assert(Pole::same_non_buffer(poles0[i as int], poles_mid[i as int]));
            }
            let (table_a, table_f) = Self::transition(&poles[i].state, &new_state, old_anim);
            proof {
                lemma_table_matches(poles0[i as int].state, new_state, old_anim, m, i as int);
            }
            let mut new_anim = table_a;
            let mut sound_changed = table_f;
            let is_connected = matches!(new_state, PoleState::ConnectedTo(_));
            proof {
                assert(is_connected == row_has_peer(m, i as int));
                if !is_connected {
                    assert(!expl_spec);
                }
            }
            if is_connected {
                let was_exploding = matches!(old_anim, Some(PoleAnimations::Exploding));
                let mut is_exploding = false;
                if levels[i] == LEVEL_MAX {
                    let peer_list = new_state.peers();
                    let mut pk: usize = 0;
                    while pk < peer_list.len()
                        invariant
                            state_matches(new_state, m, i as int),
                            state_wf(new_state),
                            row_has_peer(m, i as int),
                            levels0[i as int] == LEVEL_MAX,
                            levels@.len() == NUM_POLES,
                            forall|j: int| 0 <= j < NUM_POLES ==> levels@[j] == levels0[j],
                            forall|k2: int|
                                0 <= k2 < peer_list@.len() ==> crate::pole::state_peers(
                                    new_state,
                                ).contains(#[trigger] peer_list@[k2] as int),
                            forall|e: int|
                                crate::pole::state_peers(new_state).contains(e) ==> exists|k2: int|
                                    0 <= k2 < peer_list@.len() && #[trigger] peer_list@[k2] as int
                                        == e,
                            pk <= peer_list@.len(),
                            is_exploding == exists|k2: int|
                                0 <= k2 < pk && levels0[#[trigger] peer_list@[k2] as int]
                                    == LEVEL_MAX,
                        decreases peer_list@.len() - pk,
                    {
                        let e = peer_list[pk];
                        proof {
                            assert(crate::pole::state_peers(new_state).contains(
                                peer_list@[pk as int] as int,
                            ));
                        }
                        if levels[e] == LEVEL_MAX {
                            is_exploding = true;
                            proof {
                                assert(levels0[peer_list@[pk as int] as int] == LEVEL_MAX);
                            }
                        }
                        pk = pk + 1;
                    }
                    proof {
                        if is_exploding {
                            let k2 = choose|k2: int|
                                0 <= k2 < peer_list@.len() && levels0[
                                    #[trigger] peer_list@[k2] as int] == LEVEL_MAX;
                            assert(row_peers(m, i as int).contains(peer_list@[k2] as int));
                            assert(expl_spec);
                        } else {
                            if expl_spec {
                                let j = choose|j: int| #[trigger]
                                    row_peers(m, i as int).contains(j) && levels0[j] == LEVEL_MAX;
                                assert(crate::pole::state_peers(new_state).contains(j));
                                let k2 = choose|k2: int|
                                    0 <= k2 < peer_list@.len() && #[trigger] peer_list@[k2] as int
                                        == j;
                                assert(levels0[peer_list@[k2] as int] == LEVEL_MAX);
                                assert(false);
                            }
                        }
                    }
                } else {
                    proof {
                        assert(levels0[i as int] != LEVEL_MAX);
                        assert(!expl_spec);
                    }
                }
                proof {
                    assert(is_exploding == expl_spec);
                }
                if is_exploding {
                    new_anim = Some(PoleAnimations::Exploding);
                } else {
                    match new_anim {
                        Some(PoleAnimations::Exploding) => {
                            new_anim = Some(PoleAnimations::Connecting);
                        },
                        _ => (),
                    }
                }
                if was_exploding != is_exploding {
                    sound_changed = true;
                    if is_exploding {
                        self.sprites.push(
                            Sprite::Explosion(crate::sprites::ExplosionAnim::new()),
                        );
                    }
                }
            }
            proof {
                assert(new_anim == frame_anim(poles0[i as int], m, i as int, levels0));
                assert(sound_changed == frame_sound_flag(poles0[i as int], m, i as int, levels0));
            }
            let ghost risers_pre = self.sound.risers as int;
            {
                let p = &mut poles[i];
                p.state = new_state;
                p.anim = new_anim;
            }
            if sound_changed {
                let mut batch = self.sound.update_sound(i, old_anim, new_anim);
                events.append(&mut batch);
            }
            proof {
                assert(frame_risers(poles0, m, levels0, states0, risers0, i as int + 1)
                    == self.sound.risers as int);
                assert(frame_events(poles0, m, levels0, states0, risers0, i as int + 1)
                    =~= events@);
            }
            i = i + 1;
        }

        let ghost poles_d = poles@;
        let mut i: usize = 0;
        while i < NUM_POLES
            invariant
                poles@.len() == NUM_POLES,
                poles_d.len() == NUM_POLES,
                i <= NUM_POLES,
                delta_ms <= MAX_DELTA_MS,
                m == *touches,
                poles0.len() == NUM_POLES,
                levels0 == levels_of(poles0),
                forall|j: int| 0 <= j < NUM_POLES ==> state_matches((#[trigger] poles_d[j]).state, m, j),
                forall|j: int|
                    0 <= j < NUM_POLES ==> (#[trigger] poles_d[j]).anim == frame_anim(
                        poles0[j],
                        m,
                        j,
                        levels0,
                    ),
                forall|j: int| 0 <= j < NUM_POLES ==> (#[trigger] poles_d[j]).wf(),
                forall|j: int|
                    0 <= j < NUM_POLES ==> (#[trigger] poles_d[j]).level == poles0[j].level && poles_d[j].touch_level
                        == poles0[j].touch_level,
                forall|j: int| 0 <= j < i ==> ease_keeps(poles_d[j], #[trigger] poles@[j]),
                forall|j: int| 0 <= j < i ==> (#[trigger] poles@[j]).wf(),
                forall|j: int|
                    0 <= j < i ==> ((#[trigger] poles@[j]).level, poles@[j].touch_level)
                        == apply_easing(
                        poles_d[j].anim,
                        poles_d[j].level,
                        poles_d[j].touch_level,
                        delta_ms,
                    ),
                forall|j: int| i <= j < NUM_POLES ==> poles@[j] == poles_d[j],
            decreases NUM_POLES - i,
        {
            {
                let p = &mut poles[i];
                match p.anim {
                    Some(PoleAnimations::Touching) => TouchAnim::animate_pole(p, delta_ms),
                    Some(PoleAnimations::Connecting) => ConnectedAnim::animate_pole(p, delta_ms),
                    Some(PoleAnimations::Exploding) => ExplodingAnim::animate_pole(p, delta_ms),
                    None => ReverseTouchAnim::animate_pole(p, delta_ms),
                }
            }
            let len = poles[i].pole_length();
            let level = poles[i].level;
            let touch_level = poles[i].touch_level;
            let base = poles[i].base_color;
            let cur_c = poles[i].current_color;
            let cp1 = poles[i].cp1();
            if level > 0 {
                proof {
                    assert((level as int) * (len as int) / (LEVEL_MAX as int) <= len as int)
                        by (nonlinear_arith)
                        requires
                            level <= LEVEL_MAX,
                            0 < LEVEL_MAX,
                            len >= 0,
                    ;
                }
                let ci: usize = (((level as u128) * (len as u128)) / (LEVEL_MAX as u128)) as usize;
                let p = &mut poles[i];
                p.paint_range(len - ci, len, base);
            }
            if touch_level > 0 {
                proof {
                    assert((touch_level as int) * (len as int) / (LEVEL_MAX as int) <= len as int)
                        by (nonlinear_arith)
                        requires
                            touch_level <= LEVEL_MAX,
                            0 < LEVEL_MAX,
                            len >= 0,
                    ;
                }
                let ci: usize = (((touch_level as u128) * (len as u128)) / (
                LEVEL_MAX as u128)) as usize;
                let n = if ci < cp1 {
                    ci
                } else {
                    cp1
                };
                let p = &mut poles[i];
                p.paint_range(0, n, cur_c);
            }
            i = i + 1;
        }

        drop_done_sprites(&mut self.sprites);
        render_sprites(&self.sprites, poles);

        events
    }
}

/// The frame-event fold reads only each pole's state and animation (plus the
/// level snapshot passed separately), so two pole sequences that agree on
/// those produce the same events and the same riser counter.
proof fn lemma_frame_fold_congruent(
    s1: Seq<Pole>,
    s2: Seq<Pole>,
    m: TouchMap,
    levels: Seq<u32>,
    states0: Seq<SoundState>,
    risers0: int,
    n: int,
)
    requires
        s1.len() == s2.len(),
        n <= s1.len(),
        forall|i: int|
            0 <= i < s1.len() ==> (#[trigger] s2[i]).state == s1[i].state && s2[i].anim
                == s1[i].anim,
    ensures
        frame_events(s1, m, levels, states0, risers0, n) == frame_events(
            s2,
            m,
            levels,
            states0,
            risers0,
            n,
        ),
        frame_risers(s1, m, levels, states0, risers0, n) == frame_risers(
            s2,
            m,
            levels,
            states0,
            risers0,
            n,
        ),
    decreases n,
{
    if n > 0 {
        lemma_frame_fold_congruent(s1, s2, m, levels, states0, risers0, n - 1);
        assert(frame_anim(s1[n - 1], m, n - 1, levels) == frame_anim(s2[n - 1], m, n - 1, levels));
        assert(frame_sound_flag(s1[n - 1], m, n - 1, levels) == frame_sound_flag(
            s2[n - 1],
            m,
            n - 1,
            levels,
        ));
    }
}

/// One whole frame, as the external driver runs it: the selected display
/// mode's pass — the regular interactive pass clears the buffers first, the
/// alternative modes replace it and emit no sound — always followed by the
/// heart overlay.
pub fn frame_step(
    a: &mut Animator,
    poles: &mut Vec<Pole>,
    touches: &TouchMap,
    mode: crate::events::Modes,
    delta_ms: u64,
) -> (events: Vec<crate::sound::OSCEvent>)
    requires
        old(a).wf(),
        poles_wf(old(poles)@),
        old(poles)@.len() == NUM_POLES,
        touches.wf(),
        delta_ms <= MAX_DELTA_MS,
    ensures
        final(a).wf(),
        poles_wf(final(poles)@),
        final(poles)@.len() == NUM_POLES,
        (mode is Regular) ==> events@ == frame_events(
            old(poles)@,
            *touches,
            levels_of(old(poles)@),
            old(a).sound.sound_state@,
            old(a).sound.risers as int,
            NUM_POLES as int,
        ),
        (mode is Regular) ==> final(a).sound.risers as int == frame_risers(
            old(poles)@,
            *touches,
            levels_of(old(poles)@),
            old(a).sound.sound_state@,
            old(a).sound.risers as int,
            NUM_POLES as int,
        ),
        (mode is Regular) ==> forall|i: int|
            0 <= i < NUM_POLES ==> state_matches((#[trigger] final(poles)@[i]).state, *touches, i),
        (mode is Regular) ==> forall|i: int|
            0 <= i < NUM_POLES ==> (#[trigger] final(poles)@[i]).anim == frame_anim(
                old(poles)@[i],
                *touches,
                i,
                levels_of(old(poles)@),
            ),
        !(mode is Regular) ==> events@ == Seq::<crate::sound::OSCEvent>::empty() && final(a).sound
            == old(a).sound,
        forall|i: int, k: int|
            0 <= i < final(poles)@.len() && final(poles)@[i].spec_heart().0 <= k
                < final(poles)@[i].spec_heart().1
                ==> #[trigger] final(poles)@[i].spec_leds()[k] == (Hsl {
                hue: final(poles)@[i].base_color.hue,
                saturation: final(poles)@[i].base_color.saturation,
                lightness: heart_lightness(final(a).heart_phase.spec_pos()),
            }),
{
    let events: Vec<crate::sound::OSCEvent> = match mode {
        crate::events::Modes::Regular => {
            clear(poles);
            let ghost cleared = poles@;
            let evs = a.animate_poles(poles, touches, delta_ms);
            proof {
                assert(levels_of(cleared) =~= levels_of(old(poles)@));
                lemma_frame_fold_congruent(
                    old(poles)@,
                    cleared,
                    *touches,
                    levels_of(old(poles)@),
                    old(a).sound.sound_state@,
                    old(a).sound.risers as int,
                    NUM_POLES as int,
                );
                assert forall|i: int| 0 <= i < NUM_POLES implies #[trigger] poles@[i].anim
                    == frame_anim(old(poles)@[i], *touches, i, levels_of(old(poles)@)) by {
                    assert(frame_anim(cleared[i], *touches, i, levels_of(cleared)) == frame_anim(
                        old(poles)@[i],
                        *touches,
                        i,
                        levels_of(old(poles)@),
                    ));
                }
            }
            evs
        },
        crate::events::Modes::Flower => {
            a.animate_flower(poles, delta_ms);
            Vec::new()
        },
        crate::events::Modes::Disco => {
            a.animate_disco(poles, delta_ms);
            Vec::new()
        },
    };
    a.animate_hearts(poles, delta_ms);
    events
}

/// Clears every pole's whole buffer to black.
pub fn clear(poles: &mut Vec<Pole>)
    requires
        poles_wf(old(poles)@),
    ensures
        poles_wf(final(poles)@),
        same_shapes(old(poles)@, final(poles)@),
        forall|i: int, k: int|
            0 <= i < final(poles)@.len() && 0 <= k < final(poles)@[i].spec_leds().len()
                ==> #[trigger] final(poles)@[i].spec_leds()[k] == (Hsl {
                hue: 0u32,
                saturation: 0u32,
                lightness: 0u32,
            }),
{
    let black = Hsl::black();
    let mut i: usize = 0;
    while i < poles.len()
        invariant
            black == (Hsl { hue: 0u32, saturation: 0u32, lightness: 0u32 }),
            poles_wf(poles@),
            same_shapes(old(poles)@, poles@),
            i <= poles@.len(),
            forall|m: int, k: int|
                0 <= m < i && 0 <= k < poles@[m].spec_leds().len() ==> #[trigger] poles@[m].spec_leds()[k]
                    == (Hsl { hue: 0u32, saturation: 0u32, lightness: 0u32 }),
        decreases poles@.len() - i,
    {
        let n = poles[i].num_leds();
        let p = &mut poles[i];
        p.paint_range(0, n, black);
        i = i + 1;
    }
}

} // verus!
