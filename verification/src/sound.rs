//! The sound-event dispatcher: diffs each pole's desired sound state against
//! the stored one and emits the minimal batch of discrete audio triggers.
//!
//! A shared riser counter backs the `Riser` events. Connections are
//! symmetric, so every physical connection is counted once per endpoint and
//! the reported riser level is the counter halved; reported levels outside
//! `[1, NUM_RISERS]` emit no event, while the counter itself is never
//! clamped.

use vstd::prelude::*;

use crate::pole::PoleAnimations;
use crate::NUM_POLES;

verus! {

/// The largest riser level the audio engine is told about.
pub const NUM_RISERS: usize = 4;

/// The discrete triggers sent to the external audio engine.
#[derive(Clone, Copy, Debug, PartialEq, Eq, Structural)]
pub enum OSCEvent {
    UnTouch(usize),
    Touch(usize),
    HiTouch(usize),
    UnHiTouch(usize),
    Riser(usize),
    UnRiser(usize),
    Explosion,
}

/// The sound bits one pole can hold.
#[derive(Clone, Copy, Debug, PartialEq, Eq, Structural)]
pub struct SoundState {
    pub touch: bool,
    pub high_touch: bool,
    pub riser: bool,
}

impl SoundState {
    /// No bit set.
    pub open spec fn spec_empty() -> SoundState {
        SoundState { touch: false, high_touch: false, riser: false }
    }
}

/// The sound state a pole's animation calls for.
pub open spec fn desired_state(anim: Option<PoleAnimations>) -> SoundState {
    match anim {
        None => SoundState { touch: false, high_touch: false, riser: false },
        Some(PoleAnimations::Touching) => SoundState {
            touch: true,
            high_touch: false,
            riser: false,
        },
        Some(PoleAnimations::Connecting) => SoundState {
            touch: true,
            high_touch: false,
            riser: true,
        },
        Some(PoleAnimations::Exploding) => SoundState {
            touch: false,
            high_touch: true,
            riser: false,
        },
    }
}

/// A pole is transitioning into `Exploding` from something else.
pub open spec fn explosion_edge(
    old_anim: Option<PoleAnimations>,
    new_anim: Option<PoleAnimations>,
) -> bool {
    new_anim == Some(PoleAnimations::Exploding) && old_anim != Some(PoleAnimations::Exploding)
}

/// The event one `add_riser` call emits when the counter was `risers`: the
/// new reported level, suppressed outside `[1, NUM_RISERS]`.
pub open spec fn riser_add_result(risers: int) -> Option<OSCEvent> {
    let r = (risers + 1) / 2;
    if r < 1 {
        None
    } else if r > NUM_RISERS {
        None
    } else {
        Some(OSCEvent::Riser(r as usize))
    }
}

/// The counter one `remove_riser` call leaves: always down by exactly one;
/// only a remove on an already-empty counter is a no-op.
pub open spec fn riser_remove_count(risers: int) -> int {
    if risers >= 1 {
        risers - 1
    } else {
        risers
    }
}

/// The event one `remove_riser` call emits when the counter was `risers`.
pub open spec fn riser_remove_result(risers: int) -> Option<OSCEvent> {
    let r = risers / 2;
    if r < 1 {
        None
    } else if r > NUM_RISERS {
        None
    } else {
        Some(OSCEvent::UnRiser(r as usize))
    }
}

/// A one-event sequence when the condition holds, else nothing.
pub open spec fn opt_evt(cond: bool, e: OSCEvent) -> Seq<OSCEvent> {
    if cond {
        seq![e]
    } else {
        Seq::<OSCEvent>::empty()
    }
}

/// The events an optional riser result contributes.
pub open spec fn opt_some(o: Option<OSCEvent>) -> Seq<OSCEvent> {
    match o {
        Some(e) => seq![e],
        None => Seq::<OSCEvent>::empty(),
    }
}

/// The exact batch one `update_sound` call emits, given the stored state
/// `cur` and riser counter of pole `i` and the animation transition: removed
/// bits first, then the explosion edge, then added bits.
pub open spec fn update_events(
    cur: SoundState,
    risers: int,
    i: usize,
    old_anim: Option<PoleAnimations>,
    new_anim: Option<PoleAnimations>,
) -> Seq<OSCEvent> {
    let des = desired_state(new_anim);
    opt_evt(cur.touch && !des.touch, OSCEvent::UnTouch(i)) + opt_evt(
        cur.high_touch && !des.high_touch,
        OSCEvent::UnHiTouch(i),
    ) + opt_some(
        if cur.riser && !des.riser {
            riser_remove_result(risers)
        } else {
            None
        },
    ) + opt_evt(explosion_edge(old_anim, new_anim), OSCEvent::Explosion) + opt_evt(
        !cur.touch && des.touch,
        OSCEvent::Touch(i),
    ) + opt_evt(!cur.high_touch && des.high_touch, OSCEvent::HiTouch(i)) + opt_some(
        if !cur.riser && des.riser {
            riser_add_result(risers)
        } else {
            None
        },
    )
}

/// The riser counter one `update_sound` call leaves.
pub open spec fn risers_after(cur: SoundState, risers: int, new_anim: Option<
    PoleAnimations,
>) -> int {
    let des = desired_state(new_anim);
    if cur.riser && !des.riser {
        riser_remove_count(risers)
    } else if !cur.riser && des.riser {
        risers + 1
    } else {
        risers
    }
}

/// How many poles currently hold the riser bit.
pub open spec fn riser_bits(s: Seq<SoundState>) -> int
    decreases s.len(),
{
    if s.len() == 0 {
        0
    } else {
        riser_bits(s.drop_last()) + if s.last().riser {
            1int
        } else {
            0int
        }
    }
}

proof fn lemma_riser_bits_bounds(s: Seq<SoundState>)
    ensures
        0 <= riser_bits(s) <= s.len(),
    decreases s.len(),
{
    if s.len() > 0 {
        lemma_riser_bits_bounds(s.drop_last());
    }
}

proof fn lemma_riser_bits_update(s: Seq<SoundState>, i: int, v: SoundState)
    requires
        0 <= i < s.len(),
    ensures
        riser_bits(s.update(i, v)) == riser_bits(s) - (if s[i].riser {
            1int
        } else {
            0int
        }) + (if v.riser {
            1int
        } else {
            0int
        }),
    decreases s.len(),
{
    if i == s.len() - 1 {
        assert(s.update(i, v).drop_last() =~= s.drop_last());
    } else {
        assert(s.update(i, v).drop_last() =~= s.drop_last().update(i, v));
        lemma_riser_bits_update(s.drop_last(), i, v);
    }
}

/// Per-pole stored sound state plus the shared riser counter.
pub struct SoundStateTracker {
    /// The raw shared counter: moved by one per riser add or (guarded)
    /// remove, never clamped to the reporting range.
    pub risers: usize,
    /// One stored sound state per pole.
    pub sound_state: Vec<SoundState>,
}

impl SoundStateTracker {
    /// One state per pole, and the counter within the bound the guarded
    /// remove maintains.
    pub open spec fn wf(self) -> bool {
        &&& self.sound_state@.len() == NUM_POLES
        &&& self.risers as int <= riser_bits(self.sound_state@) + (NUM_POLES as int)
    }

    /// A tracker with no sound playing.
    pub fn new() -> (t: SoundStateTracker)
        ensures
            t.wf(),
            t.risers == 0,
            forall|k: int|
                0 <= k < NUM_POLES ==> t.sound_state@[k] == SoundState::spec_empty(),
    {
        let mut sound_state: Vec<SoundState> = Vec::new();
        let mut k: usize = 0;
        while k < NUM_POLES
            invariant
                k <= NUM_POLES,
                sound_state@.len() == k,
                forall|m: int|
                    0 <= m < k ==> sound_state@[m] == SoundState::spec_empty(),
            decreases NUM_POLES - k,
        {
            sound_state.push(SoundState { touch: false, high_touch: false, riser: false });
            k = k + 1;
        }
        proof {
            lemma_riser_bits_bounds(sound_state@);
        }
        SoundStateTracker { risers: 0, sound_state }
    }

    /// Bumps the shared counter and reports the new riser level, suppressed
    /// outside `[1, NUM_RISERS]`.
    pub fn add_riser(&mut self) -> (e: Option<OSCEvent>)
        requires
            old(self).risers < usize::MAX,
        ensures
            final(self).risers == old(self).risers + 1,
            final(self).sound_state == old(self).sound_state,
            e == riser_add_result(old(self).risers as int),
    {
        self.risers = self.risers + 1;
        let risers = self.risers / 2;
        if risers == 0 {
            return None;
        }
        if risers > NUM_RISERS {
            return None;
        }
        Some(OSCEvent::Riser(risers))
    }

    /// Drops the shared counter by exactly one (a remove on an empty counter
    /// is a no-op) and reports the pre-move riser level, suppressed outside
    /// `[1, NUM_RISERS]`.
    pub fn remove_riser(&mut self) -> (e: Option<OSCEvent>)
        ensures
            final(self).risers == riser_remove_count(old(self).risers as int),
            final(self).sound_state == old(self).sound_state,
            e == riser_remove_result(old(self).risers as int),
    {
        let risers = self.risers / 2;
        if self.risers >= 1 {
            self.risers = self.risers - 1;
        }
        if risers == 0 {
            return None;
        }
        if risers > NUM_RISERS {
            return None;
        }
        Some(OSCEvent::UnRiser(risers))
    }

    /// Diffs the desired sound state of pole `i` against the stored one and
    /// returns the batch of triggers this transition owes: removed bits
    /// first, one `Explosion` exactly on the edge into `Exploding`, then
    /// added bits. Stores the desired state.
    pub fn update_sound(
        &mut self,
        i: usize,
        old_anim: Option<PoleAnimations>,
        new_anim: Option<PoleAnimations>,
    ) -> (events: Vec<OSCEvent>)
        requires
            old(self).wf(),
            i < NUM_POLES,
        ensures
            final(self).wf(),
            events@ == update_events(
                old(self).sound_state@[i as int],
                old(self).risers as int,
                i,
                old_anim,
                new_anim,
            ),
            final(self).sound_state@ == old(self).sound_state@.update(
                i as int,
                desired_state(new_anim),
            ),
            final(self).risers as int == risers_after(
                old(self).sound_state@[i as int],
                old(self).risers as int,
                new_anim,
            ),
    {
        let ghost cur_g = self.sound_state@[i as int];
        let ghost risers0 = self.risers as int;
        let cur = self.sound_state[i];
        let des = match new_anim {
            None => SoundState { touch: false, high_touch: false, riser: false },
            Some(PoleAnimations::Touching) => SoundState {
                touch: true,
                high_touch: false,
                riser: false,
            },
            Some(PoleAnimations::Connecting) => SoundState {
                touch: true,
                high_touch: false,
                riser: true,
            },
            Some(PoleAnimations::Exploding) => SoundState {
                touch: false,
                high_touch: true,
                riser: false,
            },
        };
        proof {
            assert(des == desired_state(new_anim));
            lemma_riser_bits_bounds(self.sound_state@);
        }
        let mut events: Vec<OSCEvent> = Vec::new();
        if cur.touch && !des.touch {
            events.push(OSCEvent::UnTouch(i));
        }
        proof {
            assert(events@ =~= opt_evt(cur.touch && !des.touch, OSCEvent::UnTouch(i)));
        }
        if cur.high_touch && !des.high_touch {
            events.push(OSCEvent::UnHiTouch(i));
        }
        if cur.riser && !des.riser {
            match self.remove_riser() {
                Some(e) => events.push(e),
                None => (),
            }
        }
        proof {
            assert(events@ =~= opt_evt(cur.touch && !des.touch, OSCEvent::UnTouch(i)) + opt_evt(
                cur.high_touch && !des.high_touch,
                OSCEvent::UnHiTouch(i),
            ) + opt_some(
                if cur.riser && !des.riser {
                    riser_remove_result(risers0)
                } else {
                    None
                },
            ));
        }
        let old_expl = match old_anim {
            Some(PoleAnimations::Exploding) => true,
            _ => false,
        };
        let new_expl = match new_anim {
            Some(PoleAnimations::Exploding) => true,
            _ => false,
        };
        if new_expl && !old_expl {
            events.push(OSCEvent::Explosion);
        }
        if !cur.touch && des.touch {
            events.push(OSCEvent::Touch(i));
        }
        if !cur.high_touch && des.high_touch {
            events.push(OSCEvent::HiTouch(i));
        }
        if !cur.riser && des.riser {
            match self.add_riser() {
                Some(e) => events.push(e),
                None => (),
            }
        }
        proof {
            assert(events@ =~= update_events(cur_g, risers0, i, old_anim, new_anim));
        }
        self.sound_state[i] = des;
        proof {
            lemma_riser_bits_update(old(self).sound_state@, i as int, des);
        }
        events
    }
}

/// The raw counter a sequence of riser operations leaves, starting from
/// zero: `true` is an add (always one up), `false` a remove (one down,
/// a no-op only on an already-empty counter).
pub open spec fn riser_counter_after(ops: Seq<bool>) -> int
    decreases ops.len(),
{
    if ops.len() == 0 {
        0
    } else {
        let prev = riser_counter_after(ops.drop_last());
        if ops.last() {
            prev + 1
        } else {
            riser_remove_count(prev)
        }
    }
}

/// How many adds a sequence of riser operations holds.
pub open spec fn count_adds(ops: Seq<bool>) -> int
    decreases ops.len(),
{
    if ops.len() == 0 {
        0
    } else {
        count_adds(ops.drop_last()) + if ops.last() {
            1int
        } else {
            0int
        }
    }
}

/// How many removes a sequence of riser operations holds.
pub open spec fn count_removes(ops: Seq<bool>) -> int
    decreases ops.len(),
{
    if ops.len() == 0 {
        0
    } else {
        count_removes(ops.drop_last()) + if ops.last() {
            0int
        } else {
            1int
        }
    }
}

/// Riser counter conservation: as long as removes never outrun adds (every
/// remove runs on a positive counter, which is the dispatcher's discipline
/// since a bit is only removed after it was added), the raw counter equals
/// the number of adds minus the number of removes. The counter itself is
/// never clamped; only the reported level is, by `riser_add_result` and
/// `riser_remove_result`.
pub proof fn lemma_riser_conservation(ops: Seq<bool>)
    requires
        forall|k: int|
            0 <= k < ops.len() && !ops[k] ==> riser_counter_after(#[trigger] ops.take(k)) >= 1,
    ensures
        riser_counter_after(ops) == count_adds(ops) - count_removes(ops),
    decreases ops.len(),
{
    if ops.len() > 0 {
        let prefix = ops.drop_last();
        assert(prefix =~= ops.take(ops.len() - 1));
        assert forall|k: int|
            0 <= k < prefix.len() && !prefix[k] implies riser_counter_after(
            #[trigger] prefix.take(k),
        ) >= 1 by {
            assert(prefix.take(k) =~= ops.take(k));
            assert(ops[k] == prefix[k]);
        }
        lemma_riser_conservation(prefix);
        if !ops.last() {
            assert(riser_counter_after(ops.take(ops.len() - 1)) >= 1);
        }
    }
}

/// The event is an `Explosion`.
pub open spec fn is_explosion(e: OSCEvent) -> bool {
    e is Explosion
}

/// How many `Explosion` events a batch holds.
pub open spec fn explosion_count(s: Seq<OSCEvent>) -> int {
    s.filter(|e: OSCEvent| is_explosion(e)).len() as int
}

proof fn lemma_count_small(s: Seq<OSCEvent>)
    requires
        s.len() <= 1,
    ensures
        explosion_count(s) == if s.len() == 1 && is_explosion(s[0]) {
            1int
        } else {
            0int
        },
{
    reveal_with_fuel(Seq::<_>::filter, 2);
    if s.len() == 1 {
        assert(s.drop_last() =~= Seq::<OSCEvent>::empty());
        assert(s.last() == s[0]);
    } else {
        assert(s =~= Seq::<OSCEvent>::empty());
    }
}

/// `Explosion` is emitted exactly once per transition into `Exploding` from a
/// different state, and never otherwise: never while remaining in
/// `Exploding`, never while leaving it.
pub proof fn lemma_explosion_edge_unique(
    cur: SoundState,
    risers: int,
    i: usize,
    old_anim: Option<PoleAnimations>,
    new_anim: Option<PoleAnimations>,
)
    ensures
        explosion_count(update_events(cur, risers, i, old_anim, new_anim)) == if explosion_edge(
            old_anim,
            new_anim,
        ) {
            1int
        } else {
            0int
        },
{
    broadcast use Seq::filter_distributes_over_add;

    let des = desired_state(new_anim);
    let s1 = opt_evt(cur.touch && !des.touch, OSCEvent::UnTouch(i));
    let s2 = opt_evt(cur.high_touch && !des.high_touch, OSCEvent::UnHiTouch(i));
    let s3 = opt_some(
        if cur.riser && !des.riser {
            riser_remove_result(risers)
        } else {
            None
        },
    );
    let s4 = opt_evt(explosion_edge(old_anim, new_anim), OSCEvent::Explosion);
    let s5 = opt_evt(!cur.touch && des.touch, OSCEvent::Touch(i));
    let s6 = opt_evt(!cur.high_touch && des.high_touch, OSCEvent::HiTouch(i));
    let s7 = opt_some(
        if !cur.riser && des.riser {
            riser_add_result(risers)
        } else {
            None
        },
    );
    lemma_count_small(s1);
    lemma_count_small(s2);
    lemma_count_small(s3);
    lemma_count_small(s4);
    lemma_count_small(s5);
    lemma_count_small(s6);
    lemma_count_small(s7);
    assert(update_events(cur, risers, i, old_anim, new_anim) == s1 + s2 + s3 + s4 + s5 + s6 + s7);
}

} // verus!
