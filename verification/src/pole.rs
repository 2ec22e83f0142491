//! The per-pole record: logical state, glow levels, color buffer and its
//! configurable view ranges, and the classification of a contact-matrix row
//! into a logical state.

use vstd::prelude::*;

use crate::color::Hsl;
use crate::peers::{bs_elements, bs_eq, bs_insert, bs_new, peer_set_elems, PeerSet};
use crate::touchmap::TouchMap;
use crate::{LEDS_PER_STRING, NUM_POLES};

verus! {

/// Full scale of a glow level: the same fixed-point scale as `UNIT`.
pub const LEVEL_MAX: u32 = 1_000_000;

/// The hue distance between two neighbouring poles on the ring:
/// `LEVEL_MAX / NUM_POLES` of a full turn.
pub const HUE_STEP: u32 = 50_000;

/// The logical state of one pole, derived each frame from its row of the
/// contact matrix.
pub enum PoleState {
    /// Not in contact with anything.
    NotTouched,
    /// In contact with itself only (a person touching just this pole).
    Touched,
    /// Bridged to the poles in the (never empty) peer set.
    ConnectedTo(PeerSet),
}

/// The overlay animation a pole is currently driving.
#[derive(Clone, Copy, Debug, PartialEq, Eq, Structural)]
pub enum PoleAnimations {
    Touching,
    Connecting,
    Exploding,
}

/// The peers a state carries: empty unless connected.
pub open spec fn state_peers(s: PoleState) -> Set<int> {
    match s {
        PoleState::ConnectedTo(p) => peer_set_elems(p),
        _ => Set::<int>::empty(),
    }
}

/// Two states are equivalent when they have the same variant and hold the
/// same peers.
pub open spec fn state_equiv(a: PoleState, b: PoleState) -> bool {
    match (a, b) {
        (PoleState::NotTouched, PoleState::NotTouched) => true,
        (PoleState::Touched, PoleState::Touched) => true,
        (PoleState::ConnectedTo(x), PoleState::ConnectedTo(y)) => peer_set_elems(x)
            == peer_set_elems(y),
        _ => false,
    }
}

/// Every peer a state names is a valid pole index.
pub open spec fn state_wf(s: PoleState) -> bool {
    forall|e: int| state_peers(s).contains(e) ==> 0 <= e < NUM_POLES
}

/// Pole `i`'s row holds a self entry.
pub open spec fn row_self(m: TouchMap, i: int) -> bool {
    m.at(i, i) is Some
}

/// Pole `i`'s row holds some other pole.
pub open spec fn row_has_peer(m: TouchMap, i: int) -> bool {
    exists|j: int| 0 <= j < NUM_POLES && j != i && m.at(i, j) is Some
}

/// The set of other poles pole `i`'s row holds.
pub open spec fn row_peers(m: TouchMap, i: int) -> Set<int> {
    Set::new(|j: int| 0 <= j < NUM_POLES && j != i && m.at(i, j) is Some)
}

/// What `derive_state` must return for pole `i`: the row's peers if it has
/// any, else touched or untouched by the self entry alone.
pub open spec fn state_matches(s: PoleState, m: TouchMap, i: int) -> bool {
    if row_has_peer(m, i) {
        match s {
            PoleState::ConnectedTo(p) => peer_set_elems(p) == row_peers(m, i),
            _ => false,
        }
    } else if row_self(m, i) {
        s is Touched
    } else {
        s is NotTouched
    }
}

/// Classification is total and exclusive: every row content yields exactly
/// one of the three variants, and a connected state never carries an empty
/// peer set.
pub proof fn lemma_state_classification(s: PoleState, m: TouchMap, i: int)
    requires
        state_matches(s, m, i),
    ensures
        (s is NotTouched) ==> !row_self(m, i) && !row_has_peer(m, i),
        (s is Touched) ==> row_self(m, i) && !row_has_peer(m, i),
        (s is ConnectedTo) ==> row_has_peer(m, i) && exists|e: int| state_peers(s).contains(e),
{
    if s is ConnectedTo {
        let j = choose|j: int| 0 <= j < NUM_POLES && j != i && m.at(i, j) is Some;
        assert(row_peers(m, i).contains(j));
        assert(state_peers(s).contains(j));
    }
}

/// Derives pole `i`'s logical state from its row of the contact matrix: a
/// pure function of the row.
pub fn derive_state(touches: &TouchMap, i: usize) -> (s: PoleState)
    requires
        touches.wf(),
        i < NUM_POLES,
    ensures
        state_matches(s, *touches, i as int),
        state_wf(s),
{
    let mut peers: PeerSet = bs_new();
    let mut found: bool = false;
    let mut j: usize = 0;
    while j < NUM_POLES
        invariant
            touches.wf(),
            i < NUM_POLES,
            j <= NUM_POLES,
            forall|e: int|
                peer_set_elems(peers).contains(e) <==> (0 <= e < j && e != i && touches.at(
                    i as int,
                    e,
                ) is Some),
            found == exists|e: int|
                0 <= e < j && e != i && #[trigger] touches.at(i as int, e) is Some,
        decreases NUM_POLES - j,
    {
        if j != i && touches.get(i, j).is_some() {
            bs_insert(&mut peers, j);
            found = true;
            proof {
                assert(touches.at(i as int, j as int) is Some);
            }
        }
        j = j + 1;
    }
    let self_touch = touches.get(i, i).is_some();
    if found {
        proof {
            assert(peer_set_elems(peers) =~= row_peers(*touches, i as int));
        }
        PoleState::ConnectedTo(peers)
    } else if self_touch {
        PoleState::Touched
    } else {
        PoleState::NotTouched
    }
}

/// Compares two states up to peer-set contents.
pub fn pole_state_eq(a: &PoleState, b: &PoleState) -> (r: bool)
    ensures
        r == state_equiv(*a, *b),
{
    match (a, b) {
        (PoleState::NotTouched, PoleState::NotTouched) => true,
        (PoleState::Touched, PoleState::Touched) => true,
        (PoleState::ConnectedTo(x), PoleState::ConnectedTo(y)) => bs_eq(x, y),
        _ => false,
    }
}

impl PoleState {
    /// The peers this state names, ascending; empty unless connected.
    pub fn peers(&self) -> (v: Vec<usize>)
        ensures
            forall|k: int|
                0 <= k < v@.len() ==> state_peers(*self).contains(#[trigger] v@[k] as int),
            forall|e: int|
                state_peers(*self).contains(e) ==> exists|k: int|
                    0 <= k < v@.len() && #[trigger] v@[k] as int == e,
    {
        match self {
            PoleState::ConnectedTo(p) => bs_elements(p),
            _ => Vec::new(),
        }
    }
}

/// One pole: glow levels, colors, the LED buffer, its view ranges, and the
/// current logical state and animation.
pub struct Pole {
    /// Connection glow, `0 ..= LEVEL_MAX`.
    pub level: u32,
    /// Self-touch glow, layered independently of `level`, `0 ..= LEVEL_MAX`.
    pub touch_level: u32,
    /// The pole's fixed angular base hue.
    pub base_color: Hsl,
    /// The color of the self-touch layer.
    pub current_color: Hsl,
    /// The logical state derived from the contact matrix.
    pub state: PoleState,
    /// The overlay animation driving the easing of the levels.
    pub anim: Option<PoleAnimations>,
    /// The LED color buffer; fixed capacity, viewed through the ranges below.
    pub internal_leds: Vec<Hsl>,
    /// Main view range: the pole renders into `internal_leds[..pole_length]`.
    pub pole_length: usize,
    /// Control-point-1 prefix length.
    pub cp1: usize,
    /// Control-point-2 prefix length.
    pub cp2: usize,
    /// Start of the heart sub-range.
    pub heart_start: usize,
    /// End (exclusive) of the heart sub-range.
    pub heart_end: usize,
}

impl Pole {
    /// The LED buffer, for contracts.
    pub open spec fn spec_leds(self) -> Seq<Hsl> {
        self.internal_leds@
    }

    /// The main view range length, for contracts.
    pub open spec fn spec_pole_length(self) -> int {
        self.pole_length as int
    }

    /// The control-point-1 prefix length, for contracts.
    pub open spec fn spec_cp1(self) -> int {
        self.cp1 as int
    }

    /// The control-point-2 prefix length, for contracts.
    pub open spec fn spec_cp2(self) -> int {
        self.cp2 as int
    }

    /// The heart sub-range, for contracts.
    pub open spec fn spec_heart(self) -> (int, int) {
        (self.heart_start as int, self.heart_end as int)
    }

    /// Both glow levels within scale.
    pub open spec fn levels_ok(self) -> bool {
        self.level <= LEVEL_MAX && self.touch_level <= LEVEL_MAX
    }

    /// All view ranges within the buffer, and all colors within scale.
    pub open spec fn geometry_ok(self) -> bool {
        &&& self.spec_pole_length() <= self.spec_leds().len()
        &&& self.spec_cp1() <= self.spec_leds().len()
        &&& self.spec_cp2() <= self.spec_leds().len()
        &&& 0 <= self.spec_heart().0 <= self.spec_heart().1 <= self.spec_leds().len()
        &&& self.base_color.wf()
        &&& self.current_color.wf()
        &&& forall|k: int| 0 <= k < self.spec_leds().len() ==> self.spec_leds()[k].wf()
    }

    /// The pole's full invariant.
    pub open spec fn wf(self) -> bool {
        self.levels_ok() && self.geometry_ok() && state_wf(self.state)
    }

    /// Everything but the LED buffer is unchanged between two pole values.
    pub open spec fn same_non_buffer(a: Pole, b: Pole) -> bool {
        &&& a.level == b.level
        &&& a.touch_level == b.touch_level
        &&& a.base_color == b.base_color
        &&& a.current_color == b.current_color
        &&& a.state == b.state
        &&& a.anim == b.anim
        &&& a.spec_pole_length() == b.spec_pole_length()
        &&& a.spec_cp1() == b.spec_cp1()
        &&& a.spec_cp2() == b.spec_cp2()
        &&& a.spec_heart() == b.spec_heart()
        &&& a.spec_leds().len() == b.spec_leds().len()
    }

    /// A dark pole with the angular base hue its ring position gives it.
    pub fn new(index: usize) -> (p: Pole)
        requires
            index < NUM_POLES,
        ensures
            p.wf(),
            p.level == 0,
            p.touch_level == 0,
            p.state is NotTouched,
            p.anim is None,
            p.base_color == (Hsl {
                hue: (index * HUE_STEP) as u32,
                saturation: 1000u32,
                lightness: 500u32,
            }),
            p.current_color == (Hsl { hue: 159_155u32, saturation: 1000u32, lightness: 500u32 }),
            p.spec_leds().len() == LEDS_PER_STRING,
            forall|k: int|
                0 <= k < LEDS_PER_STRING ==> #[trigger] p.spec_leds()[k] == (Hsl {
                    hue: 0u32,
                    saturation: 1000u32,
                    lightness: 500u32,
                }),
            p.spec_pole_length() == LEDS_PER_STRING,
            p.spec_cp1() == LEDS_PER_STRING,
            p.spec_cp2() == LEDS_PER_STRING,
            p.spec_heart() == (0int, 0int),
    {
        proof {
            assert((index as int) * (HUE_STEP as int) < LEVEL_MAX as int) by (nonlinear_arith)
                requires
                    index < 20,
                    HUE_STEP == 50_000,
            ;
        }
        let hue: u32 = (index as u32) * HUE_STEP;
        let mut internal_leds: Vec<Hsl> = Vec::new();
        let mut k: usize = 0;
        while k < LEDS_PER_STRING
            invariant
                k <= LEDS_PER_STRING,
                internal_leds@.len() == k,
                forall|m: int|
                    0 <= m < k ==> #[trigger] internal_leds@[m] == (Hsl {
                        hue: 0u32,
                        saturation: 1000u32,
                        lightness: 500u32,
                    }),
            decreases LEDS_PER_STRING - k,
        {
            internal_leds.push(Hsl::new(0, 1000, 500));
            k = k + 1;
        }
        Pole {
            level: 0,
            touch_level: 0,
            base_color: Hsl::new(hue, 1000, 500),
            current_color: Hsl::new(159_155, 1000, 500),
            state: PoleState::NotTouched,
            anim: None,
            internal_leds,
            pole_length: LEDS_PER_STRING,
            cp1: LEDS_PER_STRING,
            cp2: LEDS_PER_STRING,
            heart_start: 0,
            heart_end: 0,
        }
    }

    /// Number of LEDs in the buffer.
    pub fn num_leds(&self) -> (n: usize)
        ensures
            n == self.spec_leds().len(),
    {
        self.internal_leds.len()
    }

    /// Reads one LED of the buffer.
    pub fn led_at(&self, k: usize) -> (c: Hsl)
        requires
            k < self.spec_leds().len(),
        ensures
            c == self.spec_leds()[k as int],
    {
        self.internal_leds[k]
    }

    /// The main view range length.
    pub fn pole_length(&self) -> (n: usize)
        ensures
            n == self.spec_pole_length(),
    {
        self.pole_length
    }

    /// The control-point-1 prefix length.
    pub fn cp1(&self) -> (n: usize)
        ensures
            n == self.spec_cp1(),
    {
        self.cp1
    }

    /// The control-point-2 prefix length.
    pub fn cp2(&self) -> (n: usize)
        ensures
            n == self.spec_cp2(),
    {
        self.cp2
    }

    /// The heart sub-range.
    pub fn heart(&self) -> (r: (usize, usize))
        ensures
            (r.0 as int, r.1 as int) == self.spec_heart(),
    {
        (self.heart_start, self.heart_end)
    }

    /// Sets the main view range, clamped to the buffer.
    pub fn set_pole_length(&mut self, newl: usize)
        requires
            old(self).wf(),
        ensures
            final(self).wf(),
            final(self).spec_pole_length() == if newl <= old(self).spec_leds().len() {
                newl as int
            } else {
                old(self).spec_leds().len() as int
            },
            final(self).spec_leds() == old(self).spec_leds(),
            final(self).spec_cp1() == old(self).spec_cp1(),
            final(self).spec_cp2() == old(self).spec_cp2(),
            final(self).spec_heart() == old(self).spec_heart(),
            final(self).level == old(self).level,
            final(self).touch_level == old(self).touch_level,
            final(self).state == old(self).state,
            final(self).anim == old(self).anim,
            final(self).base_color == old(self).base_color,
            final(self).current_color == old(self).current_color,
    {
        let len = self.internal_leds.len();
        self.pole_length = if newl < len {
            newl
        } else {
            len
        };
    }

    /// Sets the control-point-1 prefix, clamped to the buffer.
    pub fn set_cp1(&mut self, newl: usize)
        requires
            old(self).wf(),
        ensures
            final(self).wf(),
            final(self).spec_cp1() == if newl <= old(self).spec_leds().len() {
                newl as int
            } else {
                old(self).spec_leds().len() as int
            },
            final(self).spec_leds() == old(self).spec_leds(),
            final(self).spec_pole_length() == old(self).spec_pole_length(),
            final(self).spec_cp2() == old(self).spec_cp2(),
            final(self).spec_heart() == old(self).spec_heart(),
            final(self).level == old(self).level,
            final(self).touch_level == old(self).touch_level,
            final(self).state == old(self).state,
            final(self).anim == old(self).anim,
            final(self).base_color == old(self).base_color,
            final(self).current_color == old(self).current_color,
    {
        let len = self.internal_leds.len();
        self.cp1 = if newl < len {
            newl
        } else {
            len
        };
    }

    /// Sets the control-point-2 prefix, clamped to the buffer.
    pub fn set_cp2(&mut self, newl: usize)
        requires
            old(self).wf(),
        ensures
            final(self).wf(),
            final(self).spec_cp2() == if newl <= old(self).spec_leds().len() {
                newl as int
            } else {
                old(self).spec_leds().len() as int
            },
            final(self).spec_leds() == old(self).spec_leds(),
            final(self).spec_pole_length() == old(self).spec_pole_length(),
            final(self).spec_cp1() == old(self).spec_cp1(),
            final(self).spec_heart() == old(self).spec_heart(),
            final(self).level == old(self).level,
            final(self).touch_level == old(self).touch_level,
            final(self).state == old(self).state,
            final(self).anim == old(self).anim,
            final(self).base_color == old(self).base_color,
            final(self).current_color == old(self).current_color,
    {
        let len = self.internal_leds.len();
        self.cp2 = if newl < len {
            newl
        } else {
            len
        };
    }

    /// Sets the heart sub-range, clamped to the buffer and to emptiness when
    /// reversed, so no frame can observe an out-of-bounds range.
    pub fn set_heart(&mut self, start: usize, end: usize)
        requires
            old(self).wf(),
        ensures
            final(self).wf(),
            final(self).spec_heart().1 == if end <= old(self).spec_leds().len() {
                end as int
            } else {
                old(self).spec_leds().len() as int
            },
            final(self).spec_heart().0 == if start as int <= final(self).spec_heart().1 {
                start as int
            } else {
                final(self).spec_heart().1
            },
            final(self).spec_leds() == old(self).spec_leds(),
            final(self).spec_pole_length() == old(self).spec_pole_length(),
            final(self).spec_cp1() == old(self).spec_cp1(),
            final(self).spec_cp2() == old(self).spec_cp2(),
            final(self).level == old(self).level,
            final(self).touch_level == old(self).touch_level,
            final(self).state == old(self).state,
            final(self).anim == old(self).anim,
            final(self).base_color == old(self).base_color,
            final(self).current_color == old(self).current_color,
    {
        let len = self.internal_leds.len();
        let he = if end < len {
            end
        } else {
            len
        };
        let hs = if start < he {
            start
        } else {
            he
        };
        self.heart_start = hs;
        self.heart_end = he;
    }

    /// Paints the LEDs in `[start, end)` with one color, leaving the rest of
    /// the buffer and every other field as they were.
    pub fn paint_range(&mut self, start: usize, end: usize, c: Hsl)
        requires
            old(self).wf(),
            c.wf(),
            start <= end,
            end <= old(self).spec_leds().len(),
        ensures
            final(self).wf(),
            Self::same_non_buffer(*old(self), *final(self)),
            forall|k: int| start <= k < end ==> final(self).spec_leds()[k] == c,
            forall|k: int|
                0 <= k < old(self).spec_leds().len() && !(start <= k < end)
                    ==> final(self).spec_leds()[k] == old(self).spec_leds()[k],
    {
        let mut k: usize = start;
        while k < end
            invariant
                old(self).wf(),
                c.wf(),
                start <= k <= end,
                end <= self.internal_leds@.len(),
                self.internal_leds@.len() == old(self).internal_leds@.len(),
                self.level == old(self).level,
                self.touch_level == old(self).touch_level,
                self.base_color == old(self).base_color,
                self.current_color == old(self).current_color,
                self.state == old(self).state,
                self.anim == old(self).anim,
                self.pole_length == old(self).pole_length,
                self.cp1 == old(self).cp1,
                self.cp2 == old(self).cp2,
                self.heart_start == old(self).heart_start,
                self.heart_end == old(self).heart_end,
                forall|m: int| start <= m < k ==> self.internal_leds@[m] == c,
                forall|m: int|
                    0 <= m < self.internal_leds@.len() && !(start <= m < k)
                        ==> self.internal_leds@[m] == old(self).internal_leds@[m],
            decreases end - k,
        {
            self.internal_leds[k] = c;
            k = k + 1;
        }
    }

    /// Paints one LED, if it lies inside the buffer; a write past the buffer
    /// is ignored.
    pub fn paint_led(&mut self, k: usize, c: Hsl)
        requires
            old(self).wf(),
            c.wf(),
        ensures
            final(self).wf(),
            Self::same_non_buffer(*old(self), *final(self)),
            k < old(self).spec_leds().len()
                ==> final(self).spec_leds() == old(self).spec_leds().update(k as int, c),
            k >= old(self).spec_leds().len() ==> final(self).spec_leds() == old(self).spec_leds(),
    {
        if k < self.internal_leds.len() {
            self.internal_leds[k] = c;
        }
    }
}

/// Every pole in the sequence is well-formed.
pub open spec fn poles_wf(s: Seq<Pole>) -> bool {
    forall|k: int| 0 <= k < s.len() ==> s[k].wf()
}

/// Two pole sequences agree on everything but the LED buffer contents.
pub open spec fn same_shapes(a: Seq<Pole>, b: Seq<Pole>) -> bool {
    a.len() == b.len() && forall|k: int|
        0 <= k < a.len() ==> Pole::same_non_buffer(a[k], b[k])
}

/// Per-frame whole-buffer animation: a capability kept for display-side
/// effects on a pole's buffer.
pub trait Animation {
    /// Advances the effect by `delta_ms` elapsed milliseconds.
    fn update_animation(&mut self, delta_ms: u64)
        requires
            old(self).animation_inv(),
            delta_ms <= crate::phase::MAX_DELTA_MS,
        ensures
            final(self).animation_inv(),
    ;

    /// The invariant the effect maintains across frames.
    spec fn animation_inv(&self) -> bool;
}

impl Animation for Pole {
    open spec fn animation_inv(&self) -> bool {
        self.wf()
    }

    /// Rotates every pixel's hue at one radian per second and grades the
    /// lightness up along the pole.
    fn update_animation(&mut self, delta_ms: u64) {
        let inc: u32 = ((delta_ms * 159_155 / 1000) % (LEVEL_MAX as u64)) as u32;
        let size = self.pole_length;
        let mut k: usize = 0;
        while k < size
            invariant
                old(self).wf(),
                size == self.pole_length,
                inc < LEVEL_MAX,
                k <= size,
                self.internal_leds@.len() == old(self).internal_leds@.len(),
                size <= self.internal_leds@.len(),
                self.level == old(self).level,
                self.touch_level == old(self).touch_level,
                self.base_color == old(self).base_color,
                self.current_color == old(self).current_color,
                self.state == old(self).state,
                self.anim == old(self).anim,
                self.pole_length == old(self).pole_length,
                self.cp1 == old(self).cp1,
                self.cp2 == old(self).cp2,
                self.heart_start == old(self).heart_start,
                self.heart_end == old(self).heart_end,
                forall|m: int| 0 <= m < self.internal_leds@.len() ==> self.internal_leds@[m].wf(),
        decreases size - k,
        {
            let c = self.internal_leds[k];
            let newhue: u32 = (c.hue + inc) % LEVEL_MAX;
            let newlight: u32 = ((500u128 * (k as u128)) / (size as u128)) as u32;
            proof {
                assert((500int * (k as int)) / (size as int) <= 500) by (nonlinear_arith)
                    requires
                        0 < size,
                        k < size,
                ;
            }
            self.internal_leds[k] = Hsl::new(newhue, c.saturation, newlight);
            k = k + 1;
        }
    }
}

} // verus!
