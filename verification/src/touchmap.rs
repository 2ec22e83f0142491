//! The symmetric contact matrix: the single source of truth for who is
//! touching or connected to whom.
//!
//! Entries are timestamp pairs, refreshed by `connect`, dropped by
//! `disconnect` and by timeout expiry. The matrix is always symmetric, and a
//! self entry `(i, i)` means pole `i` is touched alone. All timestamps are
//! milliseconds on the caller's monotonic clock.

use vstd::prelude::*;

use crate::NUM_POLES;

verus! {

/// When a contact was first seen and last refreshed, in milliseconds.
#[derive(Clone, Copy, Debug, PartialEq, Eq, Structural)]
pub struct TouchState {
    pub first: u64,
    pub last: u64,
}

impl TouchState {
    /// A contact first seen now.
    pub fn new(now: u64) -> (t: TouchState)
        ensures
            t == (TouchState { first: now, last: now }),
    {
        TouchState { first: now, last: now }
    }

    /// Refreshes the contact, keeping when it was first seen.
    pub fn update(&mut self, now: u64)
        ensures
            *final(self) == (TouchState { first: old(self).first, last: now }),
    {
        self.last = now;
    }
}

/// What a cleanup pass at time `now` leaves of one entry: the entry survives
/// exactly as long as its last refresh is no older than the timeout.
pub open spec fn survives(e: Option<TouchState>, now: u64, timeout_ms: u64) -> Option<TouchState> {
    match e {
        Some(t) => if now <= t.last + timeout_ms {
            Some(t)
        } else {
            None
        },
        None => None,
    }
}

/// The N-by-N symmetric contact matrix, stored row-major.
pub struct TouchMap {
    touches: Vec<Option<TouchState>>,
    timeout_ms: u64,
}

impl TouchMap {
    /// The entry for the pole pair `(i, j)`.
    pub closed spec fn at(self, i: int, j: int) -> Option<TouchState> {
        self.touches@[i * (NUM_POLES as int) + j]
    }

    /// The timeout after which an unrefreshed entry expires.
    pub closed spec fn spec_timeout_ms(self) -> u64 {
        self.timeout_ms
    }

    /// Well-formed: full size and symmetric. Symmetry is the heart of the
    /// model: every operation below preserves it.
    pub closed spec fn wf(self) -> bool {
        &&& self.touches@.len() == (NUM_POLES as int) * (NUM_POLES as int)
        &&& forall|i: int, j: int|
            0 <= i < NUM_POLES && 0 <= j < NUM_POLES ==> self.at(i, j) == self.at(j, i)
    }

    proof fn lemma_flat_index(i: int, j: int, a: int, b: int)
        requires
            0 <= i < NUM_POLES,
            0 <= j < NUM_POLES,
            0 <= a < NUM_POLES,
            0 <= b < NUM_POLES,
        ensures
            (i * (NUM_POLES as int) + j == a * (NUM_POLES as int) + b) <==> (i == a && j == b),
            0 <= i * (NUM_POLES as int) + j < (NUM_POLES as int) * (NUM_POLES as int),
    {
        assert((i * (NUM_POLES as int) + j == a * (NUM_POLES as int) + b) <==> (i == a && j
            == b)) by (nonlinear_arith)
            requires
                0 <= i < NUM_POLES,
                0 <= j < NUM_POLES,
                0 <= a < NUM_POLES,
                0 <= b < NUM_POLES,
        ;
        assert(0 <= i * (NUM_POLES as int) + j < (NUM_POLES as int) * (NUM_POLES as int))
            by (nonlinear_arith)
            requires
                0 <= i < NUM_POLES,
                0 <= j < NUM_POLES,
        ;
    }

    /// An empty matrix with the given expiry timeout.
    pub fn new(timeout_ms: u64) -> (m: TouchMap)
        ensures
            m.wf(),
            m.spec_timeout_ms() == timeout_ms,
            forall|i: int, j: int|
                0 <= i < NUM_POLES && 0 <= j < NUM_POLES ==> m.at(i, j) is None,
    {
        let total: usize = NUM_POLES * NUM_POLES;
        let mut touches: Vec<Option<TouchState>> = Vec::new();
        let mut k: usize = 0;
        while k < total
            invariant
                k <= total,
                touches@.len() == k,
                forall|m: int| 0 <= m < k ==> touches@[m] is None,
            decreases total - k,
        {
            touches.push(None);
            k = k + 1;
        }
        TouchMap { touches, timeout_ms }
    }

    /// Reads the entry for the pole pair `(i, j)`.
    pub fn get(&self, i: usize, j: usize) -> (e: Option<TouchState>)
        requires
            self.wf(),
            i < NUM_POLES,
            j < NUM_POLES,
        ensures
            e == self.at(i as int, j as int),
    {
        self.touches[i * NUM_POLES + j]
    }

    /// Inserts or refreshes the symmetric entry for `(i, j)`: a fresh contact
    /// starts its history now, a known one keeps its first-seen time.
    pub fn connect(&mut self, i: usize, j: usize, now: u64)
        requires
            old(self).wf(),
            i < NUM_POLES,
            j < NUM_POLES,
        ensures
            final(self).wf(),
            final(self).spec_timeout_ms() == old(self).spec_timeout_ms(),
            final(self).at(i as int, j as int) == Some(
                match old(self).at(i as int, j as int) {
                    Some(t) => TouchState { first: t.first, last: now },
                    None => TouchState { first: now, last: now },
                },
            ),
            forall|a: int, b: int|
                0 <= a < NUM_POLES && 0 <= b < NUM_POLES && !(a == i && b == j) && !(a == j && b
                    == i) ==> final(self).at(a, b) == old(self).at(a, b),
    {
        let mut newtouch = match self.touches[i * NUM_POLES + j] {
            Some(t) => t,
            None => TouchState::new(now),
        };
        newtouch.update(now);
        let n: usize = NUM_POLES;
        self.touches[i * n + j] = Some(newtouch);
        self.touches[j * n + i] = Some(newtouch);
        proof {
            assert forall|a: int, b: int|
                0 <= a < NUM_POLES && 0 <= b < NUM_POLES implies #[trigger] self.at(a, b)
                == if (a == i && b == j) || (a == j && b == i) {
                    Some(newtouch)
                } else {
                    old(self).at(a, b)
                } by {
                Self::lemma_flat_index(a, b, i as int, j as int);
                Self::lemma_flat_index(a, b, j as int, i as int);
            }
        }
    }

    /// Removes the symmetric entry for `(i, j)`.
    pub fn disconnect(&mut self, i: usize, j: usize)
        requires
            old(self).wf(),
            i < NUM_POLES,
            j < NUM_POLES,
        ensures
            final(self).wf(),
            final(self).spec_timeout_ms() == old(self).spec_timeout_ms(),
            final(self).at(i as int, j as int) is None,
            final(self).at(j as int, i as int) is None,
            forall|a: int, b: int|
                0 <= a < NUM_POLES && 0 <= b < NUM_POLES && !(a == i && b == j) && !(a == j && b
                    == i) ==> final(self).at(a, b) == old(self).at(a, b),
    {
        let n: usize = NUM_POLES;
        self.touches[i * n + j] = None;
        self.touches[j * n + i] = None;
        proof {
            assert forall|a: int, b: int|
                0 <= a < NUM_POLES && 0 <= b < NUM_POLES implies #[trigger] self.at(a, b)
                == if (a == i && b == j) || (a == j && b == i) {
                    None::<TouchState>
                } else {
                    old(self).at(a, b)
                } by {
                Self::lemma_flat_index(a, b, i as int, j as int);
                Self::lemma_flat_index(a, b, j as int, i as int);
            }
        }
    }

    /// Drops every entry whose last refresh is older than the timeout.
    pub fn clean_timeout(&mut self, now: u64)
        requires
            old(self).wf(),
        ensures
            final(self).wf(),
            final(self).spec_timeout_ms() == old(self).spec_timeout_ms(),
            forall|a: int, b: int|
                0 <= a < NUM_POLES && 0 <= b < NUM_POLES ==> final(self).at(a, b) == survives(
                    old(self).at(a, b),
                    now,
                    old(self).spec_timeout_ms(),
                ),
    {
        let len = self.touches.len();
        let mut k: usize = 0;
        while k < len
            invariant
                len == self.touches@.len(),
                len == old(self).touches@.len(),
                k <= len,
                self.timeout_ms == old(self).timeout_ms,
                forall|m: int| 0 <= m < k ==> self.touches@[m] == survives(
                    old(self).touches@[m],
                    now,
                    old(self).timeout_ms,
                ),
                forall|m: int| k <= m < len ==> self.touches@[m] == old(self).touches@[m],
            decreases len - k,
        {
            if let Some(t) = self.touches[k] {
                let age = if now >= t.last {
                    now - t.last
                } else {
                    0
                };
                if age > self.timeout_ms {
                    self.touches[k] = None;
                }
            }
            k = k + 1;
        }
        proof {
            assert forall|a: int, b: int|
                0 <= a < NUM_POLES && 0 <= b < NUM_POLES implies #[trigger] self.at(a, b)
                == survives(old(self).at(a, b), now, old(self).timeout_ms) by {
                Self::lemma_flat_index(a, b, a, b);
            }
        }
    }

    /// Empties the whole matrix.
    pub fn reset(&mut self)
        requires
            old(self).wf(),
        ensures
            final(self).wf(),
            final(self).spec_timeout_ms() == old(self).spec_timeout_ms(),
            forall|a: int, b: int|
                0 <= a < NUM_POLES && 0 <= b < NUM_POLES ==> final(self).at(a, b) is None,
    {
        let len = self.touches.len();
        let mut k: usize = 0;
        while k < len
            invariant
                len == self.touches@.len(),
                len == old(self).touches@.len(),
                k <= len,
                self.timeout_ms == old(self).timeout_ms,
                forall|m: int| 0 <= m < k ==> self.touches@[m] is None,
                forall|m: int| k <= m < len ==> self.touches@[m] == old(self).touches@[m],
            decreases len - k,
        {
            self.touches[k] = None;
            k = k + 1;
        }
        proof {
            assert forall|a: int, b: int|
                0 <= a < NUM_POLES && 0 <= b < NUM_POLES implies #[trigger] self.at(a, b)
                    is None by {
                Self::lemma_flat_index(a, b, a, b);
            }
        }
    }

    /// True when no pole is in contact with anything at all.
    pub fn is_idle(&self) -> (r: bool)
        requires
            self.wf(),
        ensures
            r == forall|a: int, b: int|
                0 <= a < NUM_POLES && 0 <= b < NUM_POLES ==> self.at(a, b) is None,
    {
        let len = self.touches.len();
        let mut k: usize = 0;
        while k < len
            invariant
                self.wf(),
                len == self.touches@.len(),
                k <= len,
                forall|m: int| 0 <= m < k ==> self.touches@[m] is None,
            decreases len - k,
        {
            if self.touches[k].is_some() {
                proof {
                    let a = k as int / (NUM_POLES as int);
                    let b = k as int % (NUM_POLES as int);
                    assert(0 <= a < NUM_POLES && 0 <= b < NUM_POLES && a * (NUM_POLES as int) + b
                        == k as int) by (nonlinear_arith)
                        requires
                            0 <= k < (NUM_POLES as int) * (NUM_POLES as int),
                            a == k as int / (NUM_POLES as int),
                            b == k as int % (NUM_POLES as int),
                    ;
                    assert(self.at(a, b) is Some);
                }
                return false;
            }
            k = k + 1;
        }
        proof {
            assert forall|a: int, b: int|
                0 <= a < NUM_POLES && 0 <= b < NUM_POLES implies self.at(a, b) is None by {
                assert(0 <= a * (NUM_POLES as int) + b < (NUM_POLES as int) * (NUM_POLES as int))
                    by (nonlinear_arith)
                    requires
                        0 <= a < NUM_POLES,
                        0 <= b < NUM_POLES,
                ;
            }
        }
        true
    }
}

/// The matrix is symmetric: however `connect` and `disconnect` have been
/// called, the entry for `(i, j)` is the entry for `(j, i)`.
pub proof fn lemma_touchmap_symmetric(m: TouchMap, i: int, j: int)
    requires
        m.wf(),
        0 <= i < NUM_POLES,
        0 <= j < NUM_POLES,
    ensures
        m.at(i, j) == m.at(j, i),
{
}

/// An entry present at some time and never refreshed is gone from any cleanup
/// pass that runs more than the timeout after its last refresh.
pub proof fn lemma_timeout_expiry(t: TouchState, now: u64, timeout_ms: u64)
    requires
        now > t.last + timeout_ms,
    ensures
        survives(Some(t), now, timeout_ms) is None,
{
}

} // verus!
