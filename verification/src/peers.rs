//! The peer set: which other poles a pole is connected to.
//!
//! Peer sets are held in a `bit_set::BitSet` of pole indices, carried in an
//! opaque wrapper. The engine reaches the `BitSet` only through the functions
//! below; what the set holds is named by `peer_set_elems`, and every
//! function's contract says over that name what the `bit_set` source shows.

use vstd::prelude::*;

verus! {

/// A set of pole indices, backed by `bit_set::BitSet`.
#[verifier::external_body]
pub struct PeerSet {
    inner: bit_set::BitSet,
}

/// The set of indices a `PeerSet` holds.
pub uninterp spec fn peer_set_elems(s: PeerSet) -> Set<int>;

/// Relies on `bit_set::BitSet::new`: creates an empty set.
#[verifier::external_body]
pub(crate) fn bs_new() -> (s: PeerSet)
    ensures
        peer_set_elems(s) == Set::<int>::empty(),
{
    PeerSet { inner: bit_set::BitSet::new() }
}

/// Relies on `bit_set::BitSet::insert`: adds a value to the set and reports
/// whether it was absent before.
#[verifier::external_body]
pub(crate) fn bs_insert(s: &mut PeerSet, value: usize) -> (r: bool)
    ensures
        peer_set_elems(*final(s)) == peer_set_elems(*old(s)).insert(value as int),
        r == !peer_set_elems(*old(s)).contains(value as int),
{
    s.inner.insert(value)
}

/// Relies on `bit_set::BitSet`'s `PartialEq`: two sets compare equal exactly
/// when they hold the same values (it compares the ascending iterations).
#[verifier::external_body]
pub(crate) fn bs_eq(a: &PeerSet, b: &PeerSet) -> (r: bool)
    ensures
        r == (peer_set_elems(*a) == peer_set_elems(*b)),
{
    a.inner == b.inner
}

/// Relies on `bit_set::BitSet::iter`: yields exactly the held values, in
/// ascending order.
#[verifier::external_body]
pub(crate) fn bs_elements(s: &PeerSet) -> (v: Vec<usize>)
    ensures
        forall|k: int| 0 <= k < v@.len() ==> peer_set_elems(*s).contains(#[trigger] v@[k] as int),
        forall|e: int|
            peer_set_elems(*s).contains(e) ==> exists|k: int|
                0 <= k < v@.len() && #[trigger] v@[k] as int == e,
        forall|k1: int, k2: int| 0 <= k1 < k2 < v@.len() ==> v@[k1] < v@[k2],
{
    s.inner.iter().collect()
}

} // verus!
