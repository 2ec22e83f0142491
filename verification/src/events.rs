//! The engine's input events, and the pure diff logic that turns sensor scan
//! matrices into minimal connect/disconnect event streams.
//!
//! The adapters that read serial lines, UDP packets or stdin live outside the
//! engine; they hand in plain indices and scan matrices and forward the
//! events these functions produce.

use vstd::prelude::*;

use crate::NUM_POLES;

verus! {

/// A raw pairwise contact, by pole indices.
#[derive(Clone, Copy, Debug, PartialEq, Eq, Structural)]
pub enum EventTypes {
    Connect(usize, usize),
}

/// The display modes the renderer can run in.
#[derive(Clone, Copy, Debug, PartialEq, Eq, Structural)]
pub enum Modes {
    Regular,
    Disco,
    Flower,
}

/// Everything the frame loop reacts to.
#[derive(Clone, Copy, Debug, PartialEq, Eq, Structural)]
pub enum Events {
    Start(EventTypes),
    Stop(EventTypes),
    Reset,
    Draw,
    ConfigChanged,
    ModeChanged(Modes),
}

/// One cell of a flat N-by-N scan matrix.
pub open spec fn scan_at(s: Seq<bool>, i: int, j: int) -> bool {
    s[i * (NUM_POLES as int) + j]
}

/// A scan matrix has one cell per pole pair.
pub open spec fn scan_wf(s: Seq<bool>) -> bool {
    s.len() == (NUM_POLES as int) * (NUM_POLES as int)
}

proof fn lemma_scan_index(i: int, j: int, a: int, b: int)
    requires
        0 <= i < NUM_POLES,
        0 <= j < NUM_POLES,
        0 <= a < NUM_POLES,
        0 <= b < NUM_POLES,
    ensures
        (i * (NUM_POLES as int) + j == a * (NUM_POLES as int) + b) <==> (i == a && j == b),
        0 <= i * (NUM_POLES as int) + j < (NUM_POLES as int) * (NUM_POLES as int),
{
    assert((i * (NUM_POLES as int) + j == a * (NUM_POLES as int) + b) <==> (i == a && j
        == b)) by (nonlinear_arith)
        requires
            0 <= i < NUM_POLES,
            0 <= j < NUM_POLES,
            0 <= a < NUM_POLES,
            0 <= b < NUM_POLES,
    ;
    assert(0 <= i * (NUM_POLES as int) + j < (NUM_POLES as int) * (NUM_POLES as int))
        by (nonlinear_arith)
        requires
            0 <= i < NUM_POLES,
            0 <= j < NUM_POLES,
    ;
}

/// Marks in the scan matrix every contact one sensor line reports: the
/// sending pole touching each listed index, symmetrically. Out-of-range
/// senders and entries are ignored, as the transport cannot be trusted.
pub fn set_events(events: &mut Vec<bool>, senderindex: usize, touching: &Vec<usize>)
    requires
        scan_wf(old(events)@),
    ensures
        scan_wf(final(events)@),
        forall|a: int, b: int|
            0 <= a < NUM_POLES && 0 <= b < NUM_POLES ==> scan_at(final(events)@, a, b) == (scan_at(
                old(events)@,
                a,
                b,
            ) || (senderindex < NUM_POLES && ((a == senderindex && touching@.contains(b as usize)
                && b < NUM_POLES) || (b == senderindex && touching@.contains(a as usize) && a
                < NUM_POLES)))),
{
    if senderindex >= NUM_POLES {
        return ;
    }
    let mut k: usize = 0;
    while k < touching.len()
        invariant
            scan_wf(events@),
            senderindex < NUM_POLES,
            k <= touching@.len(),
            forall|a: int, b: int|
                0 <= a < NUM_POLES && 0 <= b < NUM_POLES ==> scan_at(events@, a, b) == (scan_at(
                    old(events)@,
                    a,
                    b,
                ) || (exists|t: int|
                    0 <= t < k && ((a == senderindex && #[trigger] touching@[t] == b && b
                        < NUM_POLES) || (b == senderindex && touching@[t] == a && a
                        < NUM_POLES)))),
        decreases touching@.len() - k,
    {
        let ind = touching[k];
        let ghost evs_pre = events@;
        if ind < NUM_POLES {
            events[senderindex * NUM_POLES + ind] = true;
            events[ind * NUM_POLES + senderindex] = true;
        }
        proof {
            assert forall|a: int, b: int|
                0 <= a < NUM_POLES && 0 <= b < NUM_POLES implies #[trigger] scan_at(events@, a, b)
                == (scan_at(old(events)@, a, b) || (exists|t: int|
                0 <= t < k + 1 && ((a == senderindex && #[trigger] touching@[t] == b && b
                    < NUM_POLES) || (b == senderindex && touching@[t] == a && a < NUM_POLES)))) by {
                assert(touching@[k as int] == ind);
                if ind < NUM_POLES {
                    lemma_scan_index(a, b, senderindex as int, ind as int);
                    lemma_scan_index(a, b, ind as int, senderindex as int);
                    lemma_scan_index(senderindex as int, ind as int, senderindex as int, ind as int);
                    lemma_scan_index(ind as int, senderindex as int, ind as int, senderindex as int);
                    if (a == senderindex && b == ind) || (a == ind && b == senderindex) {
                        assert(scan_at(events@, a, b));
                    } else {
                        assert(scan_at(events@, a, b) == scan_at(evs_pre, a, b));
                    }
                } else {
                    assert(events@ == evs_pre);
                }
            }
        }
        k = k + 1;
    }
    proof {
        assert forall|a: int, b: int|
            0 <= a < NUM_POLES && 0 <= b < NUM_POLES implies #[trigger] scan_at(events@, a, b) == (
        scan_at(old(events)@, a, b) || ((a == senderindex && touching@.contains(b as usize) && b
            < NUM_POLES) || (b == senderindex && touching@.contains(a as usize) && a
            < NUM_POLES))) by {
            if scan_at(events@, a, b) && !scan_at(old(events)@, a, b) {
                let t = choose|t: int|
                    0 <= t < touching@.len() && ((a == senderindex && #[trigger] touching@[t] == b
                        && b < NUM_POLES) || (b == senderindex && touching@[t] == a && a
                        < NUM_POLES));
                assert(touching@.contains(touching@[t]));
            }
            if a == senderindex && touching@.contains(b as usize) && b < NUM_POLES {
                let t = choose|t: int| 0 <= t < touching@.len() && touching@[t] == b as usize;
                assert(0 <= t < touching@.len() && touching@[t] == b);
            }
            if b == senderindex && touching@.contains(a as usize) && a < NUM_POLES {
                let t = choose|t: int| 0 <= t < touching@.len() && touching@[t] == a as usize;
                assert(0 <= t < touching@.len() && touching@[t] == a);
            }
        }
    }
}

/// The event a flipped cell of the upper triangle implies.
pub open spec fn diff_event(past: Seq<bool>, cur: Seq<bool>, a: int, b: int) -> Events {
    if scan_at(cur, a, b) {
        Events::Start(EventTypes::Connect(a as usize, b as usize))
    } else {
        Events::Stop(EventTypes::Connect(a as usize, b as usize))
    }
}

/// The event reports some flipped cell of the upper triangle.
pub open spec fn diff_entry(past: Seq<bool>, cur: Seq<bool>, e: Events) -> bool {
    exists|a: int, b: int|
        0 <= a <= b < NUM_POLES && scan_at(cur, a, b) != scan_at(past, a, b) && e == #[trigger]
        diff_event(past, cur, a, b)
}

/// An event list reports exactly the differences between two scans of the
/// upper triangle: a `Start` where a contact appeared, a `Stop` where one
/// vanished, and nothing else.
pub open spec fn is_scan_diff(evs: Seq<Events>, past: Seq<bool>, cur: Seq<bool>) -> bool {
    &&& forall|k: int| 0 <= k < evs.len() ==> diff_entry(past, cur, #[trigger] evs[k])
    &&& forall|a: int, b: int|
        0 <= a <= b < NUM_POLES && scan_at(cur, a, b) != scan_at(past, a, b) ==> evs.contains(
            #[trigger] diff_event(past, cur, a, b),
        )
}

/// Diffs two scans of the contact sensors and returns the start/stop events
/// the change implies, over the upper triangle of the symmetric matrix.
pub fn send_events(past: &Vec<bool>, cur: &Vec<bool>) -> (evs: Vec<Events>)
    requires
        scan_wf(past@),
        scan_wf(cur@),
    ensures
        is_scan_diff(evs@, past@, cur@),
{
    let mut evs: Vec<Events> = Vec::new();
    let mut i: usize = 0;
    while i < NUM_POLES
        invariant
            scan_wf(past@),
            scan_wf(cur@),
            i <= NUM_POLES,
            forall|k: int| 0 <= k < evs@.len() ==> diff_entry(past@, cur@, #[trigger] evs@[k]),
            forall|a: int, b: int|
                0 <= a <= b < NUM_POLES && a < i && scan_at(cur@, a, b) != scan_at(past@, a, b)
                    ==> evs@.contains(#[trigger] diff_event(past@, cur@, a, b)),
        decreases NUM_POLES - i,
    {
        let mut j: usize = i;
        while j < NUM_POLES
            invariant
                scan_wf(past@),
                scan_wf(cur@),
                i < NUM_POLES,
                i <= j <= NUM_POLES,
                forall|k: int| 0 <= k < evs@.len() ==> diff_entry(past@, cur@, #[trigger] evs@[k]),
                forall|a: int, b: int|
                    0 <= a <= b < NUM_POLES && a < i && scan_at(cur@, a, b) != scan_at(past@, a, b)
                        ==> evs@.contains(#[trigger] diff_event(past@, cur@, a, b)),
                forall|b: int|
                    i <= b < j && scan_at(cur@, i as int, b) != scan_at(past@, i as int, b)
                        ==> evs@.contains(#[trigger] diff_event(past@, cur@, i as int, b)),
            decreases NUM_POLES - j,
        {
            proof {
                lemma_scan_index(i as int, j as int, i as int, j as int);
            }
            let c = cur[i * NUM_POLES + j];
            let p = past[i * NUM_POLES + j];
            if c != p {
                let event = if c {
                    Events::Start(EventTypes::Connect(i, j))
                } else {
                    Events::Stop(EventTypes::Connect(i, j))
                };
                let ghost old_evs = evs@;
                evs.push(event);
                proof {
                    assert(c == scan_at(cur@, i as int, j as int));
                    assert(p == scan_at(past@, i as int, j as int));
                    assert(event == diff_event(past@, cur@, i as int, j as int));
                    assert(diff_entry(past@, cur@, event));
                    assert(forall|k: int| 0 <= k < old_evs.len() ==> evs@[k] == old_evs[k]);
                    assert(evs@[old_evs.len() as int] == event);
                    assert forall|x: Events| old_evs.contains(x) implies evs@.contains(x) by {
                        let k = choose|k: int| 0 <= k < old_evs.len() && old_evs[k] == x;
                        assert(evs@[k] == x);
                    }
                    assert(evs@.contains(event));
                }
            }
            j = j + 1;
        }
        i = i + 1;
    }
    evs
}

} // verus!
