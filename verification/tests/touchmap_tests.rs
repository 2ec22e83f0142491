use poles::touchmap::{TouchMap, TouchState};

#[test]
fn connect_is_symmetric() {
    let mut m = TouchMap::new(1_000);
    m.connect(3, 7, 42);
    assert_eq!(m.get(3, 7), m.get(7, 3));
    assert!(m.get(3, 7).is_some());
    m.connect(0, 19, 50);
    assert_eq!(m.get(0, 19), m.get(19, 0));
    m.disconnect(3, 7);
    assert_eq!(m.get(3, 7), m.get(7, 3));
    assert!(m.get(3, 7).is_none());
}

#[test]
fn connect_refreshes_but_keeps_first_seen() {
    let mut m = TouchMap::new(1_000);
    m.connect(3, 7, 100);
    assert_eq!(m.get(3, 7), Some(TouchState { first: 100, last: 100 }));
    m.connect(3, 7, 250);
    assert_eq!(m.get(3, 7), Some(TouchState { first: 100, last: 250 }));
    assert_eq!(m.get(7, 3), Some(TouchState { first: 100, last: 250 }));
}

#[test]
fn timeout_drops_stale_entries_only() {
    let mut m = TouchMap::new(1_000);
    m.connect(1, 2, 100);
    m.connect(4, 4, 900);
    m.clean_timeout(1_100);
    // age 1000 is exactly the timeout: still alive
    assert!(m.get(1, 2).is_some());
    m.clean_timeout(1_101);
    assert!(m.get(1, 2).is_none());
    assert!(m.get(2, 1).is_none());
    assert!(m.get(4, 4).is_some());
    m.clean_timeout(2_000_000);
    assert!(m.get(4, 4).is_none());
}

#[test]
fn reset_empties_everything() {
    let mut m = TouchMap::new(1_000);
    m.connect(0, 1, 5);
    m.connect(5, 5, 5);
    assert!(!m.is_idle());
    m.reset();
    assert!(m.is_idle());
    assert!(m.get(0, 1).is_none());
    assert!(m.get(5, 5).is_none());
}

#[test]
fn self_touch_is_just_one_entry() {
    let mut m = TouchMap::new(1_000);
    m.connect(2, 2, 10);
    assert!(m.get(2, 2).is_some());
    assert!(m.get(2, 3).is_none());
    assert!(!m.is_idle());
}
