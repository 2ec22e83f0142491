use poles::pole::PoleAnimations;
use poles::sound::{OSCEvent, SoundStateTracker};

#[test]
fn touch_transition_emits_touch_once() {
    let mut t = SoundStateTracker::new();
    let evs = t.update_sound(2, None, Some(PoleAnimations::Touching));
    assert_eq!(evs, vec![OSCEvent::Touch(2)]);
    // same desired state again: nothing new
    let evs = t.update_sound(2, Some(PoleAnimations::Touching), Some(PoleAnimations::Touching));
    assert_eq!(evs, vec![]);
}

#[test]
fn untouch_on_release() {
    let mut t = SoundStateTracker::new();
    t.update_sound(4, None, Some(PoleAnimations::Touching));
    let evs = t.update_sound(4, Some(PoleAnimations::Touching), None);
    assert_eq!(evs, vec![OSCEvent::UnTouch(4)]);
}

#[test]
fn connecting_adds_riser_for_second_endpoint() {
    let mut t = SoundStateTracker::new();
    // first endpoint: counter 0 -> 1, reported level 0: suppressed
    let evs = t.update_sound(3, None, Some(PoleAnimations::Connecting));
    assert_eq!(evs, vec![OSCEvent::Touch(3)]);
    assert_eq!(t.risers, 1);
    // second endpoint: counter 1 -> 2, reported level 1
    let evs = t.update_sound(7, None, Some(PoleAnimations::Connecting));
    assert_eq!(evs, vec![OSCEvent::Touch(7), OSCEvent::Riser(1)]);
    assert_eq!(t.risers, 2);
}

#[test]
fn explosion_fires_only_on_the_edge() {
    let mut t = SoundStateTracker::new();
    t.update_sound(0, None, Some(PoleAnimations::Connecting));
    t.update_sound(1, None, Some(PoleAnimations::Connecting));
    let evs = t.update_sound(0, Some(PoleAnimations::Connecting), Some(PoleAnimations::Exploding));
    // touch bit drops, riser bit drops (level 1 reported), edge fires, high-touch rises
    assert_eq!(
        evs,
        vec![
            OSCEvent::UnTouch(0),
            OSCEvent::UnRiser(1),
            OSCEvent::Explosion,
            OSCEvent::HiTouch(0)
        ]
    );
    // staying in Exploding: no second explosion
    let evs = t.update_sound(0, Some(PoleAnimations::Exploding), Some(PoleAnimations::Exploding));
    assert_eq!(evs, vec![]);
    // leaving Exploding: no explosion either
    let evs = t.update_sound(0, Some(PoleAnimations::Exploding), None);
    assert_eq!(evs, vec![OSCEvent::UnHiTouch(0)]);
}

#[test]
fn riser_counter_is_never_clamped_but_events_are() {
    let mut t = SoundStateTracker::new();
    let mut emitted = Vec::new();
    for _ in 0..12 {
        if let Some(e) = t.add_riser() {
            emitted.push(e);
        }
    }
    // raw counter counts every add
    assert_eq!(t.risers, 12);
    // reported levels: 1,1,2,2,3,3,4,4 then suppressed above the cap of 4
    assert_eq!(
        emitted,
        vec![
            OSCEvent::Riser(1),
            OSCEvent::Riser(1),
            OSCEvent::Riser(2),
            OSCEvent::Riser(2),
            OSCEvent::Riser(3),
            OSCEvent::Riser(3),
            OSCEvent::Riser(4),
            OSCEvent::Riser(4)
        ]
    );
    let mut removed = Vec::new();
    for _ in 0..12 {
        if let Some(e) = t.remove_riser() {
            removed.push(e);
        }
    }
    // the counter moves by exactly one per remove, down to empty
    assert_eq!(t.risers, 0);
    assert_eq!(
        removed,
        vec![
            OSCEvent::UnRiser(4),
            OSCEvent::UnRiser(4),
            OSCEvent::UnRiser(3),
            OSCEvent::UnRiser(3),
            OSCEvent::UnRiser(2),
            OSCEvent::UnRiser(2),
            OSCEvent::UnRiser(1),
            OSCEvent::UnRiser(1)
        ]
    );
}

#[test]
fn riser_conservation_while_level_positive() {
    let mut t = SoundStateTracker::new();
    // 6 adds, 4 removes: removes never outrun adds
    let mut adds = 0i64;
    let mut removes = 0i64;
    for _ in 0..6 {
        t.add_riser();
        adds += 1;
    }
    for _ in 0..4 {
        assert!(t.risers >= 1);
        t.remove_riser();
        removes += 1;
    }
    assert_eq!(t.risers as i64, adds - removes);
}
