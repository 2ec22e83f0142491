use poles::animator::{frame_step, Animator};
use poles::events::Modes;
use poles::pole::{Pole, PoleAnimations, PoleState};
use poles::sound::OSCEvent;
use poles::touchmap::TouchMap;
use poles::{LEDS_PER_STRING, NUM_POLES};

fn make_poles() -> Vec<Pole> {
    let mut poles = Vec::new();
    for i in 0..NUM_POLES {
        poles.push(Pole::new(i));
    }
    poles
}

/// A single self-touched pole ramps to the 0.3 resting glow, fires `Touch`
/// exactly once, and never an `UnTouch` while held.
#[test]
fn self_touch_ramps_to_resting_glow() {
    let mut animator = Animator::new();
    let mut poles = make_poles();
    let mut touches = TouchMap::new(1_000_000);
    touches.connect(2, 2, 0);

    let mut all_events: Vec<OSCEvent> = Vec::new();
    let evs = animator.animate_poles(&mut poles, &touches, 50);
    all_events.extend(evs.iter().cloned());

    assert!(matches!(poles[2].state, PoleState::Touched));
    assert_eq!(poles[2].anim, Some(PoleAnimations::Touching));
    assert_eq!(all_events, vec![OSCEvent::Touch(2)]);

    // 150 more frames of 50 ms: five seconds in, the glow rests at 0.3
    for _ in 0..150 {
        let evs = animator.animate_poles(&mut poles, &touches, 50);
        all_events.extend(evs.iter().cloned());
    }
    assert_eq!(poles[2].level, 300_000);
    assert!(poles[2].level <= 1_000_000);

    let touch_count = all_events.iter().filter(|e| **e == OSCEvent::Touch(2)).count();
    let untouch_count = all_events.iter().filter(|e| **e == OSCEvent::UnTouch(2)).count();
    assert_eq!(touch_count, 1);
    assert_eq!(untouch_count, 0);
}

/// Reconnecting an already-connected pair refreshes the matrix entry but
/// emits no duplicate `Touch` or `Riser` events.
#[test]
fn reconnect_is_idempotent() {
    let mut animator = Animator::new();
    let mut poles = make_poles();
    let mut touches = TouchMap::new(1_000_000);

    touches.connect(3, 7, 0);
    let first = animator.animate_poles(&mut poles, &touches, 50);
    assert_eq!(
        first,
        vec![
            OSCEvent::Touch(3),
            OSCEvent::Touch(7),
            OSCEvent::Riser(1)
        ]
    );
    let stamp1 = touches.get(3, 7).unwrap();

    // the same contact reported again later
    touches.connect(3, 7, 500);
    let stamp2 = touches.get(3, 7).unwrap();
    assert_eq!(stamp2.first, stamp1.first);
    assert_eq!(stamp2.last, 500);

    let again = animator.animate_poles(&mut poles, &touches, 50);
    assert_eq!(again, vec![]);
}

/// Two poles connected to each other reach full glow together, and both flip
/// into `Exploding` on the same frame, each with exactly one `Explosion`.
#[test]
fn mutual_full_glow_explodes_both_at_once() {
    let mut animator = Animator::new();
    let mut poles = make_poles();
    let mut touches = TouchMap::new(1_000_000);
    touches.connect(0, 1, 0);

    let mut explosion_frames: Vec<(usize, usize)> = Vec::new();
    for frame in 0..220 {
        let evs = animator.animate_poles(&mut poles, &touches, 50);
        let n = evs.iter().filter(|e| **e == OSCEvent::Explosion).count();
        if n > 0 {
            explosion_frames.push((frame, n));
        }
    }
    // the connect ramp takes ten seconds: 200 frames of 50 ms
    assert_eq!(poles[0].level, 1_000_000);
    assert_eq!(poles[1].level, 1_000_000);
    assert_eq!(poles[0].anim, Some(PoleAnimations::Exploding));
    assert_eq!(poles[1].anim, Some(PoleAnimations::Exploding));
    // exactly one frame carried explosions, and it carried exactly two
    assert_eq!(explosion_frames.len(), 1);
    assert_eq!(explosion_frames[0].1, 2);
}

/// The frame after an explosion edge renders the white flash at every pole's
/// feet, on top of all other layers.
#[test]
fn explosion_flash_renders_over_everything() {
    let mut animator = Animator::new();
    let mut poles = make_poles();
    let mut touches = TouchMap::new(1_000_000);
    touches.connect(0, 1, 0);
    // 201 frames: the ramp saturates, the override fires on the last frame
    for _ in 0..201 {
        animator.animate_poles(&mut poles, &touches, 50);
    }
    // one more frame: the flash sprite is two pixels wide by now
    animator.animate_poles(&mut poles, &touches, 50);
    let c = poles[9].led_at(0);
    assert_eq!((c.hue, c.saturation, c.lightness), (0, 1000, 1000));
}

/// The first frame of an untouched installation lays the background wash
/// under every pole's main range.
#[test]
fn idle_frame_paints_the_wash() {
    let mut animator = Animator::new();
    let mut poles = make_poles();
    let touches = TouchMap::new(1_000_000);
    animator.animate_poles(&mut poles, &touches, 50);
    for i in 0..NUM_POLES {
        assert!(matches!(poles[i].state, PoleState::NotTouched));
        assert_eq!(poles[i].anim, None);
        let c = poles[i].led_at(0);
        assert_eq!((c.hue, c.saturation, c.lightness), (688_888, 980, 150));
        let c = poles[i].led_at(LEDS_PER_STRING - 1);
        assert_eq!((c.hue, c.saturation, c.lightness), (688_888, 980, 150));
    }
}

/// A connected pole's glow paints the far end of its main range with its base
/// color.
#[test]
fn connection_glow_fills_from_the_far_end() {
    let mut animator = Animator::new();
    let mut poles = make_poles();
    let mut touches = TouchMap::new(1_000_000);
    touches.connect(4, 5, 0);
    // one second: level = 100_000 of 1_000_000, ten of a hundred LEDs
    for _ in 0..20 {
        animator.animate_poles(&mut poles, &touches, 50);
    }
    assert_eq!(poles[4].level, 100_000);
    let base = poles[4].base_color;
    let lit = poles[4].led_at(LEDS_PER_STRING - 1);
    assert_eq!(lit, base);
    let lit = poles[4].led_at(LEDS_PER_STRING - 10);
    assert_eq!(lit, base);
    // below the glow, the wash still shows
    let unlit = poles[4].led_at(LEDS_PER_STRING - 11);
    assert_eq!((unlit.hue, unlit.saturation, unlit.lightness), (688_888, 980, 150));
}

/// Disconnecting moves the pair back toward darkness and sends the releases.
#[test]
fn disconnect_sends_releases() {
    let mut animator = Animator::new();
    let mut poles = make_poles();
    let mut touches = TouchMap::new(1_000_000);
    touches.connect(0, 1, 0);
    animator.animate_poles(&mut poles, &touches, 50);
    touches.disconnect(0, 1);
    let evs = animator.animate_poles(&mut poles, &touches, 50);
    assert!(evs.contains(&OSCEvent::UnTouch(0)));
    assert!(evs.contains(&OSCEvent::UnTouch(1)));
    assert!(evs.contains(&OSCEvent::UnRiser(1)));
    assert!(!evs.contains(&OSCEvent::Explosion));
    assert_eq!(poles[0].anim, None);
    assert!(matches!(poles[0].state, PoleState::NotTouched));
}

/// The derived state lists the peers of a bridged pole.
#[test]
fn derive_state_classifies_rows() {
    let mut touches = TouchMap::new(1_000_000);
    touches.connect(5, 9, 0);
    touches.connect(5, 5, 0);
    touches.connect(5, 11, 0);

    let s = poles::pole::derive_state(&touches, 5);
    // the self entry does not count as a peer
    assert_eq!(s.peers(), vec![9, 11]);
    assert!(matches!(s, PoleState::ConnectedTo(_)));

    let s9 = poles::pole::derive_state(&touches, 9);
    assert_eq!(s9.peers(), vec![5]);

    let s2 = poles::pole::derive_state(&touches, 2);
    assert!(matches!(s2, PoleState::NotTouched));
    assert_eq!(s2.peers(), vec![]);

    let mut touches2 = TouchMap::new(1_000_000);
    touches2.connect(2, 2, 0);
    let s3 = poles::pole::derive_state(&touches2, 2);
    assert!(matches!(s3, PoleState::Touched));
}

/// Changing the peer set while staying connected keeps the sound state quiet
/// but re-selects the connecting ramp.
#[test]
fn peer_set_change_stays_quiet() {
    let mut animator = Animator::new();
    let mut poles = make_poles();
    let mut touches = TouchMap::new(1_000_000);
    touches.connect(0, 1, 0);
    let evs = animator.animate_poles(&mut poles, &touches, 50);
    assert!(evs.contains(&OSCEvent::Touch(0)));
    // a second bridge appears: pole 0's peer set changes {1} -> {1, 2}
    touches.connect(0, 2, 10);
    let evs = animator.animate_poles(&mut poles, &touches, 50);
    // pole 0 says nothing new; pole 2 announces itself
    assert!(!evs.contains(&OSCEvent::Touch(0)));
    assert!(evs.contains(&OSCEvent::Touch(2)));
    assert_eq!(poles[0].anim, Some(PoleAnimations::Connecting));
}

/// The every-frame override also leaves `Exploding`: once no peer sits at
/// full glow, a still-connected pole falls back to the connecting ramp, and
/// the dispatcher emits the resulting diffs (no second `Explosion`).
#[test]
fn override_leaves_exploding_when_peer_drops() {
    let mut animator = Animator::new();
    let mut poles = make_poles();
    let mut touches = TouchMap::new(1_000_000);
    touches.connect(0, 1, 0);
    for _ in 0..201 {
        animator.animate_poles(&mut poles, &touches, 50);
    }
    assert_eq!(poles[0].anim, Some(PoleAnimations::Exploding));
    assert_eq!(poles[1].anim, Some(PoleAnimations::Exploding));
    // one peer's glow is knocked down; the pair stays connected
    poles[1].level = 500_000;
    let evs = animator.animate_poles(&mut poles, &touches, 50);
    assert_eq!(poles[0].anim, Some(PoleAnimations::Connecting));
    assert_eq!(poles[1].anim, Some(PoleAnimations::Connecting));
    assert!(!evs.contains(&OSCEvent::Explosion));
    // the riser counter drained to zero during the explosion, so the first
    // re-add reports level zero and is suppressed; the second reports one
    assert_eq!(
        evs,
        vec![
            OSCEvent::UnHiTouch(0),
            OSCEvent::Touch(0),
            OSCEvent::UnHiTouch(1),
            OSCEvent::Touch(1),
            OSCEvent::Riser(1)
        ]
    );
}

/// One verified frame step: the regular mode emits the touch events and the
/// heartbeat overlay runs in every mode.
#[test]
fn frame_step_dispatches_modes_and_always_breathes() {
    let mut animator = Animator::new();
    let mut poles = make_poles();
    for p in poles.iter_mut() {
        p.set_heart(90, 100);
    }
    let mut touches = TouchMap::new(1_000_000);
    touches.connect(2, 2, 0);

    let evs = frame_step(&mut animator, &mut poles, &touches, Modes::Regular, 50);
    assert_eq!(evs, vec![OSCEvent::Touch(2)]);
    assert!(matches!(poles[2].state, PoleState::Touched));
    // the heart overlay ran after the interactive pass
    let c = poles[3].led_at(95);
    assert_eq!(c.hue, poles[3].base_color.hue);

    // the alternative modes are silent
    let evs = frame_step(&mut animator, &mut poles, &touches, Modes::Flower, 50);
    assert_eq!(evs, vec![]);
    let evs = frame_step(&mut animator, &mut poles, &touches, Modes::Disco, 50);
    assert_eq!(evs, vec![]);
    let c = poles[3].led_at(95);
    assert_eq!(c.hue, poles[3].base_color.hue);
}
