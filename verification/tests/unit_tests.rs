use poles::color::Hsl;
use poles::config::Config;
use poles::events::{send_events, set_events, EventTypes, Events, Modes};
use poles::phase::AnimPhase;
use poles::pixels::{Led, LedArray, RgbLedArray, RgbOrder};
use poles::pole::{Animation, Pole};
use poles::touch::{ConnectedAnim, ExplodingAnim, ReverseTouchAnim, SinglePoleAnimation, TouchAnim};
use poles::sprites::{ExplosionAnim, PoleAnimation};
use poles::{NUM_POLES, UNIT};

#[test]
fn phase_advances_and_cycles() {
    let mut p = AnimPhase::new(2_000);
    assert_eq!(p.current(), 0);
    assert!(!p.is_done());
    assert_eq!(p.update(500), 250_000);
    assert_eq!(p.update(1_500), 1_000_000);
    assert!(p.is_done());
    assert_eq!(p.cycle(), 0);
    assert_eq!(p.cyclic_update(2_500), 250_000);
    assert!(!p.is_done());
}

#[test]
fn touch_easing_seeks_resting_glow_from_both_sides() {
    let mut pole = Pole::new(0);
    // up from darkness: 0.3/5s means 60 units per millisecond
    TouchAnim::animate_pole(&mut pole, 1_000);
    assert_eq!(pole.level, 60_000);
    // never past the target
    TouchAnim::animate_pole(&mut pole, 1_000_000);
    assert_eq!(pole.level, 300_000);
    // down from above, clamped at the target
    pole.level = 400_000;
    TouchAnim::animate_pole(&mut pole, 1_000);
    assert_eq!(pole.level, 340_000);
    TouchAnim::animate_pole(&mut pole, 1_000_000);
    assert_eq!(pole.level, 300_000);
}

#[test]
fn touch_easing_drains_touch_level_first() {
    let mut pole = Pole::new(0);
    pole.level = 500_000;
    pole.touch_level = 100_000;
    TouchAnim::animate_pole(&mut pole, 1_000);
    // the whole step went into the touch channel
    assert_eq!(pole.level, 500_000);
    assert_eq!(pole.touch_level, 40_000);
    // an undershoot borrows from the main level
    TouchAnim::animate_pole(&mut pole, 1_000);
    assert_eq!(pole.touch_level, 0);
    assert_eq!(pole.level, 480_000);
}

#[test]
fn reverse_easing_fades_to_black() {
    let mut pole = Pole::new(0);
    pole.level = 100_000;
    ReverseTouchAnim::animate_pole(&mut pole, 1_000);
    assert_eq!(pole.level, 40_000);
    ReverseTouchAnim::animate_pole(&mut pole, 1_000);
    assert_eq!(pole.level, 0);
    ReverseTouchAnim::animate_pole(&mut pole, 1_000);
    assert_eq!(pole.level, 0);
}

#[test]
fn connect_easing_saturates_at_full() {
    let mut pole = Pole::new(0);
    ConnectedAnim::animate_pole(&mut pole, 1_000);
    // 1.0/10s means 100 units per millisecond
    assert_eq!(pole.level, 100_000);
    ConnectedAnim::animate_pole(&mut pole, 20_000);
    assert_eq!(pole.level, 1_000_000);
    assert_eq!(pole.touch_level, 0);
}

#[test]
fn explode_easing_spills_into_touch_level() {
    let mut pole = Pole::new(0);
    pole.level = 950_000;
    ExplodingAnim::animate_pole(&mut pole, 1_000);
    assert_eq!(pole.level, 1_000_000);
    assert_eq!(pole.touch_level, 50_000);
    // the touch channel clamps at full as well
    ExplodingAnim::animate_pole(&mut pole, 100_000);
    assert_eq!(pole.level, 1_000_000);
    assert_eq!(pole.touch_level, 1_000_000);
}

#[test]
fn rgb_order_parses_known_names_only() {
    assert_eq!(RgbOrder::new("rgb"), Ok(RgbOrder::Rgb));
    assert_eq!(RgbOrder::new("rbg"), Ok(RgbOrder::Rbg));
    assert_eq!(RgbOrder::new("bgr"), Ok(RgbOrder::Bgr));
    assert_eq!(RgbOrder::new("brg"), Ok(RgbOrder::Brg));
    assert_eq!(RgbOrder::new("gbr"), Ok(RgbOrder::Gbr));
    assert_eq!(RgbOrder::new("grb"), Ok(RgbOrder::Grb));
    assert_eq!(RgbOrder::new("RGB"), Err(()));
    assert_eq!(RgbOrder::new(""), Err(()));
}

#[test]
fn rgb_order_transforms_channels() {
    assert_eq!(RgbOrder::Rgb.transform(1, 2, 3), (1, 2, 3));
    assert_eq!(RgbOrder::Rbg.transform(1, 2, 3), (1, 3, 2));
    assert_eq!(RgbOrder::Gbr.transform(1, 2, 3), (2, 3, 1));
    assert_eq!(RgbOrder::Grb.transform(1, 2, 3), (2, 1, 3));
    assert_eq!(RgbOrder::Bgr.transform(1, 2, 3), (3, 2, 1));
    assert_eq!(RgbOrder::Brg.transform(1, 2, 3), (3, 1, 2));
}

struct RecordingArray {
    pixels: Vec<(u8, u8, u8, u8)>,
}

impl LedArray for RecordingArray {
    fn len(&self) -> usize {
        self.pixels.len()
    }

    fn set_color_rgba(&mut self, lednum: usize, r: u8, g: u8, b: u8, a: u8) {
        if lednum < self.pixels.len() {
            self.pixels[lednum] = (r, g, b, a);
        }
    }

    fn show(&mut self) -> Result<(), ()> {
        Ok(())
    }
}

#[test]
fn rgb_led_array_reorders_on_the_way_through() {
    let inner = RecordingArray { pixels: vec![(0, 0, 0, 0); 4] };
    let mut arr = RgbLedArray::new(inner, RgbOrder::Bgr);
    arr.set_color_rgba(1, 10, 20, 30, 40);
    arr.set_color(2, Led { r: 1, g: 2, b: 3, a: 4 });
    assert_eq!(arr.len(), 4);
    assert_eq!(arr.show(), Ok(()));
}

#[test]
fn config_defaults_match_the_installation() {
    let c = Config::new();
    assert_eq!(c.get_num_leds_for_pole(), 54);
    assert_eq!(c.get_cp1(), 20);
    assert_eq!(c.get_cp2(), 34);
    assert_eq!(c.get_heart(), (54, 68));
    let mut c = c;
    c.set_num_leds_for_pole(80);
    assert_eq!(c.get_num_leds_for_pole(), 80);
}

#[test]
fn pole_setters_clamp_to_the_buffer() {
    let mut p = Pole::new(0);
    p.set_pole_length(54);
    assert_eq!(p.pole_length, 54);
    p.set_pole_length(100_000);
    assert_eq!(p.pole_length, 100);
    p.set_cp1(20);
    p.set_cp2(34);
    assert_eq!((p.cp1, p.cp2), (20, 34));
    p.set_heart(54, 68);
    assert_eq!(p.heart(), (54, 68));
    p.set_heart(54, 100_000);
    assert_eq!(p.heart(), (54, 100));
    // a reversed range collapses to empty instead of failing
    p.set_heart(80, 20);
    assert_eq!(p.heart(), (20, 20));
}

#[test]
fn scan_set_events_marks_symmetric_cells() {
    let mut scan = vec![false; NUM_POLES * NUM_POLES];
    set_events(&mut scan, 4, &vec![2, 9, 99]);
    assert!(scan[4 * NUM_POLES + 2]);
    assert!(scan[2 * NUM_POLES + 4]);
    assert!(scan[4 * NUM_POLES + 9]);
    assert!(scan[9 * NUM_POLES + 4]);
    // the out-of-range sensor index is ignored
    assert_eq!(scan.iter().filter(|b| **b).count(), 4);
    // an out-of-range sender is ignored wholesale
    let mut scan2 = vec![false; NUM_POLES * NUM_POLES];
    set_events(&mut scan2, 77, &vec![2]);
    assert_eq!(scan2.iter().filter(|b| **b).count(), 0);
}

#[test]
fn scan_diff_reports_starts_and_stops() {
    let mut past = vec![false; NUM_POLES * NUM_POLES];
    let mut cur = vec![false; NUM_POLES * NUM_POLES];
    set_events(&mut past, 1, &vec![2]);
    set_events(&mut cur, 5, &vec![6]);
    let evs = send_events(&past, &cur);
    assert_eq!(evs.len(), 2);
    assert!(evs.contains(&Events::Stop(EventTypes::Connect(1, 2))));
    assert!(evs.contains(&Events::Start(EventTypes::Connect(5, 6))));
    let none = send_events(&cur, &cur);
    assert_eq!(none, vec![]);
}

#[test]
fn mode_events_carry_their_payloads() {
    let e = Events::ModeChanged(Modes::Disco);
    assert_eq!(e, Events::ModeChanged(Modes::Disco));
    assert_ne!(e, Events::ModeChanged(Modes::Regular));
    assert_ne!(Events::Reset, Events::Draw);
}

#[test]
fn hearts_breathe_the_base_hue() {
    let mut animator = poles::animator::Animator::new();
    let mut poles_v = Vec::new();
    for i in 0..NUM_POLES {
        let mut p = Pole::new(i);
        p.set_heart(10, 20);
        poles_v.push(p);
    }
    // 1.25 s into the five-second cycle: position 0.25, breath 0.5 of peak
    animator.animate_hearts(&mut poles_v, 1_250);
    let base = poles_v[3].base_color;
    let c = poles_v[3].led_at(15);
    assert_eq!(c.hue, base.hue);
    assert_eq!(c.saturation, base.saturation);
    assert_eq!(c.lightness, 350);
    // outside the heart range nothing was painted
    let c = poles_v[3].led_at(25);
    assert_ne!(c.lightness, 350);
}

#[test]
fn clear_blacks_out_every_buffer() {
    let mut poles_v = vec![Pole::new(0), Pole::new(1)];
    poles_v[0].paint_range(0, 100, Hsl::new(5, 1000, 500));
    poles::animator::clear(&mut poles_v);
    for i in 0..2 {
        for k in 0..100 {
            let c = poles_v[i].led_at(k);
            assert_eq!((c.hue, c.saturation, c.lightness), (0, 0, 0));
        }
    }
}

#[test]
fn twinkle_targets_are_valid_poles() {
    let t = poles::sprites::TwinkleAnim::new(Hsl::new(0, 1000, 1000), 200);
    assert_eq!(t.index.len(), 5);
    for (pole, pixel) in t.index.iter() {
        assert!(*pole < NUM_POLES);
        assert!(*pixel < 32);
    }
}

#[test]
fn phase_position_is_a_unit_fraction() {
    let mut p = AnimPhase::new(200);
    let v = p.cyclic_update(50);
    assert_eq!(v, 250_000);
    assert!(v < UNIT);
}

#[test]
fn petals_paint_the_ring_pairs() {
    let c = Hsl::new(123_456, 1000, 500);
    let mut poles_v = Vec::new();
    for i in 0..NUM_POLES {
        let mut p = Pole::new(i);
        p.set_cp1(20);
        p.set_cp2(34);
        poles_v.push(p);
    }
    poles::animator::Animator::draw_petal_cp1(&mut poles_v, 0, c);
    // pair 0 covers pole 0 and its lower ring neighbour, pole 19
    assert_eq!(poles_v[0].led_at(0), c);
    assert_eq!(poles_v[0].led_at(19), c);
    assert_ne!(poles_v[0].led_at(20), c);
    assert_eq!(poles_v[19].led_at(19), c);
    assert_ne!(poles_v[1].led_at(0), c);

    poles::animator::Animator::draw_petal_cp2(&mut poles_v, 1, c);
    // pair 1 covers pole 2 and the pole three places below it, pole 19
    assert_eq!(poles_v[2].led_at(33), c);
    assert_ne!(poles_v[2].led_at(34), c);
    assert_eq!(poles_v[19].led_at(33), c);
}

#[test]
fn flower_sweeps_hues_around_the_ring() {
    let mut animator = poles::animator::Animator::new();
    let mut poles_v = Vec::new();
    for i in 0..NUM_POLES {
        let mut p = Pole::new(i);
        p.set_cp1(20);
        poles_v.push(p);
    }
    // 2.5 s into the ten-second sweep: position 0.25 of a turn
    animator.animate_flower(&mut poles_v, 2_500);
    // pole 0 belongs to petal pair 0
    let c = poles_v[0].led_at(0);
    assert_eq!((c.hue, c.saturation, c.lightness), (250_000, 1000, 500));
    // pole 5 belongs to petal pair 3, six ring steps further around
    let c = poles_v[5].led_at(19);
    assert_eq!((c.hue, c.saturation, c.lightness), (550_000, 1000, 500));
}

#[test]
fn whole_buffer_animation_rotates_hues() {
    let mut p = Pole::new(0);
    p.update_animation(1_000);
    // one second rotates every hue by one radian: 159155 millionths of a turn
    let c = p.led_at(0);
    assert_eq!(c.hue, 159_155);
    assert_eq!(c.lightness, 0);
    let c = p.led_at(50);
    assert_eq!(c.hue, 159_155);
    assert_eq!(c.lightness, 250);
}

#[test]
fn disco_repaints_only_on_the_beat() {
    let mut animator = poles::animator::Animator::new();
    let mut poles_v = Vec::new();
    for i in 0..NUM_POLES {
        let mut p = Pole::new(i);
        p.set_cp1(20);
        p.set_cp2(34);
        poles_v.push(p);
    }
    // 100 ms of a 500 ms beat: nothing repainted yet
    animator.animate_disco(&mut poles_v, 100);
    let c = poles_v[0].led_at(0);
    assert_eq!((c.hue, c.saturation, c.lightness), (0, 1000, 500));
    // the rest of the beat fires one step
    animator.animate_disco(&mut poles_v, 400);
    let c = poles_v[0].led_at(0);
    // step 1, pair 0, control-point-1 layer: hue (1+5+0)*324525 mod a turn
    assert_eq!((c.hue, c.saturation, c.lightness), (947_150, 1000, 500));
}

#[test]
fn twinkle_lights_exactly_its_targets() {
    let color = Hsl::new(123, 1000, 1000);
    let t = poles::sprites::TwinkleAnim::new(color, 200);
    let targets: Vec<(usize, usize)> = t.index.clone();
    // all five targets share one pixel index below 32
    assert_eq!(targets.len(), 5);
    for (p, px) in targets.iter() {
        assert!(*p < NUM_POLES);
        assert_eq!(*px, targets[0].1);
        assert!(*px < 32);
    }
    let sprite = poles::sprites::Sprite::Twinkle(t);
    let mut poles_v = Vec::new();
    for i in 0..NUM_POLES {
        poles_v.push(Pole::new(i));
    }
    sprite.animate_poles(&mut poles_v);
    for p in 0..NUM_POLES {
        for k in 0..100 {
            let c = poles_v[p].led_at(k);
            if targets.contains(&(p, k)) {
                assert_eq!(c, color);
            } else {
                // the untouched buffer keeps its construction color
                assert_eq!((c.hue, c.saturation, c.lightness), (0, 1000, 500));
            }
        }
    }
}

#[test]
fn circle_sprite_paints_three_pixels_at_its_index() {
    let color = Hsl::new(777, 1000, 800);
    let mut a = poles::sprites::CircleAnim::new(color, 1_000);
    let mut poles_v = vec![Pole::new(0)];
    // half a cycle in: the index sits at LED 50 of the hundred
    poles::sprites::PoleAnimation::update(&mut a, 500);
    poles::sprites::PoleAnimation::animate_poles(&a, &mut poles_v);
    for k in 0..100 {
        let c = poles_v[0].led_at(k);
        if k == 49 || k == 50 || k == 51 {
            assert_eq!(c, color);
        } else {
            assert_eq!((c.hue, c.saturation, c.lightness), (0, 1000, 500));
        }
    }
    assert!(!poles::sprites::PoleAnimation::is_done(&a));
    poles::sprites::PoleAnimation::update(&mut a, 500);
    assert!(poles::sprites::PoleAnimation::is_done(&a));
}

#[test]
fn explosion_flash_width_follows_the_sine_arc() {
    let white = Hsl::new(0, 1000, 1000);
    let mut a = ExplosionAnim::new();
    let mut poles_v = vec![Pole::new(0)];
    // a quarter of the half-second flash: eight times sine of a quarter turn,
    // floored, is five pixels
    PoleAnimation::update(&mut a, 125);
    PoleAnimation::animate_poles(&a, &mut poles_v);
    for k in 0..5 {
        assert_eq!(poles_v[0].led_at(k), white);
    }
    assert_ne!(poles_v[0].led_at(5), white);
    // mid-flash the full eight pixels burn
    PoleAnimation::update(&mut a, 125);
    PoleAnimation::animate_poles(&a, &mut poles_v);
    for k in 0..8 {
        assert_eq!(poles_v[0].led_at(k), white);
    }
    assert_ne!(poles_v[0].led_at(8), white);
}

#[test]
fn chase_paints_only_its_active_poles() {
    let mut animator = poles::animator::Animator::new();
    let mut poles_v = Vec::new();
    for i in 0..NUM_POLES {
        poles_v.push(Pole::new(i));
    }
    // a quiet frame (the two-second sweep has not completed)
    animator.animate_anim1(&mut poles_v, 100);
    // the initially active pole 0 got its trail darkened
    let c = poles_v[0].led_at(50);
    assert_eq!((c.hue, c.saturation, c.lightness), (0, 1000, 0));
    // every other pole keeps its construction color
    for p in 1..NUM_POLES {
        let c = poles_v[p].led_at(50);
        assert_eq!((c.hue, c.saturation, c.lightness), (0, 1000, 500));
    }
}
