use audio_leds::audio::AudioData;
use audio_leds::color::{hsv_to_rgb, Rgb};
use audio_leds::effects::blink_effect::{cycle_time_us, BlinkEffect};
use audio_leds::effects::bounce_effect::BounceEffect;
use audio_leds::effects::breathe_effect::BreatheEffect;
use audio_leds::effects::color_wipe_effect::ColorWipeEffect;
use audio_leds::effects::comet_effect::CometEffect;
use audio_leds::effects::gravimeter_effect::{GravimeterEffect, MAX_PARTICLES};
use audio_leds::effects::radialpulse_effect::{RadialPulseEffect, MAX_PULSES};
use audio_leds::effects::rainbow_effect::RainbowEffect;
use audio_leds::effects::scanner_effect::ScannerEffect;
use audio_leds::effects::static_effect::StaticEffect;
use audio_leds::effects::theater_chase_effect::TheaterChaseEffect;
use audio_leds::effects::vu_meter_effect::VuMeterEffect;
use audio_leds::effects::{speed_to_cycle_time_us, Band, Effect, EffectType};

fn black(n: usize) -> Vec<Rgb> {
    vec![Rgb::black(); n]
}

fn loud() -> AudioData {
    AudioData { volume: 1_000_000, bass: 1_000_000, mid: 1_000_000, treble: 1_000_000, bins: [0; 8] }
}

#[test]
fn static_effect_fills_once() {
    let red = Rgb::new(255, 0, 0);
    let mut e = StaticEffect::new(red);
    let mut buf = black(6);
    assert_eq!(e.update(0, &mut buf), Some(0));
    assert!(buf.iter().all(|p| *p == red));
    let before = buf.clone();
    assert_eq!(e.update(1000, &mut buf), None);
    assert_eq!(buf, before);
    e.set_color(red);
    assert_eq!(e.update(2000, &mut buf), None);
    e.set_color(Rgb::new(0, 0, 9));
    assert_eq!(e.update(3000, &mut buf), Some(0));
    assert!(buf.iter().all(|p| *p == Rgb::new(0, 0, 9)));
}

#[test]
fn rainbow_speed_change_keeps_hue() {
    let mut e = RainbowEffect::new(128);
    let mut buf = black(10);
    e.update(1, &mut buf);
    e.update(1_000_001, &mut buf);
    let before = e.hue_offset(1_000_001);
    assert_eq!(before, 18_568);
    e.set_speed(200, 1_000_001);
    let after = e.hue_offset(1_000_001);
    assert!(before - after <= 1, "{} -> {}", before, after);
    e.update(1_000_001, &mut buf);
    assert_eq!(buf[0], hsv_to_rgb(after, 255, 255));
    assert_eq!(e.get_speed(), Some(200));
}

#[test]
fn rainbow_pixels_step_by_hue() {
    let mut e = RainbowEffect::new(1);
    let mut buf = black(3);
    assert_eq!(e.update(5, &mut buf), Some(5 + 33_333));
    assert_eq!(buf[0], hsv_to_rgb(0, 255, 255));
    assert_eq!(buf[1], hsv_to_rgb(250, 255, 255));
    assert_eq!(buf[0], Rgb::new(255, 0, 0));
}

#[test]
fn color_wheel_primaries() {
    assert_eq!(hsv_to_rgb(0, 255, 255), Rgb::new(255, 0, 0));
    assert_eq!(hsv_to_rgb(12_000, 255, 255), Rgb::new(0, 255, 0));
    assert_eq!(hsv_to_rgb(24_000, 255, 255), Rgb::new(0, 0, 255));
    assert_eq!(hsv_to_rgb(3_000, 255, 255), Rgb::new(255, 127, 0));
    assert_eq!(hsv_to_rgb(0, 0, 200), Rgb::new(200, 200, 200));
}

#[test]
fn breathe_first_frame() {
    let mut e = BreatheEffect::new(Rgb::new(200, 100, 0), 128);
    let mut buf = black(3);
    e.update(0, &mut buf);
    assert!(buf.iter().all(|p| *p == Rgb::new(114, 57, 0)));
    assert_eq!(speed_to_cycle_time_us(128), 1_021_177);
    assert_eq!(speed_to_cycle_time_us(0), 1_992_353);
    assert_eq!(speed_to_cycle_time_us(255), 50_000);
}

#[test]
fn comet_head_and_tail() {
    let mut e = CometEffect::new(Rgb::new(255, 255, 255), 255, 20);
    let mut buf = black(20);
    e.update(1, &mut buf);
    assert_eq!(buf[0], Rgb::new(255, 255, 255));
    assert_eq!(buf[19], Rgb::new(163, 163, 163));
    assert_eq!(buf[18], Rgb::new(91, 91, 91));
    assert_eq!(buf[17], Rgb::new(40, 40, 40));
    assert_eq!(buf[16], Rgb::new(10, 10, 10));
    assert_eq!(buf[15], Rgb::black());
    assert_eq!(buf[1], Rgb::black());
    e.update(50_001, &mut buf);
    assert_eq!(buf[10], Rgb::new(255, 255, 255));
    assert_eq!(buf[0], Rgb::black());
}

#[test]
fn theater_chase_pattern_moves() {
    let c = Rgb::new(1, 2, 3);
    let mut e = TheaterChaseEffect::new(c, 255);
    let mut buf = black(7);
    e.update(0, &mut buf);
    assert_eq!(buf[0], c);
    assert_eq!(buf[1], Rgb::black());
    assert_eq!(buf[3], c);
    e.update(0, &mut buf);
    e.update(0, &mut buf);
    assert_eq!(buf[1], c);
    assert_eq!(buf[0], Rgb::black());
    assert_eq!(buf[4], c);
}

#[test]
fn color_wipe_fills_then_restarts() {
    let c = Rgb::new(9, 9, 9);
    let mut e = ColorWipeEffect::new(c, 0);
    let mut buf = black(4);
    e.update(0, &mut buf);
    assert_eq!(buf, vec![c, Rgb::black(), Rgb::black(), Rgb::black()]);
    e.update(0, &mut buf);
    assert_eq!(buf, vec![c, c, Rgb::black(), Rgb::black()]);
    for _ in 0..5 {
        e.update(0, &mut buf);
    }
    assert_eq!(buf, vec![c, c, c, c]);
    e.update(0, &mut buf);
    assert_eq!(buf, vec![c, Rgb::black(), Rgb::black(), Rgb::black()]);
}

#[test]
fn scanner_draws_tail_behind_light() {
    let mut e = ScannerEffect::new(Rgb::new(250, 0, 0), 255);
    let mut buf = black(10);
    e.update(0, &mut buf);
    assert_eq!(buf[2], Rgb::new(250, 0, 0));
    assert_eq!(buf[1], Rgb::new(200, 0, 0));
    assert_eq!(buf[0], Rgb::new(150, 0, 0));
    assert_eq!(buf[3], Rgb::black());
}

#[test]
fn bounce_turns_at_the_end() {
    let c = Rgb::new(100, 100, 100);
    let mut e = BounceEffect::new(c, 0);
    let mut buf = black(3);
    e.update(0, &mut buf);
    assert_eq!(buf[1], c);
    assert_eq!(buf[0], Rgb::black());
    e.update(0, &mut buf);
    assert_eq!(buf[2], c);
    assert_eq!(buf[1], Rgb::new(78, 78, 78));
    e.update(0, &mut buf);
    assert_eq!(buf[1], c);
}

#[test]
fn vu_meter_peak_holds_then_falls() {
    let mut e = VuMeterEffect::new(10, 255);
    let mut buf = black(10);
    let mut a = loud();
    e.update_audio(1, &a, &mut buf);
    e.update_audio(10_000, &a, &mut buf);
    assert_eq!(e.levels(), (800_000, 800_000));
    a.volume = 0;
    e.update_audio(20_000, &a, &mut buf);
    assert_eq!(e.levels(), (640_000, 800_000));
    e.update_audio(400_000, &a, &mut buf);
    assert_eq!(e.levels(), (512_000, 800_000));
    e.update_audio(500_000, &a, &mut buf);
    let (level, peak) = e.levels();
    assert_eq!((level, peak), (409_600, 790_000));
    assert_eq!(buf[0], Rgb::new(0, 255, 0));
    assert_eq!(buf[3], Rgb::new(153, 255, 0));
    assert_eq!(buf[4], Rgb::black());
    assert_eq!(buf[7], Rgb::new(0, 255, 255));
    let mut last = peak;
    for k in 1..100u64 {
        e.update_audio(500_000 + k * 16_666, &a, &mut buf);
        let (level, peak) = e.levels();
        assert!(peak <= last && peak >= level);
        last = peak;
    }
}

#[test]
fn gravimeter_particles_stay_within_capacity() {
    let mut e = GravimeterEffect::new(30, Rgb::new(1, 1, 1), 255);
    let mut buf = black(30);
    let a = loud();
    let mut t = 1u64;
    e.update_audio(t, &a, &mut buf);
    let mut seen = 0;
    for _ in 0..300 {
        t += 16_666;
        e.update_audio(t, &a, &mut buf);
        assert!(e.particle_count() <= MAX_PARTICLES);
        seen = seen.max(e.particle_count());
    }
    assert!(seen > 0);
    assert_eq!(e.get_color(), Some(Rgb::new(1, 1, 1)));
}

#[test]
fn radial_pulses_stay_within_capacity() {
    let mut e = RadialPulseEffect::new(40, Rgb::new(1, 1, 1), 128);
    let mut buf = black(40);
    let a = loud();
    let mut t = 3u64;
    e.update_audio(t, &a, &mut buf);
    let mut seen = 0;
    for _ in 0..300 {
        t += 16_667;
        e.update_audio(t, &a, &mut buf);
        assert!(e.pulse_count() <= MAX_PULSES);
        seen = seen.max(e.pulse_count());
    }
    assert!(seen > 0);
    assert!(buf[20].r > 0);
}

#[test]
fn blink_switches_and_catches_up() {
    assert_eq!(cycle_time_us(0), 2_000_000);
    assert_eq!(cycle_time_us(255), 50_000);
    let c = Rgb::new(5, 6, 7);
    let mut e = BlinkEffect::new(c, 0);
    let mut buf = black(2);
    assert_eq!(e.update(10, &mut buf), Some(1_000_010));
    assert_eq!(buf[0], c);
    assert_eq!(e.update(500_000, &mut buf), Some(1_000_010));
    assert_eq!(e.update(3_500_010, &mut buf), Some(4_000_010));
    assert_eq!(buf[0], Rgb::black());
    e.set_color(Rgb::new(1, 1, 1));
    assert_eq!(e.update(3_600_000, &mut buf), Some(4_000_010));
}

#[test]
fn catalog_reports_seeded_color_and_speed() {
    let c = Rgb::new(3, 4, 5);
    for (kind, color, speed) in [
        (EffectType::Static, Some(c), None),
        (EffectType::Rainbow, None, Some(90)),
        (EffectType::VuMeter, None, Some(90)),
        (EffectType::Comet, Some(c), Some(90)),
        (EffectType::Gravimeter, Some(c), Some(90)),
        (EffectType::RadialPulseEffect, Some(c), Some(90)),
    ] {
        let e = Effect::create(kind, c, 90, 16);
        assert_eq!(e.kind(), kind);
        assert_eq!(e.get_color(), color);
        assert_eq!(e.get_speed(), speed);
    }
    assert_eq!(Effect::create(EffectType::Bounce, c, 0, 4).get_speed(), Some(1));
    assert_eq!(Effect::create(EffectType::VuMeter, c, 1, 4).name(), "VU Meter");
    assert!(Effect::create(EffectType::Gravimeter, c, 1, 4).is_audio_reactive());
    assert!(!Effect::create(EffectType::Breathe, c, 1, 4).is_audio_reactive());
}

#[test]
fn spawning_into_full_collections_is_dropped() {
    let mut g = GravimeterEffect::new(30, Rgb::new(1, 1, 1), 128);
    for k in 0..25u32 {
        g.spawn_particle(k * 40_000, Band::Bass);
        assert!(g.particle_count() <= MAX_PARTICLES);
    }
    assert_eq!(g.particle_count(), MAX_PARTICLES);
    g.spawn_particle(u32::MAX, Band::Treble);
    assert_eq!(g.particle_count(), MAX_PARTICLES);
    let mut p = RadialPulseEffect::new(40, Rgb::new(1, 1, 1), 128);
    for _ in 0..30 {
        p.spawn_pulse(Band::Mid, 500_000);
        assert!(p.pulse_count() <= MAX_PULSES);
    }
    assert_eq!(p.pulse_count(), MAX_PULSES);
}
