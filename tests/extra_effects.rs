use audio_leds::color::Rgb;
use audio_leds::effects::chase_effect::ChaseEffect;
use audio_leds::effects::fade_effect::FadeEffect;
use audio_leds::effects::scan_effect::ScanEffect;
use audio_leds::effects::sparkle_effect::SparkleEffect;

#[test]
fn chase_steps_and_keeps_phase_on_speed_change() {
    let c = Rgb::new(4, 5, 6);
    let mut e = ChaseEffect::new(c, 0);
    let mut buf = vec![Rgb::black(); 6];
    assert_eq!(e.update(1, &mut buf), Some(33_334));
    assert_eq!(buf[0], c);
    assert_eq!(buf[1], Rgb::black());
    e.update(1_000_001, &mut buf);
    assert_eq!(buf[2], c);
    assert_eq!(buf[0], Rgb::black());
    assert_eq!(e.phase(2_000_001), 2);
    e.set_speed(255, 2_000_001);
    assert_eq!(e.phase(2_000_001), 2);
    assert_eq!(e.get_speed(), Some(255));
}

#[test]
fn fade_follows_the_sine() {
    let mut e = FadeEffect::new(Rgb::new(200, 100, 50), 255);
    let mut buf = vec![Rgb::black(); 2];
    e.update(1, &mut buf);
    assert_eq!(buf[0], Rgb::new(100, 50, 25));
    e.update(125_001, &mut buf);
    assert_eq!(buf[1], Rgb::black());
    e.update(375_001, &mut buf);
    assert_eq!(buf[0], Rgb::new(200, 100, 50));
}

#[test]
fn scan_eye_is_brightest_in_the_middle() {
    let mut e = ScanEffect::new(Rgb::new(250, 0, 0), 255, 60);
    let mut buf = vec![Rgb::new(1, 1, 1); 10];
    e.update(0, &mut buf);
    assert_eq!(buf[3], Rgb::black());
    assert_eq!(buf[4], Rgb::new(166, 0, 0));
    assert_eq!(buf[5], Rgb::new(166, 0, 0));
    assert_eq!(buf[6], Rgb::black());
    assert_eq!(buf[0], Rgb::black());
}

#[test]
fn sparkles_appear_and_fade_out() {
    let mut e = SparkleEffect::new(Rgb::new(255, 255, 255), 255);
    let mut buf = vec![Rgb::black(); 10];
    assert_eq!(e.update(7_000, &mut buf), Some(27_000));
    assert_eq!(e.sparkle_count(), 5);
    assert_eq!(buf[7], Rgb::new(240, 240, 240));
    assert_eq!(buf[6], Rgb::black());
    e.update(8_000, &mut buf);
    assert_eq!(buf[7], Rgb::new(225, 225, 225));
    for k in 0..20u64 {
        e.update(8_001 + k * 7 + 1, &mut buf);
    }
    assert_eq!(e.sparkle_count(), 0);
    assert!(buf.iter().all(|p| *p == Rgb::black()));
}
