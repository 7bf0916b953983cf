use audio_leds::audio::AudioData;
use audio_leds::color::Rgb;
use audio_leds::controller::{wire_bytes, LedController};
use audio_leds::effects::{Effect, EffectType};
use audio_leds::inbox::{Command, CommandInbox};
use audio_leds::scheduler::SchedulePreset;

#[test]
fn switching_effects_keeps_color_and_speed() {
    let mut c = LedController::new(30);
    c.set_color(Rgb::new(1, 2, 3));
    c.set_speed(77, 0);
    c.set_effect(EffectType::Rainbow);
    assert_eq!(c.effect().get_color(), None);
    assert_eq!(c.effect().get_speed(), Some(77));
    c.set_effect(EffectType::Comet);
    assert_eq!(c.effect().kind(), EffectType::Comet);
    assert_eq!(c.effect().get_color(), Some(Rgb::new(1, 2, 3)));
    assert_eq!(c.effect().get_speed(), Some(77));
    c.set_effect(EffectType::Static);
    assert_eq!(c.effect().get_color(), Some(Rgb::new(1, 2, 3)));
    assert_eq!(c.effect().get_speed(), None);
    c.set_effect(EffectType::Gravimeter);
    assert_eq!(c.effect().get_speed(), Some(77));
}

#[test]
fn frames_carry_brightness_in_grb_order() {
    let mut c = LedController::new(2);
    let first = c.update(20_000, None).unwrap();
    assert_eq!(first, vec![0; 6]);
    assert_eq!(c.update(30_000, None), None);
    c.set_color(Rgb::new(10, 20, 30));
    c.set_brightness(128);
    let frame = c.update(40_000, None).unwrap();
    assert_eq!(frame, vec![10, 5, 15, 10, 5, 15]);
    assert_eq!(c.buffer().clone(), vec![Rgb::new(10, 20, 30); 2]);
}

#[test]
fn wire_bytes_scale_each_channel() {
    let buf = vec![Rgb::new(255, 128, 0), Rgb::new(1, 2, 3)];
    assert_eq!(wire_bytes(&buf, 255), vec![128, 255, 0, 2, 1, 3]);
    assert_eq!(wire_bytes(&buf, 0), vec![0; 6]);
}

#[test]
fn redraws_stop_then_keep_alive_fires() {
    let mut c = LedController::new(3);
    let mut t = 0u64;
    let mut sent = 0;
    for _ in 0..40 {
        t += 20_000;
        if c.update(t, None).is_some() {
            sent += 1;
        }
    }
    assert_eq!(sent, 2);
    assert!(c.update(t + 2_100_000, None).is_some());
    assert_eq!(c.update(t + 2_130_000, None), None);
}

#[test]
fn audio_effects_render_every_frame() {
    let mut c = LedController::new(8);
    c.set_effect(EffectType::VuMeter);
    let a = AudioData { volume: 500_000, bass: 0, mid: 0, treble: 0, bins: [0; 8] };
    for k in 1..6u64 {
        assert!(c.update(k * 20_000, Some(&a)).is_some());
    }
}

#[test]
fn delay_until_next_frame() {
    let mut c = LedController::new(1);
    assert_eq!(c.get_delay_ms(20_000), 0);
    c.update(20_000, None);
    assert!(!c.needs_update(30_000));
    assert_eq!(c.get_delay_ms(30_000), 6);
    assert!(c.needs_update(36_666));
    c.set_fps(500);
    assert_eq!(c.get_delay_ms(21_000), 7);
    c.set_fps(0);
    assert_eq!(c.get_delay_ms(21_000), 999);
}

#[test]
fn commands_are_drained_in_bounded_batches() {
    let mut c = LedController::new(4);
    let mut inbox = CommandInbox::new();
    inbox.enqueue(Command::SetColor(9, 9, 9)).unwrap();
    inbox.enqueue(Command::SetPower(false)).unwrap();
    inbox.enqueue(Command::SetEffect(EffectType::Breathe)).unwrap();
    assert_eq!(c.process_commands(&mut inbox, 0, 2), 2);
    assert_eq!(c.color(), Rgb::new(9, 9, 9));
    assert_eq!(c.brightness(), 0);
    assert_eq!(inbox.len(), 1);
    assert_eq!(c.process_commands(&mut inbox, 0, 10), 1);
    assert_eq!(c.effect().kind(), EffectType::Breathe);
    assert_eq!(c.effect().get_color(), Some(Rgb::new(9, 9, 9)));
    c.apply(Command::SetPower(true), 0);
    assert_eq!(c.brightness(), 255);
    c.apply(Command::SetSpeed(0), 0);
    assert_eq!(c.speed(), 1);
}

#[test]
fn scheduled_presets_apply_their_parts() {
    let mut c = LedController::new(4);
    c.set_speed(40, 0);
    c.apply_preset(SchedulePreset::with_all(EffectType::Comet, Some(Rgb::new(7, 8, 9)), Some(99), None), 0);
    assert_eq!(c.effect().kind(), EffectType::Comet);
    assert_eq!(c.effect().get_color(), Some(Rgb::new(7, 8, 9)));
    assert_eq!(c.effect().get_speed(), Some(40));
    assert_eq!(c.brightness(), 99);
    c.apply_preset(SchedulePreset::off(), 0);
    assert_eq!(c.effect().kind(), EffectType::Static);
    assert_eq!(c.color(), Rgb::black());
    assert_eq!(c.brightness(), 99);
}

#[test]
fn reselecting_an_effect_starts_it_afresh() {
    let mut c = LedController::new(30);
    c.set_effect(EffectType::Gravimeter);
    let a = AudioData { volume: 1_000_000, bass: 1_000_000, mid: 1_000_000, treble: 1_000_000, bins: [0; 8] };
    for k in 1..20u64 {
        c.update(k * 20_000, Some(&a));
    }
    let before = match c.effect() {
        Effect::Gravimeter(g) => g.particle_count(),
        _ => panic!("wrong effect"),
    };
    assert!(before > 0);
    c.set_effect(EffectType::Gravimeter);
    match c.effect() {
        Effect::Gravimeter(g) => assert_eq!(g.particle_count(), 0),
        _ => panic!("wrong effect"),
    }
}

#[test]
fn drained_commands_apply_in_order() {
    let mut c = LedController::new(4);
    let mut inbox = CommandInbox::new();
    inbox.enqueue(Command::SetBrightness(10)).unwrap();
    inbox.enqueue(Command::SetPower(true)).unwrap();
    inbox.enqueue(Command::SetSpeed(9)).unwrap();
    inbox.enqueue(Command::SetEffect(EffectType::Rainbow)).unwrap();
    inbox.enqueue(Command::SetColor(3, 2, 1)).unwrap();
    assert_eq!(c.process_commands(&mut inbox, 0, 8), 5);
    assert_eq!(c.brightness(), 255);
    assert_eq!(c.speed(), 9);
    assert_eq!(c.effect().kind(), EffectType::Rainbow);
    assert_eq!(c.effect().get_speed(), Some(9));
    assert_eq!(c.color(), Rgb::new(3, 2, 1));
}
