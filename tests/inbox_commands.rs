use audio_leds::effects::{effect_from_name, EffectType};
use audio_leds::inbox::{Command, CommandInbox, INBOX_CAPACITY};

#[test]
fn command_overflow_keeps_queue_intact() {
    let mut inbox = CommandInbox::new();
    let mut accepted = 0u8;
    loop {
        match inbox.enqueue(Command::SetSpeed(accepted)) {
            Ok(()) => accepted += 1,
            Err(c) => {
                assert_eq!(c, Command::SetSpeed(accepted));
                break;
            }
        }
    }
    assert_eq!(accepted as usize, INBOX_CAPACITY);
    assert_eq!(inbox.enqueue(Command::SetPower(true)), Err(Command::SetPower(true)));
    assert_eq!(inbox.len(), INBOX_CAPACITY);
    for i in 0..accepted {
        assert_eq!(inbox.dequeue(), Some(Command::SetSpeed(i)));
    }
    assert_eq!(inbox.dequeue(), None);
}

#[test]
fn commands_survive_packing() {
    let all = [
        Command::SetEffect(EffectType::RadialPulseEffect),
        Command::SetEffect(EffectType::Static),
        Command::SetBrightness(77),
        Command::SetColor(1, 2, 3),
        Command::SetSpeed(255),
        Command::SetPower(false),
        Command::SetPower(true),
    ];
    for c in all {
        assert_eq!(Command::decode(c.encode()), Some(c));
    }
    assert_eq!(Command::encode(Command::SetColor(9, 8, 7)), (2, 9, 8, 7));
    assert_eq!(Command::decode((0, 11, 0, 0)), None);
    assert_eq!(Command::decode((9, 0, 0, 0)), None);
}

#[test]
fn effect_indices_round_trip() {
    for i in 0..11u8 {
        let e = EffectType::from_index(i).unwrap();
        assert_eq!(e.index(), i);
    }
    assert_eq!(EffectType::from_index(11), None);
}

#[test]
fn effects_are_found_by_name() {
    assert_eq!(effect_from_name("vu"), Some(EffectType::VuMeter));
    assert_eq!(effect_from_name("pulse"), Some(EffectType::RadialPulseEffect));
    assert_eq!(effect_from_name("theaterchase"), Some(EffectType::TheaterChase));
    assert_eq!(effect_from_name("Static"), None);
    assert_eq!(effect_from_name(""), None);
}
