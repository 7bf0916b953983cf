use audio_leds::color::Rgb;
use audio_leds::effects::EffectType as Kind;
use audio_leds::http::{parse_hex_color, url_decode};
use audio_leds::network::{CredentialsError, WiFiCredentials};
use audio_leds::ntp::TimeInfo;
use audio_leds::scheduler::{LedScheduler, SchedulePreset, TimeOfDay};
use audio_leds::types::{scale_brightness, EffectType, LedState, LED_COUNT};
use audio_leds::wifi::WifiStatus;

#[test]
fn brightness_percent_scaling() {
    assert_eq!(scale_brightness(255, 100), 255);
    assert_eq!(scale_brightness(255, 50), 128);
    assert_eq!(scale_brightness(1, 10), 1);
    assert_eq!(scale_brightness(0, 10), 0);
    assert_eq!(scale_brightness(200, 0), 0);
    assert_eq!(scale_brightness(200, 150), 200);
}

#[test]
fn led_state_frames() {
    let mut s = LedState::default();
    assert_eq!(s.get_static_color(), Rgb::new(255, 255, 255));
    s.brightness = 50;
    let frame = s.get_effect_colors();
    assert_eq!(frame.len(), LED_COUNT);
    assert!(frame.iter().all(|p| *p == Rgb::new(128, 128, 128)));
    s.effect = EffectType::ColorWipe;
    let f1 = s.get_effect_colors();
    assert_eq!(f1[0], Rgb::new(128, 128, 128));
    assert_eq!(f1[1], Rgb::black());
    let f2 = s.get_effect_colors();
    assert_eq!(f2[1], Rgb::new(128, 128, 128));
    assert_eq!(f2[2], Rgb::black());
    s.effect = EffectType::Rainbow;
    let r = s.get_effect_colors();
    assert_eq!(r.len(), LED_COUNT);
    assert_ne!(r[0], r[72]);
}

#[test]
fn times_of_day() {
    assert!(TimeOfDay::new(24, 0).is_err());
    assert!(TimeOfDay::new(0, 60).is_err());
    let t = TimeOfDay::new(23, 59).unwrap();
    assert_eq!(t.to_minutes(), 1439);
}

#[test]
fn schedules_fire_once_per_minute() {
    let mut s = LedScheduler::new();
    let at = TimeOfDay::new(7, 30).unwrap();
    let days = [true, false, true, false, false, false, true];
    let id0 = s.add_schedule(SchedulePreset::with_color(Kind::Comet, Rgb::new(1, 2, 3)), at, days).unwrap();
    let id1 = s.add_schedule(SchedulePreset::off(), at, [true; 7]).unwrap();
    assert_eq!((id0, id1), (0, 1));
    let p = s.check_and_execute(at, 0).unwrap();
    assert_eq!(p.effect, Kind::Comet);
    assert_eq!(s.check_and_execute(at, 0), None);
    let later = TimeOfDay::new(7, 31).unwrap();
    assert_eq!(s.check_and_execute(later, 0), None);
    assert!(s.toggle_schedule(id0, false));
    assert!(s.check_and_execute(at, 0).unwrap().is_off());
    assert!(s.check_and_execute(later, 1).is_none());
    assert!(s.check_and_execute(at, 7).is_none());
    assert!(s.remove_schedule(id0));
    assert!(!s.remove_schedule(id0));
    assert_eq!(s.get_all_schedules().len(), 1);
    assert_eq!(s.get_all_schedules()[0].id, id1);
    assert_eq!(s.get_all_schedules()[0].effect_string(), "off");
    assert_eq!(s.get_all_schedules()[0].days_string(), "0,1,2,3,4,5,6");
    s.clear_all();
    assert_eq!(s.get_all_schedules().len(), 0);
}

#[test]
fn schedule_list_is_bounded() {
    let mut s = LedScheduler::new();
    let at = TimeOfDay::new(1, 1).unwrap();
    for _ in 0..16 {
        assert!(s.add_schedule(SchedulePreset::new(Kind::Rainbow), at, [false; 7]).is_ok());
    }
    assert_eq!(s.add_schedule(SchedulePreset::new(Kind::Rainbow), at, [false; 7]), Err("Schedule list full (max 16)"));
    assert_eq!(s.get_all_schedules()[2].days_string(), "");
    assert_eq!(s.get_all_schedules()[2].effect_string(), "rainbow");
}

#[test]
fn credentials_are_validated() {
    let ok = WiFiCredentials::new("home".to_string(), "password1".to_string()).unwrap();
    assert_eq!(ok.ssid, "home");
    let e = |s: &str, p: &str| WiFiCredentials::new(s.to_string(), p.to_string()).err();
    assert_eq!(e("", "password1"), Some(CredentialsError::SsidLength));
    assert_eq!(e(&"x".repeat(33), "password1"), Some(CredentialsError::SsidLength));
    assert_eq!(e("home", "short"), Some(CredentialsError::PasswordLength));
    assert_eq!(e("home", &"p".repeat(65)), Some(CredentialsError::PasswordLength));
    assert_eq!(e("caf\u{e9}\u{85}", "password1"), Some(CredentialsError::SsidCharacters));
    assert_eq!(e("caf\u{e9}", "password1"), None);
    assert_eq!(e("tab\there", "password1"), None);
    assert_eq!(CredentialsError::PasswordLength.message(), "Password must be 8-64 bytes");
}

#[test]
fn time_info_text() {
    let t = TimeInfo { hour: 10, minute: 30, second: 0, weekday: 0, day: 15, month: 1, year: 2024 };
    assert_eq!(t.format(), "2024-01-15 10:30:00");
    assert_eq!(t.weekday_name(), "Monday");
    let u = TimeInfo::from_parts(10, 30, 5, 1, 15, 0, 124);
    assert_eq!(u, TimeInfo { hour: 10, minute: 30, second: 5, weekday: 0, day: 15, month: 1, year: 2024 });
    assert_eq!(TimeInfo::from_parts(0, 0, 0, 0, 1, 11, 99).weekday_name(), "Sunday");
    assert_eq!(TimeInfo { weekday: 7, ..t }.weekday_name(), "Unknown");
}

#[test]
fn hex_colors() {
    assert_eq!(parse_hex_color("ff8000"), Ok((255, 128, 0)));
    assert_eq!(parse_hex_color("A0b1C2"), Ok((160, 177, 194)));
    assert_eq!(parse_hex_color("FF80"), Err(()));
    assert_eq!(parse_hex_color("gg0000"), Err(()));
    assert_eq!(parse_hex_color("+f0000"), Ok((15, 0, 0)));
}

#[test]
fn form_decoding() {
    assert_eq!(url_decode("a+b%20c%41"), "a b cA");
    assert_eq!(url_decode("%zz!"), "!");
    assert_eq!(url_decode("100%"), "100");
    assert_eq!(url_decode("x%4"), "x");
    assert_eq!(url_decode("%e9"), "\u{e9}");
    assert_eq!(url_decode(""), "");
}

#[test]
fn wifi_status_needs_real_address() {
    let s = WifiStatus::from_link(true, Some("0.0.0.0".to_string()));
    assert!(!s.connected && s.ip.is_none());
    let s = WifiStatus::from_link(true, Some("192.168.1.2".to_string()));
    assert!(s.connected);
    assert_eq!(s.ip.as_deref(), Some("192.168.1.2"));
    let s = WifiStatus::from_link(false, Some("192.168.1.2".to_string()));
    assert!(!s.connected && s.ip.is_none());
}
