//! The closed catalog of effects.
use vstd::prelude::*;
use crate::color::{Rgb, scaled_color, scale_color};
use crate::audio::AudioData;
use vstd::string::StrSliceExecFns;
use static_effect::StaticEffect;
use rainbow_effect::RainbowEffect;
use vu_meter_effect::VuMeterEffect;
use breathe_effect::BreatheEffect;
use comet_effect::CometEffect;
use scanner_effect::ScannerEffect;
use theater_chase_effect::TheaterChaseEffect;
use bounce_effect::BounceEffect;
use color_wipe_effect::ColorWipeEffect;
use gravimeter_effect::GravimeterEffect;
use radialpulse_effect::RadialPulseEffect;

pub mod static_effect;
pub mod rainbow_effect;
pub mod breathe_effect;
pub mod comet_effect;
pub mod scanner_effect;
pub mod theater_chase_effect;
pub mod bounce_effect;
pub mod color_wipe_effect;
pub mod vu_meter_effect;
pub mod gravimeter_effect;
pub mod radialpulse_effect;
pub mod blink_effect;
pub mod chase_effect;
pub mod fade_effect;
pub mod scan_effect;
pub mod sparkle_effect;

verus! {

#[verifier::external_type_specification]
#[verifier::external_body]
#[verifier::reject_recursive_types(T)]
pub struct ExHeaplessVec<T, const N: usize>(heapless::Vec<T, N>);

/// The band a wave answers to.
#[derive(Clone, Copy, Debug, PartialEq, Eq, Structural)]
pub enum Band {
    Bass,
    Mid,
    Treble,
}

/// Longest strip the effects drive; positions in thousandths of a pixel then fit 64 bits.
pub const MAX_PIXELS: usize = 0x1000_0000;

/// Frame period of the frame-stepped effects (42 frames per second).
pub const FRAMETIME_US: u64 = 23809;

/// Speed as the effects keep it: 0 counts as 1.
pub open spec fn clamp_speed(s: u8) -> u8 {
    if s < 1 { 1 } else { s }
}

pub fn speed_clamped(s: u8) -> (r: u8)
    ensures
        r == clamp_speed(s),
        1 <= r,
{
    if s < 1 { 1 } else { s }
}

pub open spec fn cycle_time_spec(speed: u8) -> int {
    2_000_000 - (clamp_speed(speed) as int) * (2_000_000 - 50_000) / 255
}

/// Length of one animation cycle for a speed: 2 s at speed 1 down to 50 ms at speed 255.
pub fn speed_to_cycle_time_us(speed: u8) -> (t: u64)
    ensures
        t == cycle_time_spec(speed),
        50_000 <= t <= 2_000_000,
{
    let s: u64 = speed_clamped(speed) as u64;
    assert(s <= 255);
    let k: u64 = s * 1_950_000;
    assert(k / 255 <= 1_950_000);
    2_000_000 - k / 255
}

/// Dims every pixel of `buffer` to `num / den` of its value.
pub fn fade_buffer(buffer: &mut Vec<Rgb>, num: u32, den: u32)
    requires
        0 < den,
        num <= den,
    ensures
        final(buffer)@.len() == old(buffer)@.len(),
        forall|i: int|
            0 <= i < final(buffer)@.len() ==> final(buffer)@[i] == scaled_color(old(buffer)@[i], num as int, den as int),
{
    let n = buffer.len();
    let mut i: usize = 0;
    while i < n
        invariant
            0 < den,
            num <= den,
            n == buffer@.len(),
            i <= n,
            forall|j: int| 0 <= j < i ==> buffer@[j] == scaled_color(old(buffer)@[j], num as int, den as int),
            forall|j: int| i <= j < n ==> buffer@[j] == old(buffer)@[j],
        decreases n - i,
    {
        let c = scale_color(buffer[i], num, den);
        buffer.set(i, c);
        i += 1;
    }
}

/// Identifier of each effect of the catalog.
#[derive(Clone, Copy, Debug, PartialEq, Eq, Hash, Structural)]
pub enum EffectType {
    Static,
    Rainbow,
    VuMeter,
    Breathe,
    Comet,
    Scanner,
    TheaterChase,
    Bounce,
    ColorWipe,
    Gravimeter,
    RadialPulseEffect,
}

/// Number of effects in the catalog.
pub const EFFECT_COUNT: u8 = 11;

pub open spec fn effect_index_spec(e: EffectType) -> u8 {
    match e {
        EffectType::Static => 0,
        EffectType::Rainbow => 1,
        EffectType::VuMeter => 2,
        EffectType::Breathe => 3,
        EffectType::Comet => 4,
        EffectType::Scanner => 5,
        EffectType::TheaterChase => 6,
        EffectType::Bounce => 7,
        EffectType::ColorWipe => 8,
        EffectType::Gravimeter => 9,
        EffectType::RadialPulseEffect => 10,
    }
}

pub open spec fn effect_from_index_spec(i: u8) -> Option<EffectType> {
    if i == 0 {
        Some(EffectType::Static)
    } else if i == 1 {
        Some(EffectType::Rainbow)
    } else if i == 2 {
        Some(EffectType::VuMeter)
    } else if i == 3 {
        Some(EffectType::Breathe)
    } else if i == 4 {
        Some(EffectType::Comet)
    } else if i == 5 {
        Some(EffectType::Scanner)
    } else if i == 6 {
        Some(EffectType::TheaterChase)
    } else if i == 7 {
        Some(EffectType::Bounce)
    } else if i == 8 {
        Some(EffectType::ColorWipe)
    } else if i == 9 {
        Some(EffectType::Gravimeter)
    } else if i == 10 {
        Some(EffectType::RadialPulseEffect)
    } else {
        None
    }
}

impl EffectType {
    /// Position of the effect in the catalog.
    pub fn index(self) -> (i: u8)
        ensures
            i == effect_index_spec(self),
            i < EFFECT_COUNT,
    {
        match self {
            EffectType::Static => 0,
            EffectType::Rainbow => 1,
            EffectType::VuMeter => 2,
            EffectType::Breathe => 3,
            EffectType::Comet => 4,
            EffectType::Scanner => 5,
            EffectType::TheaterChase => 6,
            EffectType::Bounce => 7,
            EffectType::ColorWipe => 8,
            EffectType::Gravimeter => 9,
            EffectType::RadialPulseEffect => 10,
        }
    }

    /// The effect at position `i` of the catalog, if there is one.
    pub fn from_index(i: u8) -> (e: Option<EffectType>)
        ensures
            e == effect_from_index_spec(i),
            e is None <==> i >= EFFECT_COUNT,
    {
        if i == 0 {
            Some(EffectType::Static)
        } else if i == 1 {
            Some(EffectType::Rainbow)
        } else if i == 2 {
            Some(EffectType::VuMeter)
        } else if i == 3 {
            Some(EffectType::Breathe)
        } else if i == 4 {
            Some(EffectType::Comet)
        } else if i == 5 {
            Some(EffectType::Scanner)
        } else if i == 6 {
            Some(EffectType::TheaterChase)
        } else if i == 7 {
            Some(EffectType::Bounce)
        } else if i == 8 {
            Some(EffectType::ColorWipe)
        } else if i == 9 {
            Some(EffectType::Gravimeter)
        } else if i == 10 {
            Some(EffectType::RadialPulseEffect)
        } else {
            None
        }
    }
}

/// Reading an effect back from its position gives the same effect.
pub proof fn effect_index_round_trip(e: EffectType)
    ensures
        effect_from_index_spec(effect_index_spec(e)) == Some(e),
{
}

/// Whether two strings hold the same characters.
pub fn same_text(a: &str, b: &str) -> (r: bool)
    ensures
        r == (a@ == b@),
{
    let n = a.unicode_len();
    if n != b.unicode_len() {
        return false;
    }
    let mut i: usize = 0;
    while i < n
        invariant
            n == a@.len(),
            n == b@.len(),
            i <= n,
            forall|j: int| 0 <= j < i ==> a@[j] == b@[j],
        decreases n - i,
    {
        if a.get_char(i) != b.get_char(i) {
            return false;
        }
        i += 1;
    }
    assert(a@ =~= b@);
    true
}

/// The effect the control surface names `name`.
pub open spec fn registry_spec(name: Seq<char>) -> Option<EffectType> {
    if name == "static"@ {
        Some(EffectType::Static)
    } else if name == "rainbow"@ {
        Some(EffectType::Rainbow)
    } else if name == "vu"@ {
        Some(EffectType::VuMeter)
    } else if name == "breathe"@ {
        Some(EffectType::Breathe)
    } else if name == "comet"@ {
        Some(EffectType::Comet)
    } else if name == "colorwipe"@ {
        Some(EffectType::ColorWipe)
    } else if name == "bounce"@ {
        Some(EffectType::Bounce)
    } else if name == "theaterchase"@ {
        Some(EffectType::TheaterChase)
    } else if name == "scanner"@ {
        Some(EffectType::Scanner)
    } else if name == "gravimeter"@ {
        Some(EffectType::Gravimeter)
    } else if name == "pulse"@ {
        Some(EffectType::RadialPulseEffect)
    } else {
        None
    }
}

/// Looks an effect up by the name the control surface uses for it.
pub fn effect_from_name(name: &str) -> (e: Option<EffectType>)
    ensures
        e == registry_spec(name@),
{
    if same_text(name, "static") {
        Some(EffectType::Static)
    } else if same_text(name, "rainbow") {
        Some(EffectType::Rainbow)
    } else if same_text(name, "vu") {
        Some(EffectType::VuMeter)
    } else if same_text(name, "breathe") {
        Some(EffectType::Breathe)
    } else if same_text(name, "comet") {
        Some(EffectType::Comet)
    } else if same_text(name, "colorwipe") {
        Some(EffectType::ColorWipe)
    } else if same_text(name, "bounce") {
        Some(EffectType::Bounce)
    } else if same_text(name, "theaterchase") {
        Some(EffectType::TheaterChase)
    } else if same_text(name, "scanner") {
        Some(EffectType::Scanner)
    } else if same_text(name, "gravimeter") {
        Some(EffectType::Gravimeter)
    } else if same_text(name, "pulse") {
        Some(EffectType::RadialPulseEffect)
    } else {
        None
    }
}

/// The display name of each effect of the catalog.
pub open spec fn effect_name(kind: EffectType) -> &'static str {
    match kind {
        EffectType::Static => "Static",
        EffectType::Rainbow => "Rainbow",
        EffectType::VuMeter => "VU Meter",
        EffectType::Breathe => "Breathe",
        EffectType::Comet => "Comet",
        EffectType::Scanner => "Scanner",
        EffectType::TheaterChase => "TheaterChase",
        EffectType::Bounce => "Bounce",
        EffectType::ColorWipe => "ColorWipe",
        EffectType::Gravimeter => "Gravimeter",
        EffectType::RadialPulseEffect => "Radial Pulse",
    }
}

/// Whether an effect of this kind keeps a color of its own.
pub open spec fn keeps_color(kind: EffectType) -> bool {
    kind != EffectType::Rainbow && kind != EffectType::VuMeter
}

/// Whether an effect of this kind keeps a speed of its own.
pub open spec fn keeps_speed(kind: EffectType) -> bool {
    kind != EffectType::Static
}

pub open spec fn audio_reactive(kind: EffectType) -> bool {
    kind == EffectType::VuMeter || kind == EffectType::Gravimeter || kind == EffectType::RadialPulseEffect
}

/// The active effect: one variant per member of the catalog.
pub enum Effect {
    Static(StaticEffect),
    Rainbow(RainbowEffect),
    VuMeter(VuMeterEffect),
    Breathe(BreatheEffect),
    Comet(CometEffect),
    Scanner(ScannerEffect),
    TheaterChase(TheaterChaseEffect),
    Bounce(BounceEffect),
    ColorWipe(ColorWipeEffect),
    Gravimeter(GravimeterEffect),
    RadialPulse(RadialPulseEffect),
}

impl Effect {
    pub open spec fn wf(&self) -> bool {
        match self {
            Effect::Rainbow(e) => e.wf(),
            Effect::VuMeter(e) => e.wf(),
            Effect::Comet(e) => e.wf(),
            Effect::TheaterChase(e) => e.wf(),
            Effect::Bounce(e) => e.wf(),
            Effect::Gravimeter(e) => e.wf(),
            Effect::RadialPulse(e) => e.wf(),
            _ => true,
        }
    }

    pub open spec fn kind_spec(&self) -> EffectType {
        match self {
            Effect::Static(_) => EffectType::Static,
            Effect::Rainbow(_) => EffectType::Rainbow,
            Effect::VuMeter(_) => EffectType::VuMeter,
            Effect::Breathe(_) => EffectType::Breathe,
            Effect::Comet(_) => EffectType::Comet,
            Effect::Scanner(_) => EffectType::Scanner,
            Effect::TheaterChase(_) => EffectType::TheaterChase,
            Effect::Bounce(_) => EffectType::Bounce,
            Effect::ColorWipe(_) => EffectType::ColorWipe,
            Effect::Gravimeter(_) => EffectType::Gravimeter,
            Effect::RadialPulse(_) => EffectType::RadialPulseEffect,
        }
    }

    /// Whether the effect is as its constructor leaves it: nothing drawn yet,
    /// clocks not started, positions and counters at their start, no particles.
    pub open spec fn fresh(&self) -> bool {
        match self {
            Effect::Static(e) => e.dirty_spec(),
            Effect::Rainbow(e) => !e.started_spec(),
            Effect::VuMeter(e) => !e.started_spec() && e.level_spec() == 0 && e.peak_spec() == 0,
            Effect::Breathe(e) => e.step_spec() == 0,
            Effect::Comet(e) => !e.started_spec(),
            Effect::Scanner(e) => e.position_spec() == 0 && e.forward_spec(),
            Effect::TheaterChase(e) => e.offset_spec() == 0,
            Effect::Bounce(e) => e.position_spec() == 0 && e.velocity_spec() == 1000,
            Effect::ColorWipe(e) => e.position_spec() == 0,
            Effect::Gravimeter(e) => !e.started_spec() && e.particles_spec().len() == 0,
            Effect::RadialPulse(e) => !e.started_spec() && e.pulses_spec().len() == 0,
        }
    }

    /// The color the effect reports, if it keeps one.
    pub open spec fn color_spec(&self) -> Option<Rgb> {
        match self {
            Effect::Static(e) => Some(e.color_spec()),
            Effect::Rainbow(_) => None,
            Effect::VuMeter(_) => None,
            Effect::Breathe(e) => Some(e.color_spec()),
            Effect::Comet(e) => Some(e.color_spec()),
            Effect::Scanner(e) => Some(e.color_spec()),
            Effect::TheaterChase(e) => Some(e.color_spec()),
            Effect::Bounce(e) => Some(e.color_spec()),
            Effect::ColorWipe(e) => Some(e.color_spec()),
            Effect::Gravimeter(e) => Some(e.color_spec()),
            Effect::RadialPulse(e) => Some(e.color_spec()),
        }
    }

    /// The speed the effect reports, if it keeps one.
    pub open spec fn speed_spec(&self) -> Option<u8> {
        match self {
            Effect::Static(_) => None,
            Effect::Rainbow(e) => Some(e.speed_spec()),
            Effect::VuMeter(e) => Some(e.speed_spec()),
            Effect::Breathe(e) => Some(e.speed_spec()),
            Effect::Comet(e) => Some(e.speed_spec()),
            Effect::Scanner(e) => Some(e.speed_spec()),
            Effect::TheaterChase(e) => Some(e.speed_spec()),
            Effect::Bounce(e) => Some(e.speed_spec()),
            Effect::ColorWipe(e) => Some(e.speed_spec()),
            Effect::Gravimeter(e) => Some(e.speed_spec()),
            Effect::RadialPulse(e) => Some(e.speed_spec()),
        }
    }

    /// A new effect of kind `kind` seeded with `color` and `speed` for a strip of `num_leds`.
    pub fn create(kind: EffectType, color: Rgb, speed: u8, num_leds: usize) -> (e: Effect)
        requires
            num_leds <= MAX_PIXELS,
        ensures
            e.wf(),
            e.fresh(),
            e.kind_spec() == kind,
            e.color_spec() == if keeps_color(kind) { Some(color) } else { None },
            e.speed_spec() == if keeps_speed(kind) { Some(clamp_speed(speed)) } else { None },
    {
        match kind {
            EffectType::Static => Effect::Static(StaticEffect::new(color)),
            EffectType::Rainbow => Effect::Rainbow(RainbowEffect::new(speed)),
            EffectType::VuMeter => Effect::VuMeter(VuMeterEffect::new(num_leds, speed)),
            EffectType::Breathe => Effect::Breathe(BreatheEffect::new(color, speed)),
            EffectType::Comet => Effect::Comet(CometEffect::new(color, speed, num_leds)),
            EffectType::Scanner => Effect::Scanner(ScannerEffect::new(color, speed)),
            EffectType::TheaterChase => Effect::TheaterChase(TheaterChaseEffect::new(color, speed)),
            EffectType::Bounce => Effect::Bounce(BounceEffect::new(color, speed)),
            EffectType::ColorWipe => Effect::ColorWipe(ColorWipeEffect::new(color, speed)),
            EffectType::Gravimeter => Effect::Gravimeter(GravimeterEffect::new(num_leds, color, speed)),
            EffectType::RadialPulseEffect => Effect::RadialPulse(RadialPulseEffect::new(num_leds, color, speed)),
        }
    }

    pub fn kind(&self) -> (k: EffectType)
        ensures
            k == self.kind_spec(),
    {
        match self {
            Effect::Static(_) => EffectType::Static,
            Effect::Rainbow(_) => EffectType::Rainbow,
            Effect::VuMeter(_) => EffectType::VuMeter,
            Effect::Breathe(_) => EffectType::Breathe,
            Effect::Comet(_) => EffectType::Comet,
            Effect::Scanner(_) => EffectType::Scanner,
            Effect::TheaterChase(_) => EffectType::TheaterChase,
            Effect::Bounce(_) => EffectType::Bounce,
            Effect::ColorWipe(_) => EffectType::ColorWipe,
            Effect::Gravimeter(_) => EffectType::Gravimeter,
            Effect::RadialPulse(_) => EffectType::RadialPulseEffect,
        }
    }

    pub fn get_color(&self) -> (c: Option<Rgb>)
        ensures
            c == self.color_spec(),
    {
        match self {
            Effect::Static(e) => e.get_color(),
            Effect::Rainbow(_) => None,
            Effect::VuMeter(_) => None,
            Effect::Breathe(e) => e.get_color(),
            Effect::Comet(e) => e.get_color(),
            Effect::Scanner(e) => e.get_color(),
            Effect::TheaterChase(e) => e.get_color(),
            Effect::Bounce(e) => e.get_color(),
            Effect::ColorWipe(e) => e.get_color(),
            Effect::Gravimeter(e) => e.get_color(),
            Effect::RadialPulse(e) => e.get_color(),
        }
    }

    pub fn get_speed(&self) -> (s: Option<u8>)
        ensures
            s == self.speed_spec(),
    {
        match self {
            Effect::Static(_) => None,
            Effect::Rainbow(e) => e.get_speed(),
            Effect::VuMeter(e) => e.get_speed(),
            Effect::Breathe(e) => e.get_speed(),
            Effect::Comet(e) => e.get_speed(),
            Effect::Scanner(e) => e.get_speed(),
            Effect::TheaterChase(e) => e.get_speed(),
            Effect::Bounce(e) => e.get_speed(),
            Effect::ColorWipe(e) => e.get_speed(),
            Effect::Gravimeter(e) => e.get_speed(),
            Effect::RadialPulse(e) => e.get_speed(),
        }
    }

    /// Gives the effect a new color; effects without a color ignore it.
    pub fn set_color(&mut self, color: Rgb)
        requires
            old(self).wf(),
        ensures
            final(self).wf(),
            final(self).kind_spec() == old(self).kind_spec(),
            final(self).speed_spec() == old(self).speed_spec(),
            final(self).color_spec() == if keeps_color(old(self).kind_spec()) { Some(color) } else { None },
    {
        match self {
            Effect::Static(e) => e.set_color(color),
            Effect::Rainbow(_) => {},
            Effect::VuMeter(_) => {},
            Effect::Breathe(e) => e.set_color(color),
            Effect::Comet(e) => e.set_color(color),
            Effect::Scanner(e) => e.set_color(color),
            Effect::TheaterChase(e) => e.set_color(color),
            Effect::Bounce(e) => e.set_color(color),
            Effect::ColorWipe(e) => e.set_color(color),
            Effect::Gravimeter(e) => e.set_color(color),
            Effect::RadialPulse(e) => e.set_color(color),
        }
    }

    /// Gives the effect a new speed (0 counts as 1) at time `now_us`; the
    /// static effect has none.
    pub fn set_speed(&mut self, speed: u8, now_us: u64)
        requires
            old(self).wf(),
        ensures
            final(self).wf(),
            final(self).kind_spec() == old(self).kind_spec(),
            final(self).color_spec() == old(self).color_spec(),
            final(self).speed_spec() == if keeps_speed(old(self).kind_spec()) { Some(clamp_speed(speed)) } else { None },
    {
        match self {
            Effect::Static(_) => {},
            Effect::Rainbow(e) => e.set_speed(speed, now_us),
            Effect::VuMeter(e) => e.set_speed(speed),
            Effect::Breathe(e) => e.set_speed(speed),
            Effect::Comet(e) => e.set_speed(speed),
            Effect::Scanner(e) => e.set_speed(speed),
            Effect::TheaterChase(e) => e.set_speed(speed),
            Effect::Bounce(e) => e.set_speed(speed),
            Effect::ColorWipe(e) => e.set_speed(speed),
            Effect::Gravimeter(e) => e.set_speed(speed),
            Effect::RadialPulse(e) => e.set_speed(speed),
        }
    }

    pub fn is_audio_reactive(&self) -> (r: bool)
        ensures
            r == audio_reactive(self.kind_spec()),
    {
        match self {
            Effect::VuMeter(_) => true,
            Effect::Gravimeter(_) => true,
            Effect::RadialPulse(_) => true,
            _ => false,
        }
    }

    /// The frame relation of the active variant (see each effect's `stepped`);
    /// the audio-reactive ones draw nothing without audio.
    pub open spec fn stepped(a: Effect, now: u64, ob: Seq<Rgb>, b: Effect, nb: Seq<Rgb>, r: Option<u64>) -> bool {
        match (a, b) {
            (Effect::Static(x), Effect::Static(y)) => StaticEffect::stepped(x, now, ob, y, nb, r),
            (Effect::Rainbow(x), Effect::Rainbow(y)) => RainbowEffect::stepped(x, now, ob, y, nb, r),
            (Effect::VuMeter(x), Effect::VuMeter(y)) => VuMeterEffect::stepped(x, now, ob, y, nb, r),
            (Effect::Breathe(x), Effect::Breathe(y)) => BreatheEffect::stepped(x, now, ob, y, nb, r),
            (Effect::Comet(x), Effect::Comet(y)) => CometEffect::stepped(x, now, ob, y, nb, r),
            (Effect::Scanner(x), Effect::Scanner(y)) => ScannerEffect::stepped(x, now, ob, y, nb, r),
            (Effect::TheaterChase(x), Effect::TheaterChase(y)) => TheaterChaseEffect::stepped(x, now, ob, y, nb, r),
            (Effect::Bounce(x), Effect::Bounce(y)) => BounceEffect::stepped(x, now, ob, y, nb, r),
            (Effect::ColorWipe(x), Effect::ColorWipe(y)) => ColorWipeEffect::stepped(x, now, ob, y, nb, r),
            (Effect::Gravimeter(x), Effect::Gravimeter(y)) => x == y && nb == ob && r is None,
            (Effect::RadialPulse(x), Effect::RadialPulse(y)) => x == y && nb == ob && r is None,
            _ => false,
        }
    }

    /// The audio frame relation of the audio-reactive variants.
    pub open spec fn stepped_audio(
        a: Effect,
        now: u64,
        audio: AudioData,
        ob: Seq<Rgb>,
        b: Effect,
        nb: Seq<Rgb>,
        r: Option<u64>,
    ) -> bool {
        match (a, b) {
            (Effect::VuMeter(x), Effect::VuMeter(y)) => VuMeterEffect::stepped_audio(x, now, audio, ob, y, nb, r),
            (Effect::Gravimeter(x), Effect::Gravimeter(y)) => GravimeterEffect::stepped_audio(x, now, audio, ob, y, nb, r),
            (Effect::RadialPulse(x), Effect::RadialPulse(y)) => RadialPulseEffect::stepped_audio(x, now, audio, ob, y, nb, r),
            _ => false,
        }
    }

    /// Advances the effect to `now_us` and draws into `buffer`. Returns the time
    /// of the next wanted update, or `None` when nothing changes until a command
    /// arrives. Audio-reactive effects draw nothing here.
    pub fn update(&mut self, now_us: u64, buffer: &mut Vec<Rgb>) -> (r: Option<u64>)
        requires
            old(self).wf(),
            old(buffer)@.len() <= MAX_PIXELS,
        ensures
            final(self).wf(),
            final(self).kind_spec() == old(self).kind_spec(),
            final(self).color_spec() == old(self).color_spec(),
            final(self).speed_spec() == old(self).speed_spec(),
            final(buffer)@.len() == old(buffer)@.len(),
            audio_reactive(old(self).kind_spec()) ==> r is None && final(buffer)@ == old(buffer)@,
            Effect::stepped(*old(self), now_us, old(buffer)@, *final(self), final(buffer)@, r),
    {
        match self {
            Effect::Static(e) => e.update(now_us, buffer),
            Effect::Rainbow(e) => e.update(now_us, buffer),
            Effect::VuMeter(e) => e.update(now_us, buffer),
            Effect::Breathe(e) => e.update(now_us, buffer),
            Effect::Comet(e) => e.update(now_us, buffer),
            Effect::Scanner(e) => e.update(now_us, buffer),
            Effect::TheaterChase(e) => e.update(now_us, buffer),
            Effect::Bounce(e) => e.update(now_us, buffer),
            Effect::ColorWipe(e) => e.update(now_us, buffer),
            Effect::Gravimeter(_) => None,
            Effect::RadialPulse(_) => None,
        }
    }

    /// Like `update`, with the latest audio snapshot; effects that do not react
    /// to audio ignore it.
    pub fn update_audio(&mut self, now_us: u64, audio: &AudioData, buffer: &mut Vec<Rgb>) -> (r: Option<u64>)
        requires
            old(self).wf(),
            old(buffer)@.len() <= MAX_PIXELS,
        ensures
            final(self).wf(),
            final(self).kind_spec() == old(self).kind_spec(),
            final(self).color_spec() == old(self).color_spec(),
            final(self).speed_spec() == old(self).speed_spec(),
            final(buffer)@.len() == old(buffer)@.len(),
            audio_reactive(old(self).kind_spec()) ==> r is Some,
            audio_reactive(old(self).kind_spec()) ==> Effect::stepped_audio(
                *old(self),
                now_us,
                *audio,
                old(buffer)@,
                *final(self),
                final(buffer)@,
                r,
            ),
            !audio_reactive(old(self).kind_spec()) ==> Effect::stepped(*old(self), now_us, old(buffer)@, *final(self), final(buffer)@, r),
    {
        match self {
            Effect::VuMeter(e) => e.update_audio(now_us, audio, buffer),
            Effect::Gravimeter(e) => e.update_audio(now_us, audio, buffer),
            Effect::RadialPulse(e) => e.update_audio(now_us, audio, buffer),
            _ => self.update(now_us, buffer),
        }
    }

    pub fn name(&self) -> (n: &'static str)
        ensures
            n == effect_name(self.kind_spec()),
    {
        match self {
            Effect::Static(e) => e.name(),
            Effect::Rainbow(e) => e.name(),
            Effect::VuMeter(e) => e.name(),
            Effect::Breathe(e) => e.name(),
            Effect::Comet(e) => e.name(),
            Effect::Scanner(e) => e.name(),
            Effect::TheaterChase(e) => e.name(),
            Effect::Bounce(e) => e.name(),
            Effect::ColorWipe(e) => e.name(),
            Effect::Gravimeter(e) => e.name(),
            Effect::RadialPulse(e) => e.name(),
        }
    }
}

} // verus!
