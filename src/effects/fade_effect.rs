//! The whole strip fades between the color and black along a sine curve.
use vstd::prelude::*;
use crate::color::{Rgb, scaled_color, scale_color, fill};
use crate::effects::{clamp_speed, speed_clamped};
use crate::effects::breathe_effect::{half_sine, half_sine_of};

verus! {

/// Frame period of the fade (30 frames per second).
pub const FADE_FRAME_US: u64 = 33_333;

/// Cycles per second in thousandths: 0.1 at speed 0 up to 2 at 255.
pub open spec fn fade_rate(speed: u8) -> int {
    100 + (speed as int) * 1900 / 255
}

/// Position in the current cycle, in thousandths, after `elapsed` microseconds.
pub open spec fn fade_phase(speed: u8, elapsed: int) -> int {
    (fade_rate(speed) * elapsed / 1_000_000) % 1000
}

/// Share of black in the mix, in thousandths: `(sin(2 pi phase) + 1) / 2`.
pub open spec fn fade_blend(phase: int) -> int {
    if phase < 500 { (1000 + half_sine(phase * 2)) / 2 } else { (1000 - half_sine((phase - 500) * 2)) / 2 }
}

pub struct FadeEffect {
    color: Rgb,
    speed: u8,
    start_time: u64,
    started: bool,
}

impl FadeEffect {
    pub closed spec fn color_spec(&self) -> Rgb {
        self.color
    }

    pub closed spec fn speed_spec(&self) -> u8 {
        self.speed
    }

    pub closed spec fn start_spec(&self) -> u64 {
        self.start_time
    }

    pub closed spec fn started_spec(&self) -> bool {
        self.started
    }

    pub fn new(color: Rgb, speed: u8) -> (e: FadeEffect)
        ensures
            e.color_spec() == color,
            e.speed_spec() == clamp_speed(speed),
            !e.started_spec(),
    {
        FadeEffect { color, speed: speed_clamped(speed), start_time: 0, started: false }
    }

    /// Fills the strip with the color mixed with black as the curve gives it
    /// at `now_us`; the clock starts at the first call.
    pub fn update(&mut self, now_us: u64, buffer: &mut Vec<Rgb>) -> (r: Option<u64>)
        ensures
            final(self).started_spec(),
            final(self).color_spec() == old(self).color_spec(),
            final(self).speed_spec() == old(self).speed_spec(),
            final(self).start_spec() == if old(self).started_spec() { old(self).start_spec() } else { now_us },
            final(buffer)@.len() == old(buffer)@.len(),
            forall|i: int|
                0 <= i < final(buffer)@.len() ==> final(buffer)@[i] == scaled_color(
                    old(self).color_spec(),
                    1000 - fade_blend(
                        fade_phase(
                            old(self).speed_spec(),
                            if now_us >= final(self).start_spec() { now_us - final(self).start_spec() } else { 0 },
                        ),
                    ),
                    1000,
                ),
            r == Some(if now_us as int + FADE_FRAME_US <= u64::MAX { (now_us + FADE_FRAME_US) as u64 } else { u64::MAX }),
    {
        if !self.started {
            self.start_time = now_us;
            self.started = true;
        }
        let elapsed: u64 = if now_us >= self.start_time { now_us - self.start_time } else { 0 };
        let rate: u128 = 100 + (self.speed as u128) * 1900 / 255;
        proof {
            assert((rate as int) * (elapsed as int) <= 2000 * 0xffff_ffff_ffff_ffff) by (nonlinear_arith)
                requires
                    rate <= 2000,
            ;
        }
        let phase: u64 = ((rate * (elapsed as u128) / 1_000_000) % 1000) as u64;
        let blend: u64 = if phase < 500 {
            (1000 + half_sine_of(phase * 2)) / 2
        } else {
            (1000 - half_sine_of((phase - 500) * 2)) / 2
        };
        let c = scale_color(self.color, (1000 - blend) as u32, 1000);
        fill(buffer, c);
        Some(now_us.saturating_add(FADE_FRAME_US))
    }

    pub fn set_color(&mut self, color: Rgb)
        ensures
            final(self).color_spec() == color,
            final(self).speed_spec() == old(self).speed_spec(),
            final(self).start_spec() == old(self).start_spec(),
            final(self).started_spec() == old(self).started_spec(),
    {
        self.color = color;
    }

    pub fn set_speed(&mut self, speed: u8)
        ensures
            final(self).speed_spec() == clamp_speed(speed),
            final(self).color_spec() == old(self).color_spec(),
            final(self).start_spec() == old(self).start_spec(),
            final(self).started_spec() == old(self).started_spec(),
    {
        self.speed = speed_clamped(speed);
    }

    pub fn get_color(&self) -> (c: Option<Rgb>)
        ensures
            c == Some(self.color_spec()),
    {
        Some(self.color)
    }

    pub fn get_speed(&self) -> (s: Option<u8>)
        ensures
            s == Some(self.speed_spec()),
    {
        Some(self.speed)
    }

    pub fn name(&self) -> (n: &'static str)
        ensures
            n == "Fade",
    {
        "Fade"
    }
}

} // verus!
