//! A level bar with a green-yellow-red gradient and a peak marker that holds,
//! then falls.
use vstd::prelude::*;
use crate::audio::{AudioData, smooth_spec, smooth};
use crate::color::Rgb;
use crate::effects::{clamp_speed, speed_clamped};
use crate::signal::LEVEL_ONE;

verus! {

/// Frame period of the meter (60 frames per second).
pub const VU_FRAME_US: u64 = 16_666;

/// How long the peak marker holds before it starts to fall.
pub const PEAK_HOLD_US: u64 = 450_000;

/// Fall of the peak marker per frame at the lowest speed, as a level (0.005).
pub const PEAK_GRAVITY: u32 = 5000;

/// Smoothing weight (thousandths) while the level rises.
pub open spec fn attack(speed: u8) -> int {
    200 + (speed as int) * 600 / 255
}

/// Smoothing weight (thousandths) while the level falls.
pub open spec fn release(speed: u8) -> int {
    50 + (speed as int) * 150 / 255
}

pub open spec fn meter_level(current: int, target: int, speed: u8) -> int {
    smooth_spec(current, target, if target > current { attack(speed) } else { release(speed) })
}

pub open spec fn peak_decay(speed: u8) -> int {
    (PEAK_GRAVITY as int) * (255 + speed as int) / 255
}

/// Peak level and the time its hold began, after the level became `cur` at `now`.
pub open spec fn peak_after(peak: int, hold: u64, now: u64, cur: int, speed: u8) -> (int, u64) {
    if cur >= peak {
        (cur, now)
    } else if (if now >= hold { now - hold } else { 0 }) > PEAK_HOLD_US {
        (if peak - peak_decay(speed) < cur { cur } else { peak - peak_decay(speed) }, hold)
    } else {
        (peak, hold)
    }
}

/// Gradient color at pixel `i` of `len`: green to yellow over the first half, yellow to red after.
pub open spec fn gradient(i: int, len: int) -> Rgb {
    if 2 * i < len {
        Rgb { r: (510 * i / len) as u8, g: 255, b: 0 }
    } else {
        Rgb { r: 255, g: (510 * (len - i) / len) as u8, b: 0 }
    }
}

/// Lit pixels for a level: the level times the strip length, rounded.
pub open spec fn bar_len(level: int, len: int) -> int {
    (level * len + (LEVEL_ONE as int) / 2) / (LEVEL_ONE as int)
}

pub open spec fn peak_index(peak: int, len: int) -> int {
    peak * len / (LEVEL_ONE as int)
}

pub open spec fn meter_pixel(level: int, peak: int, len: int, i: int) -> Rgb {
    if i == peak_index(peak, len) && peak_index(peak, len) < len {
        if peak_index(peak, len) < bar_len(level, len) { Rgb { r: 255, g: 255, b: 255 } } else { Rgb { r: 0, g: 255, b: 255 } }
    } else if i < bar_len(level, len) {
        gradient(i, len)
    } else {
        Rgb { r: 0, g: 0, b: 0 }
    }
}

pub struct VuMeterEffect {
    num_leds: usize,
    speed: u8,
    current_level: u32,
    peak_level: u32,
    peak_hold_time: u64,
    started: bool,
}

impl VuMeterEffect {
    pub closed spec fn speed_spec(&self) -> u8 {
        self.speed
    }

    pub closed spec fn level_spec(&self) -> int {
        self.current_level as int
    }

    pub closed spec fn peak_spec(&self) -> int {
        self.peak_level as int
    }

    pub closed spec fn hold_spec(&self) -> u64 {
        self.peak_hold_time
    }

    pub closed spec fn started_spec(&self) -> bool {
        self.started
    }

    pub closed spec fn num_leds_spec(&self) -> int {
        self.num_leds as int
    }

    pub closed spec fn wf(&self) -> bool {
        self.current_level <= LEVEL_ONE && self.peak_level <= LEVEL_ONE && self.num_leds <= crate::effects::MAX_PIXELS
    }

    pub fn new(num_leds: usize, speed: u8) -> (e: VuMeterEffect)
        requires
            num_leds <= crate::effects::MAX_PIXELS,
        ensures
            e.wf(),
            e.speed_spec() == clamp_speed(speed),
            e.level_spec() == 0,
            e.peak_spec() == 0,
            e.num_leds_spec() == num_leds,
            !e.started_spec(),
    {
        VuMeterEffect {
            num_leds,
            speed: speed_clamped(speed),
            current_level: 0,
            peak_level: 0,
            peak_hold_time: 0,
            started: false,
        }
    }

    /// How `update` relates the effect and the buffer before (`a`, `ob`) and
    /// after (`b`, `nb`) a frame at `now` that returned `r`.
    pub open spec fn stepped(a: Self, now: u64, ob: Seq<Rgb>, b: Self, nb: Seq<Rgb>, r: Option<u64>) -> bool {
        &&& r is None
        &&& b == a
        &&& nb == ob
    }

    /// The meter only draws from audio: without it there is nothing to do.
    pub fn update(&mut self, now_us: u64, buffer: &mut Vec<Rgb>) -> (r: Option<u64>)
        ensures
            final(buffer)@.len() == old(buffer)@.len(),
            Self::stepped(*old(self), now_us, old(buffer)@, *final(self), final(buffer)@, r),
    {
        None
    }

    /// How `update_audio` relates the effect and the buffer before (`a`, `ob`)
    /// and after (`b`, `nb`) a frame at `now` on `audio` that returned `r`.
    pub open spec fn stepped_audio(a: Self, now: u64, audio: AudioData, ob: Seq<Rgb>, b: Self, nb: Seq<Rgb>, r: Option<u64>) -> bool {
        &&& b.wf()
        &&& b.started_spec()
        &&& b.speed_spec() == a.speed_spec()
        &&& b.num_leds_spec() == a.num_leds_spec()
        &&& nb.len() == ob.len()
        &&& r == Some(if now as int + VU_FRAME_US <= u64::MAX { (now + VU_FRAME_US) as u64 } else { u64::MAX })
        &&& !a.started_spec() ==> b.level_spec() == a.level_spec() && b.peak_spec()
            == a.peak_spec() && nb == ob
        &&& a.started_spec() ==> b.level_spec() == meter_level(
            a.level_spec(),
            if audio.volume > LEVEL_ONE { LEVEL_ONE as int } else { audio.volume as int },
            a.speed_spec(),
        )
        &&& a.started_spec() ==> (b.peak_spec(), b.hold_spec()) == peak_after(
            a.peak_spec(),
            a.hold_spec(),
            now,
            b.level_spec(),
            a.speed_spec(),
        )
        &&& a.started_spec() ==> forall|i: int|
            0 <= i < nb.len() ==> nb[i] == meter_pixel(
                b.level_spec(),
                b.peak_spec(),
                a.num_leds_spec(),
                i,
            )
        &&& a.started_spec() ==> b.level_spec() <= b.peak_spec()
    }

    /// Moves the level toward the loudness (faster up than down), lets the
    /// peak marker follow the rules of `peak_after`, and draws bar and marker.
    /// The first call only starts the clock.
    pub fn update_audio(&mut self, now_us: u64, audio: &AudioData, buffer: &mut Vec<Rgb>) -> (r: Option<u64>)
        requires
            old(self).wf(),
        ensures
            final(self).wf(),
            final(buffer)@.len() == old(buffer)@.len(),
            Self::stepped_audio(*old(self), now_us, *audio, old(buffer)@, *final(self), final(buffer)@, r),
    {
        let next = now_us.saturating_add(VU_FRAME_US);
        if !self.started {
            self.started = true;
            return Some(next);
        }
        let target: u32 = if audio.volume > LEVEL_ONE { LEVEL_ONE } else { audio.volume };
        let alpha: u32 = if target > self.current_level {
            200 + (self.speed as u32) * 600 / 255
        } else {
            50 + (self.speed as u32) * 150 / 255
        };
        self.current_level = smooth(self.current_level, target, alpha);
        if self.current_level >= self.peak_level {
            self.peak_level = self.current_level;
            self.peak_hold_time = now_us;
        } else {
            let held: u64 = now_us.saturating_sub(self.peak_hold_time);
            if held > PEAK_HOLD_US {
                let decay: u32 = PEAK_GRAVITY * (255 + self.speed as u32) / 255;
                self.peak_level = if self.peak_level < self.current_level + decay {
                    self.current_level
                } else {
                    self.peak_level - decay
                };
            }
        }
        let len = self.num_leds as u64;
        proof {
            let l = self.current_level as int;
            let p = self.peak_level as int;
            assert(l * (len as int) <= 1_000_000 * 0x1000_0000) by (nonlinear_arith)
                requires
                    0 <= l <= 1_000_000,
                    len <= 0x1000_0000,
            ;
            assert(p * (len as int) <= 1_000_000 * 0x1000_0000) by (nonlinear_arith)
                requires
                    0 <= p <= 1_000_000,
                    len <= 0x1000_0000,
            ;
            assert((l * (len as int) + 500_000) / 1_000_000 <= len) by (nonlinear_arith)
                requires
                    0 <= l <= 1_000_000,
                    0 <= len,
            ;
        }
        let bar: u64 = ((self.current_level as u64) * len + (LEVEL_ONE as u64) / 2) / (LEVEL_ONE as u64);
        let peak_idx: u64 = (self.peak_level as u64) * len / (LEVEL_ONE as u64);
        let n = buffer.len();
        let mut i: usize = 0;
        while i < n
            invariant
                n == buffer@.len(),
                i <= n,
                self.wf(),
                len == self.num_leds,
                bar == bar_len(self.current_level as int, len as int),
                bar <= len,
                len <= crate::effects::MAX_PIXELS,
                peak_idx == peak_index(self.peak_level as int, len as int),
                forall|j: int|
                    0 <= j < i ==> buffer@[j] == meter_pixel(
                        self.current_level as int,
                        self.peak_level as int,
                        len as int,
                        j,
                    ),
            decreases n - i,
        {
            let ii = i as u64;
            let c = if ii == peak_idx && peak_idx < len {
                if peak_idx < bar { Rgb { r: 255, g: 255, b: 255 } } else { Rgb { r: 0, g: 255, b: 255 } }
            } else if ii < bar {
                proof {
                    assert(510 * (ii as int) / (len as int) <= 510) by (nonlinear_arith)
                        requires
                            ii < len,
                            len > 0,
                    ;
                }
                if 2 * ii < len {
                    proof {
                        assert(510 * (ii as int) / (len as int) <= 255) by (nonlinear_arith)
                            requires
                                2 * ii < len,
                                len > 0,
                        ;
                    }
                    Rgb { r: (510 * ii / len) as u8, g: 255, b: 0 }
                } else {
                    proof {
                        assert(510 * (len - ii) / (len as int) <= 255) by (nonlinear_arith)
                            requires
                                2 * ii >= len,
                                ii < len,
                                len > 0,
                        ;
                    }
                    Rgb { r: 255, g: (510 * (len - ii) / len) as u8, b: 0 }
                }
            } else {
                Rgb { r: 0, g: 0, b: 0 }
            };
            buffer.set(i, c);
            i += 1;
        }
        Some(next)
    }

    /// The smoothed level and the peak marker, as levels.
    pub fn levels(&self) -> (r: (u32, u32))
        ensures
            r.0 == self.level_spec() && r.1 == self.peak_spec(),
    {
        (self.current_level, self.peak_level)
    }

    pub fn is_audio_reactive(&self) -> bool {
        true
    }

    pub fn set_speed(&mut self, speed: u8)
        ensures
            final(self).speed_spec() == clamp_speed(speed),
            final(self).level_spec() == old(self).level_spec(),
            final(self).peak_spec() == old(self).peak_spec(),
            final(self).num_leds_spec() == old(self).num_leds_spec(),
            final(self).started_spec() == old(self).started_spec(),
            final(self).wf() == old(self).wf(),
    {
        self.speed = speed_clamped(speed);
    }

    pub fn get_speed(&self) -> (s: Option<u8>)
        ensures
            s == Some(self.speed_spec()),
    {
        Some(self.speed)
    }

    pub fn name(&self) -> (n: &'static str)
        ensures
            n == "VU Meter",
    {
        "VU Meter"
    }
}

/// Peak-hold decay: while the level stays below the marker, the marker never
/// moves up; it stays put during the hold time, and afterwards only falls,
/// never below the level.
pub proof fn peak_hold_decays(peak: int, hold: u64, now: u64, cur: int, speed: u8)
    requires
        0 <= cur < peak,
    ensures
        peak_after(peak, hold, now, cur, speed).0 <= peak,
        cur <= peak_after(peak, hold, now, cur, speed).0,
        peak_after(peak, hold, now, cur, speed).1 == hold,
        (if now >= hold { now - hold } else { 0 }) <= PEAK_HOLD_US ==> peak_after(peak, hold, now, cur, speed).0
            == peak,
        (if now >= hold { now - hold } else { 0 }) > PEAK_HOLD_US ==> peak_after(peak, hold, now, cur, speed).0
            < peak,
{
    assert(peak_decay(speed) >= PEAK_GRAVITY);
}

} // verus!
