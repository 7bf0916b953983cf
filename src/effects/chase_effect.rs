//! Every third pixel lit, stepping along the strip at a speed-dependent rate.
use vstd::prelude::*;
use crate::color::Rgb;
use crate::effects::{clamp_speed, speed_clamped};

verus! {

/// Frame period of the chase (30 frames per second).
pub const CHASE_FRAME_US: u64 = 33_333;

/// Steps per second in thousandths: 1 at speed 0 up to 20 at 255.
pub open spec fn chase_rate(speed: u8) -> int {
    1000 + (speed as int) * 19_000 / 255
}

/// Phase of the pattern (0, 1 or 2) after `elapsed` microseconds.
pub open spec fn chase_phase(speed: u8, elapsed: int) -> int {
    (chase_rate(speed) * elapsed / 1_000_000_000) % 3
}

pub open spec fn chase_pixel_at(color: Rgb, phase: int, i: int) -> Rgb {
    if (i + phase) % 3 == 0 { color } else { Rgb { r: 0, g: 0, b: 0 } }
}

pub struct ChaseEffect {
    color: Rgb,
    speed: u8,
    start_time: u64,
    started: bool,
}

impl ChaseEffect {
    pub closed spec fn color_spec(&self) -> Rgb {
        self.color
    }

    pub closed spec fn speed_spec(&self) -> u8 {
        self.speed
    }

    pub closed spec fn start_spec(&self) -> u64 {
        self.start_time
    }

    pub closed spec fn started_spec(&self) -> bool {
        self.started
    }

    /// Phase of the pattern at `now`.
    pub open spec fn phase_at(&self, now: u64) -> int {
        chase_phase(self.speed_spec(), if now >= self.start_spec() { now - self.start_spec() } else { 0 })
    }

    pub fn new(color: Rgb, speed: u8) -> (e: ChaseEffect)
        ensures
            e.color_spec() == color,
            e.speed_spec() == clamp_speed(speed),
            !e.started_spec(),
    {
        ChaseEffect { color, speed: speed_clamped(speed), start_time: 0, started: false }
    }

    /// Phase of the pattern at `now_us`.
    pub fn phase(&self, now_us: u64) -> (p: u64)
        ensures
            p == self.phase_at(now_us),
            p < 3,
    {
        let elapsed: u64 = if now_us >= self.start_time { now_us - self.start_time } else { 0 };
        let rate: u128 = 1000 + (self.speed as u128) * 19_000 / 255;
        proof {
            assert((rate as int) * (elapsed as int) <= 20_000 * 0xffff_ffff_ffff_ffff) by (nonlinear_arith)
                requires
                    rate <= 20_000,
            ;
        }
        ((rate * (elapsed as u128) / 1_000_000_000) % 3) as u64
    }

    /// Paints the pattern for time `now_us`; the clock starts at the first call.
    pub fn update(&mut self, now_us: u64, buffer: &mut Vec<Rgb>) -> (r: Option<u64>)
        ensures
            final(self).started_spec(),
            final(self).color_spec() == old(self).color_spec(),
            final(self).speed_spec() == old(self).speed_spec(),
            final(self).start_spec() == if old(self).started_spec() { old(self).start_spec() } else { now_us },
            final(buffer)@.len() == old(buffer)@.len(),
            forall|i: int|
                0 <= i < final(buffer)@.len() ==> final(buffer)@[i] == chase_pixel_at(
                    old(self).color_spec(),
                    final(self).phase_at(now_us),
                    i,
                ),
            r == Some(if now_us as int + CHASE_FRAME_US <= u64::MAX { (now_us + CHASE_FRAME_US) as u64 } else { u64::MAX }),
    {
        if !self.started {
            self.start_time = now_us;
            self.started = true;
        }
        let phase = self.phase(now_us) as usize;
        let n = buffer.len();
        let mut i: usize = 0;
        while i < n
            invariant
                n == buffer@.len(),
                i <= n,
                phase < 3,
                phase == self.phase_at(now_us),
                forall|j: int| 0 <= j < i ==> buffer@[j] == chase_pixel_at(self.color, phase as int, j),
            decreases n - i,
        {
            if (i % 3 + phase) % 3 == 0 {
                buffer.set(i, self.color);
            } else {
                buffer.set(i, Rgb { r: 0, g: 0, b: 0 });
            }
            i += 1;
        }
        Some(now_us.saturating_add(CHASE_FRAME_US))
    }

    /// Changes the speed and moves the time origin so that the pattern shown
    /// at `now_us` stays in place.
    pub fn set_speed(&mut self, speed: u8, now_us: u64)
        ensures
            final(self).speed_spec() == clamp_speed(speed),
            final(self).color_spec() == old(self).color_spec(),
            final(self).started_spec() == old(self).started_spec(),
            clamp_speed(speed) == old(self).speed_spec() ==> *final(self) == *old(self),
            now_us >= 2_000_000 ==> final(self).phase_at(now_us) == old(self).phase_at(now_us),
    {
        let new_speed = speed_clamped(speed);
        if self.speed == new_speed {
            return;
        }
        let c = self.phase(now_us);
        self.speed = new_speed;
        let ns: u64 = 1000 + (new_speed as u64) * 19_000 / 255;
        let back: u64 = (c * 1_000_000_000 + ns - 1) / ns;
        proof {
            let ci = c as int;
            let nsi = ns as int;
            let t = back as int;
            assert(1000 <= nsi <= 20_000);
            assert(t * nsi >= ci * 1_000_000_000 && t * nsi < ci * 1_000_000_000 + nsi) by (nonlinear_arith)
                requires
                    t == (ci * 1_000_000_000 + nsi - 1) / nsi,
                    nsi > 0,
                    ci >= 0,
            ;
            assert(t * nsi / 1_000_000_000 == ci) by (nonlinear_arith)
                requires
                    t * nsi >= ci * 1_000_000_000,
                    t * nsi < ci * 1_000_000_000 + nsi,
                    nsi <= 1_000_000_000,
            ;
            assert(t <= 2_000_000) by (nonlinear_arith)
                requires
                    t * nsi < ci * 1_000_000_000 + nsi,
                    ci <= 2,
                    nsi >= 1000,
            ;
        }
        self.start_time = if now_us >= back { now_us - back } else { 0 };
        proof {
            if now_us >= back {
                assert((ns as int) * (back as int) == (back as int) * (ns as int)) by (nonlinear_arith);
            }
        }
    }

    pub fn set_color(&mut self, color: Rgb)
        ensures
            final(self).color_spec() == color,
            final(self).speed_spec() == old(self).speed_spec(),
            final(self).start_spec() == old(self).start_spec(),
            final(self).started_spec() == old(self).started_spec(),
    {
        self.color = color;
    }

    pub fn get_color(&self) -> (c: Option<Rgb>)
        ensures
            c == Some(self.color_spec()),
    {
        Some(self.color)
    }

    pub fn get_speed(&self) -> (s: Option<u8>)
        ensures
            s == Some(self.speed_spec()),
    {
        Some(self.speed)
    }

    pub fn name(&self) -> (n: &'static str)
        ensures
            n == "Chase",
    {
        "Chase"
    }
}

} // verus!
