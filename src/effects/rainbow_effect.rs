//! A rainbow that scrolls along the strip at a speed-dependent rate.
use vstd::prelude::*;
use crate::color::{Rgb, hsv_spec, hsv_to_rgb, HUE_TURN};
use crate::effects::{clamp_speed, speed_clamped};

verus! {

/// Hue difference between neighbouring pixels, in hundredths of a degree (2.5 degrees).
pub const HUE_STEP: u32 = 250;

/// Pixels after which the per-pixel hue pattern repeats.
pub const HUE_PERIOD: usize = 144;

/// Frame period of the rainbow (30 frames per second).
pub const RAINBOW_FRAME_US: u64 = 33_333;

/// Hue advance per second, in hundredths of a degree: 10 degrees/s at speed 0 up to 360 at 255.
pub open spec fn hue_speed_spec(speed: u8) -> int {
    1000 + (speed as int) * 35000 / 255
}

/// Hue of the first pixel after `elapsed` microseconds.
pub open spec fn hue_offset_spec(speed: u8, elapsed: int) -> int {
    (hue_speed_spec(speed) * elapsed / 1_000_000) % (HUE_TURN as int)
}

pub open spec fn pixel_hue(offset: int, i: int) -> int {
    (offset + (i % (HUE_PERIOD as int)) * (HUE_STEP as int)) % (HUE_TURN as int)
}

pub open spec fn rainbow_pixel(offset: int, i: int) -> Rgb {
    hsv_spec(pixel_hue(offset, i), 255, 255)
}

pub struct RainbowEffect {
    speed: u8,
    start_time: i128,
    started: bool,
}

impl RainbowEffect {
    pub closed spec fn speed_spec(&self) -> u8 {
        self.speed
    }

    pub closed spec fn wf(&self) -> bool {
        -0x100_0000_0000 <= self.start_time <= 0xffff_ffff_ffff_ffff
    }

    /// Time origin of the animation; it may lie before time 0.
    pub closed spec fn start_spec(&self) -> int {
        self.start_time as int
    }

    pub closed spec fn started_spec(&self) -> bool {
        self.started
    }

    /// Hue of the first pixel at time `now`.
    pub open spec fn hue_at(&self, now: u64) -> int {
        hue_offset_spec(
            self.speed_spec(),
            if now >= self.start_spec() { now - self.start_spec() } else { 0int },
        )
    }

    pub fn new(speed: u8) -> (e: RainbowEffect)
        ensures
            e.wf(),
            e.speed_spec() == clamp_speed(speed),
            !e.started_spec(),
    {
        RainbowEffect { speed: speed_clamped(speed), start_time: 0, started: false }
    }

    /// Hue of the first pixel at time `now_us`, in hundredths of a degree.
    pub fn hue_offset(&self, now_us: u64) -> (h: u32)
        requires
            self.wf(),
        ensures
            h == self.hue_at(now_us),
            h < HUE_TURN,
    {
        let elapsed: u128 = if now_us as i128 >= self.start_time { (now_us as i128 - self.start_time) as u128 } else { 0 };
        let hs: u128 = 1000 + (self.speed as u128) * 35000 / 255;
        proof {
            assert(hs <= 36000);
            assert((hs as int) * (elapsed as int) <= 36000 * 0xffff_ffff_ffff_ffff_ffff) by (nonlinear_arith)
                requires
                    hs <= 36000,
                    elapsed <= 0xffff_ffff_ffff_ffff_ffff,
            ;
        }
        ((hs * elapsed / 1_000_000) % (HUE_TURN as u128)) as u32
    }

    /// How `update` relates the effect and the buffer before (`a`, `ob`) and
    /// after (`b`, `nb`) a frame at `now` that returned `r`.
    pub open spec fn stepped(a: Self, now: u64, ob: Seq<Rgb>, b: Self, nb: Seq<Rgb>, r: Option<u64>) -> bool {
        &&& b.wf()
        &&& b.started_spec()
        &&& b.speed_spec() == a.speed_spec()
        &&& b.start_spec() == if a.started_spec() { a.start_spec() } else { now as int }
        &&& r == Some(if now as int + RAINBOW_FRAME_US <= u64::MAX { (now + RAINBOW_FRAME_US) as u64 } else { u64::MAX })
        &&& nb.len() == ob.len()
        &&& forall|i: int|
            0 <= i < nb.len() ==> nb[i] == rainbow_pixel(b.hue_at(now), i)
    }

    /// Paints the rainbow for time `now_us`; the clock starts at the first call.
    pub fn update(&mut self, now_us: u64, buffer: &mut Vec<Rgb>) -> (r: Option<u64>)
        requires
            old(self).wf(),
        ensures
            final(buffer)@.len() == old(buffer)@.len(),
            Self::stepped(*old(self), now_us, old(buffer)@, *final(self), final(buffer)@, r),
    {
        if !self.started {
            self.start_time = now_us as i128;
            self.started = true;
        }
        let offset = self.hue_offset(now_us);
        let n = buffer.len();
        let mut i: usize = 0;
        while i < n
            invariant
                n == buffer@.len(),
                i <= n,
                offset < HUE_TURN,
                forall|j: int| 0 <= j < i ==> buffer@[j] == rainbow_pixel(offset as int, j),
            decreases n - i,
        {
            let hue: u32 = (offset + ((i % HUE_PERIOD) as u32) * HUE_STEP) % HUE_TURN;
            buffer.set(i, hsv_to_rgb(hue, 255, 255));
            i += 1;
        }
        Some(now_us.saturating_add(RAINBOW_FRAME_US))
    }

    /// Changes the speed and moves the time origin so that the hue shown at
    /// `now_us` stays where it was (within one hundredth of a degree).
    pub fn set_speed(&mut self, speed: u8, now_us: u64)
        requires
            old(self).wf(),
        ensures
            final(self).wf(),
            final(self).speed_spec() == clamp_speed(speed),
            final(self).started_spec() == old(self).started_spec(),
            clamp_speed(speed) == old(self).speed_spec() ==> *final(self) == *old(self),
            old(self).hue_at(now_us) - 1 <= final(self).hue_at(now_us) <= old(self).hue_at(now_us),
    {
        let new_speed = speed_clamped(speed);
        if self.speed == new_speed {
            return;
        }
        let h = self.hue_offset(now_us);
        self.speed = new_speed;
        let ns: u64 = 1000 + (new_speed as u64) * 35000 / 255;
        let back: u64 = (h as u64) * 1_000_000 / ns;
        proof {
            let hh = h as int;
            let nsi = ns as int;
            let t = back as int;
            assert(1000 <= nsi <= 36000);
            assert(t * nsi <= hh * 1_000_000 < t * nsi + nsi) by (nonlinear_arith)
                requires
                    t == hh * 1_000_000 / nsi,
                    nsi > 0,
            ;
            assert(0 <= t * nsi) by (nonlinear_arith)
                requires
                    0 <= t,
                    0 <= nsi,
            ;
            assert(t * nsi / 1_000_000 <= hh) by (nonlinear_arith)
                requires
                    t * nsi <= hh * 1_000_000,
            ;
            assert(hh - 1 <= t * nsi / 1_000_000) by (nonlinear_arith)
                requires
                    hh * 1_000_000 < t * nsi + nsi,
                    nsi <= 1_000_000,
            ;
        }
        self.start_time = now_us as i128 - back as i128;
        proof {
            assert(now_us - self.start_time == back);
            assert((ns as int) * (back as int) == (back as int) * (ns as int)) by (nonlinear_arith);
        }
    }

    pub fn get_speed(&self) -> (s: Option<u8>)
        ensures
            s == Some(self.speed_spec()),
    {
        Some(self.speed)
    }

    pub fn name(&self) -> (n: &'static str)
        ensures
            n == "Rainbow",
    {
        "Rainbow"
    }
}

} // verus!
