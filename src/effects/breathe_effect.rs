//! The whole strip fades in and out along a sine-shaped brightness curve.
use vstd::prelude::*;
use crate::color::{Rgb, scaled_color, scale_color, fill};
use crate::effects::{clamp_speed, speed_clamped, cycle_time_spec, speed_to_cycle_time_us, FRAMETIME_US};

verus! {

/// Frames in one breathing cycle at a speed.
pub open spec fn steps_per_cycle(speed: u8) -> int {
    cycle_time_spec(speed) / (FRAMETIME_US as int)
}

/// `sin(pi * y / 1000)` in thousandths for `0 <= y < 1000`, by Bhaskara's rational approximation.
pub open spec fn half_sine(y: int) -> int {
    let a = y * (1000 - y);
    16000 * a / (5_000_000 - 4 * a)
}

/// Brightness, in thousandths, at frame `step` of the cycle: `(sin + 1) / 2`.
pub open spec fn breath_level(step: u32, speed: u8) -> int {
    let spc = steps_per_cycle(speed);
    let x = ((step as int) % spc) * 1000 / spc;
    if x < 500 {
        (1000 + half_sine(x * 2)) / 2
    } else {
        (1000 - half_sine((x - 500) * 2)) / 2
    }
}

pub struct BreatheEffect {
    color: Rgb,
    speed: u8,
    step: u32,
}

pub fn half_sine_of(y: u64) -> (s: u64)
    requires
        y < 1000,
    ensures
        s == half_sine(y as int),
        s <= 1000,
{
    proof {
        assert(y * (1000 - y) <= 250_000) by (nonlinear_arith)
            requires
                y < 1000,
        ;
    }
    let a: u64 = y * (1000 - y);
    proof {
        assert(a <= 250_000) by (nonlinear_arith)
            requires
                a == y * (1000 - y),
                y < 1000,
        ;
        assert(16000 * (a as int) / (5_000_000 - 4 * (a as int)) <= 1000) by (nonlinear_arith)
            requires
                0 <= a <= 250_000,
        ;
    }
    16000 * a / (5_000_000 - 4 * a)
}

impl BreatheEffect {
    pub closed spec fn color_spec(&self) -> Rgb {
        self.color
    }

    pub closed spec fn speed_spec(&self) -> u8 {
        self.speed
    }

    pub closed spec fn step_spec(&self) -> u32 {
        self.step
    }

    pub fn new(color: Rgb, speed: u8) -> (e: BreatheEffect)
        ensures
            e.color_spec() == color,
            e.speed_spec() == clamp_speed(speed),
            e.step_spec() == 0,
    {
        BreatheEffect { color, speed: speed_clamped(speed), step: 0 }
    }

    fn level(&self) -> (l: u32)
        ensures
            l == breath_level(self.step, self.speed),
            l <= 1000,
    {
        let spc: u64 = speed_to_cycle_time_us(self.speed) / FRAMETIME_US;
        assert(spc >= 2);
        let x: u64 = ((self.step as u64) % spc) * 1000 / spc;
        proof {
            assert(x < 1000) by (nonlinear_arith)
                requires
                    x == ((self.step as int) % (spc as int)) * 1000 / (spc as int),
                    spc >= 2,
            ;
        }
        if x < 500 {
            ((1000 + half_sine_of(x * 2)) / 2) as u32
        } else {
            ((1000 - half_sine_of((x - 500) * 2)) / 2) as u32
        }
    }

    /// How `update` relates the effect and the buffer before (`a`, `ob`) and
    /// after (`b`, `nb`) a frame at `now` that returned `r`.
    pub open spec fn stepped(a: Self, now: u64, ob: Seq<Rgb>, b: Self, nb: Seq<Rgb>, r: Option<u64>) -> bool {
        &&& b.color_spec() == a.color_spec()
        &&& b.speed_spec() == a.speed_spec()
        &&& b.step_spec() == if a.step_spec() == u32::MAX { 0 } else { (a.step_spec() + 1) as u32 }
        &&& nb.len() == ob.len()
        &&& forall|i: int|
            0 <= i < nb.len() ==> nb[i] == scaled_color(
                a.color_spec(),
                breath_level(b.step_spec(), a.speed_spec()),
                1000,
            )
        &&& r == Some(if now as int + FRAMETIME_US <= u64::MAX { (now + FRAMETIME_US) as u64 } else { u64::MAX })
    }

    /// Advances one frame and fills the strip with the color at that frame's brightness.
    pub fn update(&mut self, now_us: u64, buffer: &mut Vec<Rgb>) -> (r: Option<u64>)
        ensures
            final(buffer)@.len() == old(buffer)@.len(),
            Self::stepped(*old(self), now_us, old(buffer)@, *final(self), final(buffer)@, r),
    {
        self.step = self.step.wrapping_add(1);
        let l = self.level();
        let c = scale_color(self.color, l, 1000);
        fill(buffer, c);
        Some(now_us.saturating_add(FRAMETIME_US))
    }

    pub fn set_color(&mut self, color: Rgb)
        ensures
            final(self).color_spec() == color,
            final(self).speed_spec() == old(self).speed_spec(),
            final(self).step_spec() == old(self).step_spec(),
    {
        self.color = color;
    }

    pub fn set_speed(&mut self, speed: u8)
        ensures
            final(self).speed_spec() == clamp_speed(speed),
            final(self).color_spec() == old(self).color_spec(),
            final(self).step_spec() == old(self).step_spec(),
    {
        self.speed = speed_clamped(speed);
    }

    pub fn get_color(&self) -> (c: Option<Rgb>)
        ensures
            c == Some(self.color_spec()),
    {
        Some(self.color)
    }

    pub fn get_speed(&self) -> (s: Option<u8>)
        ensures
            s == Some(self.speed_spec()),
    {
        Some(self.speed)
    }

    pub fn name(&self) -> (n: &'static str)
        ensures
            n == "Breathe",
    {
        "Breathe"
    }
}

} // verus!
