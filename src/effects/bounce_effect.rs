//! A ball that runs to either end of the strip and bounces, leaving a fading trail.
use vstd::prelude::*;
use crate::color::{Rgb, scaled_color, max_color, max_of};
use crate::effects::{clamp_speed, speed_clamped, fade_buffer, FRAMETIME_US, MAX_PIXELS};

verus! {

/// Speed after a bounce, in thousandths of a pixel per frame: 0.3 at speed 0 up to 2.8 at 255.
pub open spec fn bounce_speed(speed: u8) -> int {
    300 + (speed as int) * 2500 / 255
}

/// Position and velocity (thousandths of a pixel, per frame) after one frame on `len` pixels.
pub open spec fn bounce_next(pos: int, vel: int, speed: u8, len: int) -> (int, int) {
    let moved = pos + vel;
    let top = (len - 1) * 1000;
    if moved >= top {
        (top, -bounce_speed(speed))
    } else if moved <= 0 {
        (0, bounce_speed(speed))
    } else {
        (moved, vel)
    }
}

pub struct BounceEffect {
    color: Rgb,
    speed: u8,
    position: u64,
    velocity: i64,
}

impl BounceEffect {
    pub closed spec fn color_spec(&self) -> Rgb {
        self.color
    }

    pub closed spec fn speed_spec(&self) -> u8 {
        self.speed
    }

    pub closed spec fn position_spec(&self) -> int {
        self.position as int
    }

    pub closed spec fn velocity_spec(&self) -> int {
        self.velocity as int
    }

    pub closed spec fn wf(&self) -> bool {
        -2800 <= self.velocity <= 2800
    }

    /// A ball at the first pixel moving forward one pixel per frame.
    pub fn new(color: Rgb, speed: u8) -> (e: BounceEffect)
        ensures
            e.wf(),
            e.color_spec() == color,
            e.speed_spec() == clamp_speed(speed),
            e.position_spec() == 0,
            e.velocity_spec() == 1000,
    {
        BounceEffect { color, speed: speed_clamped(speed), position: 0, velocity: 1000 }
    }

    /// How `update` relates the effect and the buffer before (`a`, `ob`) and
    /// after (`b`, `nb`) a frame at `now` that returned `r`.
    pub open spec fn stepped(a: Self, now: u64, ob: Seq<Rgb>, b: Self, nb: Seq<Rgb>, r: Option<u64>) -> bool {
        &&& b.wf()
        &&& b.color_spec() == a.color_spec()
        &&& b.speed_spec() == a.speed_spec()
        &&& nb.len() == ob.len()
        &&& ob.len() > 0 ==> (b.position_spec(), b.velocity_spec()) == bounce_next(
            a.position_spec(),
            a.velocity_spec(),
            a.speed_spec(),
            ob.len() as int,
        )
        &&& forall|q: int|
            0 <= q < nb.len() ==> nb[q] == if q == b.position_spec() / 1000 {
                max_color(scaled_color(ob[q], 200, 256), a.color_spec())
            } else {
                scaled_color(ob[q], 200, 256)
            }
        &&& r == Some(if now as int + FRAMETIME_US <= u64::MAX { (now + FRAMETIME_US) as u64 } else { u64::MAX })
    }

    /// Fades the strip to 200/256, moves the ball and lights its pixel (keeping
    /// the brighter of trail and ball per channel); an empty buffer is left alone.
    pub fn update(&mut self, now_us: u64, buffer: &mut Vec<Rgb>) -> (r: Option<u64>)
        requires
            old(self).wf(),
            old(buffer)@.len() <= MAX_PIXELS,
        ensures
            final(self).wf(),
            final(buffer)@.len() == old(buffer)@.len(),
            Self::stepped(*old(self), now_us, old(buffer)@, *final(self), final(buffer)@, r),
    {
        let n = buffer.len();
        if n == 0 {
            return Some(now_us.saturating_add(FRAMETIME_US));
        }
        fade_buffer(buffer, 200, 256);
        let base: i64 = 300 + (self.speed as i64) * 2500 / 255;
        let moved: i128 = self.position as i128 + self.velocity as i128;
        let top: i128 = ((n - 1) as i128) * 1000;
        if moved >= top {
            self.position = top as u64;
            self.velocity = -base;
        } else if moved <= 0 {
            self.position = 0;
            self.velocity = base;
        } else {
            self.position = moved as u64;
        }
        let p: u64 = self.position / 1000;
        if (p as u128) < (n as u128) {
            let c = max_of(buffer[p as usize], self.color);
            buffer.set(p as usize, c);
        }
        Some(now_us.saturating_add(FRAMETIME_US))
    }

    pub fn set_color(&mut self, color: Rgb)
        ensures
            final(self).color_spec() == color,
            final(self).speed_spec() == old(self).speed_spec(),
            final(self).position_spec() == old(self).position_spec(),
            final(self).velocity_spec() == old(self).velocity_spec(),
            final(self).wf() == old(self).wf(),
    {
        self.color = color;
    }

    pub fn set_speed(&mut self, speed: u8)
        ensures
            final(self).speed_spec() == clamp_speed(speed),
            final(self).color_spec() == old(self).color_spec(),
            final(self).position_spec() == old(self).position_spec(),
            final(self).velocity_spec() == old(self).velocity_spec(),
            final(self).wf() == old(self).wf(),
    {
        self.speed = speed_clamped(speed);
    }

    pub fn get_color(&self) -> (c: Option<Rgb>)
        ensures
            c == Some(self.color_spec()),
    {
        Some(self.color)
    }

    pub fn get_speed(&self) -> (s: Option<u8>)
        ensures
            s == Some(self.speed_spec()),
    {
        Some(self.speed)
    }

    pub fn name(&self) -> (n: &'static str)
        ensures
            n == "Bounce",
    {
        "Bounce"
    }
}

} // verus!
