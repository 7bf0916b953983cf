//! The color fills the strip from the start, then the wipe begins again.
use vstd::prelude::*;
use crate::color::Rgb;
use crate::effects::{clamp_speed, speed_clamped, FRAMETIME_US};

verus! {

/// Advance per frame, in thousandths of a pixel: 0.5 pixels at speed 0 up to 3.5 at 255.
pub open spec fn wipe_step(speed: u8) -> int {
    500 + (speed as int) * 3000 / 255
}

/// The wipe position after one frame on a strip of `len` pixels.
pub open spec fn wipe_next(pos: int, speed: u8, len: int) -> int {
    let moved = pos + wipe_step(speed);
    if moved >= len * 1000 || moved > u64::MAX { 0 } else { moved }
}

pub open spec fn wipe_pixel(color: Rgb, pos: int, i: int) -> Rgb {
    if i <= pos / 1000 { color } else { Rgb { r: 0, g: 0, b: 0 } }
}

pub struct ColorWipeEffect {
    color: Rgb,
    speed: u8,
    position: u64,
}

impl ColorWipeEffect {
    pub closed spec fn color_spec(&self) -> Rgb {
        self.color
    }

    pub closed spec fn speed_spec(&self) -> u8 {
        self.speed
    }

    /// Position of the wipe front, in thousandths of a pixel.
    pub closed spec fn position_spec(&self) -> int {
        self.position as int
    }

    pub fn new(color: Rgb, speed: u8) -> (e: ColorWipeEffect)
        ensures
            e.color_spec() == color,
            e.speed_spec() == clamp_speed(speed),
            e.position_spec() == 0,
    {
        ColorWipeEffect { color, speed: speed_clamped(speed), position: 0 }
    }

    /// How `update` relates the effect and the buffer before (`a`, `ob`) and
    /// after (`b`, `nb`) a frame at `now` that returned `r`.
    pub open spec fn stepped(a: Self, now: u64, ob: Seq<Rgb>, b: Self, nb: Seq<Rgb>, r: Option<u64>) -> bool {
        &&& b.color_spec() == a.color_spec()
        &&& b.speed_spec() == a.speed_spec()
        &&& b.position_spec() == wipe_next(a.position_spec(), a.speed_spec(), ob.len() as int)
        &&& nb.len() == ob.len()
        &&& forall|i: int|
            0 <= i < nb.len() ==> nb[i] == wipe_pixel(
                a.color_spec(),
                b.position_spec(),
                i,
            )
        &&& r == Some(if now as int + FRAMETIME_US <= u64::MAX { (now + FRAMETIME_US) as u64 } else { u64::MAX })
    }

    /// Moves the front and paints every pixel up to it with the color, the rest black.
    pub fn update(&mut self, now_us: u64, buffer: &mut Vec<Rgb>) -> (r: Option<u64>)
        ensures
            final(buffer)@.len() == old(buffer)@.len(),
            Self::stepped(*old(self), now_us, old(buffer)@, *final(self), final(buffer)@, r),
    {
        let n = buffer.len();
        let step: u64 = 500 + (self.speed as u64) * 3000 / 255;
        let limit: u128 = (n as u128) * 1000;
        let moved: u128 = (self.position as u128) + (step as u128);
        self.position = if moved >= limit || moved > u64::MAX as u128 { 0 } else { moved as u64 };
        let front: u64 = self.position / 1000;
        let mut i: usize = 0;
        while i < n
            invariant
                n == buffer@.len(),
                i <= n,
                front == self.position / 1000,
                forall|j: int| 0 <= j < i ==> buffer@[j] == wipe_pixel(self.color, self.position as int, j),
            decreases n - i,
        {
            if (i as u64) <= front {
                buffer.set(i, self.color);
            } else {
                buffer.set(i, Rgb { r: 0, g: 0, b: 0 });
            }
            i += 1;
        }
        Some(now_us.saturating_add(FRAMETIME_US))
    }

    pub fn set_color(&mut self, color: Rgb)
        ensures
            final(self).color_spec() == color,
            final(self).speed_spec() == old(self).speed_spec(),
            final(self).position_spec() == old(self).position_spec(),
    {
        self.color = color;
    }

    pub fn set_speed(&mut self, speed: u8)
        ensures
            final(self).speed_spec() == clamp_speed(speed),
            final(self).color_spec() == old(self).color_spec(),
            final(self).position_spec() == old(self).position_spec(),
    {
        self.speed = speed_clamped(speed);
    }

    pub fn get_color(&self) -> (c: Option<Rgb>)
        ensures
            c == Some(self.color_spec()),
    {
        Some(self.color)
    }

    pub fn get_speed(&self) -> (s: Option<u8>)
        ensures
            s == Some(self.speed_spec()),
    {
        Some(self.speed)
    }

    pub fn name(&self) -> (n: &'static str)
        ensures
            n == "ColorWipe",
    {
        "ColorWipe"
    }
}

} // verus!
