//! Every third pixel lit, the pattern creeping along the strip.
use vstd::prelude::*;
use crate::color::Rgb;
use crate::effects::{clamp_speed, speed_clamped, FRAMETIME_US};

verus! {

/// Distance between lit pixels.
pub const SPACING: usize = 3;

/// Advance per frame in thousandths of a pixel: 0.05 at speed 0 up to 0.45 at 255.
pub open spec fn chase_step(speed: u8) -> int {
    50 + (speed as int) * 400 / 255
}

pub open spec fn chase_next(offset: int, speed: u8) -> int {
    let o = offset + chase_step(speed);
    if o >= 3000 { o - 3000 } else { o }
}

pub open spec fn chase_pixel(color: Rgb, offset: int, i: int) -> Rgb {
    if (i + 3 - offset / 1000) % 3 == 0 { color } else { Rgb { r: 0, g: 0, b: 0 } }
}

pub struct TheaterChaseEffect {
    color: Rgb,
    speed: u8,
    offset: u32,
}

impl TheaterChaseEffect {
    pub closed spec fn color_spec(&self) -> Rgb {
        self.color
    }

    pub closed spec fn speed_spec(&self) -> u8 {
        self.speed
    }

    /// Phase of the pattern in thousandths of a pixel, below 3000.
    pub closed spec fn offset_spec(&self) -> int {
        self.offset as int
    }

    pub closed spec fn wf(&self) -> bool {
        self.offset < 3000
    }

    pub fn new(color: Rgb, speed: u8) -> (e: TheaterChaseEffect)
        ensures
            e.wf(),
            e.color_spec() == color,
            e.speed_spec() == clamp_speed(speed),
            e.offset_spec() == 0,
    {
        TheaterChaseEffect { color, speed: speed_clamped(speed), offset: 0 }
    }

    /// How `update` relates the effect and the buffer before (`a`, `ob`) and
    /// after (`b`, `nb`) a frame at `now` that returned `r`.
    pub open spec fn stepped(a: Self, now: u64, ob: Seq<Rgb>, b: Self, nb: Seq<Rgb>, r: Option<u64>) -> bool {
        &&& b.wf()
        &&& b.color_spec() == a.color_spec()
        &&& b.speed_spec() == a.speed_spec()
        &&& b.offset_spec() == chase_next(a.offset_spec(), a.speed_spec())
        &&& nb.len() == ob.len()
        &&& forall|i: int|
            0 <= i < nb.len() ==> nb[i] == chase_pixel(
                a.color_spec(),
                b.offset_spec(),
                i,
            )
        &&& r == Some(if now as int + FRAMETIME_US <= u64::MAX { (now + FRAMETIME_US) as u64 } else { u64::MAX })
    }

    pub fn update(&mut self, now_us: u64, buffer: &mut Vec<Rgb>) -> (r: Option<u64>)
        requires
            old(self).wf(),
        ensures
            final(self).wf(),
            final(buffer)@.len() == old(buffer)@.len(),
            Self::stepped(*old(self), now_us, old(buffer)@, *final(self), final(buffer)@, r),
    {
        let o: u32 = self.offset + 50 + (self.speed as u32) * 400 / 255;
        self.offset = if o >= 3000 { o - 3000 } else { o };
        let whole: usize = (self.offset / 1000) as usize;
        let n = buffer.len();
        let mut i: usize = 0;
        while i < n
            invariant
                n == buffer@.len(),
                i <= n,
                whole == self.offset / 1000,
                whole < 3,
                forall|j: int| 0 <= j < i ==> buffer@[j] == chase_pixel(self.color, self.offset as int, j),
            decreases n - i,
        {
            if (i % 3 + 3 - whole) % 3 == 0 {
                buffer.set(i, self.color);
            } else {
                buffer.set(i, Rgb { r: 0, g: 0, b: 0 });
            }
            i += 1;
        }
        Some(now_us.saturating_add(FRAMETIME_US))
    }

    pub fn set_color(&mut self, color: Rgb)
        ensures
            final(self).color_spec() == color,
            final(self).speed_spec() == old(self).speed_spec(),
            final(self).offset_spec() == old(self).offset_spec(),
            final(self).wf() == old(self).wf(),
    {
        self.color = color;
    }

    pub fn set_speed(&mut self, speed: u8)
        ensures
            final(self).speed_spec() == clamp_speed(speed),
            final(self).color_spec() == old(self).color_spec(),
            final(self).offset_spec() == old(self).offset_spec(),
            final(self).wf() == old(self).wf(),
    {
        self.speed = speed_clamped(speed);
    }

    pub fn get_color(&self) -> (c: Option<Rgb>)
        ensures
            c == Some(self.color_spec()),
    {
        Some(self.color)
    }

    pub fn get_speed(&self) -> (s: Option<u8>)
        ensures
            s == Some(self.speed_spec()),
    {
        Some(self.speed)
    }

    pub fn name(&self) -> (n: &'static str)
        ensures
            n == "TheaterChase",
    {
        "TheaterChase"
    }
}

} // verus!
