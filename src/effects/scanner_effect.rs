//! A light with a short tail sweeps back and forth over fading trails.
use vstd::prelude::*;
use crate::color::{Rgb, scaled_color, scale_color};
use crate::effects::{clamp_speed, speed_clamped, fade_buffer, FRAMETIME_US, MAX_PIXELS};

verus! {

/// Pixels in the light and its tail.
pub const SCANNER_TAIL: u64 = 5;

/// Advance per frame in thousandths of a pixel: 0.3 at speed 0 up to 2.8 at 255.
pub open spec fn scan_step(speed: u8) -> int {
    300 + (speed as int) * 2500 / 255
}

/// Position (thousandths of a pixel) and direction after one frame on `len` pixels;
/// the light turns round at either end.
pub open spec fn scanner_next(pos: int, forward: bool, speed: u8, len: int) -> (int, bool) {
    let moved = if forward { pos + scan_step(speed) } else { pos - scan_step(speed) };
    let top = (len - 1) * 1000;
    if moved >= top {
        (top, false)
    } else if moved <= 0 {
        (0, true)
    } else {
        (moved, forward)
    }
}

/// Pixel `q` with the light at pixel `head`: the tail trails behind the light,
/// dimmer by a fifth per pixel; elsewhere the faded previous frame shows.
pub open spec fn scanner_pixel(color: Rgb, faded: Rgb, head: int, forward: bool, q: int) -> Rgb {
    let d = if forward { head - q } else { q - head };
    if 0 <= d < SCANNER_TAIL { scaled_color(color, SCANNER_TAIL - d, SCANNER_TAIL as int) } else { faded }
}

pub struct ScannerEffect {
    color: Rgb,
    speed: u8,
    position: u64,
    forward: bool,
}

impl ScannerEffect {
    pub closed spec fn color_spec(&self) -> Rgb {
        self.color
    }

    pub closed spec fn speed_spec(&self) -> u8 {
        self.speed
    }

    /// Position of the light in thousandths of a pixel.
    pub closed spec fn position_spec(&self) -> int {
        self.position as int
    }

    pub closed spec fn forward_spec(&self) -> bool {
        self.forward
    }

    pub fn new(color: Rgb, speed: u8) -> (e: ScannerEffect)
        ensures
            e.color_spec() == color,
            e.speed_spec() == clamp_speed(speed),
            e.position_spec() == 0,
            e.forward_spec(),
    {
        ScannerEffect { color, speed: speed_clamped(speed), position: 0, forward: true }
    }

    /// How `update` relates the effect and the buffer before (`a`, `ob`) and
    /// after (`b`, `nb`) a frame at `now` that returned `r`.
    pub open spec fn stepped(a: Self, now: u64, ob: Seq<Rgb>, b: Self, nb: Seq<Rgb>, r: Option<u64>) -> bool {
        &&& b.color_spec() == a.color_spec()
        &&& b.speed_spec() == a.speed_spec()
        &&& nb.len() == ob.len()
        &&& ob.len() > 0 ==> (b.position_spec(), b.forward_spec()) == scanner_next(
            a.position_spec(),
            a.forward_spec(),
            a.speed_spec(),
            ob.len() as int,
        )
        &&& forall|q: int|
            0 <= q < nb.len() ==> nb[q] == scanner_pixel(
                a.color_spec(),
                scaled_color(ob[q], 230, 256),
                b.position_spec() / 1000,
                b.forward_spec(),
                q,
            )
        &&& r == Some(if now as int + FRAMETIME_US <= u64::MAX { (now + FRAMETIME_US) as u64 } else { u64::MAX })
    }

    /// Fades the strip to 230/256, moves the light and paints it with its tail;
    /// an empty buffer is left alone.
    pub fn update(&mut self, now_us: u64, buffer: &mut Vec<Rgb>) -> (r: Option<u64>)
        requires
            old(buffer)@.len() <= MAX_PIXELS,
        ensures
            final(buffer)@.len() == old(buffer)@.len(),
            Self::stepped(*old(self), now_us, old(buffer)@, *final(self), final(buffer)@, r),
    {
        let n = buffer.len();
        if n == 0 {
            return Some(now_us.saturating_add(FRAMETIME_US));
        }
        fade_buffer(buffer, 230, 256);
        let step: i128 = 300 + (self.speed as i128) * 2500 / 255;
        let moved: i128 = if self.forward { self.position as i128 + step } else { self.position as i128 - step };
        let top: i128 = ((n - 1) as i128) * 1000;
        if moved >= top {
            self.position = top as u64;
            self.forward = false;
        } else if moved <= 0 {
            self.position = 0;
            self.forward = true;
        } else {
            self.position = moved as u64;
        }
        let head: u64 = self.position / 1000;
        let ghost faded = buffer@;
        let mut q: usize = 0;
        while q < n
            invariant
                n == buffer@.len(),
                n == faded.len(),
                q <= n,
                head == self.position / 1000,
                forall|j: int|
                    0 <= j < q ==> buffer@[j] == scanner_pixel(self.color, faded[j], head as int, self.forward, j),
                forall|j: int| q <= j < n ==> buffer@[j] == faded[j],
            decreases n - q,
        {
            let qq = q as u64;
            let lit: bool = if self.forward { qq <= head && head - qq < SCANNER_TAIL } else { qq >= head && qq - head < SCANNER_TAIL };
            if lit {
                let d: u64 = if self.forward { head - qq } else { qq - head };
                buffer.set(q, scale_color(self.color, (SCANNER_TAIL - d) as u32, SCANNER_TAIL as u32));
            }
            q += 1;
        }
        Some(now_us.saturating_add(FRAMETIME_US))
    }

    pub fn set_color(&mut self, color: Rgb)
        ensures
            final(self).color_spec() == color,
            final(self).speed_spec() == old(self).speed_spec(),
            final(self).position_spec() == old(self).position_spec(),
            final(self).forward_spec() == old(self).forward_spec(),
    {
        self.color = color;
    }

    pub fn set_speed(&mut self, speed: u8)
        ensures
            final(self).speed_spec() == clamp_speed(speed),
            final(self).color_spec() == old(self).color_spec(),
            final(self).position_spec() == old(self).position_spec(),
            final(self).forward_spec() == old(self).forward_spec(),
    {
        self.speed = speed_clamped(speed);
    }

    pub fn get_color(&self) -> (c: Option<Rgb>)
        ensures
            c == Some(self.color_spec()),
    {
        Some(self.color)
    }

    pub fn get_speed(&self) -> (s: Option<u8>)
        ensures
            s == Some(self.speed_spec()),
    {
        Some(self.speed)
    }

    pub fn name(&self) -> (n: &'static str)
        ensures
            n == "Scanner",
    {
        "Scanner"
    }
}

} // verus!
