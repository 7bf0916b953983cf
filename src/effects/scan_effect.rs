//! An "eye" of a few pixels, brightest in its middle, sweeping back and forth.
use vstd::prelude::*;
use crate::color::{Rgb, scaled_color, scale_color};
use crate::effects::{clamp_speed, speed_clamped, MAX_PIXELS};

verus! {

/// Frame period of the scan (60 frames per second).
pub const SCAN_FRAME_US: u64 = 16_666;

/// Advance per frame in thousandths of a pixel: 10 px/s at speed 0 up to 200 px/s at 255, at 60 frames/s.
pub open spec fn scan_delta(speed: u8) -> int {
    (10_000 + (speed as int) * 190_000 / 255) / 60
}

/// Position (thousandths of a pixel) and direction after a frame on `len` pixels with an eye of `eye` pixels.
pub open spec fn scan_next(pos: int, forward: bool, speed: u8, len: int, eye: int) -> (int, bool) {
    let moved = if forward { pos + scan_delta(speed) } else { pos - scan_delta(speed) };
    let top = (len - eye) * 1000;
    if moved >= top {
        (top, false)
    } else if moved <= 0 {
        (0, true)
    } else {
        (moved, forward)
    }
}

/// Pixel `q` with the eye starting at pixel `start`: brightness falls off
/// linearly from the eye's middle.
pub open spec fn scan_pixel(color: Rgb, start: int, eye: int, q: int) -> Rgb {
    let k = q - start;
    if 0 <= k < eye {
        let d = if 2 * k >= eye { 2 * k - eye } else { eye - 2 * k };
        scaled_color(color, eye - d, eye)
    } else {
        Rgb { r: 0, g: 0, b: 0 }
    }
}

pub open spec fn eye_for(num_leds: usize) -> int {
    if num_leds / 20 > 3 { (num_leds / 20) as int } else { 3 }
}

pub struct ScanEffect {
    color: Rgb,
    speed: u8,
    position: i64,
    forward: bool,
    eye_size: usize,
}

impl ScanEffect {
    pub closed spec fn color_spec(&self) -> Rgb {
        self.color
    }

    pub closed spec fn speed_spec(&self) -> u8 {
        self.speed
    }

    pub closed spec fn position_spec(&self) -> int {
        self.position as int
    }

    pub closed spec fn forward_spec(&self) -> bool {
        self.forward
    }

    pub closed spec fn eye_spec(&self) -> int {
        self.eye_size as int
    }

    pub closed spec fn wf(&self) -> bool {
        &&& 3 <= self.eye_size <= MAX_PIXELS
        &&& -(MAX_PIXELS as int) * 1000 <= self.position <= (MAX_PIXELS as int) * 1000
    }

    /// An eye of a twentieth of the strip (at least 3 pixels).
    pub fn new(color: Rgb, speed: u8, num_leds: usize) -> (e: ScanEffect)
        requires
            num_leds <= MAX_PIXELS,
        ensures
            e.wf(),
            e.color_spec() == color,
            e.speed_spec() == clamp_speed(speed),
            e.eye_spec() == eye_for(num_leds),
            e.position_spec() == 0,
            e.forward_spec(),
    {
        let twentieth = num_leds / 20;
        ScanEffect {
            color,
            speed: speed_clamped(speed),
            position: 0,
            forward: true,
            eye_size: if twentieth > 3 { twentieth } else { 3 },
        }
    }

    /// Moves the eye, turning at the ends, clears the strip and draws the eye.
    pub fn update(&mut self, now_us: u64, buffer: &mut Vec<Rgb>) -> (r: Option<u64>)
        requires
            old(self).wf(),
            old(buffer)@.len() <= MAX_PIXELS,
        ensures
            final(self).wf(),
            final(self).color_spec() == old(self).color_spec(),
            final(self).speed_spec() == old(self).speed_spec(),
            final(self).eye_spec() == old(self).eye_spec(),
            (final(self).position_spec(), final(self).forward_spec()) == scan_next(
                old(self).position_spec(),
                old(self).forward_spec(),
                old(self).speed_spec(),
                old(buffer)@.len() as int,
                old(self).eye_spec(),
            ),
            final(buffer)@.len() == old(buffer)@.len(),
            forall|q: int|
                0 <= q < final(buffer)@.len() ==> final(buffer)@[q] == scan_pixel(
                    old(self).color_spec(),
                    if final(self).position_spec() > 0 { final(self).position_spec() / 1000 } else { 0 },
                    old(self).eye_spec(),
                    q,
                ),
            r == Some(if now_us as int + SCAN_FRAME_US <= u64::MAX { (now_us + SCAN_FRAME_US) as u64 } else { u64::MAX }),
    {
        let n = buffer.len();
        let delta: i64 = (10_000 + (self.speed as i64) * 190_000 / 255) / 60;
        let moved: i64 = if self.forward { self.position + delta } else { self.position - delta };
        let top: i64 = ((n as i64) - (self.eye_size as i64)) * 1000;
        if moved >= top {
            self.position = top;
            self.forward = false;
        } else if moved <= 0 {
            self.position = 0;
            self.forward = true;
        } else {
            self.position = moved;
        }
        let start: u64 = if self.position > 0 { (self.position / 1000) as u64 } else { 0 };
        let eye: u64 = self.eye_size as u64;
        let mut q: usize = 0;
        while q < n
            invariant
                n == buffer@.len(),
                n <= MAX_PIXELS,
                q <= n,
                3 <= eye <= MAX_PIXELS,
                eye == self.eye_size,
                start == if self.position > 0 { self.position / 1000 } else { 0 },
                forall|j: int| 0 <= j < q ==> buffer@[j] == scan_pixel(self.color, start as int, eye as int, j),
            decreases n - q,
        {
            let qq = q as u64;
            if qq >= start && qq - start < eye {
                let k = qq - start;
                let d: u64 = if 2 * k >= eye { 2 * k - eye } else { eye - 2 * k };
                buffer.set(q, scale_color(self.color, (eye - d) as u32, eye as u32));
            } else {
                buffer.set(q, Rgb { r: 0, g: 0, b: 0 });
            }
            q += 1;
        }
        Some(now_us.saturating_add(SCAN_FRAME_US))
    }

    pub fn set_color(&mut self, color: Rgb)
        ensures
            final(self).color_spec() == color,
            final(self).speed_spec() == old(self).speed_spec(),
            final(self).position_spec() == old(self).position_spec(),
            final(self).forward_spec() == old(self).forward_spec(),
            final(self).eye_spec() == old(self).eye_spec(),
            final(self).wf() == old(self).wf(),
    {
        self.color = color;
    }

    pub fn set_speed(&mut self, speed: u8)
        ensures
            final(self).speed_spec() == clamp_speed(speed),
            final(self).color_spec() == old(self).color_spec(),
            final(self).position_spec() == old(self).position_spec(),
            final(self).forward_spec() == old(self).forward_spec(),
            final(self).eye_spec() == old(self).eye_spec(),
            final(self).wf() == old(self).wf(),
    {
        self.speed = speed_clamped(speed);
    }

    pub fn get_color(&self) -> (c: Option<Rgb>)
        ensures
            c == Some(self.color_spec()),
    {
        Some(self.color)
    }

    pub fn get_speed(&self) -> (s: Option<u8>)
        ensures
            s == Some(self.speed_spec()),
    {
        Some(self.speed)
    }

    pub fn name(&self) -> (n: &'static str)
        ensures
            n == "Scan",
    {
        "Scan"
    }
}

} // verus!
