//! A bright head runs along the strip with a tail that fades quadratically.
use vstd::prelude::*;
use crate::color::{Rgb, scaled_color, scale_color};
use crate::effects::{clamp_speed, speed_clamped};

verus! {

/// Frame period of the comet (60 frames per second).
pub const COMET_FRAME_US: u64 = 16_666;

/// Longest tail, so that the fade arithmetic stays in range.
pub const MAX_TAIL: usize = 65535;

/// Speed of the head in thousandths of a pixel per second: 10 px/s at speed 0 up to 200 at 255.
pub open spec fn comet_rate(speed: u8) -> int {
    10_000 + (speed as int) * 190_000 / 255
}

/// Pixel under the head after `elapsed` microseconds on a strip of `len` pixels.
pub open spec fn comet_head(speed: u8, elapsed: int, len: int) -> int {
    (comet_rate(speed) * elapsed / 1_000_000_000) % len
}

/// Pixel `p`: `d` pixels behind the head (wrapping round) it shows the color at
/// `((tail - d) / tail)^2`; outside the tail it is black.
pub open spec fn comet_pixel(color: Rgb, head: int, tail: int, len: int, p: int) -> Rgb {
    let d = (head + len - p) % len;
    if d < tail {
        scaled_color(color, (tail - d) * (tail - d), tail * tail)
    } else {
        Rgb { r: 0, g: 0, b: 0 }
    }
}

pub open spec fn tail_for(num_leds: usize) -> int {
    let t = if num_leds / 4 > 5 { num_leds / 4 } else { 5 };
    if t > MAX_TAIL { MAX_TAIL as int } else { t as int }
}

pub struct CometEffect {
    color: Rgb,
    speed: u8,
    tail_length: usize,
    start_time: u64,
    started: bool,
}

impl CometEffect {
    pub closed spec fn color_spec(&self) -> Rgb {
        self.color
    }

    pub closed spec fn speed_spec(&self) -> u8 {
        self.speed
    }

    pub closed spec fn tail_spec(&self) -> int {
        self.tail_length as int
    }

    pub closed spec fn start_spec(&self) -> u64 {
        self.start_time
    }

    pub closed spec fn started_spec(&self) -> bool {
        self.started
    }

    pub closed spec fn wf(&self) -> bool {
        5 <= self.tail_length <= MAX_TAIL
    }

    /// A comet whose tail is a quarter of the strip (at least 5 pixels).
    pub fn new(color: Rgb, speed: u8, num_leds: usize) -> (e: CometEffect)
        ensures
            e.wf(),
            e.color_spec() == color,
            e.speed_spec() == clamp_speed(speed),
            e.tail_spec() == tail_for(num_leds),
            !e.started_spec(),
    {
        let quarter = num_leds / 4;
        let t = if quarter > 5 { quarter } else { 5 };
        let tail_length = if t > MAX_TAIL { MAX_TAIL } else { t };
        CometEffect { color, speed: speed_clamped(speed), tail_length, start_time: 0, started: false }
    }

    /// How `update` relates the effect and the buffer before (`a`, `ob`) and
    /// after (`b`, `nb`) a frame at `now` that returned `r`.
    pub open spec fn stepped(a: Self, now: u64, ob: Seq<Rgb>, b: Self, nb: Seq<Rgb>, r: Option<u64>) -> bool {
        &&& b.wf()
        &&& b.started_spec()
        &&& b.start_spec() == if a.started_spec() { a.start_spec() } else { now }
        &&& b.color_spec() == a.color_spec()
        &&& b.speed_spec() == a.speed_spec()
        &&& b.tail_spec() == a.tail_spec()
        &&& nb.len() == ob.len()
        &&& forall|p: int|
            0 <= p < nb.len() ==> nb[p] == comet_pixel(
                a.color_spec(),
                comet_head(
                    a.speed_spec(),
                    if now >= b.start_spec() { now - b.start_spec() } else { 0 },
                    nb.len() as int,
                ),
                a.tail_spec(),
                nb.len() as int,
                p,
            )
        &&& r == Some(if now as int + COMET_FRAME_US <= u64::MAX { (now + COMET_FRAME_US) as u64 } else { u64::MAX })
    }

    /// Places the head where the elapsed time puts it and paints head and tail;
    /// an empty buffer is left alone.
    pub fn update(&mut self, now_us: u64, buffer: &mut Vec<Rgb>) -> (r: Option<u64>)
        requires
            old(self).wf(),
        ensures
            final(self).wf(),
            final(buffer)@.len() == old(buffer)@.len(),
            Self::stepped(*old(self), now_us, old(buffer)@, *final(self), final(buffer)@, r),
    {
        if !self.started {
            self.start_time = now_us;
            self.started = true;
        }
        let n = buffer.len();
        if n == 0 {
            return Some(now_us.saturating_add(COMET_FRAME_US));
        }
        let elapsed: u64 = if now_us >= self.start_time { now_us - self.start_time } else { 0 };
        let rate: u128 = 10_000 + (self.speed as u128) * 190_000 / 255;
        proof {
            assert((rate as int) * (elapsed as int) <= 200_000 * 0xffff_ffff_ffff_ffff) by (nonlinear_arith)
                requires
                    rate <= 200_000,
                    elapsed <= 0xffff_ffff_ffff_ffff,
            ;
        }
        let head: u128 = (rate * (elapsed as u128) / 1_000_000_000) % (n as u128);
        let tail: u64 = self.tail_length as u64;
        proof {
            assert(tail * tail <= 65535 * 65535) by (nonlinear_arith)
                requires
                    tail <= 65535,
            ;
            assert(tail * tail >= 25) by (nonlinear_arith)
                requires
                    tail >= 5,
            ;
        }
        let tt: u32 = (tail * tail) as u32;
        let mut p: usize = 0;
        while p < n
            invariant
                n == buffer@.len(),
                p <= n,
                head < n,
                5 <= tail <= MAX_TAIL,
                tail == self.tail_length,
                tt == tail * tail,
                tt >= 25,
                forall|j: int|
                    0 <= j < p ==> buffer@[j] == comet_pixel(self.color, head as int, tail as int, n as int, j),
            decreases n - p,
        {
            let d: u128 = (head + (n as u128) - (p as u128)) % (n as u128);
            if d < tail as u128 {
                let k: u64 = tail - d as u64;
                proof {
                    assert(k * k <= tail * tail) by (nonlinear_arith)
                        requires
                            0 <= k <= tail,
                    ;
                }
                buffer.set(p, scale_color(self.color, (k * k) as u32, tt));
            } else {
                buffer.set(p, Rgb { r: 0, g: 0, b: 0 });
            }
            p += 1;
        }
        Some(now_us.saturating_add(COMET_FRAME_US))
    }

    pub fn set_color(&mut self, color: Rgb)
        ensures
            final(self).color_spec() == color,
            final(self).speed_spec() == old(self).speed_spec(),
            final(self).tail_spec() == old(self).tail_spec(),
            final(self).wf() == old(self).wf(),
    {
        self.color = color;
    }

    pub fn set_speed(&mut self, speed: u8)
        ensures
            final(self).speed_spec() == clamp_speed(speed),
            final(self).color_spec() == old(self).color_spec(),
            final(self).tail_spec() == old(self).tail_spec(),
            final(self).wf() == old(self).wf(),
    {
        self.speed = speed_clamped(speed);
    }

    pub fn get_color(&self) -> (c: Option<Rgb>)
        ensures
            c == Some(self.color_spec()),
    {
        Some(self.color)
    }

    pub fn get_speed(&self) -> (s: Option<u8>)
        ensures
            s == Some(self.speed_spec()),
    {
        Some(self.speed)
    }

    pub fn name(&self) -> (n: &'static str)
        ensures
            n == "Comet",
    {
        "Comet"
    }
}

} // verus!
