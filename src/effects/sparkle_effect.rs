//! Short-lived sparkles that appear now and then and fade out over a dark strip.
use vstd::prelude::*;
use crate::color::{Rgb, scaled_color, scale_color};
use crate::effects::{clamp_speed, speed_clamped};

verus! {

/// A sparkle: its pixel and its brightness (0..=255).
pub type Sparkle = (usize, u8);

/// Time to the next frame: 100 ms at speed 0 down to 20 ms at 255.
pub open spec fn sparkle_interval(speed: u8) -> int {
    100_000 - (speed as int) * 80_000 / 255
}

/// Sparkles launched on a launching frame.
pub open spec fn sparkle_burst(speed: u8) -> int {
    if speed / 50 > 1 { (speed / 50) as int } else { 1 }
}

/// The sparkles after the launches of a frame at `now` on `len` pixels: on
/// frames whose time is a multiple of 7 microseconds, `sparkle_burst` sparkles
/// at full brightness on the pixel the time in milliseconds points at.
pub open spec fn launched(s: Seq<Sparkle>, now: u64, len: int, speed: u8) -> Seq<Sparkle> {
    if now % 7 == 0 && len > 0 {
        s + Seq::new(sparkle_burst(speed) as nat, |i: int| (((now / 1000) as int % len) as usize, 255u8))
    } else {
        s
    }
}

/// The sparkles after fading: those above 20 dim by 15, the others go out. Order is kept.
pub open spec fn dimmed(s: Seq<Sparkle>) -> Seq<Sparkle>
    decreases s.len(),
{
    if s.len() == 0 {
        s
    } else {
        let rest = dimmed(s.drop_last());
        let p = s.last();
        if p.1 > 20 { rest.push((p.0, (p.1 - 15) as u8)) } else { rest }
    }
}

/// Draws the sparkles in order onto `b`, each setting its pixel to the color at its brightness.
pub open spec fn painted(b: Seq<Rgb>, s: Seq<Sparkle>, color: Rgb) -> Seq<Rgb>
    decreases s.len(),
{
    if s.len() == 0 {
        b
    } else {
        let before = painted(b, s.drop_last(), color);
        let p = s.last();
        if (p.0 as int) < before.len() { before.update(p.0 as int, scaled_color(color, p.1 as int, 255)) } else { before }
    }
}

proof fn lemma_painted_len(b: Seq<Rgb>, s: Seq<Sparkle>, color: Rgb)
    ensures
        painted(b, s, color).len() == b.len(),
    decreases s.len(),
{
    if s.len() > 0 {
        lemma_painted_len(b, s.drop_last(), color);
    }
}

pub struct SparkleEffect {
    color: Rgb,
    speed: u8,
    active_sparkles: Vec<Sparkle>,
}

impl SparkleEffect {
    pub closed spec fn color_spec(&self) -> Rgb {
        self.color
    }

    pub closed spec fn speed_spec(&self) -> u8 {
        self.speed
    }

    pub closed spec fn sparkles_spec(&self) -> Seq<Sparkle> {
        self.active_sparkles@
    }

    pub fn new(color: Rgb, speed: u8) -> (e: SparkleEffect)
        ensures
            e.color_spec() == color,
            e.speed_spec() == clamp_speed(speed),
            e.sparkles_spec().len() == 0,
    {
        SparkleEffect { color, speed: speed_clamped(speed), active_sparkles: Vec::new() }
    }

    /// Launches sparkles on some frames, fades them, and draws the survivors on a dark strip.
    pub fn update(&mut self, now_us: u64, buffer: &mut Vec<Rgb>) -> (r: Option<u64>)
        ensures
            final(self).color_spec() == old(self).color_spec(),
            final(self).speed_spec() == old(self).speed_spec(),
            final(self).sparkles_spec() == dimmed(
                launched(old(self).sparkles_spec(), now_us, old(buffer)@.len() as int, old(self).speed_spec()),
            ),
            final(buffer)@ == painted(
                Seq::new(old(buffer)@.len(), |i: int| Rgb { r: 0, g: 0, b: 0 }),
                final(self).sparkles_spec(),
                old(self).color_spec(),
            ),
            r == Some(
                if now_us as int + sparkle_interval(old(self).speed_spec()) <= u64::MAX {
                    (now_us + sparkle_interval(old(self).speed_spec())) as u64
                } else {
                    u64::MAX
                },
            ),
    {
        let n = buffer.len();
        crate::color::fill(buffer, Rgb { r: 0, g: 0, b: 0 });
        proof {
            assert(buffer@ =~= Seq::new(n as nat, |i: int| Rgb { r: 0, g: 0, b: 0 }));
        }
        let ghost s0 = self.active_sparkles@;
        if now_us % 7 == 0 && n > 0 {
            let burst: u8 = if self.speed / 50 > 1 { self.speed / 50 } else { 1 };
            let pos: usize = ((now_us / 1000) % (n as u64)) as usize;
            let mut k: u8 = 0;
            while k < burst
                invariant
                    k <= burst,
                    burst == sparkle_burst(self.speed),
                    pos as int == (now_us / 1000) as int % (n as int),
                    self.active_sparkles@ == s0 + Seq::new(k as nat, |i: int| (pos, 255u8)),
                    self.color == old(self).color,
                    self.speed == old(self).speed,
                    buffer@ == Seq::new(n as nat, |i: int| Rgb { r: 0, g: 0, b: 0 }),
                    n == old(buffer)@.len(),
                decreases burst - k,
            {
                self.active_sparkles.push((pos, 255));
                k += 1;
                assert(self.active_sparkles@ =~= s0 + Seq::new(k as nat, |i: int| (pos, 255u8)));
            }
        }
        let ghost src = self.active_sparkles@;
        assert(src == launched(s0, now_us, n as int, self.speed));
        let ghost base = buffer@;
        let count = self.active_sparkles.len();
        let mut kept: Vec<Sparkle> = Vec::new();
        let mut i: usize = 0;
        while i < count
            invariant
                count == src.len(),
                src == self.active_sparkles@,
                i <= count,
                kept@ == dimmed(src.subrange(0, i as int)),
                buffer@ == painted(base, kept@, self.color),
                buffer@.len() == n,
                base.len() == n,
                self.color == old(self).color,
                self.speed == old(self).speed,
            decreases count - i,
        {
            let (p, b) = self.active_sparkles[i];
            proof {
                assert(src.subrange(0, i as int + 1).drop_last() =~= src.subrange(0, i as int));
            }
            if b > 20 {
                let nb: u8 = b - 15;
                kept.push((p, nb));
                proof {
                    assert(kept@.drop_last() =~= dimmed(src.subrange(0, i as int)));
                }
                if p < n {
                    buffer.set(p, scale_color(self.color, nb as u32, 255));
                }
                proof {
                    lemma_painted_len(base, kept@, self.color);
                }
            }
            i += 1;
        }
        proof {
            assert(src.subrange(0, count as int) =~= src);
        }
        self.active_sparkles = kept;
        let interval: u64 = 100_000 - (self.speed as u64) * 80_000 / 255;
        Some(now_us.saturating_add(interval))
    }

    pub fn set_color(&mut self, color: Rgb)
        ensures
            final(self).color_spec() == color,
            final(self).speed_spec() == old(self).speed_spec(),
            final(self).sparkles_spec() == old(self).sparkles_spec(),
    {
        self.color = color;
    }

    pub fn set_speed(&mut self, speed: u8)
        ensures
            final(self).speed_spec() == clamp_speed(speed),
            final(self).color_spec() == old(self).color_spec(),
            final(self).sparkles_spec() == old(self).sparkles_spec(),
    {
        self.speed = speed_clamped(speed);
    }

    pub fn get_color(&self) -> (c: Option<Rgb>)
        ensures
            c == Some(self.color_spec()),
    {
        Some(self.color)
    }

    pub fn get_speed(&self) -> (s: Option<u8>)
        ensures
            s == Some(self.speed_spec()),
    {
        Some(self.speed)
    }

    /// Number of sparkles still alight.
    pub fn sparkle_count(&self) -> (n: usize)
        ensures
            n == self.sparkles_spec().len(),
    {
        self.active_sparkles.len()
    }

    pub fn name(&self) -> (n: &'static str)
        ensures
            n == "Sparkle",
    {
        "Sparkle"
    }
}

} // verus!
