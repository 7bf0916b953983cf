//! Pixel colors and the integer color arithmetic shared by every effect.
use vstd::prelude::*;

verus! {

/// One pixel: red, green and blue intensities.
#[derive(Clone, Copy, Debug, PartialEq, Eq, Structural)]
pub struct Rgb {
    pub r: u8,
    pub g: u8,
    pub b: u8,
}

/// Hue range in hundredths of a degree: a full turn of the color wheel.
pub const HUE_TURN: u32 = 36000;

/// Width of one of the six sectors of the color wheel.
pub const HUE_SECTOR: u32 = 6000;

pub open spec fn rgb(r: int, g: int, b: int) -> Rgb {
    Rgb { r: r as u8, g: g as u8, b: b as u8 }
}

/// `c * num / den`, rounded down.
pub open spec fn scaled(c: u8, num: int, den: int) -> u8 {
    ((c as int) * num / den) as u8
}

pub open spec fn scaled_color(c: Rgb, num: int, den: int) -> Rgb {
    Rgb { r: scaled(c.r, num, den), g: scaled(c.g, num, den), b: scaled(c.b, num, den) }
}

pub open spec fn sat_add(a: u8, b: u8) -> u8 {
    if a as int + b as int > 255 { 255u8 } else { (a + b) as u8 }
}

pub open spec fn sat_add_color(a: Rgb, b: Rgb) -> Rgb {
    Rgb { r: sat_add(a.r, b.r), g: sat_add(a.g, b.g), b: sat_add(a.b, b.b) }
}

pub open spec fn max_u8(a: u8, b: u8) -> u8 {
    if a >= b { a } else { b }
}

pub open spec fn max_color(a: Rgb, b: Rgb) -> Rgb {
    Rgb { r: max_u8(a.r, b.r), g: max_u8(a.g, b.g), b: max_u8(a.b, b.b) }
}

/// Color wheel: hue `h` in hundredths of a degree, saturation and value in 0..=255.
pub open spec fn hsv_spec(h: int, s: int, v: int) -> Rgb {
    let sector = h / (HUE_SECTOR as int);
    let f = h % (HUE_SECTOR as int);
    let full = 255 * (HUE_SECTOR as int);
    let p = v * (255 - s) / 255;
    let q = v * (full - s * f) / full;
    let t = v * (full - s * ((HUE_SECTOR as int) - f)) / full;
    if sector == 0 {
        rgb(v, t, p)
    } else if sector == 1 {
        rgb(q, v, p)
    } else if sector == 2 {
        rgb(p, v, t)
    } else if sector == 3 {
        rgb(p, q, v)
    } else if sector == 4 {
        rgb(t, p, v)
    } else {
        rgb(v, p, q)
    }
}

impl Rgb {
    pub fn new(r: u8, g: u8, b: u8) -> (c: Rgb)
        ensures
            c == (Rgb { r, g, b }),
    {
        Rgb { r, g, b }
    }

    pub fn black() -> (c: Rgb)
        ensures
            c == (Rgb { r: 0, g: 0, b: 0 }),
    {
        Rgb { r: 0, g: 0, b: 0 }
    }
}

proof fn lemma_scaled_bound(c: int, num: int, den: int)
    requires
        0 <= c <= 255,
        0 <= num <= den,
        0 < den,
    ensures
        0 <= c * num / den <= c,
{
    assert(0 <= c * num) by (nonlinear_arith)
        requires
            0 <= c,
            0 <= num,
    ;
    assert(c * num <= c * den) by (nonlinear_arith)
        requires
            0 <= c,
            num <= den,
    ;
    assert(c * num / den <= c * den / den) by (nonlinear_arith)
        requires
            c * num <= c * den,
            0 < den,
    ;
    assert(c * den / den == c) by (nonlinear_arith)
        requires
            0 < den,
    ;
    assert(0 <= c * num / den) by (nonlinear_arith)
        requires
            0 <= c * num,
            0 < den,
    ;
}

/// `c * num / den` for a fraction `num / den` of at most one.
pub fn scale_channel(c: u8, num: u32, den: u32) -> (r: u8)
    requires
        0 < den,
        num <= den,
    ensures
        r == scaled(c, num as int, den as int),
        r <= c,
{
    proof {
        lemma_scaled_bound(c as int, num as int, den as int);
        assert((c as int) * (num as int) <= 255 * 0xffff_ffff) by (nonlinear_arith)
            requires
                c <= 255,
                num <= 0xffff_ffff,
        ;
    }
    let prod: u64 = (c as u64) * (num as u64);
    (prod / (den as u64)) as u8
}

pub fn scale_color(c: Rgb, num: u32, den: u32) -> (r: Rgb)
    requires
        0 < den,
        num <= den,
    ensures
        r == scaled_color(c, num as int, den as int),
{
    Rgb { r: scale_channel(c.r, num, den), g: scale_channel(c.g, num, den), b: scale_channel(c.b, num, den) }
}

pub fn add_channel(a: u8, b: u8) -> (r: u8)
    ensures
        r == sat_add(a, b),
{
    a.saturating_add(b)
}

/// Adds two colors channel by channel, each channel capped at 255.
pub fn add_color(a: Rgb, b: Rgb) -> (r: Rgb)
    ensures
        r == sat_add_color(a, b),
{
    Rgb { r: add_channel(a.r, b.r), g: add_channel(a.g, b.g), b: add_channel(a.b, b.b) }
}

pub fn max_of(a: Rgb, b: Rgb) -> (r: Rgb)
    ensures
        r == max_color(a, b),
{
    Rgb {
        r: if a.r >= b.r { a.r } else { b.r },
        g: if a.g >= b.g { a.g } else { b.g },
        b: if a.b >= b.b { a.b } else { b.b },
    }
}

/// Converts a point of the color wheel to a pixel color.
pub fn hsv_to_rgb(h: u32, s: u8, v: u8) -> (c: Rgb)
    requires
        h < HUE_TURN,
    ensures
        c == hsv_spec(h as int, s as int, v as int),
{
    let sector: u32 = h / HUE_SECTOR;
    let f: u64 = (h % HUE_SECTOR) as u64;
    let full: u64 = 255 * (HUE_SECTOR as u64);
    let v64: u64 = v as u64;
    let s64: u64 = s as u64;
    proof {
        assert(s64 * f <= 255 * 6000) by (nonlinear_arith)
            requires
                s64 <= 255,
                f < 6000,
        ;
        assert(s64 * (6000 - f) <= 255 * 6000) by (nonlinear_arith)
            requires
                s64 <= 255,
                f < 6000,
        ;
        lemma_scaled_bound(v64 as int, 255 - s64, 255);
        lemma_scaled_bound(v64 as int, full - s64 * f, full as int);
        lemma_scaled_bound(v64 as int, full - s64 * (6000 - f), full as int);
    }
    let p: u64 = v64 * (255 - s64) / 255;
    let q: u64 = v64 * (full - s64 * f) / full;
    let t: u64 = v64 * (full - s64 * ((HUE_SECTOR as u64) - f)) / full;
    let (r, g, b) = if sector == 0 {
        (v64, t, p)
    } else if sector == 1 {
        (q, v64, p)
    } else if sector == 2 {
        (p, v64, t)
    } else if sector == 3 {
        (p, q, v64)
    } else if sector == 4 {
        (t, p, v64)
    } else {
        (v64, p, q)
    };
    Rgb { r: r as u8, g: g as u8, b: b as u8 }
}

/// Sets every pixel of `buffer` to `c`.
pub fn fill(buffer: &mut Vec<Rgb>, c: Rgb)
    ensures
        final(buffer)@.len() == old(buffer)@.len(),
        forall|i: int| 0 <= i < final(buffer)@.len() ==> final(buffer)@[i] == c,
{
    let n = buffer.len();
    let mut i: usize = 0;
    while i < n
        invariant
            n == buffer@.len(),
            i <= n,
            forall|j: int| 0 <= j < i ==> buffer@[j] == c,
        decreases n - i,
    {
        buffer.set(i, c);
        i += 1;
    }
}

} // verus!
