//! A simple LED state with a small set of whole-strip animations, and the
//! request records of the control surface.
use vstd::prelude::*;
use crate::color::{Rgb, hsv_spec, hsv_to_rgb, HUE_TURN};
use crate::effects::breathe_effect::half_sine;

verus! {

/// Pixels of the strip this state describes.
pub const LED_COUNT: usize = 144;

/// The animations of `LedState`.
#[derive(Clone, Copy, Debug, PartialEq, Eq, Structural)]
pub enum EffectType {
    Static,
    Breathing,
    ColorWipe,
    Rainbow,
}

pub open spec fn scale_brightness_spec(color: u8, brightness: u8) -> u8 {
    let b = if brightness > 100 { 100int } else { brightness as int };
    let scaled = ((color as int) * b + 50) / 100;
    if b == 0 {
        0
    } else if scaled == 0 && color > 0 {
        1
    } else {
        scaled as u8
    }
}

/// Scales a channel by a brightness percentage (capped at 100), rounding to
/// nearest; a lit channel never goes fully dark unless the brightness is 0.
pub fn scale_brightness(color: u8, brightness: u8) -> (r: u8)
    ensures
        r == scale_brightness_spec(color, brightness),
        r <= color,
{
    let b: u32 = if brightness > 100 { 100 } else { brightness as u32 };
    if b == 0 {
        return 0;
    }
    proof {
        assert((color as int) * (b as int) <= (color as int) * 100) by (nonlinear_arith)
            requires
                b <= 100,
        ;
    }
    let scaled: u32 = ((color as u32) * b + 50) / 100;
    if scaled == 0 && color > 0 {
        1
    } else {
        scaled as u8
    }
}

/// Color, brightness percentage and animation of the strip, with the
/// animations' own counters.
pub struct LedState {
    pub r: u8,
    pub g: u8,
    pub b: u8,
    pub brightness: u8,
    pub effect: EffectType,
    pub is_running: bool,
    pub counters: Counters,
}

/// Per-instance animation counters of `LedState`.
pub struct Counters {
    rainbow_offset: u8,
    breath_step: u32,
    wipe_position: usize,
    wipe_forward: bool,
}

impl Counters {
    pub closed spec fn wf(&self) -> bool {
        &&& self.wipe_position < LED_COUNT
        &&& self.wipe_forward ==> self.wipe_position < LED_COUNT - 1
    }

    pub closed spec fn wipe_spec(&self) -> (int, bool) {
        (self.wipe_position as int, self.wipe_forward)
    }

    pub closed spec fn rainbow_offset_spec(&self) -> u8 {
        self.rainbow_offset
    }

    pub closed spec fn breath_step_spec(&self) -> u32 {
        self.breath_step
    }

    pub fn new() -> (c: Counters)
        ensures
            c.wf(),
            c.wipe_spec() == (0int, true),
            c.rainbow_offset_spec() == 0,
            c.breath_step_spec() == 0,
    {
        Counters { rainbow_offset: 0, breath_step: 0, wipe_position: 0, wipe_forward: true }
    }
}

pub open spec fn static_color_spec(r: u8, g: u8, b: u8, brightness: u8) -> Rgb {
    Rgb {
        r: scale_brightness_spec(r, brightness),
        g: scale_brightness_spec(g, brightness),
        b: scale_brightness_spec(b, brightness),
    }
}

/// Hue of pixel `i` of the rainbow with offset `offset`, on the 0..=255 hue circle.
pub open spec fn rainbow_hue(i: int, offset: u8) -> u8 {
    (((i * 256 / (LED_COUNT as int)) as u8 as int + offset as int) % 256) as u8
}

/// A 0..=255 hue as a point of the color wheel.
pub open spec fn wheel(hue: u8) -> int {
    ((hue as int) * (HUE_TURN as int) / 255) % (HUE_TURN as int)
}

/// Frames in one breathing cycle of `LedState`.
pub const BREATH_STEPS: u32 = 126;

pub open spec fn breath_brightness(step: u32, brightness: u8) -> int {
    let x = (step % BREATH_STEPS) as int * 1000 / (BREATH_STEPS as int);
    let level = if x < 500 { (1000 + half_sine(x * 2)) / 2 } else { (1000 - half_sine((x - 500) * 2)) / 2 };
    level * (brightness as int) / 1000
}

/// The wipe position and direction after one frame: forward to the last
/// pixel, then back to the first.
pub open spec fn wipe_next(w: (int, bool)) -> (int, bool) {
    if w.1 {
        (w.0 + 1, w.0 + 1 < LED_COUNT - 1)
    } else if w.0 > 0 {
        (w.0 - 1, false)
    } else {
        (w.0, true)
    }
}

impl Default for LedState {
    /// White at brightness 100, static, not running.
    fn default() -> (s: LedState)
        ensures
            s.wf(),
            s.r == 255 && s.g == 255 && s.b == 255,
            s.brightness == 100,
            s.effect == EffectType::Static,
            !s.is_running,
    {
        LedState {
            r: 255,
            g: 255,
            b: 255,
            brightness: 100,
            effect: EffectType::Static,
            is_running: false,
            counters: Counters::new(),
        }
    }

}

impl LedState {
    pub open spec fn wipe_spec(&self) -> (int, bool) {
        self.counters.wipe_spec()
    }

    pub open spec fn rainbow_offset_spec(&self) -> u8 {
        self.counters.rainbow_offset_spec()
    }

    pub open spec fn breath_step_spec(&self) -> u32 {
        self.counters.breath_step_spec()
    }

    pub open spec fn wf(&self) -> bool {
        self.counters.wf()
    }

    /// The color scaled by the brightness percentage.
    pub fn get_static_color(&self) -> (c: Rgb)
        ensures
            c == static_color_spec(self.r, self.g, self.b, self.brightness),
    {
        Rgb {
            r: scale_brightness(self.r, self.brightness),
            g: scale_brightness(self.g, self.brightness),
            b: scale_brightness(self.b, self.brightness),
        }
    }

    /// The next frame of the current animation, one color per pixel.
    pub fn get_effect_colors(&mut self) -> (frame: Vec<Rgb>)
        requires
            old(self).wf(),
        ensures
            final(self).wf(),
            frame@.len() == LED_COUNT,
            final(self).r == old(self).r && final(self).g == old(self).g && final(self).b == old(self).b,
            final(self).brightness == old(self).brightness,
            final(self).effect == old(self).effect,
            old(self).effect == EffectType::Static ==> forall|i: int|
                0 <= i < LED_COUNT ==> frame@[i] == static_color_spec(old(self).r, old(self).g, old(self).b, old(self).brightness),
            old(self).effect == EffectType::Rainbow ==> final(self).rainbow_offset_spec() == (old(self).rainbow_offset_spec() + 1) % 256
                && forall|i: int|
                    0 <= i < LED_COUNT ==> frame@[i] == hsv_spec(wheel(rainbow_hue(i, final(self).rainbow_offset_spec())), 255, 255),
            old(self).effect == EffectType::Breathing ==> final(self).breath_step_spec() == (old(self).breath_step_spec() as int + 1) % 0x1_0000_0000
                && forall|i: int|
                    0 <= i < LED_COUNT ==> frame@[i] == static_color_spec(
                        old(self).r,
                        old(self).g,
                        old(self).b,
                        breath_brightness(final(self).breath_step_spec(), old(self).brightness) as u8,
                    ),
            old(self).effect == EffectType::ColorWipe ==> final(self).wipe_spec() == wipe_next(old(self).wipe_spec()),
            old(self).effect != EffectType::ColorWipe ==> final(self).wipe_spec() == old(self).wipe_spec(),
            old(self).effect == EffectType::ColorWipe ==> forall|i: int|
                0 <= i < LED_COUNT ==> frame@[i] == if i <= old(self).wipe_spec().0 {
                    static_color_spec(old(self).r, old(self).g, old(self).b, old(self).brightness)
                } else {
                    Rgb { r: 0, g: 0, b: 0 }
                },
    {
        let mut frame: Vec<Rgb> = Vec::new();
        let black = Rgb { r: 0, g: 0, b: 0 };
        match self.effect {
            EffectType::Static => {
                let c = self.get_static_color();
                let mut i: usize = 0;
                while i < LED_COUNT
                    invariant
                        i <= LED_COUNT,
                        frame@.len() == i,
                        forall|j: int| 0 <= j < i ==> frame@[j] == c,
                    decreases LED_COUNT - i,
                {
                    frame.push(c);
                    i += 1;
                }
            },
            EffectType::Rainbow => {
                self.counters.rainbow_offset = self.counters.rainbow_offset.wrapping_add(1);
                let off = self.counters.rainbow_offset;
                let mut i: usize = 0;
                while i < LED_COUNT
                    invariant
                        i <= LED_COUNT,
                        frame@.len() == i,
                        off == self.counters.rainbow_offset,
                        forall|j: int| 0 <= j < i ==> frame@[j] == hsv_spec(wheel(rainbow_hue(j, off)), 255, 255),
                    decreases LED_COUNT - i,
                {
                    let base: u8 = ((i as u32) * 256 / (LED_COUNT as u32)) as u8;
                    let hue: u8 = base.wrapping_add(off);
                    let h: u32 = ((hue as u32) * HUE_TURN / 255) % HUE_TURN;
                    frame.push(hsv_to_rgb(h, 255, 255));
                    i += 1;
                }
            },
            EffectType::Breathing => {
                self.counters.breath_step = self.counters.breath_step.wrapping_add(1);
                let x: u64 = ((self.counters.breath_step % BREATH_STEPS) as u64) * 1000 / (BREATH_STEPS as u64);
                proof {
                    let m = (self.counters.breath_step % BREATH_STEPS) as int;
                    assert(m * 1000 / 126 < 1000) by (nonlinear_arith)
                        requires
                            0 <= m < 126,
                    ;
                }
                let level: u64 = if x < 500 {
                    (1000 + crate::effects::breathe_effect::half_sine_of(x * 2)) / 2
                } else {
                    (1000 - crate::effects::breathe_effect::half_sine_of((x - 500) * 2)) / 2
                };
                proof {
                    assert(level * (self.brightness as u64) <= 1000 * 255) by (nonlinear_arith)
                        requires
                            level <= 1000,
                            self.brightness <= 255,
                    ;
                }
                let br: u8 = (level * (self.brightness as u64) / 1000) as u8;
                let c = Rgb {
                    r: scale_brightness(self.r, br),
                    g: scale_brightness(self.g, br),
                    b: scale_brightness(self.b, br),
                };
                let mut i: usize = 0;
                while i < LED_COUNT
                    invariant
                        i <= LED_COUNT,
                        frame@.len() == i,
                        forall|j: int| 0 <= j < i ==> frame@[j] == c,
                    decreases LED_COUNT - i,
                {
                    frame.push(c);
                    i += 1;
                }
            },
            EffectType::ColorWipe => {
                let c = self.get_static_color();
                let pos = self.counters.wipe_position;
                let mut i: usize = 0;
                while i < LED_COUNT
                    invariant
                        i <= LED_COUNT,
                        frame@.len() == i,
                        pos == self.counters.wipe_position,
                        forall|j: int| 0 <= j < i ==> frame@[j] == if j <= pos { c } else { black },
                    decreases LED_COUNT - i,
                {
                    frame.push(if i <= pos { c } else { black });
                    i += 1;
                }
                if self.counters.wipe_forward {
                    self.counters.wipe_position = self.counters.wipe_position + 1;
                    if self.counters.wipe_position >= LED_COUNT - 1 {
                        self.counters.wipe_forward = false;
                    }
                } else if self.counters.wipe_position > 0 {
                    self.counters.wipe_position = self.counters.wipe_position - 1;
                } else {
                    self.counters.wipe_forward = true;
                }
            },
        }
        frame
    }
}

/// A request to set the color.
pub struct ColorRequest {
    pub r: u8,
    pub g: u8,
    pub b: u8,
}

/// A request to set the brightness, in percent.
pub struct BrightnessRequest {
    pub percent: u8,
}

/// A request to switch the effect, by name.
pub struct EffectRequest {
    pub effect_type: String,
}

} // verus!
