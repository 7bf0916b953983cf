//! One color on every pixel, redrawn only after the color changes.
use vstd::prelude::*;
use crate::color::{Rgb, fill};

verus! {

pub struct StaticEffect {
    color: Rgb,
    dirty: bool,
}

impl StaticEffect {
    pub closed spec fn color_spec(&self) -> Rgb {
        self.color
    }

    /// Whether the buffer still has to be filled with the current color.
    pub closed spec fn dirty_spec(&self) -> bool {
        self.dirty
    }

    pub fn new(color: Rgb) -> (e: StaticEffect)
        ensures
            e.color_spec() == color,
            e.dirty_spec(),
    {
        StaticEffect { color, dirty: true }
    }

    /// How `update` relates the effect and the buffer before (`a`, `ob`) and
    /// after (`b`, `nb`) a frame at `now` that returned `r`.
    pub open spec fn stepped(a: Self, now: u64, ob: Seq<Rgb>, b: Self, nb: Seq<Rgb>, r: Option<u64>) -> bool {
        &&& b.color_spec() == a.color_spec()
        &&& !b.dirty_spec()
        &&& nb.len() == ob.len()
        &&& a.dirty_spec() ==> r == Some(0u64) && forall|i: int|
            0 <= i < nb.len() ==> nb[i] == a.color_spec()
        &&& !a.dirty_spec() ==> r is None && nb == ob
    }

    /// Fills the buffer when the color changed since the last fill and returns
    /// `Some(0)`; otherwise leaves it alone and returns `None` (nothing to redraw).
    pub fn update(&mut self, now_us: u64, buffer: &mut Vec<Rgb>) -> (r: Option<u64>)
        ensures
            final(buffer)@.len() == old(buffer)@.len(),
            Self::stepped(*old(self), now_us, old(buffer)@, *final(self), final(buffer)@, r),
    {
        if !self.dirty {
            return None;
        }
        fill(buffer, self.color);
        self.dirty = false;
        Some(0)
    }

    pub fn set_color(&mut self, color: Rgb)
        ensures
            final(self).color_spec() == color,
            final(self).dirty_spec() == (old(self).dirty_spec() || old(self).color_spec() != color),
    {
        if self.color != color {
            self.color = color;
            self.dirty = true;
        }
    }

    pub fn get_color(&self) -> (c: Option<Rgb>)
        ensures
            c == Some(self.color_spec()),
    {
        Some(self.color)
    }

    pub fn name(&self) -> (n: &'static str)
        ensures
            n == "Static",
    {
        "Static"
    }
}

} // verus!
