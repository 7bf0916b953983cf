//! The whole strip switches between the color and black, half a cycle each.
use vstd::prelude::*;
use crate::color::{Rgb, fill};
use crate::effects::{clamp_speed, speed_clamped};

verus! {

pub open spec fn cycle_time_spec_raw(speed: u8) -> int {
    2_000_000 - (speed as int) * 1_950_000 / 255
}

/// Length of one on-off cycle: 2 s at speed 0 down to 50 ms at speed 255.
pub fn cycle_time_us(speed: u8) -> (t: u64)
    ensures
        t == cycle_time_spec_raw(speed),
        50_000 <= t <= 2_000_000,
{
    2_000_000 - (speed as u64) * 1_950_000 / 255
}

/// Half cycles that pass from a due transition at `next` to `now` (at least one).
pub open spec fn transitions(next: int, now: int, half: int) -> int {
    (now - next) / half + 1
}

pub struct BlinkEffect {
    on: Rgb,
    off: Rgb,
    speed: u8,
    current_state: bool,
    next_transition_time: u64,
    cycle_time_us: u64,
    needs_immediate_render: bool,
}

impl BlinkEffect {
    pub closed spec fn color_spec(&self) -> Rgb {
        self.on
    }

    pub closed spec fn speed_spec(&self) -> u8 {
        self.speed
    }

    /// Whether the strip shows the color (rather than black).
    pub closed spec fn lit_spec(&self) -> bool {
        self.current_state
    }

    /// When the next switch is due; 0 before the first frame or after a speed change.
    pub closed spec fn next_spec(&self) -> u64 {
        self.next_transition_time
    }

    pub closed spec fn cycle_spec(&self) -> u64 {
        self.cycle_time_us
    }

    /// Whether the color changed and has not been shown yet.
    pub closed spec fn pending_spec(&self) -> bool {
        self.needs_immediate_render
    }

    pub closed spec fn wf(&self) -> bool {
        50_000 <= self.cycle_time_us <= 2_000_000 && self.off == (Rgb { r: 0, g: 0, b: 0 })
    }

    pub fn new(color: Rgb, speed: u8) -> (e: BlinkEffect)
        ensures
            e.wf(),
            e.color_spec() == color,
            e.speed_spec() == clamp_speed(speed),
            e.cycle_spec() == cycle_time_spec_raw(speed),
            e.lit_spec(),
            e.next_spec() == 0,
            !e.pending_spec(),
    {
        BlinkEffect {
            on: color,
            off: Rgb { r: 0, g: 0, b: 0 },
            speed: speed_clamped(speed),
            current_state: true,
            next_transition_time: 0,
            cycle_time_us: cycle_time_us(speed),
            needs_immediate_render: false,
        }
    }

    /// Shows a pending color change at once (while lit), starts the timing on
    /// the first frame, and switches on or off when a transition is due,
    /// catching up on transitions that were missed. Returns when the next
    /// switch is due.
    pub fn update(&mut self, now_us: u64, buffer: &mut Vec<Rgb>) -> (r: Option<u64>)
        requires
            old(self).wf(),
        ensures
            final(self).wf(),
            final(self).color_spec() == old(self).color_spec(),
            final(self).speed_spec() == old(self).speed_spec(),
            final(self).cycle_spec() == old(self).cycle_spec(),
            !final(self).pending_spec(),
            r == Some(final(self).next_spec()),
            final(buffer)@.len() == old(buffer)@.len(),
            old(self).pending_spec() && old(self).lit_spec() ==> final(self).next_spec() == old(self).next_spec()
                && final(self).lit_spec() && forall|i: int| 0 <= i < final(buffer)@.len() ==> final(buffer)@[i] == old(self).color_spec(),
            !(old(self).pending_spec() && old(self).lit_spec()) && old(self).next_spec() == 0 ==> {
                &&& final(self).next_spec() == crate::signal::min_int(now_us + old(self).cycle_spec() / 2, u64::MAX as int)
                &&& final(self).lit_spec() == old(self).lit_spec()
                &&& forall|i: int| 0 <= i < final(buffer)@.len() ==> final(buffer)@[i] == old(self).color_spec()
            },
            !(old(self).pending_spec() && old(self).lit_spec()) && old(self).next_spec() != 0 && now_us < old(self).next_spec()
                ==> final(self).next_spec() == old(self).next_spec() && final(self).lit_spec() == old(self).lit_spec()
                && final(buffer)@ == old(buffer)@,
            !(old(self).pending_spec() && old(self).lit_spec()) && old(self).next_spec() != 0 && now_us >= old(self).next_spec()
                ==> {
                let half = (old(self).cycle_spec() / 2) as int;
                let k = transitions(old(self).next_spec() as int, now_us as int, half);
                &&& final(self).next_spec() == crate::signal::min_int(old(self).next_spec() + k * half, u64::MAX as int)
                &&& final(self).lit_spec() == (old(self).lit_spec() != (k % 2 == 1))
                &&& forall|i: int|
                    0 <= i < final(buffer)@.len() ==> final(buffer)@[i] == if (old(self).lit_spec() != true) {
                        old(self).color_spec()
                    } else {
                        Rgb { r: 0, g: 0, b: 0 }
                    }
            },
    {
        if self.needs_immediate_render {
            self.needs_immediate_render = false;
            if self.current_state {
                fill(buffer, self.on);
                return Some(self.next_transition_time);
            }
        }
        let half: u64 = self.cycle_time_us / 2;
        if self.next_transition_time == 0 {
            fill(buffer, self.on);
            self.next_transition_time = now_us.saturating_add(half);
            return Some(self.next_transition_time);
        }
        if now_us >= self.next_transition_time {
            let shown = !self.current_state;
            fill(buffer, if shown { self.on } else { self.off });
            let k: u64 = (now_us - self.next_transition_time) / half + 1;
            proof {
                assert((k as int) * (half as int) <= (now_us as int) + (half as int)) by (nonlinear_arith)
                    requires
                        k == (now_us - self.next_transition_time) / (half as int) + 1,
                        half > 0,
                        now_us >= self.next_transition_time,
                ;
            }
            let target: u128 = (self.next_transition_time as u128) + (k as u128) * (half as u128);
            self.next_transition_time = if target > u64::MAX as u128 { u64::MAX } else { target as u64 };
            self.current_state = if k % 2 == 1 { !self.current_state } else { self.current_state };
            return Some(self.next_transition_time);
        }
        Some(self.next_transition_time)
    }

    /// Sets the color; a change is shown on the next frame.
    pub fn set_color(&mut self, color: Rgb)
        ensures
            final(self).color_spec() == color,
            final(self).speed_spec() == old(self).speed_spec(),
            final(self).cycle_spec() == old(self).cycle_spec(),
            final(self).next_spec() == old(self).next_spec(),
            final(self).lit_spec() == old(self).lit_spec(),
            final(self).pending_spec() == (old(self).pending_spec() || old(self).color_spec() != color),
            final(self).wf() == old(self).wf(),
    {
        if self.on != color {
            self.on = color;
            self.needs_immediate_render = true;
        }
    }

    /// Sets the speed; a new cycle length restarts the timing.
    pub fn set_speed(&mut self, speed: u8)
        requires
            old(self).wf(),
        ensures
            final(self).wf(),
            final(self).speed_spec() == clamp_speed(speed),
            final(self).color_spec() == old(self).color_spec(),
            final(self).lit_spec() == old(self).lit_spec(),
            clamp_speed(speed) != old(self).speed_spec() ==> final(self).cycle_spec() == cycle_time_spec_raw(clamp_speed(speed)),
            clamp_speed(speed) != old(self).speed_spec() && cycle_time_spec_raw(clamp_speed(speed)) != old(self).cycle_spec()
                ==> final(self).next_spec() == 0,
            clamp_speed(speed) == old(self).speed_spec() ==> final(self).cycle_spec() == old(self).cycle_spec()
                && final(self).next_spec() == old(self).next_spec(),
    {
        let new_speed = speed_clamped(speed);
        if self.speed != new_speed {
            self.speed = new_speed;
            let new_cycle = cycle_time_us(new_speed);
            if new_cycle != self.cycle_time_us {
                self.cycle_time_us = new_cycle;
                self.next_transition_time = 0;
            }
        }
    }

    pub fn get_color(&self) -> (c: Option<Rgb>)
        ensures
            c == Some(self.color_spec()),
    {
        Some(self.on)
    }

    pub fn get_speed(&self) -> (s: Option<u8>)
        ensures
            s == Some(self.speed_spec()),
    {
        Some(self.speed)
    }

    pub fn name(&self) -> (n: &'static str)
        ensures
            n == "Blink",
    {
        "Blink"
    }
}

} // verus!
