//! The frame scheduler: owns the active effect and the pixel buffer, applies
//! commands, decides when a frame is due and produces the bytes to send to the
//! strip (global brightness applied, channels in the strip's G-R-B order).
use vstd::prelude::*;
use crate::audio::AudioData;
use crate::color::{Rgb, fill, scaled};
use crate::effects::{Effect, EffectType, MAX_PIXELS, clamp_speed, keeps_color, keeps_speed, audio_reactive};
use crate::inbox::{Command, CommandInbox};
use crate::scheduler::SchedulePreset;

verus! {

/// Frames forced after a change, to mask a transfer that silently failed.
pub const REDRAW_FRAMES: u8 = 15;

/// Longest time without a transfer before one is forced.
pub const KEEP_ALIVE_US: u64 = 2_000_000;

/// Speed new effects get before any speed was set.
pub const DEFAULT_SPEED: u8 = 128;

pub open spec fn clamp_fps(fps: u32) -> u32 {
    if fps < 1 { 1 } else if fps > 120 { 120 } else { fps }
}

/// Bytes for the strip: three per pixel in G, R, B order, each channel scaled
/// by `brightness / 255`.
pub open spec fn wire_frame(buf: Seq<Rgb>, brightness: u8) -> Seq<u8> {
    Seq::new(
        3 * buf.len(),
        |k: int|
            {
                let p = buf[k / 3];
                let c = if k % 3 == 0 { p.g } else if k % 3 == 1 { p.r } else { p.b };
                scaled(c, brightness as int, 255)
            },
    )
}

/// Whether to send a frame, and the next force flag, redraw counter and keep-alive time.
pub open spec fn render_decision(
    effect_changed: bool,
    reactive: bool,
    force: bool,
    decay: u8,
    now: u64,
    keep_alive: u64,
) -> (bool, bool, u8, u64) {
    let (r1, force1, decay1) = if effect_changed || reactive {
        (true, force, 0u8)
    } else if force {
        (true, false, decay)
    } else {
        (false, force, decay)
    };
    let (r2, decay2) = if decay1 > 0 { (true, (decay1 - 1) as u8) } else { (r1, decay1) };
    if now as int > keep_alive as int + KEEP_ALIVE_US { (true, force1, decay2, now) } else { (r2, force1, decay2, keep_alive) }
}

/// What commands set on the controller: effect kind, color, speed and brightness.
pub type Settings = (EffectType, Rgb, u8, u8);

/// The settings after one command.
pub open spec fn after_command(st: Settings, cmd: Command) -> Settings {
    match cmd {
        Command::SetEffect(e) => (e, st.1, st.2, st.3),
        Command::SetBrightness(b) => (st.0, st.1, st.2, b),
        Command::SetColor(r, g, b) => (st.0, Rgb { r, g, b }, st.2, st.3),
        Command::SetSpeed(v) => (st.0, st.1, clamp_speed(v), st.3),
        Command::SetPower(on) => (st.0, st.1, st.2, if on { 255u8 } else { 0u8 }),
    }
}

/// The settings after the commands `cmds`, applied in order.
pub open spec fn after_commands(st: Settings, cmds: Seq<Command>) -> Settings
    decreases cmds.len(),
{
    if cmds.len() == 0 {
        st
    } else {
        after_command(after_commands(st, cmds.drop_last()), cmds.last())
    }
}

pub struct LedController {
    num_leds: usize,
    brightness: u8,
    buffer: Vec<Rgb>,
    effect: Effect,
    color: Rgb,
    speed: u8,
    last_show_us: u64,
    target_fps: u32,
    frame_time_us: u64,
    force_render: bool,
    render_decay_counter: u8,
    last_keep_alive_us: u64,
}

impl LedController {
    pub closed spec fn wf(&self) -> bool {
        &&& self.num_leds <= MAX_PIXELS
        &&& self.buffer@.len() == self.num_leds
        &&& self.effect.wf()
        &&& self.speed >= 1
        &&& 1 <= self.target_fps <= 120
        &&& self.frame_time_us as int == 1_000_000int / (self.target_fps as int)
    }

    /// Effect kind, last color, last speed and brightness.
    pub open spec fn settings(&self) -> Settings {
        (self.effect_spec().kind_spec(), self.color_spec(), self.speed_spec(), self.brightness_spec())
    }

    pub closed spec fn effect_spec(&self) -> Effect {
        self.effect
    }

    pub closed spec fn buffer_spec(&self) -> Seq<Rgb> {
        self.buffer@
    }

    pub closed spec fn brightness_spec(&self) -> u8 {
        self.brightness
    }

    /// The last color and speed a command set; new effects start from them.
    pub closed spec fn color_spec(&self) -> Rgb {
        self.color
    }

    pub closed spec fn speed_spec(&self) -> u8 {
        self.speed
    }

    pub closed spec fn fps_spec(&self) -> u32 {
        self.target_fps
    }

    pub closed spec fn frame_time_spec(&self) -> u64 {
        self.frame_time_us
    }

    pub closed spec fn last_show_spec(&self) -> u64 {
        self.last_show_us
    }

    pub closed spec fn force_spec(&self) -> bool {
        self.force_render
    }

    pub closed spec fn decay_spec(&self) -> u8 {
        self.render_decay_counter
    }

    pub closed spec fn keep_alive_spec(&self) -> u64 {
        self.last_keep_alive_us
    }

    pub closed spec fn num_leds_spec(&self) -> int {
        self.num_leds as int
    }

    /// A controller for `num_leds` pixels showing black, at full brightness and 60 frames per second.
    pub fn new(num_leds: usize) -> (c: LedController)
        requires
            num_leds <= MAX_PIXELS,
        ensures
            c.wf(),
            c.num_leds_spec() == num_leds,
            c.effect_spec().kind_spec() == EffectType::Static,
            c.effect_spec().color_spec() == Some(Rgb { r: 0, g: 0, b: 0 }),
            c.color_spec() == (Rgb { r: 0, g: 0, b: 0 }),
            c.speed_spec() == DEFAULT_SPEED,
            c.brightness_spec() == 255,
            c.fps_spec() == 60,
            c.force_spec(),
            c.decay_spec() == 20,
            c.last_show_spec() == 0,
    {
        let black = Rgb { r: 0, g: 0, b: 0 };
        let mut buffer: Vec<Rgb> = Vec::new();
        let mut i: usize = 0;
        while i < num_leds
            invariant
                i <= num_leds,
                buffer@.len() == i,
            decreases num_leds - i,
        {
            buffer.push(black);
            i += 1;
        }
        LedController {
            num_leds,
            brightness: 255,
            buffer,
            effect: Effect::create(EffectType::Static, black, DEFAULT_SPEED, num_leds),
            color: black,
            speed: DEFAULT_SPEED,
            last_show_us: 0,
            target_fps: 60,
            frame_time_us: 1_000_000 / 60,
            force_render: true,
            render_decay_counter: 20,
            last_keep_alive_us: 0,
        }
    }

    /// The active effect.
    pub fn effect(&self) -> (e: &Effect)
        ensures
            *e == self.effect_spec(),
    {
        &self.effect
    }

    pub fn brightness(&self) -> (b: u8)
        ensures
            b == self.brightness_spec(),
    {
        self.brightness
    }

    /// The last color and speed set.
    pub fn color(&self) -> (c: Rgb)
        ensures
            c == self.color_spec(),
    {
        self.color
    }

    pub fn speed(&self) -> (s: u8)
        ensures
            s == self.speed_spec(),
    {
        self.speed
    }

    /// The pixels of the last frame the effect drew.
    pub fn buffer(&self) -> (b: &Vec<Rgb>)
        ensures
            b@ == self.buffer_spec(),
    {
        &self.buffer
    }

    fn trigger_redundant_render(&mut self)
        ensures
            *final(self) == (LedController { force_render: true, render_decay_counter: REDRAW_FRAMES, ..*old(self) }),
    {
        self.force_render = true;
        self.render_decay_counter = REDRAW_FRAMES;
    }

    /// Sets the global brightness (0 off, 255 full); a change forces a few redraws.
    pub fn set_brightness(&mut self, level: u8)
        requires
            old(self).wf(),
        ensures
            final(self).wf(),
            final(self).brightness_spec() == level,
            final(self).effect_spec() == old(self).effect_spec(),
            final(self).color_spec() == old(self).color_spec(),
            final(self).speed_spec() == old(self).speed_spec(),
            level != old(self).brightness_spec() ==> final(self).force_spec() && final(self).decay_spec() == REDRAW_FRAMES,
            level == old(self).brightness_spec() ==> final(self).force_spec() == old(self).force_spec()
                && final(self).decay_spec() == old(self).decay_spec(),
    {
        if self.brightness != level {
            self.brightness = level;
            self.trigger_redundant_render();
        }
    }

    /// Sets the color of the active effect and remembers it for the next effect.
    pub fn set_color(&mut self, color: Rgb)
        requires
            old(self).wf(),
        ensures
            final(self).wf(),
            final(self).color_spec() == color,
            final(self).speed_spec() == old(self).speed_spec(),
            final(self).brightness_spec() == old(self).brightness_spec(),
            final(self).effect_spec().kind_spec() == old(self).effect_spec().kind_spec(),
            final(self).effect_spec().color_spec() == if keeps_color(old(self).effect_spec().kind_spec()) { Some(color) } else { None },
            final(self).effect_spec().speed_spec() == old(self).effect_spec().speed_spec(),
            final(self).force_spec(),
            final(self).decay_spec() == REDRAW_FRAMES,
    {
        self.effect.set_color(color);
        self.color = color;
        self.trigger_redundant_render();
    }

    /// Sets the speed of the active effect (0 counts as 1) and remembers it for the next effect.
    pub fn set_speed(&mut self, speed: u8, now_us: u64)
        requires
            old(self).wf(),
        ensures
            final(self).wf(),
            final(self).speed_spec() == clamp_speed(speed),
            final(self).color_spec() == old(self).color_spec(),
            final(self).brightness_spec() == old(self).brightness_spec(),
            final(self).effect_spec().kind_spec() == old(self).effect_spec().kind_spec(),
            final(self).effect_spec().speed_spec() == if keeps_speed(old(self).effect_spec().kind_spec()) { Some(clamp_speed(speed)) } else { None },
            final(self).effect_spec().color_spec() == old(self).effect_spec().color_spec(),
            final(self).force_spec(),
            final(self).decay_spec() == REDRAW_FRAMES,
    {
        self.effect.set_speed(speed, now_us);
        self.speed = if speed < 1 { 1 } else { speed };
        self.trigger_redundant_render();
    }

    /// Sets the target frame rate, kept within 1..=120 frames per second.
    pub fn set_fps(&mut self, fps: u32)
        requires
            old(self).wf(),
        ensures
            final(self).wf(),
            final(self).fps_spec() == clamp_fps(fps),
            final(self).frame_time_spec() as int == 1_000_000int / (clamp_fps(fps) as int),
            final(self).effect_spec() == old(self).effect_spec(),
            final(self).brightness_spec() == old(self).brightness_spec(),
    {
        self.target_fps = if fps < 1 { 1 } else if fps > 120 { 120 } else { fps };
        self.frame_time_us = 1_000_000 / (self.target_fps as u64);
    }

    /// Replaces the active effect by a new one of kind `kind`, seeded with the
    /// last color and speed that were set.
    pub fn set_effect(&mut self, kind: EffectType)
        requires
            old(self).wf(),
        ensures
            final(self).wf(),
            final(self).effect_spec().kind_spec() == kind,
            final(self).effect_spec().fresh(),
            final(self).color_spec() == old(self).color_spec(),
            final(self).speed_spec() == old(self).speed_spec(),
            final(self).brightness_spec() == old(self).brightness_spec(),
            final(self).effect_spec().color_spec() == if keeps_color(kind) { Some(old(self).color_spec()) } else { None },
            final(self).effect_spec().speed_spec() == if keeps_speed(kind) { Some(clamp_speed(old(self).speed_spec())) } else { None },
            final(self).force_spec(),
            final(self).decay_spec() == REDRAW_FRAMES,
    {
        self.effect = Effect::create(kind, self.color, self.speed, self.num_leds);
        self.trigger_redundant_render();
    }

    /// Applies one command at time `now_us`. Power off is brightness 0, power on full brightness.
    pub fn apply(&mut self, cmd: Command, now_us: u64)
        requires
            old(self).wf(),
        ensures
            final(self).wf(),
            final(self).settings() == after_command(old(self).settings(), cmd),
            cmd is SetEffect ==> final(self).effect_spec().kind_spec() == cmd->SetEffect_0,
            cmd is SetBrightness ==> final(self).brightness_spec() == cmd->SetBrightness_0,
            cmd is SetColor ==> final(self).color_spec() == (Rgb { r: cmd->SetColor_0, g: cmd->SetColor_1, b: cmd->SetColor_2 }),
            cmd is SetSpeed ==> final(self).speed_spec() == clamp_speed(cmd->SetSpeed_0),
            cmd is SetPower ==> final(self).brightness_spec() == if cmd->SetPower_0 { 255u8 } else { 0u8 },
            !(cmd is SetColor) ==> final(self).color_spec() == old(self).color_spec(),
            !(cmd is SetSpeed) ==> final(self).speed_spec() == old(self).speed_spec(),
    {
        match cmd {
            Command::SetEffect(kind) => self.set_effect(kind),
            Command::SetBrightness(level) => self.set_brightness(level),
            Command::SetColor(r, g, b) => self.set_color(Rgb { r, g, b }),
            Command::SetSpeed(s) => self.set_speed(s, now_us),
            Command::SetPower(on) => self.set_brightness(if on { 255 } else { 0 }),
        }
    }

    /// Applies a scheduled preset: switches to its effect, then sets whichever
    /// of color, brightness and speed it carries.
    pub fn apply_preset(&mut self, p: SchedulePreset, now_us: u64)
        requires
            old(self).wf(),
        ensures
            final(self).wf(),
            final(self).effect_spec().kind_spec() == p.effect,
            final(self).color_spec() == match p.color {
                Some(c) => c,
                None => old(self).color_spec(),
            },
            final(self).speed_spec() == match p.speed {
                Some(v) => clamp_speed(v),
                None => old(self).speed_spec(),
            },
            final(self).brightness_spec() == match p.brightness {
                Some(b) => b,
                None => old(self).brightness_spec(),
            },
            keeps_color(p.effect) ==> final(self).effect_spec().color_spec() == Some(final(self).color_spec()),
            keeps_speed(p.effect) ==> final(self).effect_spec().speed_spec() == Some(final(self).speed_spec()),
    {
        self.set_effect(p.effect);
        if let Some(c) = p.color {
            self.set_color(c);
        }
        if let Some(b) = p.brightness {
            self.set_brightness(b);
        }
        if let Some(v) = p.speed {
            self.set_speed(v, now_us);
        }
    }

    /// Takes at most `max` commands from the inbox, oldest first, and applies
    /// them; returns how many were applied.
    pub fn process_commands(&mut self, inbox: &mut CommandInbox, now_us: u64, max: usize) -> (n: usize)
        requires
            old(self).wf(),
            old(inbox).wf(),
        ensures
            final(self).wf(),
            final(inbox).wf(),
            n as int == if old(inbox).pending().len() < max { old(inbox).pending().len() as int } else { max as int },
            final(inbox).pending() == old(inbox).pending().subrange(n as int, old(inbox).pending().len() as int),
            final(self).settings() == after_commands(old(self).settings(), old(inbox).pending().subrange(0, n as int)),
    {
        let mut n: usize = 0;
        while n < max
            invariant
                self.wf(),
                inbox.wf(),
                n <= max,
                n <= old(inbox).pending().len(),
                inbox.pending() == old(inbox).pending().subrange(n as int, old(inbox).pending().len() as int),
                self.settings() == after_commands(old(self).settings(), old(inbox).pending().subrange(0, n as int)),
            decreases max - n,
        {
            match inbox.dequeue() {
                Some(cmd) => {
                    self.apply(cmd, now_us);
                    proof {
                        let done = old(inbox).pending().subrange(0, n + 1 as int);
                        assert(done.drop_last() =~= old(inbox).pending().subrange(0, n as int));
                        assert(done.last() == cmd);
                    }
                    n += 1;
                    assert(inbox.pending() =~= old(inbox).pending().subrange(n as int, old(inbox).pending().len() as int));
                },
                None => {
                    return n;
                },
            }
        }
        n
    }

    /// Whether the next frame is due at `now_us`.
    pub fn needs_update(&self, now_us: u64) -> (r: bool)
        ensures
            r == (now_us as int >= self.last_show_spec() as int + self.frame_time_spec() as int),
    {
        (now_us as u128) >= (self.last_show_us as u128) + (self.frame_time_us as u128)
    }

    /// Milliseconds to wait until the next frame is due (0 when it is due).
    pub fn get_delay_ms(&self, now_us: u64) -> (ms: u32)
        requires
            self.wf(),
        ensures
            (now_us as int) >= self.last_show_spec() as int + self.frame_time_spec() as int ==> ms == 0,
            (now_us as int) < self.last_show_spec() as int + self.frame_time_spec() as int ==> (ms as int) == crate::signal::min_int(
                (self.last_show_spec() as int + self.frame_time_spec() as int - now_us as int) / 1000,
                u32::MAX as int,
            ),
    {
        let due: u128 = (self.last_show_us as u128) + (self.frame_time_us as u128);
        if (now_us as u128) >= due {
            return 0;
        }
        let ms: u128 = (due - now_us as u128) / 1000;
        if ms > u32::MAX as u128 { u32::MAX } else { ms as u32 }
    }

    /// The render decision of one frame (see `render_decision`): updates the
    /// force flag, the redraw counter and the keep-alive time.
    pub fn decide_render(&mut self, effect_changed: bool, reactive: bool, now_us: u64) -> (r: bool)
        requires
            old(self).wf(),
        ensures
            final(self).wf(),
            (r, final(self).force_spec(), final(self).decay_spec(), final(self).keep_alive_spec()) == render_decision(
                effect_changed,
                reactive,
                old(self).force_spec(),
                old(self).decay_spec(),
                now_us,
                old(self).keep_alive_spec(),
            ),
            final(self).effect_spec() == old(self).effect_spec(),
            final(self).buffer_spec() == old(self).buffer_spec(),
            final(self).brightness_spec() == old(self).brightness_spec(),
            final(self).last_show_spec() == old(self).last_show_spec(),
            final(self).frame_time_spec() == old(self).frame_time_spec(),
            final(self).color_spec() == old(self).color_spec(),
            final(self).speed_spec() == old(self).speed_spec(),
    {
        let mut should_render = false;
        if effect_changed || reactive {
            should_render = true;
            self.render_decay_counter = 0;
        } else if self.force_render {
            should_render = true;
            self.force_render = false;
        }
        if self.render_decay_counter > 0 {
            should_render = true;
            self.render_decay_counter = self.render_decay_counter - 1;
        }
        if (now_us as u128) > (self.last_keep_alive_us as u128) + (KEEP_ALIVE_US as u128) {
            should_render = true;
            self.last_keep_alive_us = now_us;
        }
        should_render
    }

    /// The effect's part of a scheduler step: an audio-reactive effect is
    /// advanced only when a snapshot is given; any other effect draws as usual.
    pub open spec fn effect_step(
        a: Effect,
        now: u64,
        audio: Option<&AudioData>,
        ob: Seq<Rgb>,
        b: Effect,
        nb: Seq<Rgb>,
        r: Option<u64>,
    ) -> bool {
        if audio_reactive(a.kind_spec()) {
            match audio {
                Some(snapshot) => Effect::stepped_audio(a, now, *snapshot, ob, b, nb, r),
                None => r is None && b == a && nb == ob,
            }
        } else {
            Effect::stepped(a, now, ob, b, nb, r)
        }
    }

    /// One scheduler step at `now_us`. Does nothing before the next frame is due.
    /// Otherwise advances the active effect (an audio-reactive one only when a
    /// snapshot is given) and returns the bytes to transfer when a frame is to
    /// be sent: when the effect drew, when the effect reacts to audio, when a
    /// change forced it, while redraws after a change remain, or when no frame
    /// was sent for `KEEP_ALIVE_US`.
    pub fn update(&mut self, now_us: u64, audio: Option<&AudioData>) -> (frame: Option<Vec<u8>>)
        requires
            old(self).wf(),
        ensures
            final(self).wf(),
            (now_us as int) < old(self).last_show_spec() as int + old(self).frame_time_spec() as int ==> frame is None
                && *final(self) == *old(self),
            (now_us as int) >= old(self).last_show_spec() as int + old(self).frame_time_spec() as int ==> {
                &&& final(self).last_show_spec() == now_us
                &&& final(self).brightness_spec() == old(self).brightness_spec()
                &&& final(self).color_spec() == old(self).color_spec()
                &&& final(self).speed_spec() == old(self).speed_spec()
                &&& frame is Some ==> frame->Some_0@ == wire_frame(final(self).buffer_spec(), final(self).brightness_spec())
                &&& exists|r: Option<u64>|
                    {
                        &&& #[trigger] Self::effect_step(
                            old(self).effect_spec(),
                            now_us,
                            audio,
                            old(self).buffer_spec(),
                            final(self).effect_spec(),
                            final(self).buffer_spec(),
                            r,
                        )
                        &&& (frame is Some, final(self).force_spec(), final(self).decay_spec(), final(self).keep_alive_spec())
                            == render_decision(
                            r is Some,
                            audio_reactive(old(self).effect_spec().kind_spec()),
                            old(self).force_spec(),
                            old(self).decay_spec(),
                            now_us,
                            old(self).keep_alive_spec(),
                        )
                    }
            },
    {
        if (now_us as u128) < (self.last_show_us as u128) + (self.frame_time_us as u128) {
            return None;
        }
        let reactive = self.effect.is_audio_reactive();
        let result = if reactive {
            match audio {
                Some(a) => self.effect.update_audio(now_us, a, &mut self.buffer),
                None => None,
            }
        } else {
            self.effect.update(now_us, &mut self.buffer)
        };
        assert(Self::effect_step(
            old(self).effect,
            now_us,
            audio,
            old(self).buffer@,
            self.effect,
            self.buffer@,
            result,
        ));
        let should_render = self.decide_render(result.is_some(), reactive, now_us);
        self.last_show_us = now_us;
        let frame = if should_render {
            Some(wire_bytes(&self.buffer, self.brightness))
        } else {
            None
        };
        proof {
            assert(Self::effect_step(
                old(self).effect_spec(),
                now_us,
                audio,
                old(self).buffer_spec(),
                self.effect_spec(),
                self.buffer_spec(),
                result,
            ));
            assert((frame is Some, self.force_spec(), self.decay_spec(), self.keep_alive_spec()) == render_decision(
                result is Some,
                audio_reactive(old(self).effect_spec().kind_spec()),
                old(self).force_spec(),
                old(self).decay_spec(),
                now_us,
                old(self).keep_alive_spec(),
            ));
        }
        frame
    }
}

/// The strip's bytes for `buf` at `brightness`: G, R, B per pixel, scaled.
pub fn wire_bytes(buf: &Vec<Rgb>, brightness: u8) -> (out: Vec<u8>)
    requires
        buf@.len() <= MAX_PIXELS,
    ensures
        out@ == wire_frame(buf@, brightness),
{
    let n = buf.len();
    let mut out: Vec<u8> = Vec::new();
    let mut i: usize = 0;
    while i < n
        invariant
            n == buf@.len(),
            n <= MAX_PIXELS,
            i <= n,
            out@.len() == 3 * i,
            forall|k: int| 0 <= k < 3 * i ==> out@[k] == wire_frame(buf@, brightness)[k],
        decreases n - i,
    {
        let p = buf[i];
        out.push(crate::color::scale_channel(p.g, brightness as u32, 255));
        out.push(crate::color::scale_channel(p.r, brightness as u32, 255));
        out.push(crate::color::scale_channel(p.b, brightness as u32, 255));
        proof {
            assert forall|k: int| 3 * i <= k < 3 * i + 3 implies out@[k] == wire_frame(buf@, brightness)[k] by {
                assert(k / 3 == i as int);
            }
        }
        i += 1;
    }
    assert(out@ =~= wire_frame(buf@, brightness));
    out
}

} // verus!
