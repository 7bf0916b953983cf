//! Audio peaks send pairs of waves outward from the middle of the strip, over a
//! glow at the centre that follows the bands.
use vstd::prelude::*;
use crate::audio::{AudioData, smooth_spec, smooth, peak_spec, is_peak};
use crate::color::{Rgb, hsv_spec, hsv_to_rgb, scaled_color, scale_color, sat_add_color, add_color, rgb};
use crate::effects::{clamp_speed, speed_clamped, fade_buffer, MAX_PIXELS, Band};
use crate::signal::{LEVEL_ONE, min_int};

verus! {

/// A wave: radius in thousandths of a pixel, brightness as a level, outward
/// speed in thousandths of a pixel per second, width in thousandths of a pixel,
/// and its color.
pub type Pulse = (u64, u32, u64, u64, u8, u8, u8);

/// Waves the effect holds at most.
pub const MAX_PULSES: usize = 20;

pub type PulseVec = heapless::Vec<Pulse, MAX_PULSES>;

/// What the wave collection holds, in order.
pub uninterp spec fn pulses_of(v: heapless::Vec<(u64, u32, u64, u64, u8, u8, u8), 20>) -> Seq<(u64, u32, u64, u64, u8, u8, u8)>;

/// Relies on heapless::Vec::new: a new vector is empty.
#[verifier::external_body]
fn pulses_new() -> (v: PulseVec)
    ensures
        pulses_of(v).len() == 0,
{
    heapless::Vec::new()
}

/// Relies on heapless::Vec's `Deref` to a slice of its items: the length.
#[verifier::external_body]
fn pulses_len(v: &PulseVec) -> (n: usize)
    ensures
        n == pulses_of(*v).len(),
{
    v.len()
}

/// Relies on heapless::Vec's `Deref` to a slice of its items: item `i`.
#[verifier::external_body]
fn pulses_get(v: &PulseVec, i: usize) -> (p: Pulse)
    requires
        i < pulses_of(*v).len(),
    ensures
        p == pulses_of(*v)[i as int],
{
    v[i]
}

/// Relies on heapless::Vec::push: appends while fewer than `N` items are held,
/// otherwise hands the item back and changes nothing.
#[verifier::external_body]
fn pulses_push(v: &mut PulseVec, p: Pulse) -> (r: Result<(), Pulse>)
    ensures
        r is Ok <==> pulses_of(*old(v)).len() < MAX_PULSES,
        r is Ok ==> pulses_of(*final(v)) == pulses_of(*old(v)).push(p),
        r is Err ==> pulses_of(*final(v)) == pulses_of(*old(v)),
{
    v.push(p)
}

/// Color of a wave: bass runs magenta to red, mids orange to yellow-green,
/// treble cyan to blue and paler as it gets stronger.
pub open spec fn pulse_color(band: Band, v: int) -> Rgb {
    match band {
        Band::Bass => hsv_spec(34200 - v * 5400 / (LEVEL_ONE as int), 255, 255),
        Band::Mid => hsv_spec(1800 + v * 9000 / (LEVEL_ONE as int), 255, 255),
        Band::Treble => hsv_spec(18000 + v * 5400 / (LEVEL_ONE as int), 255 - v * 255 / (2 * LEVEL_ONE as int), 255),
    }
}

/// Base speed (thousandths of a pixel per second) and width (thousandths of a pixel) per band.
pub open spec fn pulse_base(band: Band) -> (int, int) {
    match band {
        Band::Bass => (12_000, 6_000),
        Band::Mid => (20_000, 4_000),
        Band::Treble => (35_000, 2_500),
    }
}

pub open spec fn new_pulse(band: Band, intensity: int) -> Pulse {
    let i = min_int(intensity, LEVEL_ONE as int);
    let c = pulse_color(band, i);
    let one = LEVEL_ONE as int;
    (
        0u64,
        (600_000 + i * 4 / 10) as u32,
        (pulse_base(band).0 + i * i / one * 15_000 / one) as u64,
        (pulse_base(band).1 + i * 3000 / one) as u64,
        c.r,
        c.g,
        c.b,
    )
}

pub open spec fn spawned_pulse(s: Seq<Pulse>, band: Band, intensity: int) -> Seq<Pulse> {
    if s.len() >= MAX_PULSES { s } else { s.push(new_pulse(band, intensity)) }
}

/// A wave after `dt` microseconds: it grows at its speed times `speed / 128` and dims by 5%.
pub open spec fn grown(p: Pulse, dt: int, speed: u8) -> Pulse {
    ((p.0 + p.2 * (speed as int) * dt / 128_000_000) as u64, (p.1 * 95 / 100) as u32, p.2, p.3, p.4, p.5, p.6)
}

pub open spec fn pulse_alive(p: Pulse, len: int) -> bool {
    p.1 > 10_000 && p.0 < len * 1500
}

/// A launch into a full wave collection changes nothing, and no launch takes
/// the collection beyond its capacity.
pub proof fn pulse_spawn_respects_capacity(s: Seq<Pulse>, band: Band, intensity: int)
    requires
        s.len() <= MAX_PULSES,
    ensures
        spawned_pulse(s, band, intensity).len() <= MAX_PULSES,
        s.len() == MAX_PULSES ==> spawned_pulse(s, band, intensity) == s,
{
}

pub open spec fn pulse_survivors(s: Seq<Pulse>, dt: int, speed: u8, len: int) -> Seq<Pulse>
    decreases s.len(),
{
    if s.len() == 0 {
        s
    } else {
        let rest = pulse_survivors(s.drop_last(), dt, speed, len);
        let q = grown(s.last(), dt, speed);
        if pulse_alive(q, len) { rest.push(q) } else { rest }
    }
}

/// Brightness (a level) a wave gives pixel `i` of a strip of `len` pixels:
/// it falls off with the square of the distance to the nearer of the two wave fronts.
pub open spec fn pulse_light(p: Pulse, len: int, i: int) -> int {
    let center = len * 500;
    let pos = i * 1000;
    let dl = if pos >= center - p.0 { pos - (center - p.0) } else { (center - p.0) - pos };
    let dr = if pos >= center + p.0 { pos - (center + p.0) } else { (center + p.0) - pos };
    let d = min_int(dl, dr);
    let w = p.3 as int;
    if d < w {
        min_int(LEVEL_ONE as int, (p.1 as int) * ((w - d) * (w - d) * (LEVEL_ONE as int) / (w * w)) / (LEVEL_ONE as int))
    } else {
        0
    }
}

pub open spec fn add_pulse(b: Seq<Rgb>, p: Pulse, len: int) -> Seq<Rgb> {
    Seq::new(
        b.len(),
        |i: int|
            if pulse_light(p, len, i) > 10_000 {
                sat_add_color(b[i], scaled_color(rgb(p.4 as int, p.5 as int, p.6 as int), pulse_light(p, len, i), LEVEL_ONE as int))
            } else {
                b[i]
            },
    )
}

pub open spec fn composite_pulses(b: Seq<Rgb>, s: Seq<Pulse>, len: int) -> Seq<Rgb>
    decreases s.len(),
{
    if s.len() == 0 { b } else { add_pulse(composite_pulses(b, s.drop_last(), len), s.last(), len) }
}

/// The centre glow: the middle pixel gets the band color, its neighbours half of it.
pub open spec fn glow(b: Seq<Rgb>, g: Rgb, len: int) -> Seq<Rgb> {
    let c = len / 2;
    let half = Rgb { r: (g.r / 2) as u8, g: (g.g / 2) as u8, b: (g.b / 2) as u8 };
    let b1 = if c < b.len() { b.update(c, sat_add_color(b[c], g)) } else { b };
    let b2 = if c < b.len() && c >= 1 { b1.update(c - 1, sat_add_color(b1[c - 1], half)) } else { b1 };
    if c < b.len() && c + 1 < len && c + 1 < b.len() { b2.update(c + 1, sat_add_color(b2[c + 1], half)) } else { b2 }
}

pub open spec fn glow_color(sb: int, sm: int, st: int) -> Rgb {
    rgb(sb * 255 / (LEVEL_ONE as int), sm * 200 / (LEVEL_ONE as int), st * 255 / (LEVEL_ONE as int))
}

proof fn lemma_composite_pulses_len(b: Seq<Rgb>, s: Seq<Pulse>, len: int)
    ensures
        composite_pulses(b, s, len).len() == b.len(),
    decreases s.len(),
{
    if s.len() > 0 {
        lemma_composite_pulses_len(b, s.drop_last(), len);
    }
}

/// Frame period of the effect (60 frames per second).
pub const PULSE_FRAME_US: u64 = 16_666;

pub const PULSE_HISTORY: usize = 6;

pub struct RadialPulseEffect {
    num_leds: usize,
    speed: u8,
    stored_color: Rgb,
    pulses: PulseVec,
    last_update: u64,
    started: bool,
    smoothed_bass: u32,
    smoothed_mid: u32,
    smoothed_treble: u32,
    smoothed_intensity: u32,
    bass_history: [u32; PULSE_HISTORY],
    history_idx: usize,
}

pub open spec fn pulse_ok(p: Pulse, len: int) -> bool {
    &&& p.0 <= len * 1500
    &&& p.1 <= LEVEL_ONE
    &&& p.2 <= 50_000
    &&& 2_500 <= p.3 <= 9_000
}

impl RadialPulseEffect {
    pub closed spec fn wf(&self) -> bool {
        &&& self.num_leds <= MAX_PIXELS
        &&& self.history_idx < PULSE_HISTORY
        &&& pulses_of(self.pulses).len() <= MAX_PULSES
        &&& forall|i: int| 0 <= i < pulses_of(self.pulses).len() ==> pulse_ok(pulses_of(self.pulses)[i], self.num_leds as int)
        &&& self.smoothed_bass <= LEVEL_ONE
        &&& self.smoothed_mid <= LEVEL_ONE
        &&& self.smoothed_treble <= LEVEL_ONE
        &&& self.smoothed_intensity <= LEVEL_ONE
    }

    pub closed spec fn pulses_spec(&self) -> Seq<Pulse> {
        pulses_of(self.pulses)
    }

    pub closed spec fn color_spec(&self) -> Rgb {
        self.stored_color
    }

    pub closed spec fn speed_spec(&self) -> u8 {
        self.speed
    }

    pub closed spec fn num_leds_spec(&self) -> int {
        self.num_leds as int
    }

    pub closed spec fn started_spec(&self) -> bool {
        self.started
    }

    /// Smoothed bass, mid, treble and loudness levels.
    pub closed spec fn bands_spec(&self) -> (int, int, int, int) {
        (self.smoothed_bass as int, self.smoothed_mid as int, self.smoothed_treble as int, self.smoothed_intensity as int)
    }

    pub closed spec fn bass_history_spec(&self) -> Seq<u32> {
        self.bass_history@
    }

    pub closed spec fn history_idx_spec(&self) -> int {
        self.history_idx as int
    }

    pub closed spec fn last_update_spec(&self) -> u64 {
        self.last_update
    }

    pub fn new(num_leds: usize, color: Rgb, speed: u8) -> (e: RadialPulseEffect)
        requires
            num_leds <= MAX_PIXELS,
        ensures
            e.wf(),
            e.pulses_spec().len() == 0,
            e.color_spec() == color,
            e.speed_spec() == clamp_speed(speed),
            e.num_leds_spec() == num_leds,
            !e.started_spec(),
    {
        RadialPulseEffect {
            num_leds,
            speed: speed_clamped(speed),
            stored_color: color,
            pulses: pulses_new(),
            last_update: 0,
            started: false,
            smoothed_bass: 0,
            smoothed_mid: 0,
            smoothed_treble: 0,
            smoothed_intensity: 0,
            bass_history: [0; PULSE_HISTORY],
            history_idx: 0,
        }
    }

    /// Requests a wave for `band` at strength `intensity`; a full collection drops it.
    fn spawn_raw(&mut self, band: Band, intensity: u32)
        requires
            old(self).wf(),
        ensures
            final(self).wf(),
            final(self).pulses_spec() == spawned_pulse(old(self).pulses_spec(), band, intensity as int),
            *final(self) == (RadialPulseEffect { pulses: final(self).pulses, ..*old(self) }),
    {
        if pulses_len(&self.pulses) >= MAX_PULSES {
            return;
        }
        let i: u64 = if intensity > LEVEL_ONE { LEVEL_ONE as u64 } else { intensity as u64 };
        let one: u64 = LEVEL_ONE as u64;
        proof {
            assert((i as int) * 255 / 2_000_000 <= 127) by (nonlinear_arith)
                requires
                    i <= 1_000_000,
            ;
        }
        let c = match band {
            Band::Bass => hsv_to_rgb((34200 - i * 5400 / one) as u32, 255, 255),
            Band::Mid => hsv_to_rgb((1800 + i * 9000 / one) as u32, 255, 255),
            Band::Treble => hsv_to_rgb((18000 + i * 5400 / one) as u32, (255 - i * 255 / (2 * one)) as u8, 255),
        };
        let (base_speed, base_width): (u64, u64) = match band {
            Band::Bass => (12_000, 6_000),
            Band::Mid => (20_000, 4_000),
            Band::Treble => (35_000, 2_500),
        };
        proof {
            assert(i * i <= 1_000_000 * 1_000_000) by (nonlinear_arith)
                requires
                    i <= 1_000_000,
            ;
            assert(i * i / 1_000_000 <= 1_000_000) by (nonlinear_arith)
                requires
                    i <= 1_000_000,
            ;
        }
        let p: Pulse = (
            0,
            (600_000 + i * 4 / 10) as u32,
            base_speed + i * i / one * 15_000 / one,
            base_width + i * 3000 / one,
            c.r,
            c.g,
            c.b,
        );
        assert(p == new_pulse(band, intensity as int));
        let _ = pulses_push(&mut self.pulses, p);
    }

    fn grow_pulses(&mut self, dt: u64)
        requires
            old(self).wf(),
            dt <= 100_000,
        ensures
            final(self).wf(),
            final(self).pulses_spec() == pulse_survivors(old(self).pulses_spec(), dt as int, old(self).speed, old(self).num_leds as int),
            *final(self) == (RadialPulseEffect { pulses: final(self).pulses, ..*old(self) }),
    {
        let n = pulses_len(&self.pulses);
        let mut kept = pulses_new();
        let ghost src = pulses_of(self.pulses);
        let limit: u64 = (self.num_leds as u64) * 1500;
        let mut i: usize = 0;
        while i < n
            invariant
                n == src.len(),
                src == pulses_of(self.pulses),
                n <= MAX_PULSES,
                i <= n,
                dt <= 100_000,
                limit == self.num_leds * 1500,
                self.num_leds <= MAX_PIXELS,
                forall|k: int| 0 <= k < n ==> pulse_ok(src[k], self.num_leds as int),
                pulses_of(kept) == pulse_survivors(src.subrange(0, i as int), dt as int, self.speed, self.num_leds as int),
                pulses_of(kept).len() <= i,
                forall|k: int| 0 <= k < pulses_of(kept).len() ==> pulse_ok(pulses_of(kept)[k], self.num_leds as int),
            decreases n - i,
        {
            let p = pulses_get(&self.pulses, i);
            proof {
                assert(src[i as int] == p);
                assert(p.2 * (self.speed as int) * (dt as int) <= 50_000 * 255 * 100_000) by (nonlinear_arith)
                    requires
                        p.2 <= 50_000,
                        self.speed <= 255,
                        dt <= 100_000,
                ;
                assert(p.2 * (self.speed as int) <= 50_000 * 255) by (nonlinear_arith)
                    requires
                        p.2 <= 50_000,
                        self.speed <= 255,
                ;
            }
            let q: Pulse = (
                p.0 + p.2 * (self.speed as u64) * dt / 128_000_000,
                ((p.1 as u64) * 95 / 100) as u32,
                p.2,
                p.3,
                p.4,
                p.5,
                p.6,
            );
            proof {
                assert(src.subrange(0, i as int + 1).drop_last() =~= src.subrange(0, i as int));
                assert(q == grown(src[i as int], dt as int, self.speed));
            }
            if q.1 > 10_000 && q.0 < limit {
                let _ = pulses_push(&mut kept, q);
            }
            i += 1;
        }
        proof {
            assert(src.subrange(0, n as int) =~= src);
        }
        self.pulses = kept;
    }

    /// How `update_audio` relates the effect and the buffer before (`a`, `ob`)
    /// and after (`b`, `nb`) a frame at `now` on `audio` that returned `r`.
    pub open spec fn stepped_audio(a: Self, now: u64, audio: AudioData, ob: Seq<Rgb>, b: Self, nb: Seq<Rgb>, r: Option<u64>) -> bool {
        &&& b.wf()
        &&& b.pulses_spec().len() <= MAX_PULSES
        &&& b.started_spec()
        &&& b.color_spec() == a.color_spec()
        &&& b.speed_spec() == a.speed_spec()
        &&& b.num_leds_spec() == a.num_leds_spec()
        &&& b.last_update_spec() == now
        &&& nb.len() == ob.len()
        &&& r == Some(if now as int + PULSE_FRAME_US <= u64::MAX { (now + PULSE_FRAME_US) as u64 } else { u64::MAX })
        &&& !a.started_spec() ==> b.pulses_spec() == a.pulses_spec() && nb
            == ob
        &&& !a.started_spec() ==> b.bands_spec() == a.bands_spec() && b.history_idx_spec() == a.history_idx_spec()
            && b.bass_history_spec() == a.bass_history_spec()
        &&& a.started_spec() ==> b.history_idx_spec() == (a.history_idx_spec() + 1) % (PULSE_HISTORY as int)
        &&& a.started_spec() ==> b.bands_spec() == (
            smooth_spec(a.bands_spec().0, min_int(audio.bass as int, LEVEL_ONE as int), 200),
            smooth_spec(a.bands_spec().1, min_int(audio.mid as int, LEVEL_ONE as int), 200),
            smooth_spec(a.bands_spec().2, min_int(audio.treble as int, LEVEL_ONE as int), 200),
            smooth_spec(a.bands_spec().3, min_int(audio.volume as int, LEVEL_ONE as int), 100),
        )
        &&& a.started_spec() ==> b.bass_history_spec() == a.bass_history_spec().update(
            a.history_idx_spec(),
            b.bands_spec().0 as u32,
        )
        &&& a.started_spec() ==> ({
            let (sb, sm, st, si) = b.bands_spec();
            let s1 = if peak_spec(sb, b.bass_history_spec(), 150_000, 800_000) {
                spawned_pulse(a.pulses_spec(), Band::Bass, sb)
            } else {
                a.pulses_spec()
            };
            let s2 = if sm > 250_000 && now % 3 == 0 { spawned_pulse(s1, Band::Mid, sm) } else { s1 };
            let s3 = if st > 300_000 { spawned_pulse(s2, Band::Treble, st) } else { s2 };
            let dt = if now >= a.last_update_spec() { now - a.last_update_spec() } else { 0 };
            let dtc = if dt < 1000 { 1000 } else if dt > 100_000 { 100_000 } else { dt };
            &&& b.pulses_spec() == pulse_survivors(s3, dtc, a.speed_spec(), a.num_leds_spec())
            &&& nb == glow(
                composite_pulses(
                    Seq::new(ob.len(), |i: int| scaled_color(ob[i], 85, 100)),
                    b.pulses_spec(),
                    a.num_leds_spec(),
                ),
                glow_color(sb, sm, st),
                a.num_leds_spec(),
            )
        })
    }

    /// One frame: smooths the bands, launches waves on bass peaks, on loud mids
    /// (on frames whose time is a multiple of 3 microseconds) and on loud
    /// treble, grows the waves, fades the strip and draws waves and centre glow.
    /// The first call only starts the clock.
    #[verifier::rlimit(60)]
    pub fn update_audio(&mut self, now_us: u64, audio: &AudioData, buffer: &mut Vec<Rgb>) -> (r: Option<u64>)
        requires
            old(self).wf(),
        ensures
            final(self).wf(),
            final(buffer)@.len() == old(buffer)@.len(),
            Self::stepped_audio(*old(self), now_us, *audio, old(buffer)@, *final(self), final(buffer)@, r),
    {
        let next = now_us.saturating_add(PULSE_FRAME_US);
        if !self.started {
            self.started = true;
            self.last_update = now_us;
            return Some(next);
        }
        let dt: u64 = now_us.saturating_sub(self.last_update);
        self.last_update = now_us;
        let dtc: u64 = if dt < 1000 { 1000 } else if dt > 100_000 { 100_000 } else { dt };

        let b_in = if audio.bass > LEVEL_ONE { LEVEL_ONE } else { audio.bass };
        let m_in = if audio.mid > LEVEL_ONE { LEVEL_ONE } else { audio.mid };
        let t_in = if audio.treble > LEVEL_ONE { LEVEL_ONE } else { audio.treble };
        let v_in = if audio.volume > LEVEL_ONE { LEVEL_ONE } else { audio.volume };
        self.smoothed_bass = smooth(self.smoothed_bass, b_in, 200);
        self.smoothed_mid = smooth(self.smoothed_mid, m_in, 200);
        self.smoothed_treble = smooth(self.smoothed_treble, t_in, 200);
        self.smoothed_intensity = smooth(self.smoothed_intensity, v_in, 100);
        self.bass_history[self.history_idx] = self.smoothed_bass;
        self.history_idx = (self.history_idx + 1) % PULSE_HISTORY;

        if is_peak(self.smoothed_bass, &self.bass_history, 150_000, 800_000) {
            self.spawn_raw(Band::Bass, self.smoothed_bass);
        }
        if self.smoothed_mid > 250_000 && now_us % 3 == 0 {
            self.spawn_raw(Band::Mid, self.smoothed_mid);
        }
        if self.smoothed_treble > 300_000 {
            self.spawn_raw(Band::Treble, self.smoothed_treble);
        }
        self.grow_pulses(dtc);

        fade_buffer(buffer, 85, 100);
        let ghost base = buffer@;
        proof {
            assert(base =~= Seq::new(old(buffer)@.len(), |i: int| scaled_color(old(buffer)@[i], 85, 100)));
        }
        let count = pulses_len(&self.pulses);
        let mut k: usize = 0;
        while k < count
            invariant
                count == pulses_of(self.pulses).len(),
                count <= MAX_PULSES,
                k <= count,
                self.wf(),
                buffer@ == composite_pulses(base, pulses_of(self.pulses).subrange(0, k as int), self.num_leds as int),
                buffer@.len() == base.len(),
            decreases count - k,
        {
            let p = pulses_get(&self.pulses, k);
            proof {
                assert(pulses_of(self.pulses).subrange(0, k as int + 1).drop_last()
                    =~= pulses_of(self.pulses).subrange(0, k as int));
            }
            draw_pulse(buffer, p, self.num_leds);
            proof {
                lemma_composite_pulses_len(base, pulses_of(self.pulses).subrange(0, k as int + 1), self.num_leds as int);
            }
            k += 1;
        }
        proof {
            assert(pulses_of(self.pulses).subrange(0, count as int) =~= pulses_of(self.pulses));
        }
        let g = Rgb {
            r: ((self.smoothed_bass as u64) * 255 / (LEVEL_ONE as u64)) as u8,
            g: ((self.smoothed_mid as u64) * 200 / (LEVEL_ONE as u64)) as u8,
            b: ((self.smoothed_treble as u64) * 255 / (LEVEL_ONE as u64)) as u8,
        };
        add_glow(buffer, g, self.num_leds);
        Some(next)
    }

    /// Requests a wave for `band` at strength `intensity`. A full collection
    /// drops the request; the collection never exceeds `MAX_PULSES`.
    pub fn spawn_pulse(&mut self, band: Band, intensity: u32)
        requires
            old(self).wf(),
        ensures
            final(self).wf(),
            final(self).pulses_spec() == spawned_pulse(old(self).pulses_spec(), band, intensity as int),
            final(self).pulses_spec().len() <= MAX_PULSES,
            old(self).pulses_spec().len() == MAX_PULSES ==> final(self).pulses_spec() == old(self).pulses_spec(),
            final(self).color_spec() == old(self).color_spec(),
            final(self).speed_spec() == old(self).speed_spec(),
            final(self).bands_spec() == old(self).bands_spec(),
            final(self).started_spec() == old(self).started_spec(),
            final(self).num_leds_spec() == old(self).num_leds_spec(),
    {
        self.spawn_raw(band, intensity);
    }

    pub fn pulse_count(&self) -> (n: usize)
        ensures
            n == self.pulses_spec().len(),
    {
        pulses_len(&self.pulses)
    }

    pub fn is_audio_reactive(&self) -> bool {
        true
    }

    pub fn set_color(&mut self, color: Rgb)
        ensures
            final(self).color_spec() == color,
            final(self).speed_spec() == old(self).speed_spec(),
            final(self).pulses_spec() == old(self).pulses_spec(),
            final(self).bands_spec() == old(self).bands_spec(),
            final(self).started_spec() == old(self).started_spec(),
            final(self).num_leds_spec() == old(self).num_leds_spec(),
            final(self).wf() == old(self).wf(),
    {
        self.stored_color = color;
    }

    pub fn set_speed(&mut self, speed: u8)
        ensures
            final(self).speed_spec() == clamp_speed(speed),
            final(self).color_spec() == old(self).color_spec(),
            final(self).pulses_spec() == old(self).pulses_spec(),
            final(self).bands_spec() == old(self).bands_spec(),
            final(self).started_spec() == old(self).started_spec(),
            final(self).num_leds_spec() == old(self).num_leds_spec(),
            final(self).wf() == old(self).wf(),
    {
        self.speed = speed_clamped(speed);
    }

    pub fn get_color(&self) -> (c: Option<Rgb>)
        ensures
            c == Some(self.color_spec()),
    {
        Some(self.stored_color)
    }

    pub fn get_speed(&self) -> (s: Option<u8>)
        ensures
            s == Some(self.speed_spec()),
    {
        Some(self.speed)
    }

    pub fn name(&self) -> (n: &'static str)
        ensures
            n == "Radial Pulse",
    {
        "Radial Pulse"
    }
}

fn light_of(p: Pulse, len: usize, i: usize) -> (l: u64)
    requires
        pulse_ok(p, len as int),
        len <= MAX_PIXELS,
    ensures
        l == pulse_light(p, len as int, i as int),
        l <= LEVEL_ONE,
{
    let center: i128 = (len as i128) * 500;
    let pos: i128 = (i as i128) * 1000;
    let left: i128 = center - p.0 as i128;
    let right: i128 = center + p.0 as i128;
    let dl: i128 = if pos >= left { pos - left } else { left - pos };
    let dr: i128 = if pos >= right { pos - right } else { right - pos };
    let d: i128 = if dl <= dr { dl } else { dr };
    let w: i128 = p.3 as i128;
    if d < w {
        let k: i128 = w - d;
        proof {
            assert(k * k <= w * w) by (nonlinear_arith)
                requires
                    0 < k <= w,
            ;
            assert(w * w > 0) by (nonlinear_arith)
                requires
                    0 < w,
            ;
            assert(w * w <= 9000 * 9000) by (nonlinear_arith)
                requires
                    0 < w <= 9000,
            ;
            assert(k * k * 1_000_000 / (w * w) <= 1_000_000) by (nonlinear_arith)
                requires
                    k * k <= w * w,
                    w * w > 0,
            ;
            assert(0 <= k * k * 1_000_000 / (w * w)) by (nonlinear_arith)
                requires
                    w * w > 0,
            ;
        }
        let shape: i128 = k * k * 1_000_000 / (w * w);
        proof {
            assert((p.1 as int) * (shape as int) <= 1_000_000 * 1_000_000) by (nonlinear_arith)
                requires
                    p.1 <= 1_000_000,
                    0 <= shape <= 1_000_000,
            ;
            assert(0 <= (p.1 as int) * (shape as int)) by (nonlinear_arith)
                requires
                    0 <= p.1,
                    0 <= shape,
            ;
        }
        let b: i128 = (p.1 as i128) * shape / 1_000_000;
        if b > 1_000_000 { 1_000_000 } else { b as u64 }
    } else {
        0
    }
}

fn draw_pulse(buffer: &mut Vec<Rgb>, p: Pulse, len: usize)
    requires
        pulse_ok(p, len as int),
        len <= MAX_PIXELS,
    ensures
        final(buffer)@ == add_pulse(old(buffer)@, p, len as int),
{
    let n = buffer.len();
    let color = Rgb { r: p.4, g: p.5, b: p.6 };
    let mut i: usize = 0;
    while i < n
        invariant
            n == buffer@.len(),
            n == old(buffer)@.len(),
            i <= n,
            pulse_ok(p, len as int),
            len <= MAX_PIXELS,
            color == rgb(p.4 as int, p.5 as int, p.6 as int),
            forall|j: int| 0 <= j < i ==> buffer@[j] == add_pulse(old(buffer)@, p, len as int)[j],
            forall|j: int| i <= j < n ==> buffer@[j] == old(buffer)@[j],
        decreases n - i,
    {
        let l = light_of(p, len, i);
        if l > 10_000 {
            let c = add_color(buffer[i], scale_color(color, l as u32, LEVEL_ONE));
            buffer.set(i, c);
        }
        i += 1;
    }
    assert(buffer@ =~= add_pulse(old(buffer)@, p, len as int));
}

fn add_glow(buffer: &mut Vec<Rgb>, g: Rgb, len: usize)
    ensures
        final(buffer)@ == glow(old(buffer)@, g, len as int),
{
    let n = buffer.len();
    let c = len / 2;
    if c < n {
        let v = add_color(buffer[c], g);
        buffer.set(c, v);
        let half = Rgb { r: g.r / 2, g: g.g / 2, b: g.b / 2 };
        if c >= 1 {
            let v1 = add_color(buffer[c - 1], half);
            buffer.set(c - 1, v1);
        }
        if c + 1 < len && c + 1 < n {
            let v2 = add_color(buffer[c + 1], half);
            buffer.set(c + 1, v2);
        }
    }
}

} // verus!
