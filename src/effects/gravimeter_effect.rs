//! Audio peaks launch particles from the start of the strip; they fly under a
//! gravity-like acceleration, fade, and leave trails.
use vstd::prelude::*;
use crate::audio::{AudioData, smooth_spec, smooth, peak_spec, is_peak};
use crate::color::{Rgb, hsv_spec, hsv_to_rgb, scaled_color, scale_color, sat_add_color, add_color, rgb};
use crate::effects::{clamp_speed, speed_clamped, fade_buffer, MAX_PIXELS, Band};
use crate::signal::{LEVEL_ONE, root_of, isqrt, min_int};

verus! {

/// A particle: position and velocity in thousandths of a pixel (per frame),
/// brightness as a level, and its color.
pub type Particle = (u64, u64, u32, u8, u8, u8);

/// Particles the effect holds at most.
pub const MAX_PARTICLES: usize = 16;

pub type ParticleVec = heapless::Vec<Particle, MAX_PARTICLES>;

/// What the particle collection holds, in order.
pub uninterp spec fn particles_of(v: heapless::Vec<(u64, u64, u32, u8, u8, u8), 16>) -> Seq<(u64, u64, u32, u8, u8, u8)>;

/// Relies on heapless::Vec::new: a new vector is empty.
#[verifier::external_body]
fn particles_new() -> (v: ParticleVec)
    ensures
        particles_of(v).len() == 0,
{
    heapless::Vec::new()
}

/// Relies on heapless::Vec's `Deref` to a slice of its items: the length.
#[verifier::external_body]
fn particles_len(v: &ParticleVec) -> (n: usize)
    ensures
        n == particles_of(*v).len(),
{
    v.len()
}

/// Relies on heapless::Vec's `Deref` to a slice of its items: item `i`.
#[verifier::external_body]
fn particles_get(v: &ParticleVec, i: usize) -> (p: Particle)
    requires
        i < particles_of(*v).len(),
    ensures
        p == particles_of(*v)[i as int],
{
    v[i]
}

/// Relies on heapless::Vec::push: appends while fewer than `N` items are held,
/// otherwise hands the item back and changes nothing.
#[verifier::external_body]
fn particles_push(v: &mut ParticleVec, p: Particle) -> (r: Result<(), Particle>)
    ensures
        r is Ok <==> particles_of(*old(v)).len() < MAX_PARTICLES,
        r is Ok ==> particles_of(*final(v)) == particles_of(*old(v)).push(p),
        r is Err ==> particles_of(*final(v)) == particles_of(*old(v)),
{
    v.push(p)
}

/// Largest particle velocity, in thousandths of a pixel per frame.
pub const MAX_VELOCITY: u64 = 1_000_000;

/// Acceleration per frame, in thousandths of a pixel: 0.08 at speed 0 up to 0.43 at 255.
pub open spec fn gravity(speed: u8) -> int {
    80 + (speed as int) * 350 / 255
}

/// `intensity^(3/4)` as a level, through two integer square roots.
pub open spec fn lift(i: int) -> int {
    root_of(i * root_of(i * (LEVEL_ONE as int)))
}

/// A particle launched at the first pixel by a band of strength `intensity`:
/// its hue runs from red (weak) to violet (strong), its speed grows with the
/// strength from the band's base speed `base`.
pub open spec fn new_particle(intensity: int, base: int) -> Particle {
    let i = min_int(intensity, LEVEL_ONE as int);
    let c = hsv_spec(i * 30600 / (LEVEL_ONE as int), 242, 255);
    (0u64, (base + lift(i) * 2800 / (LEVEL_ONE as int)) as u64, (550_000 + i * 45 / 100) as u32, c.r, c.g, c.b)
}

/// Base launch speed of a band, in thousandths of a pixel per frame.
pub open spec fn base_velocity(band: Band) -> int {
    match band {
        Band::Bass => 250,
        Band::Mid => 550,
        Band::Treble => 1000,
    }
}

/// The collection after a launch request: dropped when the collection is full.
pub open spec fn spawned(s: Seq<Particle>, intensity: int, base: int) -> Seq<Particle> {
    if s.len() >= MAX_PARTICLES { s } else { s.push(new_particle(intensity, base)) }
}

/// One frame of motion, `ds` frames long (in thousandths), and of fading.
pub open spec fn moved(p: Particle, ds: int, g: int) -> Particle {
    let v = min_int(p.1 + g * ds / 1000, MAX_VELOCITY as int);
    ((p.0 + v * ds / 1000) as u64, v as u64, (p.2 * 988 / 1000) as u32, p.3, p.4, p.5)
}

/// Whether a particle is still on the strip (with two pixels of margin) and visible.
pub open spec fn alive(p: Particle, len: int) -> bool {
    p.0 < (len + 2) * 1000 && p.2 > 8000
}

/// The particles after a frame: each moved, the dead ones removed, order kept.
pub open spec fn survivors(s: Seq<Particle>, ds: int, g: int, len: int) -> Seq<Particle>
    decreases s.len(),
{
    if s.len() == 0 {
        s
    } else {
        let rest = survivors(s.drop_last(), ds, g, len);
        let q = moved(s.last(), ds, g);
        if alive(q, len) { rest.push(q) } else { rest }
    }
}

/// Adds one particle onto the strip: its pixel gets up to its full brightness,
/// the next pixel a share when the particle is more than 0.3 pixels past.
pub open spec fn add_particle(b: Seq<Rgb>, p: Particle) -> Seq<Rgb> {
    let k = (p.0 / 1000) as int;
    let frac = (p.0 % 1000) as int;
    let br = min_int(p.2 as int, LEVEL_ONE as int);
    let color = rgb(p.3 as int, p.4 as int, p.5 as int);
    let main = br * (2000 - frac) / 2000;
    let sub = br * frac * 6 / 10000;
    let b1 = if k < b.len() { b.update(k, sat_add_color(b[k], scaled_color(color, main, LEVEL_ONE as int))) } else { b };
    if k + 1 < b1.len() && frac > 300 {
        b1.update(k + 1, sat_add_color(b1[k + 1], scaled_color(color, sub, LEVEL_ONE as int)))
    } else {
        b1
    }
}

pub open spec fn composite(b: Seq<Rgb>, s: Seq<Particle>) -> Seq<Rgb>
    decreases s.len(),
{
    if s.len() == 0 { b } else { add_particle(composite(b, s.drop_last()), s.last()) }
}

pub open spec fn faded_all(b: Seq<Rgb>, num: int) -> Seq<Rgb> {
    Seq::new(b.len(), |i: int| scaled_color(b[i], num, 100))
}

proof fn lemma_composite_len(b: Seq<Rgb>, s: Seq<Particle>)
    ensures
        composite(b, s).len() == b.len(),
    decreases s.len(),
{
    if s.len() > 0 {
        lemma_composite_len(b, s.drop_last());
    }
}

/// A launch into a full collection changes nothing, and no launch takes the
/// collection beyond its capacity.
pub proof fn spawn_respects_capacity(s: Seq<Particle>, intensity: int, base: int)
    requires
        s.len() <= MAX_PARTICLES,
    ensures
        spawned(s, intensity, base).len() <= MAX_PARTICLES,
        s.len() == MAX_PARTICLES ==> spawned(s, intensity, base) == s,
        s.len() < MAX_PARTICLES ==> spawned(s, intensity, base).len() == s.len() + 1,
{
}

/// Launch strength thresholds of the bass peak detector.
pub const PEAK_FLOOR: u32 = 120_000;
pub const PEAK_LOUD_FLOOR: u32 = 200_000;

/// Shortest time between two mid-band launches.
pub const SPAWN_INTERVAL_US: u64 = 60_000;

/// Frame period of the effect (60 frames per second).
pub const GRAVIMETER_FRAME_US: u64 = 16_666;

/// Length of the band histories the peak detector looks at.
pub const BAND_HISTORY: usize = 6;

pub struct GravimeterEffect {
    num_leds: usize,
    speed: u8,
    stored_color: Rgb,
    particles: ParticleVec,
    last_spawn_time: u64,
    last_update: u64,
    started: bool,
    bass_history: [u32; BAND_HISTORY],
    treble_history: [u32; BAND_HISTORY],
    history_idx: usize,
    smoothed_bass: u32,
    smoothed_mid: u32,
    smoothed_treble: u32,
}

impl GravimeterEffect {
    pub closed spec fn wf(&self) -> bool {
        &&& self.num_leds <= MAX_PIXELS
        &&& self.history_idx < BAND_HISTORY
        &&& particles_of(self.particles).len() <= MAX_PARTICLES
        &&& forall|i: int| 0 <= i < particles_of(self.particles).len() ==> particles_of(self.particles)[i].1 <= MAX_VELOCITY
        &&& forall|i: int| 0 <= i < particles_of(self.particles).len() ==> particles_of(self.particles)[i].0 < (self.num_leds + 2) * 1000 + 2 * MAX_VELOCITY
        &&& self.smoothed_bass <= LEVEL_ONE
        &&& self.smoothed_mid <= LEVEL_ONE
        &&& self.smoothed_treble <= LEVEL_ONE
    }

    pub closed spec fn particles_spec(&self) -> Seq<Particle> {
        particles_of(self.particles)
    }

    pub closed spec fn color_spec(&self) -> Rgb {
        self.stored_color
    }

    pub closed spec fn speed_spec(&self) -> u8 {
        self.speed
    }

    pub closed spec fn num_leds_spec(&self) -> int {
        self.num_leds as int
    }

    pub closed spec fn started_spec(&self) -> bool {
        self.started
    }

    /// Smoothed bass, mid and treble levels.
    pub closed spec fn bands_spec(&self) -> (int, int, int) {
        (self.smoothed_bass as int, self.smoothed_mid as int, self.smoothed_treble as int)
    }

    pub closed spec fn bass_history_spec(&self) -> Seq<u32> {
        self.bass_history@
    }

    pub closed spec fn treble_history_spec(&self) -> Seq<u32> {
        self.treble_history@
    }

    pub closed spec fn history_idx_spec(&self) -> int {
        self.history_idx as int
    }

    pub closed spec fn last_spawn_spec(&self) -> u64 {
        self.last_spawn_time
    }

    pub closed spec fn last_update_spec(&self) -> u64 {
        self.last_update
    }

    /// An effect with no particles; `color` is kept for when the effect is switched away.
    pub fn new(num_leds: usize, color: Rgb, speed: u8) -> (e: GravimeterEffect)
        requires
            num_leds <= MAX_PIXELS,
        ensures
            e.wf(),
            e.particles_spec().len() == 0,
            e.color_spec() == color,
            e.speed_spec() == clamp_speed(speed),
            e.num_leds_spec() == num_leds,
            !e.started_spec(),
    {
        GravimeterEffect {
            num_leds,
            speed: speed_clamped(speed),
            stored_color: color,
            particles: particles_new(),
            last_spawn_time: 0,
            last_update: 0,
            started: false,
            bass_history: [0; BAND_HISTORY],
            treble_history: [0; BAND_HISTORY],
            history_idx: 0,
            smoothed_bass: 0,
            smoothed_mid: 0,
            smoothed_treble: 0,
        }
    }

    /// Requests a particle of strength `intensity` from a band with base speed
    /// `base`; a full collection drops the request.
    fn spawn_raw(&mut self, intensity: u32, base: u64)
        requires
            old(self).wf(),
            base <= 1000,
        ensures
            final(self).wf(),
            final(self).particles_spec() == spawned(old(self).particles_spec(), intensity as int, base as int),
            final(self).particles_spec().len() <= MAX_PARTICLES,
            *final(self) == (GravimeterEffect { particles: final(self).particles, ..*old(self) }),
    {
        if particles_len(&self.particles) >= MAX_PARTICLES {
            return;
        }
        let i: u32 = if intensity > LEVEL_ONE { LEVEL_ONE } else { intensity };
        let c = hsv_to_rgb(((i as u64) * 30600 / (LEVEL_ONE as u64)) as u32, 242, 255);
        let s1 = isqrt((i as u64) * (LEVEL_ONE as u64));
        proof {
            assert(s1 <= 1_000_000) by (nonlinear_arith)
                requires
                    s1 * s1 <= (i as int) * 1_000_000,
                    i <= 1_000_000,
            ;
            assert((i as int) * (s1 as int) <= 1_000_000 * 1_000_000) by (nonlinear_arith)
                requires
                    s1 <= 1_000_000,
                    i <= 1_000_000,
            ;
        }
        let s2 = isqrt((i as u64) * s1);
        proof {
            assert(s2 <= 1_000_000) by (nonlinear_arith)
                requires
                    s2 * s2 <= (i as int) * (s1 as int),
                    (i as int) * (s1 as int) <= 1_000_000 * 1_000_000,
            ;
        }
        let p: Particle = (
            0,
            base + s2 * 2800 / (LEVEL_ONE as u64),
            550_000 + i * 45 / 100,
            c.r,
            c.g,
            c.b,
        );
        assert(p == new_particle(intensity as int, base as int));
        let _ = particles_push(&mut self.particles, p);
    }

    /// Moves every particle by one frame and keeps the ones still alive, in order.
    fn update_physics(&mut self, ds: u64)
        requires
            old(self).wf(),
            ds <= 2000,
        ensures
            final(self).wf(),
            final(self).particles_spec() == survivors(
                old(self).particles_spec(),
                ds as int,
                gravity(old(self).speed),
                old(self).num_leds as int,
            ),
            *final(self) == (GravimeterEffect { particles: final(self).particles, ..*old(self) }),
    {
        let g: u64 = 80 + (self.speed as u64) * 350 / 255;
        let n = particles_len(&self.particles);
        let mut kept = particles_new();
        let ghost src = particles_of(self.particles);
        let limit: u64 = ((self.num_leds as u64) + 2) * 1000;
        let mut i: usize = 0;
        while i < n
            invariant
                n == src.len(),
                src == particles_of(self.particles),
                n <= MAX_PARTICLES,
                i <= n,
                g == gravity(self.speed),
                g <= 430,
                ds <= 2000,
                limit == (self.num_leds + 2) * 1000,
                self.num_leds <= MAX_PIXELS,
                forall|k: int| 0 <= k < n ==> src[k].1 <= MAX_VELOCITY,
                forall|k: int| 0 <= k < n ==> src[k].0 < (self.num_leds + 2) * 1000 + 2 * MAX_VELOCITY,
                particles_of(kept) == survivors(src.subrange(0, i as int), ds as int, g as int, self.num_leds as int),
                particles_of(kept).len() <= i,
                forall|k: int| 0 <= k < particles_of(kept).len() ==> particles_of(kept)[k].1 <= MAX_VELOCITY,
                forall|k: int| 0 <= k < particles_of(kept).len() ==> particles_of(kept)[k].0 < (self.num_leds + 2) * 1000,
            decreases n - i,
        {
            let p = particles_get(&self.particles, i);
            proof {
                assert(g * ds <= 430 * 2000) by (nonlinear_arith)
                    requires
                        g <= 430,
                        ds <= 2000,
                ;
            }
            let dv: u64 = g * ds / 1000;
            let v: u64 = if p.1 + dv > MAX_VELOCITY { MAX_VELOCITY } else { p.1 + dv };
            proof {
                assert((v as int) * (ds as int) <= 1_000_000 * 2000) by (nonlinear_arith)
                    requires
                        v <= 1_000_000,
                        ds <= 2000,
                ;
            }
            let q: Particle = (p.0 + v * ds / 1000, v, ((p.2 as u64) * 988 / 1000) as u32, p.3, p.4, p.5);
            proof {
                assert(src.subrange(0, i as int + 1).drop_last() =~= src.subrange(0, i as int));
                assert(q == moved(src[i as int], ds as int, g as int));
            }
            if q.0 < limit && q.2 > 8000 {
                let _ = particles_push(&mut kept, q);
            }
            i += 1;
        }
        proof {
            assert(src.subrange(0, n as int) =~= src);
        }
        self.particles = kept;
    }

    /// How `update_audio` relates the effect and the buffer before (`a`, `ob`)
    /// and after (`b`, `nb`) a frame at `now` on `audio` that returned `r`.
    pub open spec fn stepped_audio(a: Self, now: u64, audio: AudioData, ob: Seq<Rgb>, b: Self, nb: Seq<Rgb>, r: Option<u64>) -> bool {
        &&& b.wf()
        &&& b.particles_spec().len() <= MAX_PARTICLES
        &&& b.started_spec()
        &&& b.color_spec() == a.color_spec()
        &&& b.speed_spec() == a.speed_spec()
        &&& b.num_leds_spec() == a.num_leds_spec()
        &&& b.last_update_spec() == now
        &&& nb.len() == ob.len()
        &&& r == Some(if now as int + GRAVIMETER_FRAME_US <= u64::MAX { (now + GRAVIMETER_FRAME_US) as u64 } else { u64::MAX })
        &&& !a.started_spec() ==> b.particles_spec() == a.particles_spec() && nb
            == ob
        &&& !a.started_spec() ==> b.bands_spec() == a.bands_spec() && b.history_idx_spec() == a.history_idx_spec()
            && b.bass_history_spec() == a.bass_history_spec() && b.treble_history_spec() == a.treble_history_spec()
            && b.last_spawn_spec() == a.last_spawn_spec()
        &&& a.started_spec() ==> b.history_idx_spec() == (a.history_idx_spec() + 1) % (BAND_HISTORY as int)
        &&& a.started_spec() ==> b.last_spawn_spec() == if peak_spec(
            b.bands_spec().0,
            b.bass_history_spec(),
            PEAK_FLOOR as int,
            PEAK_LOUD_FLOOR as int,
        ) && (if now >= a.last_spawn_spec() { now - a.last_spawn_spec() } else { 0 }) > SPAWN_INTERVAL_US {
            now
        } else {
            a.last_spawn_spec()
        }
        &&& a.started_spec() ==> b.bands_spec() == (
            smooth_spec(a.bands_spec().0, min_int(audio.bass as int, LEVEL_ONE as int), 300),
            smooth_spec(a.bands_spec().1, min_int(audio.mid as int, LEVEL_ONE as int), 300),
            smooth_spec(a.bands_spec().2, min_int(audio.treble as int, LEVEL_ONE as int), 300),
        )
        &&& a.started_spec() ==> b.bass_history_spec() == a.bass_history_spec().update(
            a.history_idx_spec(),
            b.bands_spec().0 as u32,
        )
        &&& a.started_spec() ==> b.treble_history_spec() == a.treble_history_spec().update(
            a.history_idx_spec(),
            b.bands_spec().2 as u32,
        )
        &&& a.started_spec() ==> ({
            let (sb, sm, st) = b.bands_spec();
            let check = (if now >= a.last_spawn_spec() { now - a.last_spawn_spec() } else { 0 }) > SPAWN_INTERVAL_US;
            let s1 = if peak_spec(sb, b.bass_history_spec(), PEAK_FLOOR as int, PEAK_LOUD_FLOOR as int) {
                spawned(a.particles_spec(), sb, 250)
            } else {
                a.particles_spec()
            };
            let s2 = if check && sm > 200_000 { spawned(s1, sm, 550) } else { s1 };
            let s3 = if st > 250_000 && (peak_spec(st, b.treble_history_spec(), PEAK_FLOOR as int, PEAK_LOUD_FLOOR as int) || st > 400_000) {
                spawned(s2, st, 1000)
            } else {
                s2
            };
            let dt = if now >= a.last_update_spec() { now - a.last_update_spec() } else { 0 };
            let dtc = if dt < 1000 { 1000 } else if dt > 100_000 { 100_000 } else { dt };
            let ds = min_int(dtc * 60 / 1000, 2000);
            &&& b.particles_spec() == survivors(s3, ds, gravity(a.speed_spec()), a.num_leds_spec())
            &&& nb == composite(
                faded_all(ob, if b.particles_spec().len() > 12 { 88 } else { 92 }),
                b.particles_spec(),
            )
        })
    }

    /// One frame: smooths the bands, launches particles on bass peaks, on loud
    /// mids (at most every `SPAWN_INTERVAL_US`) and on treble peaks, moves the
    /// particles, fades the strip and composites the particles additively.
    /// The first call only starts the clock.
    pub fn update_audio(&mut self, now_us: u64, audio: &AudioData, buffer: &mut Vec<Rgb>) -> (r: Option<u64>)
        requires
            old(self).wf(),
        ensures
            final(self).wf(),
            final(buffer)@.len() == old(buffer)@.len(),
            Self::stepped_audio(*old(self), now_us, *audio, old(buffer)@, *final(self), final(buffer)@, r),
    {
        let next = now_us.saturating_add(GRAVIMETER_FRAME_US);
        if !self.started {
            self.started = true;
            self.last_update = now_us;
            return Some(next);
        }
        let dt: u64 = now_us.saturating_sub(self.last_update);
        self.last_update = now_us;
        let dtc: u64 = if dt < 1000 { 1000 } else if dt > 100_000 { 100_000 } else { dt };
        let scaled: u64 = dtc * 60 / 1000;
        let ds: u64 = if scaled > 2000 { 2000 } else { scaled };

        let b_in = if audio.bass > LEVEL_ONE { LEVEL_ONE } else { audio.bass };
        let m_in = if audio.mid > LEVEL_ONE { LEVEL_ONE } else { audio.mid };
        let t_in = if audio.treble > LEVEL_ONE { LEVEL_ONE } else { audio.treble };
        self.smoothed_bass = smooth(self.smoothed_bass, b_in, 300);
        self.smoothed_mid = smooth(self.smoothed_mid, m_in, 300);
        self.smoothed_treble = smooth(self.smoothed_treble, t_in, 300);
        self.bass_history[self.history_idx] = self.smoothed_bass;
        self.treble_history[self.history_idx] = self.smoothed_treble;
        self.history_idx = (self.history_idx + 1) % BAND_HISTORY;

        let check = now_us.saturating_sub(self.last_spawn_time) > SPAWN_INTERVAL_US;
        if is_peak(self.smoothed_bass, &self.bass_history, PEAK_FLOOR, PEAK_LOUD_FLOOR) {
            self.spawn_raw(self.smoothed_bass, 250);
            if check {
                self.last_spawn_time = now_us;
            }
        }
        if check && self.smoothed_mid > 200_000 {
            self.spawn_raw(self.smoothed_mid, 550);
        }
        if self.smoothed_treble > 250_000 {
            if is_peak(self.smoothed_treble, &self.treble_history, PEAK_FLOOR, PEAK_LOUD_FLOOR)
                || self.smoothed_treble > 400_000 {
                self.spawn_raw(self.smoothed_treble, 1000);
            }
        }
        self.update_physics(ds);

        let count = particles_len(&self.particles);
        let factor: u32 = if count > 12 { 88 } else { 92 };
        fade_buffer(buffer, factor, 100);
        proof {
            assert(buffer@ =~= faded_all(old(buffer)@, factor as int));
        }
        let ghost base = buffer@;
        let mut k: usize = 0;
        while k < count
            invariant
                count == particles_of(self.particles).len(),
                count <= MAX_PARTICLES,
                k <= count,
                buffer@ == composite(base, particles_of(self.particles).subrange(0, k as int)),
                buffer@.len() == base.len(),
            decreases count - k,
        {
            let p = particles_get(&self.particles, k);
            proof {
                assert(particles_of(self.particles).subrange(0, k as int + 1).drop_last()
                    =~= particles_of(self.particles).subrange(0, k as int));
            }
            add_particle_to(buffer, p);
            proof {
                lemma_composite_len(base, particles_of(self.particles).subrange(0, k as int + 1));
            }
            k += 1;
        }
        proof {
            assert(particles_of(self.particles).subrange(0, count as int) =~= particles_of(self.particles));
        }
        Some(next)
    }

    /// Requests a particle of strength `intensity` launched by `band`. A full
    /// collection drops the request; the collection never exceeds `MAX_PARTICLES`.
    pub fn spawn_particle(&mut self, intensity: u32, band: Band)
        requires
            old(self).wf(),
        ensures
            final(self).wf(),
            final(self).particles_spec() == spawned(old(self).particles_spec(), intensity as int, base_velocity(band)),
            final(self).particles_spec().len() <= MAX_PARTICLES,
            old(self).particles_spec().len() == MAX_PARTICLES ==> final(self).particles_spec() == old(self).particles_spec(),
            final(self).color_spec() == old(self).color_spec(),
            final(self).speed_spec() == old(self).speed_spec(),
            final(self).bands_spec() == old(self).bands_spec(),
            final(self).started_spec() == old(self).started_spec(),
            final(self).num_leds_spec() == old(self).num_leds_spec(),
    {
        let base: u64 = match band {
            Band::Bass => 250,
            Band::Mid => 550,
            Band::Treble => 1000,
        };
        self.spawn_raw(intensity, base);
    }

    pub fn particle_count(&self) -> (n: usize)
        ensures
            n == self.particles_spec().len(),
    {
        particles_len(&self.particles)
    }

    pub fn is_audio_reactive(&self) -> bool {
        true
    }

    pub fn set_color(&mut self, color: Rgb)
        ensures
            final(self).particles_spec() == old(self).particles_spec(),
            final(self).bands_spec() == old(self).bands_spec(),
            final(self).started_spec() == old(self).started_spec(),
            final(self).num_leds_spec() == old(self).num_leds_spec(),
            final(self).wf() == old(self).wf(),
            final(self).speed_spec() == old(self).speed_spec(),
            final(self).color_spec() == color,
    {
        self.stored_color = color;
    }

    pub fn set_speed(&mut self, speed: u8)
        ensures
            final(self).particles_spec() == old(self).particles_spec(),
            final(self).bands_spec() == old(self).bands_spec(),
            final(self).started_spec() == old(self).started_spec(),
            final(self).num_leds_spec() == old(self).num_leds_spec(),
            final(self).wf() == old(self).wf(),
            final(self).color_spec() == old(self).color_spec(),
            final(self).speed_spec() == clamp_speed(speed),
    {
        self.speed = speed_clamped(speed);
    }

    pub fn get_color(&self) -> (c: Option<Rgb>)
        ensures
            c == Some(self.color_spec()),
    {
        Some(self.stored_color)
    }

    pub fn get_speed(&self) -> (s: Option<u8>)
        ensures
            s == Some(self.speed_spec()),
    {
        Some(self.speed)
    }

    pub fn name(&self) -> (n: &'static str)
        ensures
            n == "Gravimeter",
    {
        "Gravimeter"
    }
}

fn add_particle_to(buffer: &mut Vec<Rgb>, p: Particle)
    ensures
        final(buffer)@ == add_particle(old(buffer)@, p),
{
    let n = buffer.len();
    let k: u64 = p.0 / 1000;
    let frac: u64 = p.0 % 1000;
    let br: u64 = if p.2 > LEVEL_ONE { LEVEL_ONE as u64 } else { p.2 as u64 };
    let color = Rgb { r: p.3, g: p.4, b: p.5 };
    proof {
        assert(br * (2000 - frac) / 2000 <= br) by (nonlinear_arith)
            requires
                frac < 1000,
        ;
        assert(br * frac * 6 / 10000 <= br) by (nonlinear_arith)
            requires
                frac < 1000,
        ;
        assert(br * (2000 - frac) <= 1_000_000 * 2000) by (nonlinear_arith)
            requires
                br <= 1_000_000,
                frac < 1000,
        ;
        assert(br * frac * 6 <= 1_000_000 * 6000) by (nonlinear_arith)
            requires
                br <= 1_000_000,
                frac < 1000,
        ;
    }
    let main: u32 = (br * (2000 - frac) / 2000) as u32;
    let sub: u32 = (br * frac * 6 / 10000) as u32;
    if (k as u128) < (n as u128) {
        let c = add_color(buffer[k as usize], scale_color(color, main, LEVEL_ONE));
        buffer.set(k as usize, c);
    }
    if (k as u128) + 1 < (n as u128) && frac > 300 {
        let c = add_color(buffer[(k + 1) as usize], scale_color(color, sub, LEVEL_ONE));
        buffer.set((k + 1) as usize, c);
    }
}

} // verus!
