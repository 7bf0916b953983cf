//! Audio feature extraction: turns a block of microphone samples into a
//! smoothed snapshot of loudness and band energies.
//!
//! Bands are apportioned with the time-domain heuristic (zero-crossing rate as a
//! pitch proxy, neighbour jumps as a brightness proxy); no frequency transform is
//! used anywhere in this crate.
use vstd::prelude::*;
use crate::agc::{AgcState, GAIN_ONE, GAIN_MAX, next_gain, window_push, sum_levels};
use crate::signal::{
    LEVEL_ONE, MAX_BLOCK, min_int, rms_spec, zcr_spec, brightness_spec, remove_dc_offset, without_dc,
    rms_level, zero_crossing_rate, spectral_brightness,
};

verus! {

/// Samples per block delivered by the microphone.
pub const BUFFER_SIZE: usize = 256;

/// Number of coarse spectrum buckets in a snapshot.
pub const NUM_BINS: usize = 8;

/// Samples per spectrum bucket.
pub const BIN_CHUNK: usize = 32;

/// Any metric below this level reads as silence (0.003).
pub const NOISE_FLOOR: u32 = 3000;

/// Loudness the gain control aims at (0.7).
pub const TARGET_LEVEL: u32 = 700_000;

/// Smoothing weight of a new loudness value, in thousandths.
pub const ALPHA_VOLUME: u32 = 200;

/// Smoothing weight of new band and bucket values, in thousandths.
pub const ALPHA_BANDS: u32 = 150;

/// Number of recent loudness values the beat detector compares against.
pub const BEAT_HISTORY: usize = 8;

/// Latest audio features, every field a level in `0..=LEVEL_ONE`.
#[derive(Clone, Copy, Debug)]
pub struct AudioData {
    pub volume: u32,
    pub bass: u32,
    pub mid: u32,
    pub treble: u32,
    pub bins: [u32; NUM_BINS],
}

/// Loudness and band energies of one block before smoothing.
#[derive(Clone, Copy, Debug, PartialEq, Eq, Structural)]
pub struct Features {
    pub volume: u32,
    pub bass: u32,
    pub mid: u32,
    pub treble: u32,
}

pub open spec fn gate_spec(v: int, floor: int) -> int {
    if v < floor { 0 } else { v }
}

pub open spec fn smooth_spec(current: int, target: int, alpha: int) -> int {
    (current * (1000 - alpha) + target * alpha) / 1000
}

pub open spec fn gained(raw: int, gain: int) -> int {
    min_int(LEVEL_ONE as int, raw * gain / (GAIN_ONE as int))
}

/// Raw bass, mid and treble energies apportioned from loudness, zero-crossing rate and brightness.
pub open spec fn split_bands(rms: int, zcr: int, bright: int) -> (int, int, int) {
    if rms < 2000 {
        (0, 0, 0)
    } else {
        let bass = if zcr < 80_000 { rms * 2 } else { rms / 10 };
        let mid = if 80_000 <= zcr && zcr < 400_000 { rms * 3 / 2 } else { rms * 4 / 10 };
        let treble = if zcr >= 400_000 || bright > 150_000 {
            rms * bright * 3 / (LEVEL_ONE as int)
        } else {
            0
        };
        (bass, mid, treble)
    }
}

/// Shares of the total band energy, as levels; treble takes what rounding leaves.
pub open spec fn fractions_spec(b: int, m: int, t: int) -> (int, int, int) {
    let tot = b + m + t;
    let bf = b * (LEVEL_ONE as int) / tot;
    let mf = m * (LEVEL_ONE as int) / tot;
    (bf, mf, LEVEL_ONE as int - bf - mf)
}

pub open spec fn features_spec(s: Seq<i32>, gain: int) -> Features {
    let raw = rms_spec(s);
    let vol = gate_spec(gained(raw, gain), NOISE_FLOOR as int);
    let bands = split_bands(raw, zcr_spec(s), brightness_spec(s, raw));
    let tot = bands.0 + bands.1 + bands.2;
    if tot == 0 {
        Features { volume: vol as u32, bass: 0, mid: 0, treble: 0 }
    } else {
        let fr = fractions_spec(bands.0, bands.1, bands.2);
        Features {
            volume: vol as u32,
            bass: gate_spec(fr.0 * vol / (LEVEL_ONE as int), NOISE_FLOOR as int) as u32,
            mid: gate_spec(fr.1 * vol / (LEVEL_ONE as int), NOISE_FLOOR as int) as u32,
            treble: gate_spec(fr.2 * vol / (LEVEL_ONE as int), NOISE_FLOOR as int) as u32,
        }
    }
}

/// Beat strength of `cur` against the loudness history `h`: how far `cur`
/// rises above 1.4 times the history mean, relative to that threshold.
pub open spec fn beat_spec(cur: int, h: Seq<u32>) -> int {
    let avg = sum_levels(h) / (h.len() as int);
    let thr = avg * 14 / 10;
    if h.len() > 0 && avg > 10_000 && cur > thr {
        min_int(LEVEL_ONE as int, (cur - thr) * (LEVEL_ONE as int) / thr)
    } else {
        0
    }
}

pub open spec fn boosted(v: int, beat: int) -> int {
    min_int(LEVEL_ONE as int, v * (LEVEL_ONE as int + beat * 4 / 10) / (LEVEL_ONE as int))
}

/// Weight of spectrum bucket `i` (in thousandths) for a chunk with zero-crossing rate `zcr`.
pub open spec fn bin_weight(i: int, zcr: int) -> int {
    if i < 3 {
        if zcr < 450_000 { 1600 - zcr * 800 / (LEVEL_ONE as int) } else { 400 }
    } else if i < 6 {
        1200
    } else {
        if zcr > 350_000 { 700 + zcr * 800 / (LEVEL_ONE as int) } else { 500 }
    }
}

/// Largest value of a spectrum bucket before publishing: full-scale RMS times the largest weight (1.6).
pub const BIN_MAX: u32 = 1_600_000;

/// Bucket `i` of the coarse spectrum: the weighted RMS of the samples
/// `32 * i .. 32 * (i + 1)`, or 0 where the block is too short.
pub open spec fn bin_spec(s: Seq<i32>, i: int) -> int {
    if (i + 1) * (BIN_CHUNK as int) > s.len() {
        0
    } else {
        let chunk = s.subrange(i * (BIN_CHUNK as int), (i + 1) * (BIN_CHUNK as int));
        rms_spec(chunk) * bin_weight(i, zcr_spec(chunk)) / 1000
    }
}

pub open spec fn seq_max(s: Seq<u32>) -> int
    decreases s.len(),
{
    if s.len() == 0 {
        0
    } else {
        let m = seq_max(s.drop_last());
        if s.last() as int > m { s.last() as int } else { m }
    }
}

/// Peak predicate shared by the audio-reactive effects: `current` is a peak when
/// it exceeds 1.3 times the history mean and `floor`, or when it reaches 90% of
/// the history maximum and exceeds `loud_floor`.
pub open spec fn peak_spec(current: int, h: Seq<u32>, floor: int, loud_floor: int) -> bool {
    h.len() > 0 && ((current * 10 * (h.len() as int) > sum_levels(h) * 13 && current > floor) || (
    current * 10 > seq_max(h) * 9 && current > loud_floor))
}

/// Clamps a metric below `floor` to zero.
pub fn apply_noise_gate(value: u32, floor: u32) -> (r: u32)
    ensures
        r == gate_spec(value as int, floor as int),
{
    if value < floor {
        0
    } else {
        value
    }
}

/// Applying the noise gate twice is the same as applying it once; below the
/// floor the result is zero.
pub proof fn noise_gate_idempotent(value: int, floor: int)
    ensures
        gate_spec(gate_spec(value, floor), floor) == gate_spec(value, floor),
        value < floor ==> gate_spec(gate_spec(value, floor), floor) == 0,
{
}

/// Exponential moving average: `current * (1 - alpha) + target * alpha`, alpha in thousandths.
/// The result lies between the two inputs.
pub fn smooth(current: u32, target: u32, alpha: u32) -> (r: u32)
    requires
        alpha <= 1000,
        current <= BIN_MAX,
        target <= BIN_MAX,
    ensures
        r == smooth_spec(current as int, target as int, alpha as int),
        r <= if current >= target { current } else { target },
{
    proof {
        let c = current as int;
        let t = target as int;
        let a = alpha as int;
        let m = if c >= t { c } else { t };
        assert(c * (1000 - a) + t * a <= m * 1000) by (nonlinear_arith)
            requires
                0 <= c <= m,
                0 <= t <= m,
                0 <= a <= 1000,
        ;
        assert(m * 1000 <= 1_600_000 * 1000) by (nonlinear_arith)
            requires
                m <= 1_600_000,
        ;
        assert((c * (1000 - a) + t * a) / 1000 <= m) by (nonlinear_arith)
            requires
                c * (1000 - a) + t * a <= m * 1000,
        ;
        assert(0 <= c * (1000 - a)) by (nonlinear_arith)
            requires
                0 <= c,
                a <= 1000,
        ;
        assert(0 <= t * a) by (nonlinear_arith)
            requires
                0 <= t,
                0 <= a,
        ;
    }
    (((current as u64) * (1000 - alpha as u64) + (target as u64) * (alpha as u64)) / 1000) as u32
}

/// Splits the block's energy into raw bass, mid and treble.
pub fn analyze_frequency_bands(rms: u32, zcr: u32, bright: u32) -> (r: (u64, u64, u64))
    requires
        rms <= LEVEL_ONE,
        zcr <= LEVEL_ONE,
        bright <= LEVEL_ONE,
    ensures
        (r.0 as int, r.1 as int, r.2 as int) == split_bands(rms as int, zcr as int, bright as int),
{
    if rms < 2000 {
        return (0, 0, 0);
    }
    let r = rms as u64;
    let bass: u64 = if zcr < 80_000 { r * 2 } else { r / 10 };
    let mid: u64 = if 80_000 <= zcr && zcr < 400_000 { r * 3 / 2 } else { r * 4 / 10 };
    proof {
        assert(r * bright * 3 <= 1_000_000 * 1_000_000 * 3) by (nonlinear_arith)
            requires
                r <= 1_000_000,
                bright <= 1_000_000,
        ;
    }
    let treble: u64 = if zcr >= 400_000 || bright > 150_000 {
        r * (bright as u64) * 3 / (LEVEL_ONE as u64)
    } else {
        0
    };
    (bass, mid, treble)
}

/// Normalizes band energies by their total: the three shares, as levels, sum to exactly 1.0.
pub fn band_fractions(b: u64, m: u64, t: u64) -> (r: (u32, u32, u32))
    requires
        b + m + t > 0,
        b + m + t <= 0x1_0000_0000,
    ensures
        (r.0 as int, r.1 as int, r.2 as int) == fractions_spec(b as int, m as int, t as int),
        r.0 + r.1 + r.2 == LEVEL_ONE,
{
    let tot: u64 = b + m + t;
    proof {
        band_shares_sum_to_one(b as int, m as int, t as int);
    }
    let bf: u64 = b * (LEVEL_ONE as u64) / tot;
    let mf: u64 = m * (LEVEL_ONE as u64) / tot;
    (bf as u32, mf as u32, (LEVEL_ONE as u64 - bf - mf) as u32)
}

/// Whenever the total band energy is positive, the normalized bass, mid and
/// treble shares sum to 1.0.
pub proof fn band_shares_sum_to_one(b: int, m: int, t: int)
    requires
        0 <= b,
        0 <= m,
        0 <= t,
        b + m + t > 0,
    ensures
        fractions_spec(b, m, t).0 + fractions_spec(b, m, t).1 + fractions_spec(b, m, t).2
            == LEVEL_ONE,
        0 <= fractions_spec(b, m, t).0,
        0 <= fractions_spec(b, m, t).1,
        0 <= fractions_spec(b, m, t).2,
{
    let tot = b + m + t;
    assert(b * 1_000_000 / tot + m * 1_000_000 / tot <= (b + m) * 1_000_000 / tot) by (nonlinear_arith)
        requires
            tot > 0,
            b >= 0,
            m >= 0,
    ;
    assert((b + m) * 1_000_000 / tot <= 1_000_000) by (nonlinear_arith)
        requires
            tot > 0,
            0 <= b + m <= tot,
    ;
    assert(0 <= b * 1_000_000 / tot) by (nonlinear_arith)
        requires
            tot > 0,
            b >= 0,
    ;
    assert(0 <= m * 1_000_000 / tot) by (nonlinear_arith)
        requires
            tot > 0,
            m >= 0,
    ;
}

/// Loudness and band energies of a block whose DC offset is already removed,
/// with loudness scaled by `gain` (in thousandths).
pub fn extract_features(samples: &Vec<i32>, gain: u32) -> (f: Features)
    requires
        0 < samples@.len() <= MAX_BLOCK,
        gain <= GAIN_MAX,
    ensures
        f == features_spec(samples@, gain as int),
        f.volume <= LEVEL_ONE,
        f.bass <= LEVEL_ONE,
        f.mid <= LEVEL_ONE,
        f.treble <= LEVEL_ONE,
{
    let n = samples.len();
    proof {
        assert(samples@.subrange(0, n as int) =~= samples@);
    }
    let raw = rms_level(samples, 0, n);
    let zcr = zero_crossing_rate(samples, 0, n);
    let bright = spectral_brightness(samples, raw);
    proof {
        assert((raw as int) * (gain as int) <= 1_000_000 * 60_000) by (nonlinear_arith)
            requires
                raw <= 1_000_000,
                gain <= 60_000,
        ;
    }
    let g: u64 = (raw as u64) * (gain as u64) / (GAIN_ONE as u64);
    let vol: u32 = apply_noise_gate(if g > LEVEL_ONE as u64 { LEVEL_ONE } else { g as u32 }, NOISE_FLOOR);
    let (b, m, t) = analyze_frequency_bands(raw, zcr, bright);
    proof {
        assert((raw as int) * (bright as int) * 3 / 1_000_000 <= 3_000_000) by (nonlinear_arith)
            requires
                raw <= 1_000_000,
                bright <= 1_000_000,
        ;
    }
    if b + m + t == 0 {
        return Features { volume: vol, bass: 0, mid: 0, treble: 0 };
    }
    let (bf, mf, tf) = band_fractions(b, m, t);
    proof {
        assert((bf as int) * (vol as int) / 1_000_000 <= 1_000_000) by (nonlinear_arith)
            requires
                bf <= 1_000_000,
                vol <= 1_000_000,
        ;
        assert((mf as int) * (vol as int) / 1_000_000 <= 1_000_000) by (nonlinear_arith)
            requires
                mf <= 1_000_000,
                vol <= 1_000_000,
        ;
        assert((tf as int) * (vol as int) / 1_000_000 <= 1_000_000) by (nonlinear_arith)
            requires
                tf <= 1_000_000,
                vol <= 1_000_000,
        ;
    }
    let one = LEVEL_ONE as u64;
    Features {
        volume: vol,
        bass: apply_noise_gate(((bf as u64) * (vol as u64) / one) as u32, NOISE_FLOOR),
        mid: apply_noise_gate(((mf as u64) * (vol as u64) / one) as u32, NOISE_FLOOR),
        treble: apply_noise_gate(((tf as u64) * (vol as u64) / one) as u32, NOISE_FLOOR),
    }
}

proof fn lemma_levels_bound(s: Seq<u32>, cap: int)
    requires
        forall|i: int| 0 <= i < s.len() ==> s[i] <= cap,
        0 <= cap,
    ensures
        0 <= sum_levels(s) <= (s.len() as int) * cap,
    decreases s.len(),
{
    if s.len() > 0 {
        lemma_levels_bound(s.drop_last(), cap);
        let k = s.len() as int;
        assert((k - 1) * cap + cap == k * cap) by (nonlinear_arith);
    }
}

/// Sum of the entries of `h`.
fn sum_of(h: &[u32]) -> (r: u64)
    requires
        h@.len() <= 64,
    ensures
        r == sum_levels(h@),
{
    let n = h.len();
    let mut acc: u64 = 0;
    let mut i: usize = 0;
    while i < n
        invariant
            n == h@.len(),
            n <= 64,
            i <= n,
            acc == sum_levels(h@.subrange(0, i as int)),
            acc <= (i as int) * 0xffff_ffff,
        decreases n - i,
    {
        proof {
            assert(h@.subrange(0, i as int + 1).drop_last() =~= h@.subrange(0, i as int));
        }
        acc = acc + h[i] as u64;
        i += 1;
    }
    proof {
        assert(h@.subrange(0, n as int) =~= h@);
    }
    acc
}

/// Largest entry of `h` (0 for an empty history).
fn max_of_levels(h: &[u32]) -> (r: u32)
    ensures
        r == seq_max(h@),
{
    let n = h.len();
    let mut m: u32 = 0;
    let mut i: usize = 0;
    while i < n
        invariant
            n == h@.len(),
            i <= n,
            m == seq_max(h@.subrange(0, i as int)),
        decreases n - i,
    {
        proof {
            assert(h@.subrange(0, i as int + 1).drop_last() =~= h@.subrange(0, i as int));
        }
        if h[i] > m {
            m = h[i];
        }
        i += 1;
    }
    proof {
        assert(h@.subrange(0, n as int) =~= h@);
    }
    m
}

/// Beat strength of the newest loudness against the recent history, as a level.
pub fn beat_intensity(current: u32, history: &[u32]) -> (r: u32)
    requires
        current <= LEVEL_ONE,
        history@.len() <= 64,
        forall|i: int| 0 <= i < history@.len() ==> history@[i] <= LEVEL_ONE,
    ensures
        r == beat_spec(current as int, history@),
        r <= LEVEL_ONE,
{
    let n = history.len();
    if n == 0 {
        return 0;
    }
    let sum = sum_of(history);
    proof {
        lemma_levels_bound(history@, LEVEL_ONE as int);
    }
    let avg: u64 = sum / (n as u64);
    proof {
        assert(avg <= 1_000_000) by (nonlinear_arith)
            requires
                avg as int == (sum as int) / (n as int),
                sum <= (n as int) * 1_000_000,
                n > 0,
        ;
    }
    let thr: u64 = avg * 14 / 10;
    if avg > 10_000 && (current as u64) > thr {
        proof {
            assert(((current as int) - thr) * 1_000_000 <= 1_000_000 * 1_000_000) by (nonlinear_arith)
                requires
                    current <= 1_000_000,
                    thr >= 0,
                    current > thr,
            ;
        }
        let q: u64 = ((current as u64) - thr) * (LEVEL_ONE as u64) / thr;
        if q > LEVEL_ONE as u64 { LEVEL_ONE } else { q as u32 }
    } else {
        0
    }
}

/// Peak predicate shared by the audio-reactive effects (see `peak_spec`).
pub fn is_peak(current: u32, history: &[u32], floor: u32, loud_floor: u32) -> (r: bool)
    requires
        history@.len() <= 64,
    ensures
        r == peak_spec(current as int, history@, floor as int, loud_floor as int),
{
    let n = history.len();
    if n == 0 {
        return false;
    }
    let sum = sum_of(history);
    let max = max_of_levels(history);
    proof {
        lemma_levels_bound(history@, 0xffff_ffff);
        assert((n as int) * 0xffff_ffff <= 64 * 0xffff_ffff) by (nonlinear_arith)
            requires
                n <= 64,
        ;
        assert((current as int) * 10 * (n as int) <= 0xffff_ffff * 640) by (nonlinear_arith)
            requires
                current <= 0xffff_ffff,
                n <= 64,
        ;
        assert((sum as int) * 13 <= 0xffff_ffff * 64 * 13) by (nonlinear_arith)
            requires
                sum <= 0xffff_ffff * 64,
        ;
    }
    let rising = (current as u64) * 10 * (n as u64) > sum * 13 && current > floor;
    let loud = (current as u64) * 10 > (max as u64) * 9 && current > loud_floor;
    rising || loud
}

/// The coarse spectrum of a block: bucket `i` is the weighted RMS of the
/// samples `32 * i .. 32 * (i + 1)` (weight 0.4 to 1.6), or 0 where the block
/// is too short.
pub fn generate_simple_bins(samples: &Vec<i32>) -> (bins: [u32; NUM_BINS])
    requires
        samples@.len() <= MAX_BLOCK,
    ensures
        forall|i: int| 0 <= i < NUM_BINS ==> bins@[i] == bin_spec(samples@, i),
        forall|i: int| 0 <= i < NUM_BINS ==> bins@[i] <= BIN_MAX,
{
    let mut bins: [u32; NUM_BINS] = [0; NUM_BINS];
    let n = samples.len();
    let mut i: usize = 0;
    while i < NUM_BINS
        invariant
            n == samples@.len(),
            n <= MAX_BLOCK,
            i <= NUM_BINS,
            bins@.len() == NUM_BINS,
            forall|k: int| 0 <= k < i ==> bins@[k] == bin_spec(samples@, k),
            forall|k: int| 0 <= k < i ==> bins@[k] <= BIN_MAX,
        decreases NUM_BINS - i,
    {
        let start = i * BIN_CHUNK;
        let end = start + BIN_CHUNK;
        if end <= n {
            let rms = rms_level(samples, start, end);
            let zcr = zero_crossing_rate(samples, start, end);
            let w: u64 = if i < 3 {
                if zcr < 450_000 { 1600 - (zcr as u64) * 800 / (LEVEL_ONE as u64) } else { 400 }
            } else if i < 6 {
                1200
            } else {
                if zcr > 350_000 { 700 + (zcr as u64) * 800 / (LEVEL_ONE as u64) } else { 500 }
            };
            proof {
                assert(w == bin_weight(i as int, zcr as int));
                assert(w <= 1600);
                assert((rms as int) * (w as int) <= 1_000_000 * 1600) by (nonlinear_arith)
                    requires
                        rms <= 1_000_000,
                        w <= 1600,
                ;
            }
            bins[i] = ((rms as u64) * w / 1000) as u32;
        } else {
            bins[i] = 0;
        }
        i += 1;
    }
    bins
}

/// A little-endian 32-bit sample from four bytes.
pub open spec fn le_sample(b0: u8, b1: u8, b2: u8, b3: u8) -> i32 {
    ((b0 as int) + (b1 as int) * 0x100 + (b2 as int) * 0x1_0000 + (b3 as int) * 0x100_0000) as u32 as i32
}

/// Decodes raw microphone bytes into samples, four little-endian bytes each;
/// trailing bytes that do not fill a sample are ignored.
pub fn decode_samples(bytes: &Vec<u8>) -> (samples: Vec<i32>)
    ensures
        samples@.len() == bytes@.len() / 4,
        forall|i: int|
            0 <= i < samples@.len() ==> samples@[i] == le_sample(
                bytes@[4 * i],
                bytes@[4 * i + 1],
                bytes@[4 * i + 2],
                bytes@[4 * i + 3],
            ),
{
    let len = bytes.len();
    let count = len / 4;
    let mut out: Vec<i32> = Vec::new();
    let mut i: usize = 0;
    while i < count
        invariant
            len == bytes@.len(),
            count == len / 4,
            i <= count,
            out@.len() == i,
            forall|k: int|
                0 <= k < i ==> out@[k] == le_sample(
                    bytes@[4 * k],
                    bytes@[4 * k + 1],
                    bytes@[4 * k + 2],
                    bytes@[4 * k + 3],
                ),
        decreases count - i,
    {
        proof {
            assert(4 * (i as int) + 3 < len) by (nonlinear_arith)
                requires
                    i < count,
                    count == len / 4,
            ;
        }
        let j = 4 * i;
        let word: u32 = (bytes[j] as u32) + (bytes[j + 1] as u32) * 0x100 + (bytes[j + 2] as u32) * 0x1_0000
            + (bytes[j + 3] as u32) * 0x100_0000;
        out.push(#[verifier::truncate] (word as i32));
        i += 1;
    }
    out
}

pub open spec fn levels_bounded(s: Seq<u32>) -> bool {
    forall|i: int| 0 <= i < s.len() ==> s[i] <= LEVEL_ONE
}

pub open spec fn bins_bounded(s: Seq<u32>) -> bool {
    forall|i: int| 0 <= i < s.len() ==> s[i] <= BIN_MAX
}

pub open spec fn features_bounded(f: Features) -> bool {
    f.volume <= LEVEL_ONE && f.bass <= LEVEL_ONE && f.mid <= LEVEL_ONE && f.treble <= LEVEL_ONE
}

pub open spec fn snapshot_bounded(a: AudioData) -> bool {
    &&& a.volume <= LEVEL_ONE
    &&& a.bass <= LEVEL_ONE
    &&& a.mid <= LEVEL_ONE
    &&& a.treble <= LEVEL_ONE
    &&& levels_bounded(a.bins@)
}

impl Default for AudioData {
    /// The all-zero snapshot.
    fn default() -> (a: AudioData)
        ensures
            a.volume == 0 && a.bass == 0 && a.mid == 0 && a.treble == 0,
            forall|i: int| 0 <= i < NUM_BINS ==> a.bins@[i] == 0,
    {
        AudioData::zeroed()
    }
}

impl AudioData {
    /// The all-zero snapshot readers see before anything was published.
    pub fn zeroed() -> (a: AudioData)
        ensures
            a.volume == 0 && a.bass == 0 && a.mid == 0 && a.treble == 0,
            forall|i: int| 0 <= i < NUM_BINS ==> a.bins@[i] == 0,
    {
        AudioData { volume: 0, bass: 0, mid: 0, treble: 0, bins: [0; NUM_BINS] }
    }
}

/// The extractor: gain control, smoothing state, beat history and the latest snapshot.
pub struct AudioProcessor {
    agc: AgcState,
    smoothed: Features,
    smooth_bins: [u32; NUM_BINS],
    beat_history: [u32; BEAT_HISTORY],
    beat_idx: usize,
    snapshot: AudioData,
}

impl AudioProcessor {
    pub closed spec fn wf(&self) -> bool {
        &&& self.agc.wf()
        &&& features_bounded(self.smoothed)
        &&& bins_bounded(self.smooth_bins@)
        &&& levels_bounded(self.beat_history@)
        &&& self.beat_idx < BEAT_HISTORY
        &&& snapshot_bounded(self.snapshot)
    }

    pub closed spec fn agc_spec(&self) -> AgcState {
        self.agc
    }

    pub closed spec fn smoothed_spec(&self) -> Features {
        self.smoothed
    }

    pub closed spec fn smooth_bins_spec(&self) -> Seq<u32> {
        self.smooth_bins@
    }

    pub closed spec fn beat_history_spec(&self) -> Seq<u32> {
        self.beat_history@
    }

    pub closed spec fn beat_idx_spec(&self) -> int {
        self.beat_idx as int
    }

    pub closed spec fn snapshot_spec(&self) -> AudioData {
        self.snapshot
    }

    /// One processed block, from the state `a` to the state `b`, on the
    /// samples `s` (already without their DC offset).
    pub open spec fn block_step(a: AudioProcessor, s: Seq<i32>, b: AudioProcessor) -> bool {
        let f = features_spec(s, a.agc_spec().gain_spec());
        let beat = beat_spec(f.volume as int, b.beat_history_spec());
        &&& b.agc_spec().target_spec() == a.agc_spec().target_spec()
        &&& b.agc_spec().history_spec() == window_push(a.agc_spec().history_spec(), rms_spec(s) as u32)
        &&& b.agc_spec().gain_spec() == next_gain(
            a.agc_spec().gain_spec(),
            b.agc_spec().history_spec(),
            a.agc_spec().target_spec(),
        )
        &&& b.beat_history_spec() == a.beat_history_spec().update(a.beat_idx_spec(), f.volume)
        &&& b.beat_idx_spec() == (a.beat_idx_spec() + 1) % (BEAT_HISTORY as int)
        &&& b.smoothed_spec().volume == smooth_spec(
            a.smoothed_spec().volume as int,
            f.volume as int,
            ALPHA_VOLUME as int,
        )
        &&& b.smoothed_spec().bass == smooth_spec(a.smoothed_spec().bass as int, f.bass as int, ALPHA_BANDS as int)
        &&& b.smoothed_spec().mid == smooth_spec(a.smoothed_spec().mid as int, f.mid as int, ALPHA_BANDS as int)
        &&& b.smoothed_spec().treble == smooth_spec(
            a.smoothed_spec().treble as int,
            f.treble as int,
            ALPHA_BANDS as int,
        )
        &&& forall|i: int|
            0 <= i < NUM_BINS ==> b.smooth_bins_spec()[i] == smooth_spec(
                a.smooth_bins_spec()[i] as int,
                gate_spec(bin_spec(s, i), NOISE_FLOOR as int),
                ALPHA_BANDS as int,
            )
        &&& b.snapshot_spec().volume == boosted(b.smoothed_spec().volume as int, beat)
        &&& b.snapshot_spec().bass == boosted(b.smoothed_spec().bass as int, beat)
        &&& b.snapshot_spec().mid == b.smoothed_spec().mid
        &&& b.snapshot_spec().treble == b.smoothed_spec().treble
        &&& forall|i: int|
            0 <= i < NUM_BINS ==> b.snapshot_spec().bins@[i] == boosted(b.smooth_bins_spec()[i] as int, beat)
    }

    /// A fresh extractor at gain 1.0 that aims at `TARGET_LEVEL`, publishing the zero snapshot.
    pub fn new() -> (p: AudioProcessor)
        ensures
            p.wf(),
            p.agc_spec().gain_spec() == GAIN_ONE,
            p.snapshot_spec().volume == 0,
            p.snapshot_spec().bass == 0,
            p.snapshot_spec().mid == 0,
            p.snapshot_spec().treble == 0,
    {
        AudioProcessor {
            agc: AgcState::new(TARGET_LEVEL),
            smoothed: Features { volume: 0, bass: 0, mid: 0, treble: 0 },
            smooth_bins: [0; NUM_BINS],
            beat_history: [0; BEAT_HISTORY],
            beat_idx: 0,
            snapshot: AudioData::zeroed(),
        }
    }

    /// The latest published snapshot.
    pub fn snapshot(&self) -> (a: AudioData)
        ensures
            a == self.snapshot_spec(),
    {
        self.snapshot
    }

    pub fn gain(&self) -> (g: u32)
        ensures
            g == self.agc_spec().gain_spec(),
    {
        self.agc.gain()
    }

    /// Processes one block: removes its DC offset, measures loudness (scaled by
    /// the current gain) and band energies, gates noise, updates the gain
    /// control, smooths and publishes. An empty or undersized block (fewer
    /// than `BUFFER_SIZE` samples) changes nothing.
    pub fn process_block(&mut self, samples: &mut Vec<i32>)
        requires
            old(self).wf(),
            old(samples)@.len() <= MAX_BLOCK,
        ensures
            final(self).wf(),
            snapshot_bounded(final(self).snapshot_spec()),
            old(samples)@.len() < BUFFER_SIZE ==> *final(self) == *old(self) && final(samples)@ == old(samples)@,
            old(samples)@.len() >= BUFFER_SIZE ==> final(samples)@ == without_dc(old(samples)@)
                && Self::block_step(*old(self), final(samples)@, *final(self)),
    {
        if samples.len() < BUFFER_SIZE {
            return;
        }
        remove_dc_offset(samples);
        let n = samples.len();
        proof {
            crate::agc::gain_stays_bounded(self.agc);
        }
        let f = extract_features(samples, self.agc.gain());
        proof {
            assert(samples@.subrange(0, n as int) =~= samples@);
        }
        let raw = rms_level(samples, 0, n);
        self.agc.update(raw);
        let bins = generate_simple_bins(samples);

        self.beat_history[self.beat_idx] = f.volume;
        self.beat_idx = (self.beat_idx + 1) % BEAT_HISTORY;
        let beat = beat_intensity(f.volume, &self.beat_history);

        self.smoothed = Features {
            volume: smooth(self.smoothed.volume, f.volume, ALPHA_VOLUME),
            bass: smooth(self.smoothed.bass, f.bass, ALPHA_BANDS),
            mid: smooth(self.smoothed.mid, f.mid, ALPHA_BANDS),
            treble: smooth(self.smoothed.treble, f.treble, ALPHA_BANDS),
        };
        smooth_bins_toward(&mut self.smooth_bins, &bins);
        let out = boost_bins(&self.smooth_bins, beat);
        self.snapshot = AudioData {
            volume: boost(self.smoothed.volume, beat),
            bass: boost(self.smoothed.bass, beat),
            mid: self.smoothed.mid,
            treble: self.smoothed.treble,
            bins: out,
        };
    }
}

/// Smooths each bucket toward the gated new value.
fn smooth_bins_toward(acc: &mut [u32; NUM_BINS], bins: &[u32; NUM_BINS])
    requires
        bins_bounded(old(acc)@),
        bins_bounded(bins@),
    ensures
        bins_bounded(final(acc)@),
        forall|k: int|
            0 <= k < NUM_BINS ==> final(acc)@[k] == smooth_spec(
                old(acc)@[k] as int,
                gate_spec(bins@[k] as int, NOISE_FLOOR as int),
                ALPHA_BANDS as int,
            ),
{
    let mut i: usize = 0;
    while i < NUM_BINS
        invariant
            i <= NUM_BINS,
            bins_bounded(bins@),
            forall|k: int|
                0 <= k < i ==> acc@[k] == smooth_spec(
                    old(acc)@[k] as int,
                    gate_spec(bins@[k] as int, NOISE_FLOOR as int),
                    ALPHA_BANDS as int,
                ),
            forall|k: int| i <= k < NUM_BINS ==> acc@[k] == old(acc)@[k],
            bins_bounded(acc@),
        decreases NUM_BINS - i,
    {
        acc[i] = smooth(acc[i], apply_noise_gate(bins[i], NOISE_FLOOR), ALPHA_BANDS);
        i += 1;
    }
}

fn boost_bins(bins: &[u32; NUM_BINS], beat: u32) -> (out: [u32; NUM_BINS])
    requires
        bins_bounded(bins@),
        beat <= LEVEL_ONE,
    ensures
        levels_bounded(out@),
        forall|j: int| 0 <= j < NUM_BINS ==> out@[j] == boosted(bins@[j] as int, beat as int),
{
    let mut out: [u32; NUM_BINS] = [0; NUM_BINS];
    let mut k: usize = 0;
    while k < NUM_BINS
        invariant
            k <= NUM_BINS,
            beat <= LEVEL_ONE,
            bins_bounded(bins@),
            forall|j: int| 0 <= j < k ==> out@[j] == boosted(bins@[j] as int, beat as int),
            levels_bounded(out@),
        decreases NUM_BINS - k,
    {
        out[k] = boost(bins[k], beat);
        k += 1;
    }
    out
}

/// Raises `v` by up to 40% on a strong beat, capped at 1.0.
fn boost(v: u32, beat: u32) -> (r: u32)
    requires
        v <= BIN_MAX,
        beat <= LEVEL_ONE,
    ensures
        r == boosted(v as int, beat as int),
        r <= LEVEL_ONE,
{
    proof {
        assert((v as int) * (1_000_000 + (beat as int) * 4 / 10) <= 1_600_000 * 1_400_000) by (nonlinear_arith)
            requires
                v <= 1_600_000,
                beat <= 1_000_000,
        ;
    }
    let x: u64 = (v as u64) * ((LEVEL_ONE as u64) + (beat as u64) * 4 / 10) / (LEVEL_ONE as u64);
    if x > LEVEL_ONE as u64 { LEVEL_ONE } else { x as u32 }
}

} // verus!
