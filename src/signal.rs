//! Integer signal measures over a block of signed microphone samples.
//!
//! Loudness-like results are levels on a fixed-point scale where `LEVEL_ONE`
//! stands for 1.0 (a full-scale signal).
use vstd::prelude::*;

verus! {

/// Level 1.0 on the fixed-point scale used for every audio measure.
pub const LEVEL_ONE: u32 = 1_000_000;

/// Largest sample magnitude that counts as full scale.
pub const FULL_SCALE: u64 = 2147483647;

/// Longest block the measures accept; keeps every running sum in range.
pub const MAX_BLOCK: usize = 1048576;

pub open spec fn abs_int(x: int) -> int {
    if x < 0 { -x } else { x }
}

pub open spec fn min_int(a: int, b: int) -> int {
    if a <= b { a } else { b }
}

/// Sum of the samples.
pub open spec fn sum_samples(s: Seq<i32>) -> int
    decreases s.len(),
{
    if s.len() == 0 { 0 } else { sum_samples(s.drop_last()) + s.last() as int }
}

/// Sum of the squared samples.
pub open spec fn sum_squares(s: Seq<i32>) -> int
    decreases s.len(),
{
    if s.len() == 0 { 0 } else { sum_squares(s.drop_last()) + (s.last() as int) * (s.last() as int) }
}

/// Integer division rounding toward zero.
pub open spec fn div_toward_zero(a: int, n: int) -> int {
    if a >= 0 { a / n } else { -((-a) / n) }
}

/// The block mean, rounded toward zero.
pub open spec fn dc_mean(s: Seq<i32>) -> int {
    div_toward_zero(sum_samples(s), s.len() as int)
}

pub open spec fn clamp_i32(x: int) -> i32 {
    if x < i32::MIN { i32::MIN } else if x > i32::MAX { i32::MAX } else { x as i32 }
}

/// The block with its mean subtracted from every sample (clamped to the sample range).
pub open spec fn without_dc(s: Seq<i32>) -> Seq<i32> {
    Seq::new(s.len(), |i: int| clamp_i32(s[i] as int - dc_mean(s)))
}

/// Whether the integer square root of `x` is `r`.
pub open spec fn is_isqrt(x: int, r: int) -> bool {
    0 <= r && r * r <= x && x < (r + 1) * (r + 1)
}

/// The integer square root of a non-negative `x`.
pub open spec fn root_of(x: int) -> int {
    choose|r: int| is_isqrt(x, r)
}

proof fn lemma_isqrt_unique(x: int, a: int, b: int)
    requires
        is_isqrt(x, a),
        is_isqrt(x, b),
    ensures
        a == b,
{
    if a < b {
        assert((a + 1) * (a + 1) <= b * b) by (nonlinear_arith)
            requires
                0 <= a,
                a + 1 <= b,
        ;
    } else if b < a {
        assert((b + 1) * (b + 1) <= a * a) by (nonlinear_arith)
            requires
                0 <= b,
                b + 1 <= a,
        ;
    }
}

/// Root-mean-square of a block as a level (0 for an empty block).
pub open spec fn rms_spec(s: Seq<i32>) -> int {
    if s.len() == 0 { 0 } else { rms_level_of(root_of(sum_squares(s) / (s.len() as int))) }
}

/// Root-mean-square of the block as a level: `sqrt(mean square) / FULL_SCALE`, at most 1.0.
pub open spec fn rms_level_of(root: int) -> int {
    min_int(LEVEL_ONE as int, root * (LEVEL_ONE as int) / (FULL_SCALE as int))
}

/// Number of adjacent sample pairs whose signs differ (a sample counts as positive when >= 0).
pub open spec fn crossings(s: Seq<i32>) -> int
    decreases s.len(),
{
    if s.len() <= 1 {
        0
    } else {
        crossings(s.drop_last()) + if (s[s.len() - 1] >= 0) != (s[s.len() - 2] >= 0) { 1int } else { 0int }
    }
}

/// Zero-crossing rate as a level: crossings per sample (0 for an empty block).
pub open spec fn zcr_spec(s: Seq<i32>) -> int {
    if s.len() == 0 { 0 } else { crossings(s) * (LEVEL_ONE as int) / (s.len() as int) }
}

/// Sum over even indices `j` with `2 <= j < n` of the jumps `|s[j] - s[j-1]|` above `thr`.
pub open spec fn jump_energy(s: Seq<i32>, thr: int, n: int) -> int
    decreases n,
{
    if n <= 2 {
        0
    } else {
        let j = n - 1;
        let d = abs_int(s[j] as int - s[j - 1] as int);
        jump_energy(s, thr, n - 1) + if j % 2 == 0 && d > thr { d } else { 0 }
    }
}

/// Sum over even indices `j` with `2 <= j < n` of `|s[j]|`.
pub open spec fn even_magnitude(s: Seq<i32>, n: int) -> int
    decreases n,
{
    if n <= 2 {
        0
    } else {
        let j = n - 1;
        even_magnitude(s, n - 1) + if j % 2 == 0 { abs_int(s[j] as int) } else { 0 }
    }
}

/// The jump threshold used by `spectral_brightness`: 12% of the RMS amplitude.
pub open spec fn jump_threshold(rms: int) -> int {
    (FULL_SCALE as int) * rms * 12 / (100 * (LEVEL_ONE as int))
}

/// Share of high-frequency jumps in the block as a level (0 for a quiet block).
pub open spec fn brightness_spec(s: Seq<i32>, rms: int) -> int {
    let thr = jump_threshold(rms);
    let hi = jump_energy(s, thr, s.len() as int);
    let tot = even_magnitude(s, s.len() as int);
    if rms < 5000 || tot == 0 {
        0
    } else {
        min_int(LEVEL_ONE as int, hi * (LEVEL_ONE as int) / tot)
    }
}

proof fn lemma_div_toward_zero_range(a: int, n: int, lo: int, hi: int)
    requires
        0 < n,
        lo <= 0 <= hi,
        n * lo <= a <= n * hi,
    ensures
        lo <= div_toward_zero(a, n) <= hi,
{
    if a >= 0 {
        assert(a / n <= hi) by (nonlinear_arith)
            requires
                0 < n,
                a <= n * hi,
                0 <= a,
        ;
        assert(0 <= a / n) by (nonlinear_arith)
            requires
                0 < n,
                0 <= a,
        ;
    } else {
        assert(-a <= n * (-lo)) by (nonlinear_arith)
            requires
                n * lo <= a,
        ;
        assert((-a) / n <= -lo) by (nonlinear_arith)
            requires
                0 < n,
                -a <= n * (-lo),
                0 <= -a,
        ;
        assert(0 <= (-a) / n) by (nonlinear_arith)
            requires
                0 < n,
                0 <= -a,
        ;
    }
}

/// Subtracts the block mean from every sample, so that a constant bias of the
/// microphone does not read as low-frequency energy.
pub fn remove_dc_offset(samples: &mut Vec<i32>)
    requires
        old(samples)@.len() <= MAX_BLOCK,
    ensures
        final(samples)@ == without_dc(old(samples)@),
        old(samples)@.len() == 0 ==> final(samples)@ == old(samples)@,
{
    let n = samples.len();
    if n == 0 {
        assert(samples@ =~= without_dc(samples@));
        return;
    }
    let ghost s0 = samples@;
    let mut sum: i64 = 0;
    let mut i: usize = 0;
    while i < n
        invariant
            n == samples@.len(),
            samples@ == s0,
            n <= MAX_BLOCK,
            i <= n,
            sum == sum_samples(s0.subrange(0, i as int)),
            -(i as int) * 2147483648 <= sum <= (i as int) * 2147483647,
        decreases n - i,
    {
        proof {
            assert(s0.subrange(0, i as int + 1).drop_last() =~= s0.subrange(0, i as int));
        }
        sum = sum + samples[i] as i64;
        i += 1;
    }
    proof {
        assert(s0.subrange(0, n as int) =~= s0);
        lemma_div_toward_zero_range(sum as int, n as int, -2147483648, 2147483647);
    }
    let mean: i64 = if sum >= 0 { sum / (n as i64) } else { -((-sum) / (n as i64)) };
    assert(mean == dc_mean(s0));
    let mut k: usize = 0;
    while k < n
        invariant
            n == samples@.len(),
            n == s0.len(),
            k <= n,
            mean == dc_mean(s0),
            -2147483648 <= mean <= 2147483647,
            forall|j: int| 0 <= j < k ==> samples@[j] == clamp_i32(s0[j] as int - dc_mean(s0)),
            forall|j: int| k <= j < n ==> samples@[j] == s0[j],
        decreases n - k,
    {
        let d: i64 = samples[k] as i64 - mean;
        let v: i32 = if d < i32::MIN as i64 {
            i32::MIN
        } else if d > i32::MAX as i64 {
            i32::MAX
        } else {
            d as i32
        };
        samples.set(k, v);
        k += 1;
    }
    assert(samples@ =~= without_dc(s0));
}

/// Integer square root: the largest `r` with `r * r <= x`.
pub fn isqrt(x: u64) -> (r: u64)
    ensures
        is_isqrt(x as int, r as int),
        r == root_of(x as int),
{
    let mut lo: u64 = 0;
    let mut hi: u64 = 4294967296;
    proof {
        assert(x < 4294967296 * 4294967296);
    }
    while lo + 1 < hi
        invariant
            lo < hi <= 4294967296,
            lo * lo <= x,
            x < hi * hi,
        decreases hi - lo,
    {
        let mid: u64 = lo + (hi - lo) / 2;
        proof {
            assert(mid * mid <= 4294967295 * 4294967295) by (nonlinear_arith)
                requires
                    mid <= 4294967295,
            ;
        }
        if mid * mid <= x {
            lo = mid;
        } else {
            hi = mid;
        }
    }
    assert(hi == lo + 1);
    proof {
        assert(is_isqrt(x as int, lo as int));
        lemma_isqrt_unique(x as int, lo as int, root_of(x as int));
    }
    lo
}

proof fn lemma_square_bound(v: i32)
    ensures
        0 <= (v as int) * (v as int) <= 0x4000_0000_0000_0000,
{
    let a = abs_int(v as int);
    assert(a <= 0x8000_0000);
    assert((v as int) * (v as int) == a * a) by (nonlinear_arith)
        requires
            a == abs_int(v as int),
    ;
    assert(0 <= a * a <= 0x8000_0000 * 0x8000_0000) by (nonlinear_arith)
        requires
            0 <= a <= 0x8000_0000,
    ;
}

proof fn lemma_sum_squares_bound(s: Seq<i32>)
    ensures
        0 <= sum_squares(s) <= (s.len() as int) * 0x4000_0000_0000_0000,
    decreases s.len(),
{
    if s.len() > 0 {
        lemma_sum_squares_bound(s.drop_last());
        lemma_square_bound(s.last());
    }
}

/// Mean of the squared samples in `s[lo..hi]`, rounded down.
pub fn mean_square(samples: &Vec<i32>, lo: usize, hi: usize) -> (r: u64)
    requires
        lo < hi <= samples@.len(),
        hi - lo <= MAX_BLOCK,
    ensures
        r == sum_squares(samples@.subrange(lo as int, hi as int)) / ((hi - lo) as int),
{
    let ghost s = samples@.subrange(lo as int, hi as int);
    let mut acc: u128 = 0;
    let mut i: usize = lo;
    while i < hi
        invariant
            lo <= i <= hi <= samples@.len(),
            hi - lo <= MAX_BLOCK,
            s == samples@.subrange(lo as int, hi as int),
            acc == sum_squares(samples@.subrange(lo as int, i as int)),
            acc <= ((i - lo) as int) * 0x4000_0000_0000_0000,
        decreases hi - i,
    {
        let v = samples[i];
        proof {
            assert(samples@.subrange(lo as int, i as int + 1).drop_last() =~= samples@.subrange(lo as int, i as int));
            lemma_square_bound(v);
        }
        let sq: i64 = (v as i64) * (v as i64);
        acc = acc + (sq as u128);
        i += 1;
    }
    proof {
        assert(s =~= samples@.subrange(lo as int, i as int));
        lemma_sum_squares_bound(s);
        let n = (hi - lo) as int;
        assert(acc as int / n <= 0x4000_0000_0000_0000) by (nonlinear_arith)
            requires
                acc <= n * 0x4000_0000_0000_0000,
                0 < n,
        ;
    }
    (acc / ((hi - lo) as u128)) as u64
}

/// Root-mean-square of `s[lo..hi]` as a level.
pub fn rms_level(samples: &Vec<i32>, lo: usize, hi: usize) -> (r: u32)
    requires
        lo <= hi <= samples@.len(),
        hi - lo <= MAX_BLOCK,
    ensures
        r == rms_spec(samples@.subrange(lo as int, hi as int)),
        r <= LEVEL_ONE,
{
    if lo == hi {
        return 0;
    }
    let ms = mean_square(samples, lo, hi);
    let root = isqrt(ms);
    proof {
        assert(root < 4294967296) by (nonlinear_arith)
            requires
                root * root <= ms,
                ms < 0x1_0000_0000_0000_0000,
        ;
        assert(root * 1_000_000 < 4294967296 * 1_000_000) by (nonlinear_arith)
            requires
                root < 4294967296,
        ;
    }
    let scaled: u64 = root * (LEVEL_ONE as u64) / FULL_SCALE;
    let r: u32 = if scaled > LEVEL_ONE as u64 { LEVEL_ONE } else { scaled as u32 };
    assert(r == rms_level_of(root as int));
    r
}

/// Zero-crossing rate of `s[lo..hi]` as a level.
pub fn zero_crossing_rate(samples: &Vec<i32>, lo: usize, hi: usize) -> (r: u32)
    requires
        lo <= hi <= samples@.len(),
        hi - lo <= MAX_BLOCK,
    ensures
        r == zcr_spec(samples@.subrange(lo as int, hi as int)),
        r <= LEVEL_ONE,
{
    if lo == hi {
        return 0;
    }
    let mut count: u64 = 0;
    let mut i: usize = lo + 1;
    proof {
        assert(crossings(samples@.subrange(lo as int, lo as int + 1)) == 0);
    }
    while i < hi
        invariant
            lo < i <= hi <= samples@.len(),
            hi - lo <= MAX_BLOCK,
            count == crossings(samples@.subrange(lo as int, i as int)),
            count <= i - lo - 1,
        decreases hi - i,
    {
        proof {
            let t = samples@.subrange(lo as int, i as int + 1);
            assert(t.drop_last() =~= samples@.subrange(lo as int, i as int));
            assert(t[t.len() - 1] == samples@[i as int]);
            assert(t[t.len() - 2] == samples@[i - 1]);
        }
        if (samples[i] >= 0) != (samples[i - 1] >= 0) {
            count = count + 1;
        }
        i += 1;
    }
    let n = (hi - lo) as u64;
    proof {
        assert((count as int) * 1_000_000 / (n as int) <= 1_000_000) by (nonlinear_arith)
            requires
                count <= n,
                0 < n,
        ;
    }
    (count * (LEVEL_ONE as u64) / n) as u32
}

/// Share of high-frequency energy in the block: the summed jumps between
/// neighbouring samples that exceed 12% of the RMS amplitude, over the summed
/// magnitude, sampled at even indices.
pub fn spectral_brightness(samples: &Vec<i32>, rms: u32) -> (r: u32)
    requires
        samples@.len() <= MAX_BLOCK,
        rms <= LEVEL_ONE,
    ensures
        r == brightness_spec(samples@, rms as int),
        r <= LEVEL_ONE,
{
    if rms < 5000 {
        return 0;
    }
    let n = samples.len();
    let thr: u64 = FULL_SCALE * (rms as u64) * 12 / (100 * (LEVEL_ONE as u64));
    let mut hi_sum: u64 = 0;
    let mut total: u64 = 0;
    let mut j: usize = 2;
    while j < n
        invariant
            n == samples@.len(),
            n <= MAX_BLOCK,
            2 <= j,
            thr == jump_threshold(rms as int),
            n >= 2 ==> j <= n,
            n < 2 ==> j == 2,
            hi_sum == jump_energy(samples@, thr as int, j as int),
            total == even_magnitude(samples@, j as int),
            hi_sum <= (j as int) * 0x1_0000_0000,
            total <= (j as int) * 0x1_0000_0000,
        decreases n - j,
    {
        let d: i64 = samples[j] as i64 - samples[j - 1] as i64;
        let ad: u64 = if d < 0 { (-d) as u64 } else { d as u64 };
        let s: i64 = samples[j] as i64;
        let a: u64 = if s < 0 { (-s) as u64 } else { s as u64 };
        if j % 2 == 0 {
            if ad > thr {
                hi_sum = hi_sum + ad;
            }
            total = total + a;
        }
        j += 1;
    }
    proof {
        if n >= 2 {
            assert(j == n);
        } else {
            assert(jump_energy(samples@, thr as int, n as int) == 0);
            assert(even_magnitude(samples@, n as int) == 0);
            assert(jump_energy(samples@, thr as int, j as int) == 0);
            assert(even_magnitude(samples@, j as int) == 0);
        }
    }
    if total == 0 {
        return 0;
    }
    let ratio: u128 = (hi_sum as u128) * (LEVEL_ONE as u128) / (total as u128);
    if ratio > LEVEL_ONE as u128 {
        LEVEL_ONE
    } else {
        ratio as u32
    }
}

} // verus!
