use audio_leds::agc::{AgcState, GAIN_MAX, GAIN_MIN, GAIN_ONE};
use audio_leds::audio::{
    apply_noise_gate, band_fractions, beat_intensity, decode_samples, generate_simple_bins, is_peak, smooth,
    AudioProcessor, BUFFER_SIZE, NOISE_FLOOR, NUM_BINS,
};
use audio_leds::signal::{isqrt, remove_dc_offset, rms_level, zero_crossing_rate, LEVEL_ONE};

#[test]
fn integer_square_root() {
    assert_eq!(isqrt(0), 0);
    assert_eq!(isqrt(15), 3);
    assert_eq!(isqrt(16), 4);
    assert_eq!(isqrt(u64::MAX), 4294967295);
}

#[test]
fn dc_offset_is_removed() {
    let mut a = vec![10, 20, 30];
    remove_dc_offset(&mut a);
    assert_eq!(a, vec![-10, 0, 10]);
    let mut b = vec![-3, -4];
    remove_dc_offset(&mut b);
    assert_eq!(b, vec![0, -1]);
    let mut c = vec![i32::MIN, i32::MAX];
    remove_dc_offset(&mut c);
    assert_eq!(c, vec![i32::MIN, i32::MAX]);
}

#[test]
fn rms_of_full_and_half_scale() {
    let full = vec![i32::MAX; 4];
    assert_eq!(rms_level(&full, 0, 4), LEVEL_ONE);
    let half = vec![1073741823; 8];
    assert_eq!(rms_level(&half, 0, 8), 499999);
    let mixed = vec![0, 0, i32::MAX, i32::MAX];
    assert_eq!(rms_level(&mixed, 2, 4), LEVEL_ONE);
    assert_eq!(rms_level(&mixed, 0, 2), 0);
}

#[test]
fn bins_are_weighted_rms_without_cap() {
    let samples = vec![i32::MAX; 256];
    let bins = generate_simple_bins(&samples);
    assert_eq!(bins[0], 1_600_000);
    assert_eq!(bins[4], 1_200_000);
    assert_eq!(bins[7], 500_000);
    let quiet = vec![1_000; 256];
    let q = generate_simple_bins(&quiet);
    assert_eq!(q[0], 0);
    let faint = vec![2_000_000; 64];
    assert_eq!(generate_simple_bins(&faint)[1], 1_489);
}

#[test]
fn empty_inputs_are_harmless() {
    let mut none: Vec<i32> = Vec::new();
    remove_dc_offset(&mut none);
    assert!(none.is_empty());
    let v = vec![5, 6];
    assert_eq!(rms_level(&v, 1, 1), 0);
    assert_eq!(zero_crossing_rate(&v, 2, 2), 0);
}

#[test]
fn zero_crossings() {
    let alt = vec![1, -1, 1, -1];
    assert_eq!(zero_crossing_rate(&alt, 0, 4), 750_000);
    let flat = vec![0, 5, 7, 9];
    assert_eq!(zero_crossing_rate(&flat, 0, 4), 0);
}

#[test]
fn samples_decode_little_endian() {
    let bytes = vec![1, 0, 0, 0, 0xff, 0xff, 0xff, 0xff, 0, 0, 0, 0x80, 9];
    assert_eq!(decode_samples(&bytes), vec![1, -1, i32::MIN]);
}

#[test]
fn smoothing_is_exponential_average() {
    assert_eq!(smooth(0, 1_000_000, 200), 200_000);
    assert_eq!(smooth(500_000, 0, 150), 425_000);
    assert_eq!(smooth(300_000, 300_000, 999), 300_000);
}

#[test]
fn noise_gate_silences_below_floor_and_is_idempotent() {
    assert_eq!(apply_noise_gate(2999, NOISE_FLOOR), 0);
    assert_eq!(apply_noise_gate(3000, NOISE_FLOOR), 3000);
    for v in [0u32, 1, 2999, 3000, 50_000] {
        let once = apply_noise_gate(v, NOISE_FLOOR);
        assert_eq!(apply_noise_gate(once, NOISE_FLOOR), once);
    }
}

#[test]
fn band_shares_sum_to_one() {
    assert_eq!(band_fractions(1, 1, 1), (333_333, 333_333, 333_334));
    assert_eq!(band_fractions(2, 0, 0), (1_000_000, 0, 0));
    for (b, m, t) in [(931_322u64, 186_264u64, 0u64), (5, 7, 11), (1, 0, 999_999)] {
        let (x, y, z) = band_fractions(b, m, t);
        assert_eq!(x + y + z, LEVEL_ONE);
    }
}

#[test]
fn beat_strength() {
    let hist = [100_000u32; 8];
    assert_eq!(beat_intensity(500_000, &hist), LEVEL_ONE);
    assert_eq!(beat_intensity(150_000, &hist), 71_428);
    assert_eq!(beat_intensity(120_000, &hist), 0);
    let quiet = [10_000u32; 8];
    assert_eq!(beat_intensity(900_000, &quiet), 0);
}

#[test]
fn peak_predicate() {
    let flat = [100u32; 6];
    assert!(is_peak(300, &flat, 120, 200));
    assert!(!is_peak(100, &flat, 120, 200));
    let spike = [300u32, 0, 0, 0, 0, 0];
    assert!(!is_peak(250, &spike, 300, 200));
    assert!(is_peak(280, &spike, 300, 200));
    assert!(!is_peak(1_000, &[], 0, 0));
}

#[test]
fn bins_of_short_block_are_zero() {
    let samples = vec![1_000_000_000; 40];
    let bins = generate_simple_bins(&samples);
    assert_eq!(bins[0], 745_057);
    for b in bins.iter().skip(1) {
        assert_eq!(*b, 0);
    }
    assert_eq!(bins.len(), NUM_BINS);
}

#[test]
fn agc_convergence() {
    let mut agc = AgcState::new(700_000);
    for _ in 0..200 {
        agc.update(300_000);
    }
    let g = agc.gain() as i64;
    assert!((g - 2333).abs() <= 10, "gain {}", g);
}

#[test]
fn agc_clamps_at_largest_gain() {
    let mut agc = AgcState::new(700_000);
    for _ in 0..200 {
        agc.update(1_000);
    }
    assert_eq!(agc.gain(), GAIN_MAX);
}

#[test]
fn agc_skips_silent_history() {
    let mut agc = AgcState::new(700_000);
    agc.update(0);
    agc.update(50);
    assert_eq!(agc.gain(), GAIN_ONE);
}

#[test]
fn agc_gain_stays_bounded() {
    let mut agc = AgcState::new(700_000);
    let mut x: u64 = 12345;
    for _ in 0..2000 {
        x = x.wrapping_mul(6364136223846793005).wrapping_add(1442695040888963407);
        let level = ((x >> 33) % (LEVEL_ONE as u64 + 1)) as u32;
        let level = if (x >> 20) % 3 == 0 { level / 1000 } else { level };
        agc.update(level);
        assert!(agc.gain() >= GAIN_MIN && agc.gain() <= GAIN_MAX);
    }
}

#[test]
fn undersized_block_changes_nothing() {
    let mut p = AudioProcessor::new();
    let mut block = vec![1_000_000_000; BUFFER_SIZE - 1];
    p.process_block(&mut block);
    let s = p.snapshot();
    assert_eq!((s.volume, s.bass, s.mid, s.treble), (0, 0, 0, 0));
    assert_eq!(block, vec![1_000_000_000; BUFFER_SIZE - 1]);
    assert_eq!(p.gain(), GAIN_ONE);
}

#[test]
fn empty_block_changes_nothing() {
    let mut p = AudioProcessor::new();
    let mut block: Vec<i32> = Vec::new();
    p.process_block(&mut block);
    let s = p.snapshot();
    assert_eq!((s.volume, s.bass, s.mid, s.treble), (0, 0, 0, 0));
    assert_eq!(p.gain(), GAIN_ONE);
}

#[test]
fn one_block_of_low_tone() {
    let mut p = AudioProcessor::new();
    let mut block: Vec<i32> = (0..256).map(|i| if (i / 64) % 2 == 0 { 1_000_000_000 } else { -1_000_000_000 }).collect();
    p.process_block(&mut block);
    assert_eq!(p.gain(), 1050);
    let s = p.snapshot();
    assert_eq!(s.volume, 130_384);
    assert!(s.bass > s.mid);
    assert_eq!(s.treble, 0);
    assert!(s.bins.iter().all(|b| *b <= LEVEL_ONE));
}
