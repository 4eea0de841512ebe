//! Tests of the spectrum synthesizer: lengths, ordering, aggregates,
//! precursor selection and determinism.

use lc_ms_simulator::rng::NoiseModel;
use lc_ms_simulator::scan::Scan;
use lc_ms_simulator::simulator::{
    calculate_aggregates, generate_spectrum, sort_peaks, ScanGenerator,
};
use rand::rngs::StdRng;
use rand::SeedableRng;

/// The reference noise model: |Normal(0, scale)| drawn from the session's
/// own generator.
struct GaussianNoise;

impl NoiseModel for GaussianNoise {
    fn sample_abs(&mut self, rng: &mut StdRng, scale: u64) -> u64 {
        let normal = rand_distr::Normal::new(0.0, scale as f64).unwrap();
        let v: f64 = rand_distr::Distribution::sample(&normal, rng);
        v.abs() as u64
    }
}

fn check_invariants(scan: &Scan) {
    // Equal lengths.
    assert_eq!(scan.mz_values.len(), scan.intensity_values.len());
    // Sorted ascending.
    for w in scan.mz_values.windows(2) {
        assert!(w[0] <= w[1], "mz values not sorted");
    }
    // Aggregates are exact functions of the arrays.
    if scan.intensity_values.is_empty() {
        assert_eq!(scan.base_peak_mz, 0);
        assert_eq!(scan.base_peak_intensity, 0);
        assert_eq!(scan.total_ion_current, 0);
    } else {
        let tic: u128 = scan.intensity_values.iter().map(|&v| v as u128).sum();
        assert_eq!(scan.total_ion_current, tic);
        let mut max_idx = 0usize;
        for (i, &v) in scan.intensity_values.iter().enumerate() {
            if v > scan.intensity_values[max_idx] {
                max_idx = i;
            }
        }
        assert_eq!(scan.base_peak_intensity, scan.intensity_values[max_idx]);
        assert_eq!(scan.base_peak_mz, scan.mz_values[max_idx]);
    }
}

#[test]
fn aggregates_exact_values() {
    let mz = vec![100u64, 200, 300];
    let ints = vec![5u64, 9, 2];
    let (bpm, bpi, tic) = calculate_aggregates(&mz, &ints);
    assert_eq!(bpm, 200);
    assert_eq!(bpi, 9);
    assert_eq!(tic, 16);
}

#[test]
fn aggregates_first_occurrence_on_tie() {
    let mz = vec![100u64, 200, 300];
    let ints = vec![3u64, 9, 9];
    let (bpm, bpi, tic) = calculate_aggregates(&mz, &ints);
    assert_eq!(bpm, 200);
    assert_eq!(bpi, 9);
    assert_eq!(tic, 21);
}

#[test]
fn aggregates_empty() {
    let mz: Vec<u64> = Vec::new();
    let ints: Vec<u64> = Vec::new();
    assert_eq!(calculate_aggregates(&mz, &ints), (0, 0, 0));
}

#[test]
fn sort_peaks_sorts_and_permutes() {
    let v = vec![(5u64, 50u64), (1, 10), (3, 30), (3, 31), (2, 20)];
    let r = sort_peaks(v.clone());
    assert_eq!(r.len(), v.len());
    for w in r.windows(2) {
        assert!(w[0].0 <= w[1].0);
    }
    let mut a = v.clone();
    let mut b = r.clone();
    a.sort();
    b.sort();
    assert_eq!(a, b);
    // Stable: the two peaks with equal m/z keep their relative order.
    assert_eq!(r[2], (3, 30));
    assert_eq!(r[3], (3, 31));
}

#[test]
fn spectrum_exact_length_and_order() {
    let mut rng = StdRng::seed_from_u64(7);
    let mut noise = GaussianNoise;
    let (mz, ints) = generate_spectrum(
        &mut rng,
        &mut noise,
        100,
        200_000_000,
        2_000_000_000,
        1_000_000,
        100_000_000,
    );
    assert_eq!(mz.len(), 100);
    assert_eq!(ints.len(), 100);
    for w in mz.windows(2) {
        assert!(w[0] <= w[1]);
    }
    for &m in &mz {
        assert!(m >= 200_000_000);
        assert!(m < 2_000_000_000 + 2 * 1_003_355);
    }
    for &v in &ints {
        assert!(v >= 10_000);
        assert!(v <= 100_000_000);
    }
}

#[test]
fn spectrum_small_count_is_noise_only() {
    let mut rng = StdRng::seed_from_u64(3);
    let mut noise = GaussianNoise;
    let (mz, ints) = generate_spectrum(
        &mut rng,
        &mut noise,
        3,
        200_000_000,
        2_000_000_000,
        1_000_000,
        100_000_000,
    );
    assert_eq!(mz.len(), 3);
    assert_eq!(ints.len(), 3);
    // Noise peaks stay inside the window proper: no isotope extension.
    for &m in &mz {
        assert!(m >= 200_000_000 && m < 2_000_000_000);
    }
}

#[test]
fn ms1_scan_fields_and_counter() {
    let mut gen = ScanGenerator::with_seed(42);
    let mut noise = GaussianNoise;
    let s1 = gen.generate_ms1(&mut noise, 200_000_000, 2_000_000_000, Some(50));
    assert_eq!(s1.scan_number, 1);
    assert_eq!(s1.ms_order, 1);
    assert_eq!(s1.retention_time_ms, 0);
    assert_eq!(s1.mz_values.len(), 50);
    assert_eq!(s1.analyzer, "Orbitrap");
    assert_eq!(s1.resolution_at_mz200, 120_000);
    assert_eq!(s1.mass_accuracy_tenth_ppm, 30);
    assert!(s1.precursor_mass.is_none());
    assert!(s1.precursor_charge.is_none());
    assert!(s1.precursor_intensity.is_none());
    check_invariants(&s1);
    assert_eq!(gen.retention_time_ms, 500);
    let s2 = gen.generate_ms1(&mut noise, 200_000_000, 2_000_000_000, Some(50));
    assert_eq!(s2.scan_number, 2);
    assert_eq!(s2.retention_time_ms, 500);
    check_invariants(&s2);
}

#[test]
fn ms1_random_band() {
    let mut gen = ScanGenerator::with_seed(9);
    let mut noise = GaussianNoise;
    let s = gen.generate_ms1(&mut noise, 200_000_000, 2_000_000_000, None);
    assert!(s.mz_values.len() >= 500 && s.mz_values.len() < 2000);
    check_invariants(&s);
}

#[test]
fn ms2_scan_fields_and_fragment_window() {
    let mut gen = ScanGenerator::with_seed(42);
    let mut noise = GaussianNoise;
    let ms1 = gen.generate_ms1(&mut noise, 200_000_000, 2_000_000_000, Some(100));
    let (pmz, pint) = gen.select_precursor(&ms1);
    let ms2 = gen.generate_ms2(&mut noise, pmz, pint, Some(40));
    assert_eq!(ms2.scan_number, 2);
    assert_eq!(ms2.ms_order, 2);
    // The retention-time clock advanced with the parent MS1 and the MS2
    // carries that advanced value.
    assert_eq!(ms2.retention_time_ms, ms1.retention_time_ms + 500);
    assert_eq!(ms2.mz_values.len(), 40);
    assert_eq!(ms2.precursor_mass, Some(pmz));
    assert_eq!(ms2.precursor_intensity, Some(pint));
    let charge = ms2.precursor_charge.unwrap();
    assert!((2..=4).contains(&charge));
    assert_eq!(ms2.isolation_width_milli, Some(1600));
    assert_eq!(ms2.collision_energy, Some(30));
    assert_eq!(ms2.resolution_at_mz200, 30_000);
    assert_eq!(ms2.mass_accuracy_tenth_ppm, 50);
    check_invariants(&ms2);
    // Fragments lie between 100 Da and 95% of the precursor m/z, up to the
    // isotopic extension.
    for &m in &ms2.mz_values {
        assert!(m >= 100_000_000);
        assert!(m < pmz * 95 / 100 + 2 * 1_003_355);
    }
}

#[test]
fn select_precursor_empty_spectrum_fallback() {
    let mut gen = ScanGenerator::with_seed(5);
    let mut noise = GaussianNoise;
    let empty = gen.generate_ms1(&mut noise, 200_000_000, 2_000_000_000, Some(0));
    assert!(empty.mz_values.is_empty());
    check_invariants(&empty);
    let (pmz, pint) = gen.select_precursor(&empty);
    assert_eq!(pmz, 500_000_000);
    assert_eq!(pint, 1_000_000);
}

#[test]
fn select_precursor_returns_an_actual_peak() {
    let mut gen = ScanGenerator::with_seed(8);
    let mut noise = GaussianNoise;
    let ms1 = gen.generate_ms1(&mut noise, 200_000_000, 2_000_000_000, Some(60));
    for _ in 0..10 {
        let (pmz, pint) = gen.select_precursor(&ms1);
        let found = ms1
            .mz_values
            .iter()
            .zip(ms1.intensity_values.iter())
            .any(|(&m, &v)| m == pmz && v == pint);
        assert!(found, "precursor is not a peak of the spectrum");
    }
}

#[test]
fn select_precursor_prefers_intense_peaks() {
    let mut gen = ScanGenerator::with_seed(11);
    let mut noise = GaussianNoise;
    let ms1 = gen.generate_ms1(&mut noise, 200_000_000, 2_000_000_000, Some(200));
    // The chosen peak is always among the 20 most intense.
    let mut sorted = ms1.intensity_values.clone();
    sorted.sort_unstable_by(|a, b| b.cmp(a));
    let threshold = sorted[19];
    for _ in 0..20 {
        let (_, pint) = gen.select_precursor(&ms1);
        assert!(pint >= threshold);
    }
}

#[test]
fn seeded_runs_are_identical() {
    let mut a = ScanGenerator::with_seed(1234);
    let mut b = ScanGenerator::with_seed(1234);
    let mut na = GaussianNoise;
    let mut nb = GaussianNoise;
    for _ in 0..3 {
        let sa = a.generate_ms1(&mut na, 200_000_000, 2_000_000_000, None);
        let sb = b.generate_ms1(&mut nb, 200_000_000, 2_000_000_000, None);
        assert_eq!(sa.scan_number, sb.scan_number);
        assert_eq!(sa.mz_values, sb.mz_values);
        assert_eq!(sa.intensity_values, sb.intensity_values);
        assert_eq!(sa.base_peak_mz, sb.base_peak_mz);
        assert_eq!(sa.base_peak_intensity, sb.base_peak_intensity);
        assert_eq!(sa.total_ion_current, sb.total_ion_current);
        let (pa, ia) = a.select_precursor(&sa);
        let (pb, ib) = b.select_precursor(&sb);
        assert_eq!((pa, ia), (pb, ib));
        let fa = a.generate_ms2(&mut na, pa, ia, None);
        let fb = b.generate_ms2(&mut nb, pb, ib, None);
        assert_eq!(fa.mz_values, fb.mz_values);
        assert_eq!(fa.intensity_values, fb.intensity_values);
        assert_eq!(fa.precursor_mass, fb.precursor_mass);
        assert_eq!(fa.precursor_charge, fb.precursor_charge);
        assert_eq!(fa.precursor_intensity, fb.precursor_intensity);
    }
}

#[test]
fn different_seeds_differ() {
    let mut a = ScanGenerator::with_seed(1);
    let mut b = ScanGenerator::with_seed(2);
    let mut na = GaussianNoise;
    let mut nb = GaussianNoise;
    let sa = a.generate_ms1(&mut na, 200_000_000, 2_000_000_000, Some(100));
    let sb = b.generate_ms1(&mut nb, 200_000_000, 2_000_000_000, Some(100));
    assert_ne!(sa.mz_values, sb.mz_values);
}
