//! Spectrum synthesis: joint sorting of peak lists, exact aggregates, and
//! the scan generator that builds MS1/MS2 records.

use vstd::prelude::*;
use vstd::seq_lib::group_to_multiset_ensures;
use vstd::arithmetic::div_mod::lemma_div_is_ordered;

use crate::scan::{
    seq_sum, sorted_le, is_base_peak_index, scan_wf, Scan, FragmentationKind, IonPolarity,
    ISOTOPE_SPACING_MICRO,
};
use crate::rng::{NoiseModel, rng_range, rng_ratio, rng_from_entropy, rng_from_seed};

verus! {

/// A peak list under construction: pairs of (m/z in micro-daltons, intensity).
pub open spec fn sorted_by_mz(s: Seq<(u64, u64)>) -> bool {
    forall|i: int, j: int| 0 <= i <= j < s.len() ==> s[i].0 <= s[j].0
}

proof fn lemma_seq_sum_take(s: Seq<u64>, i: int)
    requires
        0 <= i < s.len(),
    ensures
        seq_sum(s.take(i + 1)) == seq_sum(s.take(i)) + s[i],
{
    assert(s.take(i + 1).drop_last() =~= s.take(i));
    assert(s.take(i + 1).last() == s[i]);
}

proof fn lemma_seq_sum_bound(s: Seq<u64>)
    ensures
        0 <= seq_sum(s) <= s.len() * (u64::MAX as int),
    decreases s.len(),
{
    if s.len() == 0 {
    } else {
        lemma_seq_sum_bound(s.drop_last());
        assert((s.len() - 1) * (u64::MAX as int) + (u64::MAX as int) == s.len() * (
        u64::MAX as int)) by (nonlinear_arith);
    }
}

proof fn lemma_to_multiset_insert<A>(s: Seq<A>, i: int, x: A)
    requires
        0 <= i <= s.len(),
    ensures
        s.insert(i, x).to_multiset() =~= s.to_multiset().insert(x),
{
    broadcast use group_to_multiset_ensures;

    let t = s.insert(i, x);
    assert(t.remove(i) =~= s);
    assert(t[i] == x);
    assert(s.to_multiset() =~= t.to_multiset().remove(x));
    assert(t.contains(x));
    assert(t.to_multiset().count(x) > 0);
    assert(t.to_multiset().remove(x).insert(x) =~= t.to_multiset());
}

/// Sort a peak list by ascending m/z, keeping each (m/z, intensity) pair
/// together. Insertion places a peak after any equal m/z already present,
/// so the permutation is stable.
pub fn sort_peaks(v: Vec<(u64, u64)>) -> (r: Vec<(u64, u64)>)
    ensures
        sorted_by_mz(r@),
        r@.to_multiset() == v@.to_multiset(),
        r@.len() == v@.len(),
{
    let mut out: Vec<(u64, u64)> = Vec::new();
    let n = v.len();
    proof {
        assert(v@.take(0) =~= Seq::<(u64, u64)>::empty());
        assert(out@.to_multiset() =~= v@.take(0).to_multiset());
    }
    for k in 0..n
        invariant
            n == v@.len(),
            out@.len() == k,
            sorted_by_mz(out@),
            out@.to_multiset() == v@.take(k as int).to_multiset(),
    {
        let x = v[k];
        let mut p: usize = 0;
        while p < out.len() && out[p].0 <= x.0
            invariant
                p <= out@.len(),
                forall|q: int| 0 <= q < p ==> out@[q].0 <= x.0,
            decreases out@.len() - p,
        {
            p = p + 1;
        }
        proof {
            lemma_to_multiset_insert(out@, p as int, x);
            assert(v@.take(k as int).push(x) =~= v@.take(k + 1));
            broadcast use group_to_multiset_ensures;

            assert(v@.take(k as int).to_multiset().insert(x) =~= v@.take(k + 1).to_multiset());
        }
        out.insert(p, x);
    }
    proof {
        assert(v@.take(n as int) =~= v@);
    }
    out
}

/// Split a sorted peak list into the two parallel arrays a scan carries.
pub fn unzip_peaks(v: &Vec<(u64, u64)>) -> (r: (Vec<u64>, Vec<u64>))
    ensures
        r.0@.len() == v@.len(),
        r.1@.len() == v@.len(),
        forall|i: int| 0 <= i < v@.len() ==> r.0@[i] == v@[i].0 && r.1@[i] == v@[i].1,
{
    let mut mz: Vec<u64> = Vec::new();
    let mut ints: Vec<u64> = Vec::new();
    let n = v.len();
    for k in 0..n
        invariant
            n == v@.len(),
            mz@.len() == k,
            ints@.len() == k,
            forall|i: int| 0 <= i < k ==> mz@[i] == v@[i].0 && ints@[i] == v@[i].1,
    {
        mz.push(v[k].0);
        ints.push(v[k].1);
    }
    (mz, ints)
}

/// Every peak of a synthetic spectrum lies in the m/z window (widened above
/// by up to two isotope spacings) and in the intensity band (widened below
/// to the noise floor, one hundredth of the band minimum).
pub open spec fn peaks_in_bounds(
    s: Seq<(u64, u64)>,
    min_mz: u64,
    max_mz: u64,
    min_int: u64,
    max_int: u64,
) -> bool {
    forall|i: int|
        0 <= i < s.len() ==> {
            &&& min_mz <= s[i].0
            &&& s[i].0 < max_mz + 2 * ISOTOPE_SPACING_MICRO
            &&& min_int / 100 <= s[i].1 <= max_int
        }
}

proof fn lemma_isotope_intensity_bounds(base: int, frac: int, min_int: int, max_int: int)
    requires
        0 <= min_int <= base,
        base < max_int,
        100 <= frac < 1000,
        max_int <= u64::MAX as int / 1000,
    ensures
        min_int / 100 <= (base * frac) / 1000 <= max_int,
        0 <= base * frac <= u64::MAX,
{
    assert(base * frac <= max_int * 1000) by (nonlinear_arith)
        requires
            0 <= base < max_int,
            0 < frac < 1000,
    ;
    assert(max_int * 1000 <= (u64::MAX as int / 1000) * 1000 <= u64::MAX) by (nonlinear_arith)
        requires
            max_int <= u64::MAX as int / 1000,
    ;
    assert(base * frac >= 0) by (nonlinear_arith)
        requires
            0 <= base && 0 <= frac,
    ;
    // Upper bound: base * frac <= base * 1000, so the quotient is at most base.
    assert(base * frac <= base * 1000) by (nonlinear_arith)
        requires
            0 <= base && frac < 1000,
    ;
    lemma_div_is_ordered(base * frac, base * 1000, 1000);
    vstd::arithmetic::div_mod::lemma_div_multiples_vanish(base, 1000);
    // Lower bound: (min_int / 100) * 1000 <= min_int * 10 <= min_int * 100 <= base * frac.
    assert((min_int / 100) * 100 <= min_int) by (nonlinear_arith)
        requires
            0 <= min_int,
    ;
    assert((min_int / 100) * 1000 <= min_int * 10) by (nonlinear_arith)
        requires
            (min_int / 100) * 100 <= min_int,
    ;
    assert(min_int * 100 <= base * frac) by (nonlinear_arith)
        requires
            0 <= min_int <= base && 100 <= frac,
    ;
    assert(min_int * 10 <= min_int * 100) by (nonlinear_arith)
        requires
            0 <= min_int,
    ;
    lemma_div_is_ordered((min_int / 100) * 1000, base * frac, 1000);
    vstd::arithmetic::div_mod::lemma_div_multiples_vanish(min_int / 100, 1000);
}

/// Builds one synthetic spectrum: about a fifth of the peaks are base peaks,
/// each followed by a chance A+1 and A+2 isotope peak, the rest is noise
/// fill, and the result is sorted ascending by m/z. Returns exactly
/// `peak_count` pairs of (m/z, intensity) split into two parallel arrays.
#[verifier::loop_isolation(false)]
pub fn generate_spectrum<NM: NoiseModel>(
    rng: &mut rand::rngs::StdRng,
    noise: &mut NM,
    peak_count: usize,
    min_mz: u64,
    max_mz: u64,
    min_intensity: u64,
    max_intensity: u64,
) -> (r: (Vec<u64>, Vec<u64>))
    requires
        min_mz < max_mz,
        max_mz + 2 * ISOTOPE_SPACING_MICRO <= u64::MAX,
        min_intensity < max_intensity,
        max_intensity <= u64::MAX as int / 1000,
    ensures
        r.0@.len() == peak_count,
        r.1@.len() == peak_count,
        sorted_le(r.0@),
        forall|i: int|
            0 <= i < peak_count ==> min_mz <= r.0@[i] && r.0@[i] < max_mz + 2
                * ISOTOPE_SPACING_MICRO,
        forall|i: int|
            0 <= i < peak_count ==> min_intensity / 100 <= #[trigger] r.1@[i] <= max_intensity,
{
    let mut peaks: Vec<(u64, u64)> = Vec::new();
    let base_peak_count = peak_count / 5;
    let mut b: usize = 0;
    while b < base_peak_count
        invariant
            b <= base_peak_count,
            peaks@.len() <= 3 * b,
            peaks_in_bounds(peaks@, min_mz, max_mz, min_intensity, max_intensity),
        decreases base_peak_count - b,
    {
        let base_mz = rng_range(rng, min_mz, max_mz);
        let base_intensity = rng_range(rng, min_intensity, max_intensity);
        proof {
            assert(min_intensity / 100 <= min_intensity) by (nonlinear_arith);
        }
        peaks.push((base_mz, base_intensity));
        if rng_ratio(rng, 8, 10) {
            let frac = rng_range(rng, 400, 800);
            proof {
                lemma_isotope_intensity_bounds(
                    base_intensity as int,
                    frac as int,
                    min_intensity as int,
                    max_intensity as int,
                );
            }
            peaks.push((base_mz + ISOTOPE_SPACING_MICRO, (base_intensity * frac) / 1000));
        }
        if rng_ratio(rng, 6, 10) {
            let frac = rng_range(rng, 100, 400);
            proof {
                lemma_isotope_intensity_bounds(
                    base_intensity as int,
                    frac as int,
                    min_intensity as int,
                    max_intensity as int,
                );
            }
            peaks.push((base_mz + 2 * ISOTOPE_SPACING_MICRO, (base_intensity * frac) / 1000));
        }
        b = b + 1;
    }
    proof {
        assert(5 * (peak_count as int / 5) <= peak_count) by (nonlinear_arith);
    }
    while peaks.len() < peak_count
        invariant
            peaks@.len() <= peak_count,
            peaks_in_bounds(peaks@, min_mz, max_mz, min_intensity, max_intensity),
        decreases peak_count - peaks@.len(),
    {
        let mzv = rng_range(rng, min_mz, max_mz);
        let raw = noise.sample_abs(rng, min_intensity / 10);
        let floor_val = min_intensity / 100;
        proof {
            assert(floor_val <= min_intensity) by (nonlinear_arith)
                requires
                    floor_val == min_intensity as int / 100,
            ;
        }
        let cap = max_intensity - floor_val;
        let mag = if raw > cap {
            cap
        } else {
            raw
        };
        peaks.push((mzv, floor_val + mag));
    }
    let sorted = sort_peaks(peaks);
    proof {
        broadcast use group_to_multiset_ensures;

        assert forall|i: int| 0 <= i < sorted@.len() implies {
            &&& min_mz <= sorted@[i].0
            &&& sorted@[i].0 < max_mz + 2 * ISOTOPE_SPACING_MICRO
            &&& min_intensity / 100 <= sorted@[i].1 <= max_intensity
        } by {
            assert(sorted@.contains(sorted@[i]));
            assert(sorted@.to_multiset().count(sorted@[i]) > 0);
        }
    }
    unzip_peaks(&sorted)
}

/// Base peak and total ion current of a spectrum: the TIC is the exact sum
/// of the intensities, the base peak is the first index of the maximal
/// intensity, and an empty spectrum yields zeros.
pub fn calculate_aggregates(mz_values: &Vec<u64>, intensity_values: &Vec<u64>) -> (r: (
    u64,
    u64,
    u128,
))
    requires
        mz_values@.len() == intensity_values@.len(),
    ensures
        intensity_values@.len() == 0 ==> r == (0u64, 0u64, 0u128),
        intensity_values@.len() > 0 ==> {
            &&& r.2 == seq_sum(intensity_values@)
            &&& exists|i: int|
                is_base_peak_index(intensity_values@, i) && r.0 == mz_values@[i] && r.1
                    == intensity_values@[i]
        },
{
    let n = intensity_values.len();
    if n == 0 {
        return (0, 0, 0);
    }
    let mut max_idx: usize = 0;
    let mut tic: u128 = 0;
    proof {
        assert(intensity_values@.take(0) =~= Seq::<u64>::empty());
    }
    let mut i: usize = 0;
    while i < n
        invariant
            n == intensity_values@.len(),
            mz_values@.len() == intensity_values@.len(),
            0 < n,
            i <= n,
            max_idx < n,
            i > 0 ==> max_idx < i,
            i == 0 ==> max_idx == 0,
            forall|j: int| 0 <= j < i ==> intensity_values@[j] <= intensity_values@[max_idx as int],
            forall|j: int|
                0 <= j < max_idx ==> intensity_values@[j] < intensity_values@[max_idx as int],
            tic as int == seq_sum(intensity_values@.take(i as int)),
        decreases n - i,
    {
        let v = intensity_values[i];
        proof {
            lemma_seq_sum_take(intensity_values@, i as int);
            lemma_seq_sum_bound(intensity_values@.take(i as int));
            assert((i as int) * (u64::MAX as int) + (u64::MAX as int) < (u64::MAX as int + 1) * (
            u64::MAX as int + 1)) by (nonlinear_arith)
                requires
                    0 <= i as int <= u64::MAX as int,
            ;
        }
        tic = tic + v as u128;
        if v > intensity_values[max_idx] {
            max_idx = i;
        }
        i = i + 1;
    }
    proof {
        assert(intensity_values@.take(n as int) =~= intensity_values@);
        assert(is_base_peak_index(intensity_values@, max_idx as int));
    }
    (mz_values[max_idx], intensity_values[max_idx], tic)
}

} // verus!

verus! {

/// Intensity band of MS1 survey scans, in detector counts.
pub const MS1_MIN_INTENSITY: u64 = 1_000_000;

/// Upper end of the MS1 intensity band.
pub const MS1_MAX_INTENSITY: u64 = 100_000_000;

/// Fixed retention-time advance per acquisition cycle: 0.5 s, in ms.
pub const CYCLE_RT_ADVANCE_MS: u64 = 500;

/// Lower edge of the MS2 fragment window: 100 Da, in micro-daltons.
pub const MS2_MIN_MZ: u64 = 100_000_000;

/// Largest m/z the synthesizer accepts, in micro-daltons (ten million
/// daltons, far above any instrument range; keeps all products in machine
/// range).
pub const MZ_MICRO_CAP: u64 = 10_000_000_000_000;

/// Relies on std's `SystemTime::now`, `SystemTime::duration_since` and
/// `Duration::as_millis`: wall-clock milliseconds since the Unix epoch, or
/// 0 for a clock reading before the epoch. Nothing is promised of the
/// value.
#[verifier::external_body]
fn unix_epoch_millis() -> u128 {
    match std::time::SystemTime::now().duration_since(std::time::UNIX_EPOCH) {
        Ok(d) => d.as_millis(),
        Err(_) => 0,
    }
}

/// The wall clock at emission, in milliseconds since the Unix epoch,
/// saturated into the non-negative range of `i64`.
pub fn current_timestamp_ms() -> (r: i64)
    ensures
        r >= 0,
{
    let ms = unix_epoch_millis();
    if ms > i64::MAX as u128 {
        i64::MAX
    } else {
        ms as i64
    }
}

/// Generates plausible mass-spectrometry scans; owns the scan counter, the
/// retention-time clock and the random generator of one session.
pub struct ScanGenerator {
    /// Number of scans emitted so far; the next scan is numbered one higher.
    pub scan_number: i32,
    /// Chromatographic clock in milliseconds; advances with each MS1 scan.
    pub retention_time_ms: u64,
    /// Source of all draws of the session.
    pub random: rand::rngs::StdRng,
}

/// The generator's counters are consistent: the retention-time clock has
/// advanced at most once per emitted scan.
pub open spec fn gen_wf(g: ScanGenerator) -> bool {
    &&& 0 <= g.scan_number
    &&& g.retention_time_ms <= 500 * (g.scan_number as int)
}

impl ScanGenerator {
    /// A fresh generator seeded from the operating system's entropy.
    pub fn new() -> (g: ScanGenerator)
        ensures
            g.scan_number == 0,
            g.retention_time_ms == 0,
            gen_wf(g),
    {
        ScanGenerator { scan_number: 0, retention_time_ms: 0, random: rng_from_entropy() }
    }

    /// A fresh generator with a deterministic draw sequence for the seed.
    pub fn with_seed(seed: u64) -> (g: ScanGenerator)
        ensures
            g.scan_number == 0,
            g.retention_time_ms == 0,
            gen_wf(g),
    {
        ScanGenerator { scan_number: 0, retention_time_ms: 0, random: rng_from_seed(seed) }
    }

    /// One MS1 (survey) scan over the configured m/z window: the peak count
    /// is the override or a draw from [500, 2000), the spectrum is sorted
    /// with exact aggregates, and the retention-time clock advances by half
    /// a second afterwards.
    pub fn generate_ms1<NM: NoiseModel>(
        &mut self,
        noise: &mut NM,
        min_mz: u64,
        max_mz: u64,
        peak_count_override: Option<usize>,
    ) -> (s: Scan)
        requires
            gen_wf(*old(self)),
            old(self).scan_number < i32::MAX,
            min_mz < max_mz,
            max_mz <= MZ_MICRO_CAP,
        ensures
            gen_wf(*final(self)),
            final(self).scan_number == old(self).scan_number + 1,
            final(self).retention_time_ms == old(self).retention_time_ms + CYCLE_RT_ADVANCE_MS,
            scan_wf(s),
            s.scan_number == old(self).scan_number + 1,
            s.ms_order == 1,
            s.retention_time_ms == old(self).retention_time_ms,
            peak_count_override is Some ==> s.mz_values@.len() == peak_count_override->0,
            peak_count_override is None ==> 500 <= s.mz_values@.len() < 2000,
            forall|i: int|
                0 <= i < s.mz_values@.len() ==> min_mz <= #[trigger] s.mz_values@[i] && s.mz_values@[i]
                    < max_mz + 2 * ISOTOPE_SPACING_MICRO,
            forall|i: int|
                0 <= i < s.intensity_values@.len() ==> MS1_MIN_INTENSITY / 100
                    <= #[trigger] s.intensity_values@[i] <= MS1_MAX_INTENSITY,
            s.analyzer@ == "Orbitrap"@,
            s.resolution_at_mz200 == 120000,
            s.mass_accuracy_tenth_ppm == 30,
            s.fragmentation == FragmentationKind::Unknown,
            s.timestamp_ms >= 0,
    {
        self.scan_number = self.scan_number + 1;
        let peak_count: usize = match peak_count_override {
            Some(n) => n,
            None => rng_range(&mut self.random, 500, 2000) as usize,
        };
        let (mz_values, intensity_values) = generate_spectrum(
            &mut self.random,
            noise,
            peak_count,
            min_mz,
            max_mz,
            MS1_MIN_INTENSITY,
            MS1_MAX_INTENSITY,
        );
        let (base_peak_mz, base_peak_intensity, tic) = calculate_aggregates(
            &mz_values,
            &intensity_values,
        );
        let scan = Scan {
            scan_number: self.scan_number,
            ms_order: 1,
            retention_time_ms: self.retention_time_ms,
            mz_values,
            intensity_values,
            base_peak_mz,
            base_peak_intensity,
            total_ion_current: tic,
            precursor_mass: None,
            precursor_charge: None,
            precursor_intensity: None,
            isolation_width_milli: None,
            collision_energy: None,
            fragmentation: FragmentationKind::Unknown,
            analyzer: "Orbitrap".to_owned(),
            resolution_at_mz200: 120000,
            mass_accuracy_tenth_ppm: 30,
            polarity: IonPolarity::Positive,
            timestamp_ms: current_timestamp_ms(),
        };
        self.retention_time_ms = self.retention_time_ms + CYCLE_RT_ADVANCE_MS;
        scan
    }

    /// One MS2 (fragmentation) scan of a selected precursor: fragments lie
    /// between 100 Da and 95% of the precursor m/z (plus isotope spacing),
    /// intensities between 1% and 50% of the precursor intensity, the charge
    /// is drawn from {2, 3, 4}, and the retention-time clock does not
    /// advance (it advanced with the parent MS1).
    pub fn generate_ms2<NM: NoiseModel>(
        &mut self,
        noise: &mut NM,
        precursor_mz: u64,
        precursor_intensity: u64,
        peak_count_override: Option<usize>,
    ) -> (s: Scan)
        requires
            gen_wf(*old(self)),
            old(self).scan_number < i32::MAX,
            MS2_MIN_MZ < precursor_mz * 95 / 100,
            precursor_mz <= MZ_MICRO_CAP + 2 * ISOTOPE_SPACING_MICRO,
            2 <= precursor_intensity <= u64::MAX as int / 500,
        ensures
            gen_wf(*final(self)),
            final(self).scan_number == old(self).scan_number + 1,
            final(self).retention_time_ms == old(self).retention_time_ms,
            scan_wf(s),
            s.scan_number == old(self).scan_number + 1,
            s.ms_order == 2,
            s.retention_time_ms == old(self).retention_time_ms,
            s.precursor_mass == Some(precursor_mz),
            s.precursor_intensity == Some(precursor_intensity),
            s.precursor_charge is Some && 2 <= s.precursor_charge->0 <= 4,
            peak_count_override is Some ==> s.mz_values@.len() == peak_count_override->0,
            peak_count_override is None ==> 50 <= s.mz_values@.len() < 300,
            forall|i: int|
                0 <= i < s.mz_values@.len() ==> MS2_MIN_MZ <= #[trigger] s.mz_values@[i]
                    && s.mz_values@[i] < precursor_mz * 95 / 100 + 2 * ISOTOPE_SPACING_MICRO,
            s.analyzer@ == "Orbitrap"@,
            s.resolution_at_mz200 == 30000,
            s.mass_accuracy_tenth_ppm == 50,
            s.fragmentation == FragmentationKind::Hcd,
            s.timestamp_ms >= 0,
    {
        self.scan_number = self.scan_number + 1;
        let peak_count: usize = match peak_count_override {
            Some(n) => n,
            None => rng_range(&mut self.random, 50, 300) as usize,
        };
        proof {
            assert(precursor_mz * 95 <= (MZ_MICRO_CAP + 2 * ISOTOPE_SPACING_MICRO) * 95)
                by (nonlinear_arith)
                requires
                    precursor_mz <= MZ_MICRO_CAP + 2 * ISOTOPE_SPACING_MICRO,
            ;
        }
        let frag_max_mz = precursor_mz * 95 / 100;
        let min_int = precursor_intensity / 100;
        let max_int = precursor_intensity / 2;
        proof {
            assert(precursor_intensity / 100 < precursor_intensity / 2) by (nonlinear_arith)
                requires
                    2 <= precursor_intensity,
            ;
            assert(precursor_intensity / 2 <= u64::MAX as int / 1000) by (nonlinear_arith)
                requires
                    precursor_intensity <= u64::MAX as int / 500,
            ;
        }
        let (mz_values, intensity_values) = generate_spectrum(
            &mut self.random,
            noise,
            peak_count,
            MS2_MIN_MZ,
            frag_max_mz,
            min_int,
            max_int,
        );
        let (base_peak_mz, base_peak_intensity, tic) = calculate_aggregates(
            &mz_values,
            &intensity_values,
        );
        let charge = rng_range(&mut self.random, 2, 5) as i32;
        proof {
            assert forall|i: int| 0 <= i < mz_values@.len() implies (#[trigger] mz_values@[i] as int)
                * 100 <= (precursor_mz as int) * 95 + 2 * (ISOTOPE_SPACING_MICRO as int) * 100 by {
                assert((frag_max_mz as int) * 100 <= (precursor_mz as int) * 95) by (nonlinear_arith)
                    requires
                        frag_max_mz == (precursor_mz as int) * 95 / 100,
                        precursor_mz >= 0,
                ;
            }
        }
        Scan {
            scan_number: self.scan_number,
            ms_order: 2,
            retention_time_ms: self.retention_time_ms,
            mz_values,
            intensity_values,
            base_peak_mz,
            base_peak_intensity,
            total_ion_current: tic,
            precursor_mass: Some(precursor_mz),
            precursor_charge: Some(charge),
            precursor_intensity: Some(precursor_intensity),
            isolation_width_milli: Some(1600),
            collision_energy: Some(30),
            fragmentation: FragmentationKind::Hcd,
            analyzer: "Orbitrap".to_owned(),
            resolution_at_mz200: 30000,
            mass_accuracy_tenth_ppm: 50,
            polarity: IonPolarity::Positive,
            timestamp_ms: current_timestamp_ms(),
        }
    }

    /// A precursor for fragmentation: a peak of the given MS1 scan, chosen
    /// among the most intense ones (the top twenty, or all of them when the
    /// spectrum is smaller), or the fixed fallback (500 Da, 1e6 counts) when
    /// the spectrum is empty. Fewer than twenty peaks are strictly more
    /// intense than the chosen one.
    pub fn select_precursor(&mut self, ms1_scan: &Scan) -> (r: (u64, u64))
        requires
            ms1_scan.mz_values@.len() == ms1_scan.intensity_values@.len(),
        ensures
            final(self).scan_number == old(self).scan_number,
            final(self).retention_time_ms == old(self).retention_time_ms,
            ms1_scan.mz_values@.len() == 0 ==> r == (500_000_000u64, 1_000_000u64),
            ms1_scan.mz_values@.len() > 0 ==> exists|i: int|
                0 <= i < ms1_scan.mz_values@.len() && r.0 == ms1_scan.mz_values@[i] && r.1
                    == ms1_scan.intensity_values@[i],
            ms1_scan.mz_values@.len() > 0 ==> count_above(ms1_scan.intensity_values@, r.1) < 20,
    {
        let len = ms1_scan.mz_values.len();
        if len == 0 {
            return (500_000_000, 1_000_000);
        }
        let mut pairs: Vec<(u64, u64)> = Vec::new();
        let mut j: usize = 0;
        while j < len
            invariant
                j <= len,
                len == ms1_scan.mz_values@.len(),
                len == ms1_scan.intensity_values@.len(),
                pairs@.len() == j,
                forall|q: int|
                    0 <= q < j ==> #[trigger] pairs@[q] == (
                        ms1_scan.intensity_values@[q],
                        q as u64,
                    ),
            decreases len - j,
        {
            pairs.push((ms1_scan.intensity_values[j], j as u64));
            j = j + 1;
        }
        let ghost pairs_view = pairs@;
        // Ascending by intensity: the most intense peaks stand at the end.
        let ranked = sort_peaks(pairs);
        let top_n = if len < 20 {
            len
        } else {
            20
        };
        let pos = rng_range(&mut self.random, (len - top_n) as u64, len as u64) as usize;
        let chosen = ranked[pos];
        proof {
            broadcast use group_to_multiset_ensures;

            assert(ranked@[pos as int] == chosen);
            assert(ranked@.contains(chosen));
            assert(ranked@.to_multiset().count(chosen) > 0);
            assert(pairs_view.contains(chosen));
            let q = choose|q: int| 0 <= q < pairs_view.len() && pairs_view[q] == chosen;
            assert(chosen.1 == q as u64);
            assert(chosen.0 == ms1_scan.intensity_values@[q]);
        }
        let idx = chosen.1 as usize;
        let result = (ms1_scan.mz_values[idx], ms1_scan.intensity_values[idx]);
        proof {
            let cutoff = result.1;
            let p = (|pr: (u64, u64)| pr.0 > cutoff);
            assert(chosen.0 == cutoff);
            assert forall|q2: int| 0 <= q2 < pos as int + 1 implies !p(ranked@[q2]) by {
                assert(ranked@[q2].0 <= ranked@[pos as int].0);
            }
            lemma_filter_skip_prefix(ranked@, p, pos as int + 1);
            lemma_filter_len_multiset(pairs_view, ranked@, p);
            lemma_filter_len_pointwise(
                ms1_scan.intensity_values@,
                pairs_view,
                (|v: u64| v > cutoff),
                p,
            );
            assert(count_above(ms1_scan.intensity_values@, cutoff) < 20);
        }
        result
    }
}



/// How many intensities of a spectrum lie strictly above a cutoff.
pub open spec fn count_above(s: Seq<u64>, cutoff: u64) -> nat {
    s.filter(|v: u64| v > cutoff).len()
}

proof fn lemma_filter_len_pointwise<A, B>(
    s: Seq<A>,
    t: Seq<B>,
    p: spec_fn(A) -> bool,
    q: spec_fn(B) -> bool,
)
    requires
        s.len() == t.len(),
        forall|i: int| 0 <= i < s.len() ==> p(s[i]) == q(t[i]),
    ensures
        s.filter(p).len() == t.filter(q).len(),
    decreases s.len(),
{
    reveal(Seq::filter);
    if s.len() == 0 {
    } else {
        lemma_filter_len_pointwise(s.drop_last(), t.drop_last(), p, q);
    }
}

proof fn lemma_filter_skip_prefix<A>(s: Seq<A>, p: spec_fn(A) -> bool, k: int)
    requires
        0 <= k <= s.len(),
        forall|i: int| 0 <= i < k ==> !p(s[i]),
    ensures
        s.filter(p).len() <= s.len() - k,
    decreases s.len(),
{
    reveal(Seq::filter);
    if s.len() == 0 {
    } else {
        if k == s.len() {
            lemma_filter_skip_prefix(s.drop_last(), p, k - 1);
        } else {
            lemma_filter_skip_prefix(s.drop_last(), p, k);
        }
    }
}

proof fn lemma_filter_len_multiset<A>(s: Seq<A>, t: Seq<A>, p: spec_fn(A) -> bool)
    requires
        s.to_multiset() == t.to_multiset(),
    ensures
        s.filter(p).len() == t.filter(p).len(),
    decreases s.len(),
{
    broadcast use group_to_multiset_ensures;

    reveal(Seq::filter);
    assert(s.to_multiset().len() == s.len());
    assert(t.to_multiset().len() == t.len());
    if s.len() == 0 {
        assert(t.len() == 0);
    } else {
        let x = s.last();
        assert(s.contains(x));
        assert(s.to_multiset().count(x) > 0);
        assert(t.to_multiset().count(x) > 0);
        assert(t.contains(x));
        let j = choose|j: int| 0 <= j < t.len() && t[j] == x;
        let sp = s.drop_last();
        let tp = t.remove(j);
        assert(s.remove(s.len() - 1) =~= sp);
        assert(sp.to_multiset() =~= s.to_multiset().remove(x));
        assert(tp.to_multiset() =~= t.to_multiset().remove(x));
        lemma_filter_len_multiset(sp, tp, p);
        // Split t around position j and distribute the filter.
        let a = t.subrange(0, j);
        let b = t.subrange(j + 1, t.len() as int);
        let single = seq![x];
        assert(t =~= a + (single + b));
        assert(tp =~= a + b);
        Seq::filter_distributes_over_add(a, single + b, p);
        Seq::filter_distributes_over_add(single, b, p);
        Seq::filter_distributes_over_add(a, b, p);
        assert(single.drop_last() =~= Seq::<A>::empty());
        assert(single.last() == x);
        assert(Seq::<A>::empty().filter(p).len() == 0);
        if p(x) {
            assert(single.filter(p).len() == 1);
            assert(s.filter(p).len() == sp.filter(p).len() + 1);
        } else {
            assert(single.filter(p).len() == 0);
            assert(s.filter(p).len() == sp.filter(p).len());
        }
        assert(t.filter(p).len() == a.filter(p).len() + single.filter(p).len() + b.filter(
            p,
        ).len());
        assert(tp.filter(p).len() == a.filter(p).len() + b.filter(p).len());
    }
}

impl Default for ScanGenerator {
    /// Same as `new`: a fresh entropy-seeded generator.
    fn default() -> (g: ScanGenerator)
        ensures
            g.scan_number == 0,
            g.retention_time_ms == 0,
            gen_wf(g),
    {
        ScanGenerator::new()
    }
}

/// The aggregates of a well-formed scan are exact functions of its arrays:
/// the total ion current is the sum of the intensities, the base-peak
/// intensity is their maximum, and the base-peak m/z is the m/z at the
/// first index attaining that maximum.
pub proof fn lemma_aggregates_exact(s: Scan)
    requires
        scan_wf(s),
    ensures
        s.intensity_values@.len() > 0 ==> s.total_ion_current == seq_sum(s.intensity_values@),
        forall|j: int|
            0 <= j < s.intensity_values@.len() ==> #[trigger] s.intensity_values@[j]
                <= s.base_peak_intensity,
        s.intensity_values@.len() > 0 ==> exists|i: int|
            is_base_peak_index(s.intensity_values@, i) && s.base_peak_mz == s.mz_values@[i]
                && s.base_peak_intensity == s.intensity_values@[i],
        s.intensity_values@.len() == 0 ==> s.base_peak_mz == 0 && s.base_peak_intensity == 0
            && s.total_ion_current == 0,
{
    if s.intensity_values@.len() > 0 {
        let i = choose|i: int|
            is_base_peak_index(s.intensity_values@, i) && s.base_peak_mz == s.mz_values@[i]
                && s.base_peak_intensity == s.intensity_values@[i];
        assert(is_base_peak_index(s.intensity_values@, i));
    }
}

} // verus!
