//! Scan records and the spec-level predicates that every emitted scan obeys.
//!
//! All physical quantities are carried as fixed-point integers so that the
//! synthesis logic is exact: m/z values in micro-daltons (1 Da = 1_000_000
//! units), intensities in detector counts, retention time in milliseconds of
//! chromatographic time. The process boundary converts to floating point.

use vstd::prelude::*;

verus! {

/// One dalton, in micro-dalton units.
pub const MICRO_PER_DA: u64 = 1_000_000;

/// Spacing of isotopic envelope peaks (~1.003355 Da), in micro-daltons.
pub const ISOTOPE_SPACING_MICRO: u64 = 1_003_355;

/// Fragmentation mode reported on a scan.
#[derive(Clone, Copy, Debug, PartialEq, Eq, Structural)]
pub enum FragmentationKind {
    Unknown,
    Hcd,
    Cid,
}

/// Ion polarity reported on a scan.
#[derive(Clone, Copy, Debug, PartialEq, Eq, Structural)]
pub enum IonPolarity {
    Positive,
    Negative,
}

/// The unit of output: one MS1 or MS2 spectrum with its aggregates.
pub struct Scan {
    /// Monotonically increasing per session, starting at 1.
    pub scan_number: i32,
    /// 1 for survey scans, 2 for fragmentation scans.
    pub ms_order: i32,
    /// Chromatographic time at emission, in milliseconds.
    pub retention_time_ms: u64,
    /// Peak positions in micro-daltons, sorted ascending.
    pub mz_values: Vec<u64>,
    /// Peak heights, same length as `mz_values`.
    pub intensity_values: Vec<u64>,
    /// m/z of the most intense peak (first occurrence on ties), 0 if empty.
    pub base_peak_mz: u64,
    /// Height of the most intense peak, 0 if empty.
    pub base_peak_intensity: u64,
    /// Sum of all intensities.
    pub total_ion_current: u128,
    /// MS2 only: m/z of the isolated precursor, in micro-daltons.
    pub precursor_mass: Option<u64>,
    /// MS2 only: charge state, 2..=4.
    pub precursor_charge: Option<i32>,
    /// MS2 only: intensity of the isolated precursor.
    pub precursor_intensity: Option<u64>,
    /// MS2 only: isolation window width in milli-daltons (1600 = 1.6 Da).
    pub isolation_width_milli: Option<u32>,
    /// MS2 only: normalized collision energy.
    pub collision_energy: Option<u32>,
    pub fragmentation: FragmentationKind,
    pub analyzer: String,
    /// Resolving power at m/z 200.
    pub resolution_at_mz200: u32,
    /// Mass accuracy in tenths of a ppm (30 = 3.0 ppm).
    pub mass_accuracy_tenth_ppm: u32,
    pub polarity: IonPolarity,
    /// Wall clock at emission, in milliseconds since the Unix epoch.
    pub timestamp_ms: i64,
}

/// A sequence is sorted in ascending (non-strict) order.
pub open spec fn sorted_le(s: Seq<u64>) -> bool {
    forall|i: int, j: int| 0 <= i <= j < s.len() ==> s[i] <= s[j]
}

/// Sum of a sequence of intensities, as an unbounded integer.
pub open spec fn seq_sum(s: Seq<u64>) -> int
    decreases s.len(),
{
    if s.len() == 0 {
        0
    } else {
        seq_sum(s.drop_last()) + s.last()
    }
}

/// `i` is the index of the base peak: the maximal intensity, first
/// occurrence on ties.
pub open spec fn is_base_peak_index(ints: Seq<u64>, i: int) -> bool {
    &&& 0 <= i < ints.len()
    &&& forall|j: int| 0 <= j < ints.len() ==> ints[j] <= ints[i]
    &&& forall|j: int| 0 <= j < i ==> ints[j] < ints[i]
}

/// The three aggregate fields are exact functions of the peak arrays.
pub open spec fn aggregates_ok(s: Scan) -> bool {
    if s.intensity_values@.len() == 0 {
        s.base_peak_mz == 0 && s.base_peak_intensity == 0 && s.total_ion_current == 0
    } else {
        &&& s.total_ion_current == seq_sum(s.intensity_values@)
        &&& exists|i: int|
            is_base_peak_index(s.intensity_values@, i) && s.base_peak_mz == s.mz_values@[i]
                && s.base_peak_intensity == s.intensity_values@[i]
    }
}

/// MS2 precursor fields are present and plausible; MS1 scans carry none.
pub open spec fn precursor_fields_ok(s: Scan) -> bool {
    if s.ms_order == 2 {
        &&& s.precursor_mass is Some
        &&& s.precursor_charge is Some
        &&& s.precursor_intensity is Some
        &&& s.isolation_width_milli == Some(1600u32)
        &&& s.collision_energy == Some(30u32)
        &&& 2 <= s.precursor_charge->0 <= 4
        &&& s.fragmentation == FragmentationKind::Hcd
        // Fragments lie below the precursor: at most two isotope spacings
        // above 95% of the precursor m/z.
        &&& forall|i: int|
            0 <= i < s.mz_values@.len() ==> (s.mz_values@[i] as int) * 100 <= (
            s.precursor_mass->0 as int) * 95 + 2 * (ISOTOPE_SPACING_MICRO as int) * 100
    } else {
        &&& s.precursor_mass is None
        &&& s.precursor_charge is None
        &&& s.precursor_intensity is None
        &&& s.isolation_width_milli is None
        &&& s.collision_energy is None
    }
}

/// Well-formedness of an emitted scan: the invariants every scan obeys.
pub open spec fn scan_wf(s: Scan) -> bool {
    &&& s.mz_values@.len() == s.intensity_values@.len()
    &&& sorted_le(s.mz_values@)
    &&& aggregates_ok(s)
    &&& (s.ms_order == 1 || s.ms_order == 2)
    &&& precursor_fields_ok(s)
    &&& s.scan_number >= 1
    &&& s.polarity == IonPolarity::Positive
}

} // verus!
