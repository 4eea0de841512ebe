//! Acquisition engine: the run state machine, parameter normalization, and
//! the paced producer that batches whole cycles per timer tick.

use vstd::prelude::*;

use crate::simulator::{MZ_MICRO_CAP, ScanGenerator, gen_wf};
use crate::scan::Scan;
use crate::rng::NoiseModel;

verus! {

/// The run state of the instrument, kept in a single atomic cell by the
/// process; this enum and its code mapping are the verified view of it.
#[derive(Clone, Copy, Debug, PartialEq, Eq, Structural)]
pub enum AcquisitionState {
    Idle,
    Starting,
    Acquiring,
    Paused,
    Stopping,
    Completed,
    Faulted,
}

/// The wire code of each state.
pub open spec fn state_code_spec(s: AcquisitionState) -> u8 {
    match s {
        AcquisitionState::Idle => 0,
        AcquisitionState::Starting => 1,
        AcquisitionState::Acquiring => 2,
        AcquisitionState::Paused => 3,
        AcquisitionState::Stopping => 4,
        AcquisitionState::Completed => 5,
        AcquisitionState::Faulted => 6,
    }
}

/// The state a wire code denotes; unknown codes read as `Idle`.
pub open spec fn state_from_code_spec(c: u8) -> AcquisitionState {
    if c == 0 {
        AcquisitionState::Idle
    } else if c == 1 {
        AcquisitionState::Starting
    } else if c == 2 {
        AcquisitionState::Acquiring
    } else if c == 3 {
        AcquisitionState::Paused
    } else if c == 4 {
        AcquisitionState::Stopping
    } else if c == 5 {
        AcquisitionState::Completed
    } else if c == 6 {
        AcquisitionState::Faulted
    } else {
        AcquisitionState::Idle
    }
}

/// Encode a state for the atomic cell.
pub fn state_to_code(s: AcquisitionState) -> (c: u8)
    ensures
        c == state_code_spec(s),
        c <= 6,
{
    match s {
        AcquisitionState::Idle => 0,
        AcquisitionState::Starting => 1,
        AcquisitionState::Acquiring => 2,
        AcquisitionState::Paused => 3,
        AcquisitionState::Stopping => 4,
        AcquisitionState::Completed => 5,
        AcquisitionState::Faulted => 6,
    }
}

/// Decode a state read from the atomic cell.
pub fn state_from_code(c: u8) -> (s: AcquisitionState)
    ensures
        s == state_from_code_spec(c),
{
    if c == 0 {
        AcquisitionState::Idle
    } else if c == 1 {
        AcquisitionState::Starting
    } else if c == 2 {
        AcquisitionState::Acquiring
    } else if c == 3 {
        AcquisitionState::Paused
    } else if c == 4 {
        AcquisitionState::Stopping
    } else if c == 5 {
        AcquisitionState::Completed
    } else if c == 6 {
        AcquisitionState::Faulted
    } else {
        AcquisitionState::Idle
    }
}

/// Encoding and decoding of run states are mutually inverse, so the atomic
/// cell faithfully carries the state machine.
pub proof fn lemma_state_code_roundtrip(s: AcquisitionState)
    ensures
        state_from_code_spec(state_code_spec(s)) == s,
{
}

/// A new acquisition may start only from rest: `Idle` or `Completed`.
pub fn can_start(state: AcquisitionState) -> (r: bool)
    ensures
        r == (state == AcquisitionState::Idle || state == AcquisitionState::Completed),
{
    match state {
        AcquisitionState::Idle => true,
        AcquisitionState::Completed => true,
        _ => false,
    }
}

/// Requested simulation options as they arrive from the wire: fixed-point
/// integers (rates in milli-scans per second, m/z in micro-daltons), with 0
/// meaning "not set" and negative values invalid where a default exists.
pub struct SimulationParams {
    /// Total scans per second (MS1 + MS2) in thousandths; 0 or negative
    /// selects the default of 2 scans/s.
    pub scan_rate_milli: i64,
    /// MS2 scans per MS1 scan; 0 or negative selects the default of 4.
    pub ms2_per_ms1: i64,
    /// Lower edge of the MS1 window in micro-daltons; 0 selects 200 Da.
    pub min_mz_micro: i64,
    /// Upper edge of the MS1 window in micro-daltons; 0 selects 2000 Da.
    pub max_mz_micro: i64,
    /// Informational resolving power; not used by the synthesis.
    pub resolution: i64,
    /// Informational noise level in thousandths; not used by the synthesis.
    pub noise_level_milli: i64,
    /// 0 seeds from entropy; anything else gives a deterministic run.
    pub random_seed: u64,
    /// Positive values force the MS1 peak count; otherwise a random band.
    pub ms1_peak_count: i64,
    /// Positive values force the MS2 peak count; otherwise a random band.
    pub ms2_peak_count: i64,
}

impl SimulationParams {
    /// All options unset: every field takes its default at normalization.
    pub fn unset() -> (p: SimulationParams)
        ensures
            p.scan_rate_milli == 0,
            p.ms2_per_ms1 == 0,
            p.min_mz_micro == 0,
            p.max_mz_micro == 0,
            p.random_seed == 0,
            p.ms1_peak_count == 0,
            p.ms2_peak_count == 0,
    {
        SimulationParams {
            scan_rate_milli: 0,
            ms2_per_ms1: 0,
            min_mz_micro: 0,
            max_mz_micro: 0,
            resolution: 0,
            noise_level_milli: 0,
            random_seed: 0,
            ms1_peak_count: 0,
            ms2_peak_count: 0,
        }
    }
}

pub const DEFAULT_SCAN_RATE_MILLI: u64 = 2_000;

pub const DEFAULT_MS2_PER_MS1: u64 = 4;

pub const DEFAULT_MIN_MZ_MICRO: u64 = 200_000_000;

pub const DEFAULT_MAX_MZ_MICRO: u64 = 2_000_000_000;

/// Fastest accepted rate: 100,000 scans/s in thousandths.
pub const SCAN_RATE_CAP_MILLI: u64 = 100_000_000;

pub const MS2_PER_MS1_CAP: u64 = 1_000;

pub const PEAK_COUNT_CAP: u64 = 100_000;

/// Smallest MS1 window edge for which every selectable precursor leaves a
/// non-empty fragment window above 100 Da: the least m such that
/// m * 95 / 100 exceeds 100 Da.
pub const MIN_MZ_FLOOR_MICRO: u64 = 105_263_159;

/// Effective scan rate after defaulting and capping.
pub open spec fn eff_scan_rate(p: SimulationParams) -> int {
    if p.scan_rate_milli <= 0 {
        DEFAULT_SCAN_RATE_MILLI as int
    } else if p.scan_rate_milli > SCAN_RATE_CAP_MILLI {
        SCAN_RATE_CAP_MILLI as int
    } else {
        p.scan_rate_milli as int
    }
}

/// Effective MS2-per-MS1 count after defaulting and capping.
pub open spec fn eff_ms2_per_ms1(p: SimulationParams) -> int {
    if p.ms2_per_ms1 <= 0 {
        DEFAULT_MS2_PER_MS1 as int
    } else if p.ms2_per_ms1 > MS2_PER_MS1_CAP {
        MS2_PER_MS1_CAP as int
    } else {
        p.ms2_per_ms1 as int
    }
}

/// Effective lower window edge after defaulting (no capping: out-of-range
/// values are rejected instead).
pub open spec fn eff_min_mz(p: SimulationParams) -> int {
    if p.min_mz_micro == 0 {
        DEFAULT_MIN_MZ_MICRO as int
    } else {
        p.min_mz_micro as int
    }
}

/// Effective upper window edge after defaulting.
pub open spec fn eff_max_mz(p: SimulationParams) -> int {
    if p.max_mz_micro == 0 {
        DEFAULT_MAX_MZ_MICRO as int
    } else {
        p.max_mz_micro as int
    }
}

/// Effective peak-count override: positive forces the count (capped), else
/// the synthesizer draws from its band.
pub open spec fn eff_override(v: i64) -> Option<usize> {
    if v <= 0 {
        None
    } else if v > PEAK_COUNT_CAP {
        Some(PEAK_COUNT_CAP as usize)
    } else {
        Some(v as usize)
    }
}

/// The requested m/z window is acceptable: no negative edges, ordered after
/// defaulting, inside the instrument envelope, and high enough that every
/// precursor leaves a fragment window.
pub open spec fn params_valid(p: SimulationParams) -> bool {
    &&& p.min_mz_micro >= 0
    &&& p.max_mz_micro >= 0
    &&& MIN_MZ_FLOOR_MICRO <= eff_min_mz(p)
    &&& eff_min_mz(p) < eff_max_mz(p)
    &&& eff_max_mz(p) <= MZ_MICRO_CAP
}

/// A validated, defaulted configuration, ready to drive a run.
pub struct RunConfig {
    pub scan_rate_milli: u64,
    pub ms2_per_ms1: u64,
    pub min_mz: u64,
    pub max_mz: u64,
    pub ms1_peak_override: Option<usize>,
    pub ms2_peak_override: Option<usize>,
    pub random_seed: u64,
}

/// Invariant of a validated configuration.
pub open spec fn run_config_wf(c: RunConfig) -> bool {
    &&& 1 <= c.scan_rate_milli <= SCAN_RATE_CAP_MILLI
    &&& 1 <= c.ms2_per_ms1 <= MS2_PER_MS1_CAP
    &&& MIN_MZ_FLOOR_MICRO <= c.min_mz
    &&& c.min_mz < c.max_mz
    &&& c.max_mz <= MZ_MICRO_CAP
    &&& (c.ms1_peak_override is Some ==> c.ms1_peak_override->0 <= PEAK_COUNT_CAP)
    &&& (c.ms2_peak_override is Some ==> c.ms2_peak_override->0 <= PEAK_COUNT_CAP)
}

/// Validates and defaults the requested options. Returns the configuration
/// exactly when the m/z window is acceptable; every field of the result is
/// the effective (defaulted, capped) value of the request.
pub fn normalize_params(p: &SimulationParams) -> (r: Option<RunConfig>)
    ensures
        r is Some <==> params_valid(*p),
        r is Some ==> {
            let c = r->0;
            &&& c.scan_rate_milli == eff_scan_rate(*p)
            &&& c.ms2_per_ms1 == eff_ms2_per_ms1(*p)
            &&& c.min_mz == eff_min_mz(*p)
            &&& c.max_mz == eff_max_mz(*p)
            &&& c.ms1_peak_override == eff_override(p.ms1_peak_count)
            &&& c.ms2_peak_override == eff_override(p.ms2_peak_count)
            &&& c.random_seed == p.random_seed
            &&& run_config_wf(c)
        },
{
    if p.min_mz_micro < 0 || p.max_mz_micro < 0 {
        return None;
    }
    let min_mz: u64 = if p.min_mz_micro == 0 {
        DEFAULT_MIN_MZ_MICRO
    } else {
        p.min_mz_micro as u64
    };
    let max_mz: u64 = if p.max_mz_micro == 0 {
        DEFAULT_MAX_MZ_MICRO
    } else {
        p.max_mz_micro as u64
    };
    if min_mz < MIN_MZ_FLOOR_MICRO || min_mz >= max_mz || max_mz > MZ_MICRO_CAP {
        return None;
    }
    let scan_rate_milli: u64 = if p.scan_rate_milli <= 0 {
        DEFAULT_SCAN_RATE_MILLI
    } else if p.scan_rate_milli > SCAN_RATE_CAP_MILLI as i64 {
        SCAN_RATE_CAP_MILLI
    } else {
        p.scan_rate_milli as u64
    };
    let ms2_per_ms1: u64 = if p.ms2_per_ms1 <= 0 {
        DEFAULT_MS2_PER_MS1
    } else if p.ms2_per_ms1 > MS2_PER_MS1_CAP as i64 {
        MS2_PER_MS1_CAP
    } else {
        p.ms2_per_ms1 as u64
    };
    let ms1_peak_override: Option<usize> = if p.ms1_peak_count <= 0 {
        None
    } else if p.ms1_peak_count > PEAK_COUNT_CAP as i64 {
        Some(PEAK_COUNT_CAP as usize)
    } else {
        Some(p.ms1_peak_count as usize)
    };
    let ms2_peak_override: Option<usize> = if p.ms2_peak_count <= 0 {
        None
    } else if p.ms2_peak_count > PEAK_COUNT_CAP as i64 {
        Some(PEAK_COUNT_CAP as usize)
    } else {
        Some(p.ms2_peak_count as usize)
    };
    Some(
        RunConfig {
            scan_rate_milli,
            ms2_per_ms1,
            min_mz,
            max_mz,
            ms1_peak_override,
            ms2_peak_override,
            random_seed: p.random_seed,
        },
    )
}

} // verus!

verus! {

/// Scans in one acquisition cycle: one MS1 plus the configured MS2 count.
pub open spec fn scans_per_cycle(c: RunConfig) -> int {
    1 + c.ms2_per_ms1 as int
}

/// The accumulator counts milli-scans-per-second units per 10 ms tick; one
/// whole cycle corresponds to this many units.
pub open spec fn cycle_divisor(c: RunConfig) -> int {
    100_000 * scans_per_cycle(c)
}

/// The paced producer of one run: fractional-cycle accumulator, cumulative
/// scan count and the termination caps of the request.
pub struct Producer {
    pub config: RunConfig,
    /// Fractional cycle credit, in units of 1/`cycle_divisor` cycles.
    pub cycle_accumulator: u64,
    /// Scans emitted so far in this run.
    pub scans_generated: u64,
    /// Stop after this many scans, when set.
    pub max_scans: Option<u64>,
    /// Stop once elapsed time exceeds this, when set (milliseconds).
    pub max_duration_ms: Option<u64>,
}

pub open spec fn producer_wf(p: Producer) -> bool {
    &&& run_config_wf(p.config)
    &&& (p.cycle_accumulator as int) < cycle_divisor(p.config)
}

/// The producer must leave its tick loop: a stop request was observed, the
/// scan cap is reached, or the duration cap is exceeded.
pub open spec fn stop_condition(p: Producer, stopping: bool, elapsed_ms: u64) -> bool {
    ||| stopping
    ||| (p.max_scans is Some && p.scans_generated >= p.max_scans->0)
    ||| (p.max_duration_ms is Some && elapsed_ms > p.max_duration_ms->0)
}

/// Whole cycles the accumulator releases on the next tick.
pub open spec fn tick_cycles(p: Producer) -> int {
    (p.cycle_accumulator + p.config.scan_rate_milli) / cycle_divisor(p.config)
}

/// Scans the next tick emits: the released cycles' scans, truncated at the
/// scan cap.
pub open spec fn tick_emission(p: Producer) -> int {
    let full = tick_cycles(p) * scans_per_cycle(p.config);
    match p.max_scans {
        Some(m) => if m <= p.scans_generated {
            0
        } else if m - p.scans_generated < full {
            m - p.scans_generated
        } else {
            full
        },
        None => full,
    }
}

/// Cycle starts among the first `n` scans of a batch.
pub open spec fn cycles_started(n: int, spc: int) -> int {
    (n + spc - 1) / spc
}

/// Every peak of an MS1 scan lies in the configured window (widened by the
/// isotopic envelope) and in the MS1 intensity band (widened down to the
/// noise floor).
pub open spec fn ms1_window_ok(s: crate::scan::Scan, cfg: RunConfig) -> bool {
    &&& forall|j: int|
        0 <= j < s.mz_values@.len() ==> cfg.min_mz <= #[trigger] s.mz_values@[j] && s.mz_values@[j]
            < cfg.max_mz + 2 * crate::scan::ISOTOPE_SPACING_MICRO
    &&& forall|j: int|
        0 <= j < s.intensity_values@.len() ==> 10_000 <= #[trigger] s.intensity_values@[j]
            <= 100_000_000
}

/// An MS2 scan's precursor is a peak of its cycle's MS1 scan, or the fixed
/// fallback when that scan is empty.
pub open spec fn ms2_linked(s2: crate::scan::Scan, s1: crate::scan::Scan) -> bool {
    if s1.mz_values@.len() == 0 {
        s2.precursor_mass == Some(500_000_000u64) && s2.precursor_intensity == Some(1_000_000u64)
    } else {
        exists|j: int|
            0 <= j < s1.mz_values@.len() && s2.precursor_mass == Some(#[trigger] s1.mz_values@[j])
                && s2.precursor_intensity == Some(s1.intensity_values@[j])
    }
}

/// The scans of one tick's batch, relative to the generator's counters at
/// the start of the tick: consecutive scan numbers, the MS1-then-MS2 cycle
/// pattern, retention time constant within a cycle and advancing by half a
/// second per cycle, every scan well formed, and every MS2 scan's precursor
/// drawn from its cycle's MS1 scan.
pub open spec fn batch_ok(out: Seq<crate::scan::Scan>, base_sn: int, base_rt: int, cfg: RunConfig) -> bool {
    let spc = scans_per_cycle(cfg);
    forall|i: int|
        0 <= i < out.len() ==> {
            &&& crate::scan::scan_wf(#[trigger] out[i])
            &&& out[i].scan_number == base_sn + 1 + i
            &&& (i % spc == 0 ==> out[i].ms_order == 1)
            &&& (i % spc != 0 ==> out[i].ms_order == 2)
            &&& (i % spc == 0 ==> out[i].retention_time_ms == base_rt + 500 * (i / spc))
            &&& (i % spc != 0 ==> out[i].retention_time_ms == base_rt + 500 * (i / spc) + 500)
            &&& (i % spc == 0 ==> ms1_window_ok(out[i], cfg))
            &&& (i % spc != 0 ==> ms2_linked(out[i], out[spc * (i / spc)]))
        }
}


proof fn lemma_batch_ok_push(
    prev: Seq<Scan>,
    s: Scan,
    base_sn: int,
    base_rt: int,
    cfg: RunConfig,
)
    requires
        1 <= scans_per_cycle(cfg),
        batch_ok(prev, base_sn, base_rt, cfg),
        crate::scan::scan_wf(s),
        s.scan_number == base_sn + 1 + prev.len(),
        prev.len() as int % scans_per_cycle(cfg) == 0 ==> s.ms_order == 1
            && s.retention_time_ms == base_rt + 500 * (prev.len() as int / scans_per_cycle(cfg))
            && ms1_window_ok(s, cfg),
        prev.len() as int % scans_per_cycle(cfg) != 0 ==> s.ms_order == 2
            && s.retention_time_ms == base_rt + 500 * (prev.len() as int / scans_per_cycle(cfg))
            + 500 && 0 <= scans_per_cycle(cfg) * (prev.len() as int / scans_per_cycle(cfg))
            < prev.len() && ms2_linked(
            s,
            prev[scans_per_cycle(cfg) * (prev.len() as int / scans_per_cycle(cfg))],
        ),
    ensures
        batch_ok(prev.push(s), base_sn, base_rt, cfg),
{
    let t = prev.push(s);
    let spc = scans_per_cycle(cfg);
    let n = prev.len() as int;
    assert forall|k: int| 0 <= k < t.len() implies {
        &&& crate::scan::scan_wf(#[trigger] t[k])
        &&& t[k].scan_number == base_sn + 1 + k
        &&& (k % spc == 0 ==> t[k].ms_order == 1)
        &&& (k % spc != 0 ==> t[k].ms_order == 2)
        &&& (k % spc == 0 ==> t[k].retention_time_ms == base_rt + 500 * (k / spc))
        &&& (k % spc != 0 ==> t[k].retention_time_ms == base_rt + 500 * (k / spc) + 500)
        &&& (k % spc == 0 ==> ms1_window_ok(t[k], cfg))
        &&& (k % spc != 0 ==> ms2_linked(t[k], t[spc * (k / spc)]))
    } by {
        vstd::arithmetic::div_mod::lemma_fundamental_div_mod(k, spc);
        vstd::arithmetic::div_mod::lemma_mod_bound(k, spc);
        assert(0 <= spc * (k / spc) <= k);
        if k < n {
            assert(crate::scan::scan_wf(prev[k]));
            assert(t[k] == prev[k]);
            if k % spc != 0 {
                assert(t[spc * (k / spc)] == prev[spc * (k / spc)]);
            }
        } else {
            assert(t[k] == s);
            if k % spc != 0 {
                assert(t[spc * (k / spc)] == prev[spc * (k / spc)]);
            }
        }
    }
}

/// Most scans any one tick can emit under the configuration caps.
pub const MAX_TICK_SCANS: u64 = 2_001;

proof fn lemma_tick_scan_bound(acc2: int, spc: int)
    requires
        1 <= spc,
        0 <= acc2,
        acc2 < 100_000 * spc + 100_000_000,
    ensures
        0 <= (acc2 / (100_000 * spc)) * spc <= spc + 1000,
{
    let d = 100_000 * spc;
    let q = acc2 / d;
    assert(0 < d) by (nonlinear_arith)
        requires
            1 <= spc,
            d == 100_000 * spc,
    ;
    vstd::arithmetic::div_mod::lemma_fundamental_div_mod(acc2, d);
    vstd::arithmetic::div_mod::lemma_mod_bound(acc2, d);
    assert(q >= 0) by (nonlinear_arith)
        requires
            d * q + acc2 % d == acc2,
            0 <= acc2 % d < d,
            0 <= acc2,
            0 < d,
    ;
    assert(d * q <= acc2);
    assert(100_000 * (q * spc) == d * q) by (nonlinear_arith)
        requires
            d == 100_000 * spc,
    ;
    assert(100_000 * (q * spc) < 100_000 * (spc + 1000));
    assert(q * spc < spc + 1000 + 1) by (nonlinear_arith)
        requires
            100_000 * (q * spc) < 100_000 * (spc + 1000),
    ;
    assert(0 <= q * spc) by (nonlinear_arith)
        requires
            0 <= q,
            1 <= spc,
    ;
}

proof fn lemma_precursor_window(pmz: int)
    requires
        105_263_159 <= pmz,
    ensures
        100_000_000 < pmz * 95 / 100,
{
    assert(pmz * 95 >= 105_263_159 * 95) by (nonlinear_arith)
        requires
            pmz >= 105_263_159,
    ;
    vstd::arithmetic::div_mod::lemma_div_is_ordered(10_000_000_105, pmz * 95, 100);
    assert(10_000_000_105int / 100 == 100_000_001);
}

impl Producer {
    /// A producer at the start of a run: no credit, no scans yet.
    pub fn new(config: RunConfig, max_scans: Option<u64>, max_duration_ms: Option<u64>) -> (p:
        Producer)
        requires
            run_config_wf(config),
        ensures
            p.config == config,
            p.cycle_accumulator == 0,
            p.scans_generated == 0,
            p.max_scans == max_scans,
            p.max_duration_ms == max_duration_ms,
            producer_wf(p),
    {
        Producer { config, cycle_accumulator: 0, scans_generated: 0, max_scans, max_duration_ms }
    }

    /// Decides termination exactly: a stop request, the scan cap, or the
    /// duration cap.
    pub fn should_stop(&self, stopping: bool, elapsed_ms: u64) -> (r: bool)
        ensures
            r == stop_condition(*self, stopping, elapsed_ms),
    {
        if stopping {
            return true;
        }
        match self.max_scans {
            Some(m) => if self.scans_generated >= m {
                return true;
            },
            None => {},
        }
        match self.max_duration_ms {
            Some(d) => if elapsed_ms > d {
                return true;
            },
            None => {},
        }
        false
    }

    /// One timer tick of the producer: decides termination from the state
    /// snapshot and the caps, releases the accumulator's whole cycles, and
    /// emits the batch — one MS1 scan then the configured MS2 scans per
    /// cycle, truncated at the scan cap. Returns the scans to publish and
    /// whether the run is over.
    pub fn on_tick<NM: NoiseModel>(
        &mut self,
        gen: &mut ScanGenerator,
        noise: &mut NM,
        stopping: bool,
        elapsed_ms: u64,
    ) -> (r: (Vec<Scan>, bool))
        requires
            producer_wf(*old(self)),
            gen_wf(*old(gen)),
            old(gen).scan_number + MAX_TICK_SCANS <= i32::MAX,
            old(self).scans_generated + MAX_TICK_SCANS <= u64::MAX,
        ensures
            producer_wf(*final(self)),
            gen_wf(*final(gen)),
            final(self).config == old(self).config,
            final(self).max_scans == old(self).max_scans,
            final(self).max_duration_ms == old(self).max_duration_ms,
            r.1 == stop_condition(*old(self), stopping, elapsed_ms),
            r.1 ==> r.0@.len() == 0 && *final(self) == *old(self) && *final(gen) == *old(gen),
            !r.1 ==> {
                &&& final(self).cycle_accumulator == (old(self).cycle_accumulator + old(
                    self,
                ).config.scan_rate_milli) % cycle_divisor(old(self).config)
                &&& r.0@.len() == tick_emission(*old(self))
                &&& final(self).scans_generated == old(self).scans_generated + r.0@.len()
                &&& final(gen).scan_number == old(gen).scan_number + r.0@.len()
                &&& final(gen).retention_time_ms == old(gen).retention_time_ms + 500
                    * cycles_started(r.0@.len() as int, scans_per_cycle(old(self).config))
                &&& batch_ok(
                    r.0@,
                    old(gen).scan_number as int,
                    old(gen).retention_time_ms as int,
                    old(self).config,
                )
            },
    {
        if self.should_stop(stopping, elapsed_ms) {
            return (Vec::new(), true);
        }
        let spc: u64 = 1 + self.config.ms2_per_ms1;
        let divisor: u64 = 100_000 * spc;
        let acc2: u64 = self.cycle_accumulator + self.config.scan_rate_milli;
        proof {
            lemma_tick_scan_bound(acc2 as int, spc as int);
        }
        let cycles_to_run: u64 = acc2 / divisor;
        self.cycle_accumulator = acc2 % divisor;
        let full: u64 = cycles_to_run * spc;
        let target: u64 = match self.max_scans {
            Some(m) => {
                let rem = m - self.scans_generated;
                if rem < full {
                    rem
                } else {
                    full
                }
            },
            None => full,
        };
        let ghost base_sn = gen.scan_number as int;
        let ghost base_rt = gen.retention_time_ms as int;
        let ghost cfg = self.config;
        let mut out: Vec<Scan> = Vec::new();
        let mut c: u64 = 0;
        let mut m: u64 = 0;
        let mut last_ms1_idx: usize = 0;
        let mut i: u64 = 0;
        while i < target
            invariant
                producer_wf(*self),
                self.config == cfg,
                spc == scans_per_cycle(cfg),
                2 <= spc <= 1001,
                target <= MAX_TICK_SCANS,
                i == out@.len(),
                i <= target,
                i == c * spc + m,
                m < spc,
                gen_wf(*gen),
                gen.scan_number == base_sn + i,
                base_sn + MAX_TICK_SCANS <= i32::MAX,
                base_sn >= 0,
                gen.retention_time_ms == base_rt + 500 * (c + (if m > 0 {
                    1int
                } else {
                    0int
                })),
                batch_ok(out@, base_sn, base_rt, cfg),
                m > 0 ==> last_ms1_idx == c * spc && (last_ms1_idx as int) < out@.len(),
            decreases target - i,
        {
            if m == 0 {
                let s = gen.generate_ms1(
                    noise,
                    self.config.min_mz,
                    self.config.max_mz,
                    self.config.ms1_peak_override,
                );
                last_ms1_idx = i as usize;
                let ghost prev = out@;
                let ghost snew = s;
                out.push(s);
                proof {
                    vstd::arithmetic::div_mod::lemma_fundamental_div_mod_converse_div(
                        i as int,
                        spc as int,
                        c as int,
                        0,
                    );
                    vstd::arithmetic::div_mod::lemma_fundamental_div_mod_converse_mod(
                        i as int,
                        spc as int,
                        c as int,
                        0,
                    );
                    assert(crate::scan::scan_wf(out@[i as int]));
                    assert(out@[i as int].scan_number == base_sn + 1 + i);
                    assert(i as int % (spc as int) == 0);
                    assert(i as int / (spc as int) == c as int);
                    assert(out@[i as int].ms_order == 1);
                    assert(out@[i as int].retention_time_ms == base_rt + 500 * (i as int / (
                    spc as int)));
                    assert(ms1_window_ok(out@[i as int], cfg));
                    lemma_batch_ok_push(prev, snew, base_sn, base_rt, cfg);
                }
                m = 1;
            } else {
                proof {
                    vstd::arithmetic::div_mod::lemma_fundamental_div_mod_converse_div(
                        i as int,
                        spc as int,
                        c as int,
                        m as int,
                    );
                    vstd::arithmetic::div_mod::lemma_fundamental_div_mod_converse_mod(
                        i as int,
                        spc as int,
                        c as int,
                        m as int,
                    );
                    vstd::arithmetic::div_mod::lemma_fundamental_div_mod_converse_mod(
                        last_ms1_idx as int,
                        spc as int,
                        c as int,
                        0,
                    );
                    vstd::arithmetic::div_mod::lemma_fundamental_div_mod_converse_div(
                        last_ms1_idx as int,
                        spc as int,
                        c as int,
                        0,
                    );
                    assert(crate::scan::scan_wf(out@[last_ms1_idx as int]));
                    assert(ms1_window_ok(out@[last_ms1_idx as int], cfg));
                }
                let (pmz, pint) = gen.select_precursor(&out[last_ms1_idx]);
                proof {
                    let s1 = out@[last_ms1_idx as int];
                    if s1.mz_values@.len() == 0 {
                        assert(pmz == 500_000_000 && pint == 1_000_000);
                        vstd::arithmetic::div_mod::lemma_fundamental_div_mod_converse_div(
                            47_500_000_000,
                            100,
                            475_000_000,
                            0,
                        );
                    } else {
                        let j = choose|j: int|
                            0 <= j < s1.mz_values@.len() && pmz == s1.mz_values@[j] && pint
                                == s1.intensity_values@[j];
                        assert(cfg.min_mz <= pmz);
                        lemma_precursor_window(pmz as int);
                    }
                }
                let s = gen.generate_ms2(noise, pmz, pint, self.config.ms2_peak_override);
                let ghost prev = out@;
                let ghost snew = s;
                out.push(s);
                proof {
                    assert(crate::scan::scan_wf(out@[i as int]));
                    assert(out@[i as int].scan_number == base_sn + 1 + i);
                    assert(i as int % (spc as int) == m as int);
                    assert(i as int / (spc as int) == c as int);
                    assert(out@[i as int].ms_order == 2);
                    assert(out@[i as int].retention_time_ms == base_rt + 500 * (i as int / (
                    spc as int)) + 500);
                    assert((spc as int) * (c as int) == (c as int) * (spc as int))
                        by (nonlinear_arith);
                    assert((spc as int) * (i as int / (spc as int)) == last_ms1_idx as int);
                    assert(ms2_linked(out@[i as int], out@[last_ms1_idx as int]));
                    assert(prev[last_ms1_idx as int] == out@[last_ms1_idx as int]);
                    lemma_batch_ok_push(prev, snew, base_sn, base_rt, cfg);
                }
                m = m + 1;
                if m == spc {
                    proof {
                        assert((c as int + 1) * spc == c as int * spc + spc) by (nonlinear_arith);
                    }
                    m = 0;
                    c = c + 1;
                }
            }
            i = i + 1;
        }
        self.scans_generated = self.scans_generated + target;
        proof {
            if m == 0 {
                vstd::arithmetic::div_mod::lemma_fundamental_div_mod_converse_div(
                    target as int + spc - 1,
                    spc as int,
                    c as int,
                    spc as int - 1,
                );
            } else {
                assert((c as int + 1) * spc == c as int * spc + spc) by (nonlinear_arith);
                vstd::arithmetic::div_mod::lemma_fundamental_div_mod_converse_div(
                    target as int + spc - 1,
                    spc as int,
                    c as int + 1,
                    m as int - 1,
                );
            }
        }
        (out, false)
    }
}

} // verus!

verus! {

/// Accumulator value after `t` uninterrupted ticks, starting from zero:
/// each tick adds the rate and spills whole cycles.
pub open spec fn paced_acc(rate: int, divisor: int, t: nat) -> int
    decreases t,
{
    if t == 0 {
        0
    } else {
        (paced_acc(rate, divisor, (t - 1) as nat) + rate) % divisor
    }
}

/// Whole cycles released over `t` uninterrupted ticks.
pub open spec fn paced_cycles(rate: int, divisor: int, t: nat) -> int
    decreases t,
{
    if t == 0 {
        0
    } else {
        paced_cycles(rate, divisor, (t - 1) as nat) + (paced_acc(rate, divisor, (t - 1) as nat)
            + rate) / divisor
    }
}

/// Pacing is exact: over any stretch of `t` uninterrupted ticks the
/// fractional accumulator releases precisely `floor(rate * t / divisor)`
/// cycles — the emitted cycle count times the divisor never lags the
/// accumulated rate by a full cycle, so the long-run average rate carries
/// no drift. `on_tick` performs one step of this recurrence each tick.
pub proof fn lemma_pacing_exact(rate: int, divisor: int, t: nat)
    requires
        0 < divisor,
        0 <= rate,
    ensures
        divisor * paced_cycles(rate, divisor, t) + paced_acc(rate, divisor, t) == rate * t,
        0 <= paced_acc(rate, divisor, t) < divisor,
        paced_cycles(rate, divisor, t) == rate * t / divisor,
    decreases t,
{
    if t == 0 {
        assert(rate * t == 0) by (nonlinear_arith)
            requires
                t == 0,
        ;
        assert(divisor * paced_cycles(rate, divisor, t) == 0) by (nonlinear_arith)
            requires
                paced_cycles(rate, divisor, t) == 0,
        ;
        vstd::arithmetic::div_mod::lemma_fundamental_div_mod_converse_div(0, divisor, 0, 0);
    } else {
        let tp = (t - 1) as nat;
        lemma_pacing_exact(rate, divisor, tp);
        let a = paced_acc(rate, divisor, tp);
        let c = paced_cycles(rate, divisor, tp);
        let q = (a + rate) / divisor;
        let r = (a + rate) % divisor;
        vstd::arithmetic::div_mod::lemma_fundamental_div_mod(a + rate, divisor);
        vstd::arithmetic::div_mod::lemma_mod_bound(a + rate, divisor);
        assert(paced_acc(rate, divisor, t) == r);
        assert(paced_cycles(rate, divisor, t) == c + q);
        assert(divisor * (c + q) == divisor * c + divisor * q) by (nonlinear_arith);
        assert(rate * t == rate * tp + rate) by (nonlinear_arith)
            requires
                t == tp + 1,
        ;
        assert(divisor * (c + q) + r == rate * t);
        assert(rate * t == (c + q) * divisor + r) by (nonlinear_arith)
            requires
                divisor * (c + q) + r == rate * t,
        ;
        vstd::arithmetic::div_mod::lemma_fundamental_div_mod_converse_div(
            rate * t,
            divisor,
            c + q,
            r,
        );
    }
}


/// Scan numbers form the gapless sequence base+1, base+2, ... across
/// consecutive tick batches: appending a batch that starts where the
/// previous one ended numbers every emitted scan consecutively, so a
/// session that starts from a fresh generator emits scan numbers 1, 2, 3,
/// ... in emission order with no gaps.
pub proof fn lemma_batches_consecutive(
    out1: Seq<Scan>,
    out2: Seq<Scan>,
    base_sn: int,
    base_rt1: int,
    base_rt2: int,
    cfg: RunConfig,
)
    requires
        batch_ok(out1, base_sn, base_rt1, cfg),
        batch_ok(out2, base_sn + out1.len(), base_rt2, cfg),
    ensures
        forall|i: int|
            0 <= i < out1.len() + out2.len() ==> #[trigger] (out1 + out2)[i].scan_number == base_sn
                + 1 + i,
{
    assert forall|i: int| 0 <= i < out1.len() + out2.len() implies #[trigger] (out1 + out2)[
        i
    ].scan_number == base_sn + 1 + i by {
        if i < out1.len() {
            assert((out1 + out2)[i] == out1[i]);
            assert(crate::scan::scan_wf(out1[i]));
        } else {
            assert((out1 + out2)[i] == out2[i - out1.len()]);
            assert(crate::scan::scan_wf(out2[i - out1.len()]));
        }
    }
}

} // verus!
