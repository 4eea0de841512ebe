//! Tests of the acquisition engine and the control surface: state codec,
//! parameter normalization, paced emission, termination and responses.

use lc_ms_simulator::control::{
    decide_start, instrument_info, pause_response, resume_response, session_id_from_bits,
    status_report, stop_response,
};
use lc_ms_simulator::engine::{
    can_start, normalize_params, state_from_code, state_to_code, AcquisitionState, Producer,
    SimulationParams,
};
use lc_ms_simulator::rng::NoiseModel;
use lc_ms_simulator::scan::Scan;
use lc_ms_simulator::simulator::ScanGenerator;
use rand::rngs::StdRng;

struct GaussianNoise;

impl NoiseModel for GaussianNoise {
    fn sample_abs(&mut self, rng: &mut StdRng, scale: u64) -> u64 {
        let normal = rand_distr::Normal::new(0.0, scale as f64).unwrap();
        let v: f64 = rand_distr::Distribution::sample(&normal, rng);
        v.abs() as u64
    }
}

fn all_states() -> Vec<AcquisitionState> {
    vec![
        AcquisitionState::Idle,
        AcquisitionState::Starting,
        AcquisitionState::Acquiring,
        AcquisitionState::Paused,
        AcquisitionState::Stopping,
        AcquisitionState::Completed,
        AcquisitionState::Faulted,
    ]
}

#[test]
fn state_codes_roundtrip() {
    for (i, s) in all_states().into_iter().enumerate() {
        assert_eq!(state_to_code(s) as usize, i);
        assert_eq!(state_from_code(i as u8), s);
    }
    assert_eq!(state_from_code(99), AcquisitionState::Idle);
}

#[test]
fn start_allowed_only_at_rest() {
    for s in all_states() {
        let expected =
            s == AcquisitionState::Idle || s == AcquisitionState::Completed;
        assert_eq!(can_start(s), expected);
    }
}

#[test]
fn normalize_applies_defaults() {
    let p = SimulationParams::unset();
    let c = normalize_params(&p).expect("defaults must be valid");
    assert_eq!(c.scan_rate_milli, 2_000);
    assert_eq!(c.ms2_per_ms1, 4);
    assert_eq!(c.min_mz, 200_000_000);
    assert_eq!(c.max_mz, 2_000_000_000);
    assert_eq!(c.ms1_peak_override, None);
    assert_eq!(c.ms2_peak_override, None);
    assert_eq!(c.random_seed, 0);
}

#[test]
fn normalize_rejects_bad_windows() {
    let mut p = SimulationParams::unset();
    p.min_mz_micro = 2_000_000_000;
    p.max_mz_micro = 200_000_000;
    assert!(normalize_params(&p).is_none(), "inverted window");

    let mut p = SimulationParams::unset();
    p.min_mz_micro = -1;
    assert!(normalize_params(&p).is_none(), "negative edge");

    let mut p = SimulationParams::unset();
    p.min_mz_micro = 50_000_000;
    assert!(
        normalize_params(&p).is_none(),
        "window too low to leave a fragment window"
    );

    let mut p = SimulationParams::unset();
    p.max_mz_micro = 20_000_000_000_000;
    assert!(normalize_params(&p).is_none(), "beyond the instrument envelope");
}

#[test]
fn normalize_caps_rate_and_overrides() {
    let mut p = SimulationParams::unset();
    p.scan_rate_milli = 999_999_999_999;
    p.ms2_per_ms1 = 1_000_000;
    p.ms1_peak_count = 10_000_000;
    let c = normalize_params(&p).unwrap();
    assert_eq!(c.scan_rate_milli, 100_000_000);
    assert_eq!(c.ms2_per_ms1, 1_000);
    assert_eq!(c.ms1_peak_override, Some(100_000));
}

/// Drives the producer for `ticks` ticks and returns all emitted scans and
/// whether it finished.
fn drive(
    producer: &mut Producer,
    gen: &mut ScanGenerator,
    ticks: u64,
    stopping: bool,
    elapsed_ms: u64,
) -> (Vec<Scan>, bool) {
    let mut noise = GaussianNoise;
    let mut all = Vec::new();
    for _ in 0..ticks {
        let (scans, done) = producer.on_tick(gen, &mut noise, stopping, elapsed_ms);
        all.extend(scans);
        if done {
            return (all, true);
        }
    }
    (all, false)
}

fn test_config() -> lc_ms_simulator::engine::RunConfig {
    let mut p = SimulationParams::unset();
    // Small forced peak counts keep the test fast.
    p.ms1_peak_count = 20;
    p.ms2_peak_count = 10;
    normalize_params(&p).unwrap()
}

#[test]
fn producer_paces_exactly() {
    // 2 scans/s, 4 MS2 per MS1: one 5-scan cycle every 2.5 s of ticks.
    let mut producer = Producer::new(test_config(), None, None);
    let mut gen = ScanGenerator::with_seed(77);
    // 1000 ticks accumulate 1000 * 2000 units; one cycle costs 500_000.
    let (scans, done) = drive(&mut producer, &mut gen, 1000, false, 0);
    assert!(!done);
    assert_eq!(scans.len(), 4 * 5, "4 whole cycles over 10 s of ticks");
    // Gapless numbering and the MS1-then-MS2 cycle pattern.
    for (i, s) in scans.iter().enumerate() {
        assert_eq!(s.scan_number as usize, i + 1);
        if i % 5 == 0 {
            assert_eq!(s.ms_order, 1);
        } else {
            assert_eq!(s.ms_order, 2);
        }
    }
    // Retention time: constant within a cycle's MS2 block, advancing by
    // half a second per cycle.
    for c in 0..4 {
        let ms1 = &scans[c * 5];
        assert_eq!(ms1.retention_time_ms, (c as u64) * 500);
        for j in 1..5 {
            assert_eq!(scans[c * 5 + j].retention_time_ms, ms1.retention_time_ms + 500);
        }
    }
}

#[test]
fn producer_respects_scan_cap() {
    let mut p = SimulationParams::unset();
    p.scan_rate_milli = 50_000_000;  // 50,000 scans/s: hundreds per tick
    p.ms1_peak_count = 5;
    p.ms2_peak_count = 5;
    let config = normalize_params(&p).unwrap();
    let mut producer = Producer::new(config, Some(7), None);
    let mut gen = ScanGenerator::with_seed(13);
    let (scans, done) = drive(&mut producer, &mut gen, 10, false, 0);
    assert!(done, "the cap must terminate the run");
    assert_eq!(scans.len(), 7);
    // The truncated batch keeps the cycle pattern: 1,2,2,2,2 then 1,2.
    assert_eq!(scans[0].ms_order, 1);
    for j in 1..5 {
        assert_eq!(scans[j].ms_order, 2);
    }
    assert_eq!(scans[5].ms_order, 1);
    assert_eq!(scans[6].ms_order, 2);
    for (i, s) in scans.iter().enumerate() {
        assert_eq!(s.scan_number as usize, i + 1);
    }
}

#[test]
fn producer_observes_stop_request() {
    let mut producer = Producer::new(test_config(), None, None);
    let mut gen = ScanGenerator::with_seed(3);
    let (scans, done) = drive(&mut producer, &mut gen, 5, true, 0);
    assert!(done);
    assert!(scans.is_empty());
    assert_eq!(producer.scans_generated, 0);
}

#[test]
fn producer_observes_duration_cap() {
    let mut producer = Producer::new(test_config(), None, Some(1_000));
    let mut gen = ScanGenerator::with_seed(3);
    let (_, done) = drive(&mut producer, &mut gen, 1, false, 999);
    assert!(!done, "inside the duration budget");
    let (scans, done) = drive(&mut producer, &mut gen, 1, false, 1_001);
    assert!(done, "past the duration budget");
    assert!(scans.is_empty());
}

#[test]
fn session_id_formats_top_bits() {
    let bits: u128 = 0xdeadbeef_u128 << 96;
    assert_eq!(session_id_from_bits(bits), "deadbeef");
    assert_eq!(session_id_from_bits(0), "00000000");
    let bits: u128 = 0x01234567_u128 << 96 | 0xffff;
    assert_eq!(session_id_from_bits(bits), "01234567");
}

#[test]
fn start_accepted_at_rest() {
    let p = SimulationParams::unset();
    let (resp, config) = decide_start(AcquisitionState::Idle, &p, 0xabc01234_u128 << 96);
    assert!(resp.success);
    assert_eq!(resp.session_id, "abc01234");
    assert_eq!(resp.error_message, "");
    let c = config.expect("a valid start yields a configuration");
    assert_eq!(c.scan_rate_milli, 2_000);
    let (resp2, config2) = decide_start(AcquisitionState::Completed, &p, 0xffff0000_u128 << 96);
    assert!(resp2.success);
    assert!(config2.is_some());
}

#[test]
fn start_rejected_while_acquiring() {
    let p = SimulationParams::unset();
    let (resp, config) = decide_start(AcquisitionState::Acquiring, &p, 0);
    assert!(!resp.success);
    assert!(config.is_none());
    assert_eq!(resp.session_id, "");
    assert_eq!(resp.error_message, "cannot start acquisition in state Acquiring");
}

#[test]
fn start_rejected_on_invalid_config() {
    let mut p = SimulationParams::unset();
    p.min_mz_micro = 500_000_000;
    p.max_mz_micro = 300_000_000;
    let (resp, config) = decide_start(AcquisitionState::Idle, &p, 0);
    assert!(!resp.success);
    assert!(config.is_none());
    assert_eq!(resp.session_id, "");
    assert!(resp.error_message.contains("invalid configuration"));
}

#[test]
fn stop_pause_resume_responses() {
    let stop = stop_response(41);
    assert!(stop.success);
    assert_eq!(stop.final_scan_count, 41);
    assert_eq!(stop.error_message, "");

    let pause = pause_response();
    assert!(!pause.success);
    assert_eq!(pause.error_message, "Pause not implemented in simulator");

    let resume = resume_response();
    assert!(!resume.success);
    assert_eq!(resume.error_message, "Resume not implemented in simulator");
}

#[test]
fn status_report_fields() {
    let r = status_report(AcquisitionState::Acquiring, 17, String::from("abcd1234"));
    assert_eq!(r.state, AcquisitionState::Acquiring);
    assert_eq!(r.scan_count, 17);
    assert_eq!(r.current_retention_time_ms, 0);
    assert_eq!(r.session_id, "abcd1234");
    assert_eq!(r.error_message, "");
}

#[test]
fn instrument_info_fields() {
    let info = instrument_info(
        String::from("Simulated Orbitrap Exploris 480"),
        String::from("SIM-001"),
    );
    assert_eq!(info.instrument_name, "Simulated Orbitrap Exploris 480");
    assert_eq!(info.instrument_id, "SIM-001");
    assert_eq!(info.model, "Orbitrap Exploris 480");
    assert_eq!(info.serial_number, "SIM-001");
    assert_eq!(info.firmware_version, "1.0.0");
    assert_eq!(info.supported_analyzers, vec![String::from("Orbitrap")]);
    assert_eq!(info.supported_fragmentation_types.len(), 2);
    assert_eq!(info.max_resolution, 480_000);
    assert_eq!(info.min_mz_micro, 50_000_000);
    assert_eq!(info.max_mz_micro, 6_000_000_000);
}

#[test]
fn current_timestamp_is_recent() {
    let t = lc_ms_simulator::simulator::current_timestamp_ms();
    // After 2020-01-01 and before 2100-01-01, in milliseconds.
    assert!(t > 1_577_836_800_000);
    assert!(t < 4_102_444_800_000);
}

#[test]
fn stop_mid_run_emits_nothing_further() {
    let mut p = SimulationParams::unset();
    p.scan_rate_milli = 50_000_000;
    p.ms1_peak_count = 5;
    p.ms2_peak_count = 5;
    let config = normalize_params(&p).unwrap();
    let mut producer = Producer::new(config, Some(10_000), None);
    let mut gen = ScanGenerator::with_seed(21);
    let (first, done) = drive(&mut producer, &mut gen, 2, false, 0);
    assert!(!done);
    assert!(!first.is_empty());
    let emitted = producer.scans_generated;
    // A stop request terminates on the next tick without emitting.
    let (rest, done) = drive(&mut producer, &mut gen, 3, true, 0);
    assert!(done);
    assert!(rest.is_empty());
    assert_eq!(producer.scans_generated, emitted);
}

#[test]
fn pacing_matches_floor_formula_at_odd_rate() {
    // 0.777 scans/s with 2 MS2 per MS1: a 3-scan cycle costs 300_000
    // accumulator units and each tick adds 777.
    let mut p = SimulationParams::unset();
    p.scan_rate_milli = 777;
    p.ms2_per_ms1 = 2;
    p.ms1_peak_count = 2;
    p.ms2_peak_count = 2;
    let config = normalize_params(&p).unwrap();
    let mut producer = Producer::new(config, None, None);
    let mut gen = ScanGenerator::with_seed(55);
    let ticks: u64 = 10_000;
    let (scans, done) = drive(&mut producer, &mut gen, ticks, false, 0);
    assert!(!done);
    let cycles = (ticks * 777) / 300_000;
    assert_eq!(scans.len() as u64, cycles * 3);
    assert_eq!(producer.cycle_accumulator, (ticks * 777) % 300_000);
}
