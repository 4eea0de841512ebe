//! Control surface: the in-band responses of the start/stop/pause/resume,
//! status and instrument-info operations, and the session identifier.

use vstd::prelude::*;

use crate::engine::{
    AcquisitionState, SimulationParams, RunConfig, params_valid, normalize_params, eff_scan_rate,
    eff_ms2_per_ms1, eff_min_mz, eff_max_mz, eff_override, run_config_wf,
};
use crate::scan::FragmentationKind;

verus! {

/// Relies on std's `String::push`: appends one character to the string.
pub assume_specification[ String::push ](s: &mut String, ch: char)
    ensures
        final(s)@ == old(s)@.push(ch),
;

/// Relies on uuid's `Uuid::new_v4` and `Uuid::as_u128`: 128 random bits.
/// Nothing is promised of the value.
#[verifier::external_body]
pub fn new_session_bits() -> u128 {
    uuid::Uuid::new_v4().as_u128()
}

/// The hexadecimal digit of a nibble, lower case.
pub open spec fn hex_digit(n: int) -> char {
    if n == 0 {
        '0'
    } else if n == 1 {
        '1'
    } else if n == 2 {
        '2'
    } else if n == 3 {
        '3'
    } else if n == 4 {
        '4'
    } else if n == 5 {
        '5'
    } else if n == 6 {
        '6'
    } else if n == 7 {
        '7'
    } else if n == 8 {
        '8'
    } else if n == 9 {
        '9'
    } else if n == 10 {
        'a'
    } else if n == 11 {
        'b'
    } else if n == 12 {
        'c'
    } else if n == 13 {
        'd'
    } else if n == 14 {
        'e'
    } else {
        'f'
    }
}

/// The session identifier of a random draw: the eight hexadecimal digits of
/// its top 32 bits, most significant first — the first eight characters of
/// the canonical form of a 128-bit identifier.
pub open spec fn session_id_chars(top: u32) -> Seq<char> {
    seq![
        hex_digit(((top >> 28u32) & 0xfu32) as int),
        hex_digit(((top >> 24u32) & 0xfu32) as int),
        hex_digit(((top >> 20u32) & 0xfu32) as int),
        hex_digit(((top >> 16u32) & 0xfu32) as int),
        hex_digit(((top >> 12u32) & 0xfu32) as int),
        hex_digit(((top >> 8u32) & 0xfu32) as int),
        hex_digit(((top >> 4u32) & 0xfu32) as int),
        hex_digit((top & 0xfu32) as int),
    ]
}

/// The character of one nibble.
fn hex_char_of(n: u32) -> (c: char)
    requires
        n < 16,
    ensures
        c == hex_digit(n as int),
{
    if n == 0 {
        '0'
    } else if n == 1 {
        '1'
    } else if n == 2 {
        '2'
    } else if n == 3 {
        '3'
    } else if n == 4 {
        '4'
    } else if n == 5 {
        '5'
    } else if n == 6 {
        '6'
    } else if n == 7 {
        '7'
    } else if n == 8 {
        '8'
    } else if n == 9 {
        '9'
    } else if n == 10 {
        'a'
    } else if n == 11 {
        'b'
    } else if n == 12 {
        'c'
    } else if n == 13 {
        'd'
    } else if n == 14 {
        'e'
    } else {
        'f'
    }
}

/// Formats the eight-character session identifier of a 128-bit draw.
pub fn session_id_from_bits(bits: u128) -> (r: String)
    ensures
        r@ == session_id_chars((bits >> 96u128) as u32),
        r@.len() == 8,
{
    let top: u32 = (bits >> 96u128) as u32;
    proof {
        assert((top >> 28u32) & 0xfu32 < 16 && (top >> 24u32) & 0xfu32 < 16 && (top >> 20u32)
            & 0xfu32 < 16 && (top >> 16u32) & 0xfu32 < 16 && (top >> 12u32) & 0xfu32 < 16 && (top
            >> 8u32) & 0xfu32 < 16 && (top >> 4u32) & 0xfu32 < 16 && top & 0xfu32 < 16)
            by (bit_vector);
    }
    let mut r = String::new();
    r.push(hex_char_of((top >> 28u32) & 0xfu32));
    r.push(hex_char_of((top >> 24u32) & 0xfu32));
    r.push(hex_char_of((top >> 20u32) & 0xfu32));
    r.push(hex_char_of((top >> 16u32) & 0xfu32));
    r.push(hex_char_of((top >> 12u32) & 0xfu32));
    r.push(hex_char_of((top >> 8u32) & 0xfu32));
    r.push(hex_char_of((top >> 4u32) & 0xfu32));
    r.push(hex_char_of(top & 0xfu32));
    proof {
        assert(r@ =~= session_id_chars(top));
    }
    r
}

/// Reply to a start request.
pub struct StartResponse {
    pub success: bool,
    pub session_id: String,
    pub error_message: String,
}

/// Reply to a stop request.
pub struct StopResponse {
    pub success: bool,
    pub final_scan_count: i64,
    pub error_message: String,
}

/// Reply to a pause or resume request.
pub struct AckResponse {
    pub success: bool,
    pub error_message: String,
}

/// Reply to a status request.
pub struct StatusReport {
    pub state: AcquisitionState,
    pub scan_count: i64,
    /// Placeholder: reported as zero pending defined semantics.
    pub current_retention_time_ms: u64,
    pub session_id: String,
    pub error_message: String,
}

/// Static instrument descriptor. Mass range and resolution are fixed-point
/// integers (m/z in micro-daltons).
pub struct InstrumentInfo {
    pub instrument_name: String,
    pub instrument_id: String,
    pub model: String,
    pub serial_number: String,
    pub firmware_version: String,
    pub simulator_version: String,
    pub supported_analyzers: Vec<String>,
    pub supported_fragmentation_types: Vec<FragmentationKind>,
    pub max_resolution: u32,
    pub min_mz_micro: u64,
    pub max_mz_micro: u64,
}

/// The denial message of a start attempted outside a rest state.
pub open spec fn start_denied_message(state: AcquisitionState) -> Seq<char> {
    match state {
        AcquisitionState::Starting => "cannot start acquisition in state Starting"@,
        AcquisitionState::Acquiring => "cannot start acquisition in state Acquiring"@,
        AcquisitionState::Paused => "cannot start acquisition in state Paused"@,
        AcquisitionState::Stopping => "cannot start acquisition in state Stopping"@,
        AcquisitionState::Faulted => "cannot start acquisition in state Faulted"@,
        AcquisitionState::Idle => ""@,
        AcquisitionState::Completed => ""@,
    }
}

/// The message of a start whose simulation options are rejected.
pub open spec fn invalid_config_message() -> Seq<char> {
    "invalid configuration: m/z window must be ordered, positive and inside the instrument range"@
}

/// Decides a start request from the observed state, the requested options
/// and a fresh random draw for the session identifier. Accepts — with the
/// validated configuration and the session identifier — exactly when the
/// state is at rest and the options are valid; otherwise replies in band
/// with the exact denial message and no configuration.
pub fn decide_start(state: AcquisitionState, params: &SimulationParams, session_bits: u128) -> (r:
    (StartResponse, Option<RunConfig>))
    ensures
        (r.1 is Some) <==> ((state == AcquisitionState::Idle || state
            == AcquisitionState::Completed) && params_valid(*params)),
        r.0.success == (r.1 is Some),
        r.1 is Some ==> {
            let c = r.1->0;
            &&& c.scan_rate_milli == eff_scan_rate(*params)
            &&& c.ms2_per_ms1 == eff_ms2_per_ms1(*params)
            &&& c.min_mz == eff_min_mz(*params)
            &&& c.max_mz == eff_max_mz(*params)
            &&& c.ms1_peak_override == eff_override(params.ms1_peak_count)
            &&& c.ms2_peak_override == eff_override(params.ms2_peak_count)
            &&& c.random_seed == params.random_seed
            &&& run_config_wf(c)
            &&& r.0.session_id@ == session_id_chars((session_bits >> 96u128) as u32)
            &&& r.0.error_message@ == Seq::<char>::empty()
        },
        !(state == AcquisitionState::Idle || state == AcquisitionState::Completed) ==> {
            &&& r.0.session_id@ == Seq::<char>::empty()
            &&& r.0.error_message@ == start_denied_message(state)
        },
        (state == AcquisitionState::Idle || state == AcquisitionState::Completed) && !params_valid(
            *params,
        ) ==> {
            &&& r.0.session_id@ == Seq::<char>::empty()
            &&& r.0.error_message@ == invalid_config_message()
        },
{
    let ok = match state {
        AcquisitionState::Idle => true,
        AcquisitionState::Completed => true,
        _ => false,
    };
    if !ok {
        let message = match state {
            AcquisitionState::Starting => "cannot start acquisition in state Starting",
            AcquisitionState::Acquiring => "cannot start acquisition in state Acquiring",
            AcquisitionState::Paused => "cannot start acquisition in state Paused",
            AcquisitionState::Stopping => "cannot start acquisition in state Stopping",
            AcquisitionState::Faulted => "cannot start acquisition in state Faulted",
            AcquisitionState::Idle => "",
            AcquisitionState::Completed => "",
        };
        return (
            StartResponse {
                success: false,
                session_id: String::new(),
                error_message: message.to_owned(),
            },
            None,
        );
    }
    match normalize_params(params) {
        Some(config) => {
            let session_id = session_id_from_bits(session_bits);
            (
                StartResponse { success: true, session_id, error_message: String::new() },
                Some(config),
            )
        },
        None => (
            StartResponse {
                success: false,
                session_id: String::new(),
                error_message:
                    "invalid configuration: m/z window must be ordered, positive and inside the instrument range".to_owned(),
            },
            None,
        ),
    }
}

/// Reply to a stop request: always succeeds and reports the cumulative
/// count; the caller sets the state to `Stopping` unconditionally.
pub fn stop_response(final_scan_count: i64) -> (r: StopResponse)
    ensures
        r.success == true,
        r.final_scan_count == final_scan_count,
        r.error_message@ == Seq::<char>::empty(),
{
    StopResponse { success: true, final_scan_count, error_message: String::new() }
}

/// Reply to a pause request: unsupported, state unchanged.
pub fn pause_response() -> (r: AckResponse)
    ensures
        r.success == false,
        r.error_message@ == "Pause not implemented in simulator"@,
{
    AckResponse { success: false, error_message: "Pause not implemented in simulator".to_owned() }
}

/// Reply to a resume request: unsupported, state unchanged.
pub fn resume_response() -> (r: AckResponse)
    ensures
        r.success == false,
        r.error_message@ == "Resume not implemented in simulator"@,
{
    AckResponse { success: false, error_message: "Resume not implemented in simulator".to_owned() }
}

/// The status report: the observed state and count, the session identifier
/// (empty when none was minted), a zero retention-time placeholder and no
/// error. Never fails.
pub fn status_report(state: AcquisitionState, scan_count: i64, session_id: String) -> (r:
    StatusReport)
    ensures
        r.state == state,
        r.scan_count == scan_count,
        r.current_retention_time_ms == 0,
        r.session_id@ == session_id@,
        r.error_message@ == Seq::<char>::empty(),
{
    StatusReport {
        state,
        scan_count,
        current_retention_time_ms: 0,
        session_id,
        error_message: String::new(),
    }
}

/// The static instrument descriptor. Never fails; the serial number equals
/// the instrument identifier.
pub fn instrument_info(instrument_name: String, instrument_id: String) -> (r: InstrumentInfo)
    ensures
        r.instrument_name@ == instrument_name@,
        r.instrument_id@ == instrument_id@,
        r.model@ == "Orbitrap Exploris 480"@,
        r.serial_number@ == instrument_id@,
        r.firmware_version@ == "1.0.0"@,
        r.simulator_version@ == "0.1.0"@,
        r.supported_analyzers@.len() == 1 && r.supported_analyzers@[0]@ == "Orbitrap"@,
        r.supported_fragmentation_types@ == seq![
            FragmentationKind::Hcd,
            FragmentationKind::Cid,
        ],
        r.max_resolution == 480_000,
        r.min_mz_micro == 50_000_000,
        r.max_mz_micro == 6_000_000_000,
{
    let serial_number = instrument_id.clone();
    let mut analyzers: Vec<String> = Vec::new();
    analyzers.push("Orbitrap".to_owned());
    let mut fragmentation_types: Vec<FragmentationKind> = Vec::new();
    fragmentation_types.push(FragmentationKind::Hcd);
    fragmentation_types.push(FragmentationKind::Cid);
    proof {
        assert(fragmentation_types@ =~= seq![FragmentationKind::Hcd, FragmentationKind::Cid]);
    }
    InstrumentInfo {
        instrument_name,
        instrument_id,
        model: "Orbitrap Exploris 480".to_owned(),
        serial_number,
        firmware_version: "1.0.0".to_owned(),
        simulator_version: "0.1.0".to_owned(),
        supported_analyzers: analyzers,
        supported_fragmentation_types: fragmentation_types,
        max_resolution: 480_000,
        min_mz_micro: 50_000_000,
        max_mz_micro: 6_000_000_000,
    }
}

} // verus!
