use nlabapi::analog_input::AnalogInput;
use nlabapi::analog_output::AnalogOutputState;
use nlabapi::commands::{Command, DataRequestConfig};
use nlabapi::power::{PowerState, PowerUsage};
use nlabapi::session::{Generation, Session, SessionAction};
use nlabapi::trigger::Trigger;

/// Packs 12-bit ADC codes into a reply payload starting at byte 4, two
/// codes per three bytes, the way the device does.
fn pack_readings(buf: &mut [u8; 64], values: &[u16]) {
    for (k, &v) in values.iter().enumerate() {
        let byte = 4 + k / 2 * 3;
        if k % 2 == 0 {
            buf[byte] = (v & 0xFF) as u8;
            buf[byte + 1] |= ((v >> 8) & 0x0F) as u8;
        } else {
            buf[byte + 1] |= ((v & 0x0F) << 4) as u8;
            buf[byte + 2] = (v >> 4) as u8;
        }
    }
}

/// A legacy reply frame: status header plus the packed readings of
/// `count` finished samples.
fn legacy_reply(request_id: u8, count: u8, values: &[u16]) -> [u8; 64] {
    let mut buf = [0u8; 64];
    buf[0] = 0x40 | 3;  // power on, firmware 3
    buf[1] = 128;
    buf[2] = request_id;
    buf[3] = count;
    pack_readings(&mut buf, values);
    buf
}

fn sweep_config_legacy(total: u32, rate_mhz: u64) -> DataRequestConfig {
    let ch1 = AnalogInput::create(true);
    let mut off = AnalogInput::create(true);
    off.turn_off();
    DataRequestConfig {
        channels: [ch1, off, off, off],
        sample_rate_mhz: rate_mhz,
        total_samples: total,
        trigger: Trigger::default(),
    }
}

#[test]
fn twenty_samples_at_4hz_one_channel() {
    // Requesting 20 samples at 4.0 Hz with one channel on yields exactly
    // 20 samples, each holding a voltage for that channel and nothing for
    // the other three, while the budget falls to exactly zero.
    let mut session = Session::new(Generation::Legacy);
    let cfg = sweep_config_legacy(20, 4000);
    let (frame, id) = session.prepare_legacy(Command::RequestData(cfg)).unwrap();
    assert_eq!(id, 1);
    assert_eq!(frame[1], 0x08);
    assert_eq!(frame[2], 1);
    assert_eq!(&frame[3..7], &1_000_000u32.to_le_bytes());

    let mut collected = Vec::new();
    let mut last_remaining = 20u32;
    for chunk in 0..5 {
        let reply = legacy_reply(id, 4, &[2047, 0, 4095, 1000]);
        match session.process_frame_legacy(&reply) {
            SessionAction::SweepProgress { request_id, samples, remaining, finished } => {
                assert_eq!(request_id, id);
                // The budget only ever decreases.
                assert!(remaining <= last_remaining);
                last_remaining = remaining;
                assert_eq!(remaining, 20 - 4 * (chunk + 1));
                assert_eq!(finished, chunk == 4);
                collected.extend(samples);
            },
            other => panic!("unexpected action: {:?}", action_name(&other)),
        }
    }
    assert_eq!(collected.len(), 20);
    for sample in &collected {
        assert!(sample.data[0].is_some());
        assert!(sample.data[1].is_none());
        assert!(sample.data[2].is_none());
        assert!(sample.data[3].is_none());
    }
    // The decoded voltages follow the channel's calibration.
    assert_eq!(collected[0].data[0], Some(0));
    assert_eq!(collected[1].data[0], Some(-4_949_286));
    assert_eq!(collected[2].data[0], Some(4_951_703));
    assert_eq!(collected[3].data[0], Some(-2_531_461));
    // The finished sweep has left the session.
    assert!(!session.has_active_sweep());
}

fn action_name(a: &SessionAction) -> &'static str {
    match a {
        SessionAction::Heartbeat => "Heartbeat",
        SessionAction::UnknownRequest { .. } => "UnknownRequest",
        SessionAction::Ignored => "Ignored",
        SessionAction::InitializeDone { .. } => "InitializeDone",
        SessionAction::AnalogOutputConfirmed { .. } => "AnalogOutputConfirmed",
        SessionAction::PulseOutputConfirmed { .. } => "PulseOutputConfirmed",
        SessionAction::SweepStarted { .. } => "SweepStarted",
        SessionAction::SweepProgress { .. } => "SweepProgress",
        SessionAction::SweepStopped { .. } => "SweepStopped",
    }
}

#[test]
fn request_ids_stay_distinct_while_outstanding() {
    let mut session = Session::new(Generation::Legacy);
    let mut ids = Vec::new();
    for _ in 0..100 {
        let (_, id) = session
            .prepare_legacy(Command::Initialize { power_on: false })
            .unwrap();
        ids.push(id);
    }
    for i in 0..ids.len() {
        assert_ne!(ids[i], 0);
        for j in (i + 1)..ids.len() {
            assert_ne!(ids[i], ids[j]);
        }
    }
}

#[test]
fn status_frames_update_shared_state() {
    let mut session = Session::new(Generation::Legacy);
    assert_eq!(session.firmware_version(), None);
    let reply = legacy_reply(0, 0, &[]);
    match session.process_frame_legacy(&reply) {
        SessionAction::Heartbeat => {},
        other => panic!("unexpected action: {}", action_name(&other)),
    }
    assert_eq!(session.firmware_version(), Some(3));
    let status = session.power_status();
    assert_eq!(status.state, PowerState::PowerOn);
    assert_eq!(status.usage, PowerUsage::LegacyRaw(128));
}

#[test]
fn unknown_request_id_is_reported_and_survived() {
    let mut session = Session::new(Generation::Legacy);
    let reply = legacy_reply(7, 0, &[]);
    match session.process_frame_legacy(&reply) {
        SessionAction::UnknownRequest { request_id } => assert_eq!(request_id, 7),
        other => panic!("unexpected action: {}", action_name(&other)),
    }
    assert!(session.is_running());
}

#[test]
fn turn_off_twice_commits_the_same_state() {
    // Two turn-off requests in a row: each sends exactly one frame, and
    // both confirmations commit the same state.
    let mut session = Session::new(Generation::Legacy);
    let off_state = AnalogOutputState { is_on: false, ..AnalogOutputState::default() };
    let mut committed = Vec::new();
    for _ in 0..2 {
        let (_frame, id) = session
            .prepare_legacy(Command::SetAnalogOutput {
                channel: 0,
                state: off_state,
                frequency_bits: 0,
                amplitude_bits: 0,
            })
            .unwrap();
        let reply = legacy_reply(id, 0, &[]);
        match session.process_frame_legacy(&reply) {
            SessionAction::AnalogOutputConfirmed { request_id, channel, state } => {
                assert_eq!(request_id, id);
                assert_eq!(channel, 0);
                committed.push(state);
            },
            other => panic!("unexpected action: {}", action_name(&other)),
        }
    }
    assert_eq!(committed[0], committed[1]);
    assert_eq!(committed[0], off_state);
}

#[test]
fn transport_failure_ends_sweep_and_connection() {
    // A transport read failure mid-sweep: the loop marks the session
    // stopped; no further frames are processed, so the sample sequence
    // ends, and the session no longer reads as running.
    let mut session = Session::new(Generation::Legacy);
    let cfg = sweep_config_legacy(20, 4000);
    let (_, id) = session.prepare_legacy(Command::RequestData(cfg)).unwrap();
    let reply = legacy_reply(id, 4, &[2047, 2047, 2047, 2047]);
    match session.process_frame_legacy(&reply) {
        SessionAction::SweepProgress { remaining, finished, .. } => {
            assert_eq!(remaining, 16);
            assert!(!finished);
        },
        other => panic!("unexpected action: {}", action_name(&other)),
    }
    // The next read fails: the loop stops the session and unblocks
    // every waiting caller.
    session.mark_stopped();
    assert!(!session.is_running());
}

#[test]
fn stop_acknowledgment_cancels_running_sweep() {
    let mut session = Session::new(Generation::Legacy);
    let cfg = sweep_config_legacy(20, 4000);
    let (_, sweep_id) = session.prepare_legacy(Command::RequestData(cfg)).unwrap();
    assert!(session.has_active_sweep());
    let (_, stop_id) = session.prepare_legacy(Command::StopData).unwrap();
    let reply = legacy_reply(stop_id, 0, &[]);
    match session.process_frame_legacy(&reply) {
        SessionAction::SweepStopped { request_id, cancelled } => {
            assert_eq!(request_id, stop_id);
            assert_eq!(cancelled, Some(sweep_id));
        },
        other => panic!("unexpected action: {}", action_name(&other)),
    }
    assert!(!session.has_active_sweep());
}

#[test]
fn stop_is_idempotent_without_a_sweep() {
    let mut session = Session::new(Generation::Legacy);
    for _ in 0..2 {
        let (_, stop_id) = session.prepare_legacy(Command::StopData).unwrap();
        let reply = legacy_reply(stop_id, 0, &[]);
        match session.process_frame_legacy(&reply) {
            SessionAction::SweepStopped { cancelled, .. } => assert_eq!(cancelled, None),
            other => panic!("unexpected action: {}", action_name(&other)),
        }
    }
}

#[test]
fn parameter_errors_leave_the_session_untouched() {
    // A command the codec refuses is dropped at encode time: nothing is
    // sent, no request id is spent, and the session carries on.
    let mut session = Session::new(Generation::Legacy);
    let too_short = nlabapi::PulseOutputState {
        is_on: true,
        frequency_mhz: 5_000_000_000,
        duty_ppm: 500_000,
    };
    let err = session
        .prepare_legacy(Command::SetPulseOutput {
            channel: 0,
            state: too_short,
            frequency_bits: 0,
            duty_bits: 0,
        })
        .unwrap_err();
    assert_eq!(err, nlabapi::EncodeError::PulseTooShort);
    // The next command still gets the first id.
    let (_, id) = session
        .prepare_legacy(Command::Initialize { power_on: false })
        .unwrap();
    assert_eq!(id, 1);
}
