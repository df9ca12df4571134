use nlabapi::analog_input::AnalogInput;
use nlabapi::analog_output::AnalogOutputState;
use nlabapi::commands::{Command, DataRequestConfig};
use nlabapi::power::{PowerState, PowerUsage};
use nlabapi::session::{Generation, Session, SessionAction};
use nlabapi::trigger::Trigger;

/// A modern status frame answering `request_id`.
fn modern_status(request_id: u8, fw: u16, power_code: u8, usage_bits: u32) -> [u8; 64] {
    let mut buf = [0u8; 64];
    buf[0] = request_id;
    buf[1..3].copy_from_slice(&fw.to_le_bytes());
    buf[3] = power_code;
    buf[4..8].copy_from_slice(&usage_bits.to_le_bytes());
    buf
}

/// A modern channel-endpoint frame for `request_id` carrying packed
/// readings.
fn channel_frame(request_id: u8, values: &[u16]) -> [u8; 64] {
    let mut buf = [0u8; 64];
    buf[0] = request_id;
    buf[1] = values.len() as u8;
    for (k, &v) in values.iter().enumerate() {
        let byte = 4 + k / 2 * 3;
        if k % 2 == 0 {
            buf[byte] = (v & 0xFF) as u8;
            buf[byte + 1] |= ((v >> 8) & 0x0F) as u8;
        } else {
            buf[byte + 1] |= ((v & 0x0F) << 4) as u8;
            buf[byte + 2] = (v >> 4) as u8;
        }
    }
    buf
}

fn two_channel_config(total: u32) -> DataRequestConfig {
    let on = AnalogInput::create(false);
    let mut off = AnalogInput::create(false);
    off.turn_off();
    DataRequestConfig {
        channels: [on, on, off, off],
        sample_rate_mhz: 4000,
        total_samples: total,
        trigger: Trigger::default(),
    }
}

#[test]
fn initialize_handshake() {
    let mut session = Session::new(Generation::Modern);
    let (frame, id) = session
        .prepare_modern(Command::Initialize { power_on: true })
        .unwrap();
    assert_eq!(frame[0], id);
    assert_eq!(frame[1], 1);
    assert_eq!(frame[2], 1);
    let reply = modern_status(id, 0x0100, 1, 42);
    match session.process_status_modern(&reply) {
        SessionAction::InitializeDone { request_id } => assert_eq!(request_id, id),
        _ => panic!("expected the initialization to complete"),
    }
    assert_eq!(session.firmware_version(), Some(0x0100));
    let status = session.power_status();
    assert_eq!(status.state, PowerState::PowerOn);
    assert_eq!(status.usage, PowerUsage::ModernBits(42));
}

#[test]
fn analog_output_frame_and_confirmation() {
    let mut session = Session::new(Generation::Modern);
    let state = AnalogOutputState { is_on: true, ..AnalogOutputState::default() };
    let freq_bits = 1.0f32.to_bits();
    let ampl_bits = 1.0f32.to_bits();
    let (frame, id) = session
        .prepare_modern(Command::SetAnalogOutput {
            channel: 0,
            state,
            frequency_bits: freq_bits,
            amplitude_bits: ampl_bits,
        })
        .unwrap();
    assert_eq!(frame[0], id);
    assert_eq!(frame[1], 2);
    assert_eq!(frame[3], 0x01);
    assert_eq!(frame[4], 1);
    assert_eq!(&frame[5..9], &freq_bits.to_le_bytes());
    assert_eq!(&frame[9..13], &ampl_bits.to_le_bytes());
    assert_eq!(frame[13], 0);
    assert_eq!(frame[14], 0);
    let reply = modern_status(id, 0x0100, 1, 0);
    match session.process_status_modern(&reply) {
        SessionAction::AnalogOutputConfirmed { channel, state: committed, .. } => {
            assert_eq!(channel, 0);
            assert_eq!(committed, state);
        },
        _ => panic!("expected the output request to be confirmed"),
    }
}

#[test]
fn channel_streams_collate_only_when_aligned() {
    // Two channels are on: samples are emitted only once both have
    // delivered, which keeps them aligned; the longer stream's leftover
    // readings wait for the next cycle.
    let mut session = Session::new(Generation::Modern);
    let cfg = two_channel_config(20);
    let (_, id) = session.prepare_modern(Command::RequestData(cfg)).unwrap();
    let reply = modern_status(id, 0x0100, 1, 0);
    match session.process_status_modern(&reply) {
        SessionAction::SweepStarted { request_id } => assert_eq!(request_id, id),
        _ => panic!("expected the sweep to start"),
    }
    assert!(session.has_active_sweep());

    // Channel 0 delivers three readings; channel 1 nothing yet.
    assert!(session.process_channel_frame_modern(0, &channel_frame(id, &[100, 200, 300])));
    match session.collate_modern() {
        SessionAction::SweepProgress { samples, remaining, finished, .. } => {
            assert_eq!(samples.len(), 0);
            assert_eq!(remaining, 20);
            assert!(!finished);
        },
        _ => panic!("expected sweep progress"),
    }

    // Channel 1 catches up with two readings: two aligned samples.
    assert!(session.process_channel_frame_modern(1, &channel_frame(id, &[1500, 2500])));
    match session.collate_modern() {
        SessionAction::SweepProgress { samples, remaining, finished, .. } => {
            assert_eq!(samples.len(), 2);
            assert_eq!(remaining, 18);
            assert!(!finished);
            assert_eq!(samples[0].data[0], Some(-4_755_799));
            assert_eq!(samples[0].data[1], Some(-1_336_996));
            assert!(samples[0].data[2].is_none());
            assert!(samples[0].data[3].is_none());
            assert_eq!(samples[1].data[0], Some(-4_511_599));
            assert_eq!(samples[1].data[1], Some(1_105_006));
        },
        _ => panic!("expected sweep progress"),
    }

    // The leftover channel-0 reading is still buffered: one more reading
    // on channel 1 completes one more sample.
    assert!(session.process_channel_frame_modern(1, &channel_frame(id, &[100])));
    match session.collate_modern() {
        SessionAction::SweepProgress { samples, remaining, .. } => {
            assert_eq!(samples.len(), 1);
            assert_eq!(remaining, 17);
            assert_eq!(samples[0].data[0], Some(-4_267_399));
            assert_eq!(samples[0].data[1], Some(-4_755_799));
        },
        _ => panic!("expected sweep progress"),
    }
}

#[test]
fn stray_channel_frames_are_rejected() {
    let mut session = Session::new(Generation::Modern);
    let cfg = two_channel_config(20);
    let (_, id) = session.prepare_modern(Command::RequestData(cfg)).unwrap();
    let reply = modern_status(id, 0x0100, 1, 0);
    session.process_status_modern(&reply);
    // A frame for another request id is dropped.
    assert!(!session.process_channel_frame_modern(0, &channel_frame(id.wrapping_add(1), &[1])));
    // A frame on a channel that is off is dropped.
    assert!(!session.process_channel_frame_modern(2, &channel_frame(id, &[1])));
}

#[test]
fn sweep_finishes_at_exactly_zero() {
    let mut session = Session::new(Generation::Modern);
    let cfg = two_channel_config(2);
    let (_, id) = session.prepare_modern(Command::RequestData(cfg)).unwrap();
    let reply = modern_status(id, 0x0100, 1, 0);
    session.process_status_modern(&reply);
    assert!(session.process_channel_frame_modern(0, &channel_frame(id, &[100, 200, 300])));
    assert!(session.process_channel_frame_modern(1, &channel_frame(id, &[100, 200, 300])));
    match session.collate_modern() {
        SessionAction::SweepProgress { samples, remaining, finished, .. } => {
            // Three aligned samples arrived but only two were owed: the
            // budget stops at exactly zero and the sweep is over.
            assert_eq!(samples.len(), 3);
            assert_eq!(remaining, 0);
            assert!(finished);
        },
        _ => panic!("expected sweep progress"),
    }
    assert!(!session.has_active_sweep());
}

#[test]
fn stop_voids_modern_sweep() {
    let mut session = Session::new(Generation::Modern);
    let cfg = two_channel_config(20);
    let (_, sweep_id) = session.prepare_modern(Command::RequestData(cfg)).unwrap();
    let reply = modern_status(sweep_id, 0x0100, 1, 0);
    session.process_status_modern(&reply);
    let (frame, stop_id) = session.prepare_modern(Command::StopData).unwrap();
    assert_eq!(frame[1], 5);
    let reply = modern_status(stop_id, 0x0100, 1, 0);
    match session.process_status_modern(&reply) {
        SessionAction::SweepStopped { request_id, cancelled } => {
            assert_eq!(request_id, stop_id);
            assert_eq!(cancelled, Some(sweep_id));
        },
        _ => panic!("expected the sweep to stop"),
    }
    assert!(!session.has_active_sweep());
}

#[test]
fn mismatched_status_reply_is_ignored() {
    let mut session = Session::new(Generation::Modern);
    let (_, id) = session
        .prepare_modern(Command::Initialize { power_on: false })
        .unwrap();
    let reply = modern_status(id.wrapping_add(1), 0x0100, 1, 0);
    match session.process_status_modern(&reply) {
        SessionAction::Ignored => {},
        _ => panic!("expected the mismatched reply to be ignored"),
    }
    // The request stays outstanding, and the matching reply still lands.
    let reply = modern_status(id, 0x0100, 1, 0);
    match session.process_status_modern(&reply) {
        SessionAction::InitializeDone { request_id } => assert_eq!(request_id, id),
        _ => panic!("expected the initialization to complete"),
    }
}
