use nlabapi::analog_input::AnalogInput;
use nlabapi::codec::{
    fill_data_frame_legacy, fill_data_frame_modern, null_req, num_channels_on,
};
use nlabapi::commands::DataRequestConfig;
use nlabapi::power::PowerState;
use nlabapi::responses::{StatusResponse, StatusResponseLegacy};
use nlabapi::trigger::{Trigger, TriggerType};
use nlabapi::EncodeError;

fn one_channel_config(total: u32, rate_mhz: u64) -> DataRequestConfig {
    let mut ch1 = AnalogInput::create(true);
    ch1.turn_on();
    let mut off = AnalogInput::create(true);
    off.turn_off();
    DataRequestConfig {
        channels: [ch1, off, off, off],
        sample_rate_mhz: rate_mhz,
        total_samples: total,
        trigger: Trigger::default(),
    }
}

#[test]
fn null_request_bytes() {
    assert_eq!(null_req(), [0, 0xFF]);
}

#[test]
fn counts_channels_that_are_on() {
    let cfg = one_channel_config(20, 4000);
    assert_eq!(num_channels_on(&cfg.channels), 1);
}

#[test]
fn legacy_data_frame_bytes() {
    // 20 samples at 4 Hz on one channel: the shared 4 MHz record clock
    // gives a spacing of 1,000,000 ticks.
    let cfg = one_channel_config(20, 4000);
    let mut frame = [0u8; 65];
    fill_data_frame_legacy(&cfg, &mut frame).unwrap();
    assert_eq!(frame[1], 0x08);
    assert_eq!(&frame[3..7], &[0x40, 0x42, 0x0F, 0x00]);
    assert_eq!(&frame[7..11], &[20, 0, 0, 0]);
    // Trigger disabled: its block is zero.
    assert_eq!(&frame[11..15], &[0, 0, 0, 0]);
    // Channel 1 carries its registers; the others are marked off.
    assert_eq!(frame[15], 0);
    assert_eq!(frame[16], 0xFF);
    assert_eq!(frame[17], 0xFF);
    assert_eq!(frame[18], 0xFF);
    assert_eq!(frame[19], 31);
}

#[test]
fn legacy_data_frame_needs_a_channel() {
    let mut cfg = one_channel_config(20, 4000);
    cfg.channels[0].turn_off();
    let mut frame = [0u8; 65];
    assert_eq!(fill_data_frame_legacy(&cfg, &mut frame), Err(EncodeError::NoChannelsOn));
}

#[test]
fn legacy_data_frame_refuses_unrecordable_timing() {
    // A 20 kHz rate spaces records under 250 ticks; 4000 samples overrun
    // the 3200-reading device buffer.
    let cfg = one_channel_config(4000, 20_000_000);
    let mut frame = [0u8; 65];
    assert_eq!(fill_data_frame_legacy(&cfg, &mut frame), Err(EncodeError::DataNotRecordable));
}

#[test]
fn legacy_data_frame_refuses_bad_trigger_channel() {
    let mut cfg = one_channel_config(20, 4000);
    cfg.trigger = Trigger {
        is_enabled: true,
        trigger_type: TriggerType::RisingEdge,
        source_channel: 7,
        trigger_level_uv: 0,
        trigger_delay_us: 0,
    };
    let mut frame = [0u8; 65];
    assert_eq!(fill_data_frame_legacy(&cfg, &mut frame), Err(EncodeError::InvalidTriggerChannel));
}

#[test]
fn legacy_data_frame_refuses_out_of_range_trigger_level() {
    let mut cfg = one_channel_config(20, 4000);
    cfg.trigger = Trigger {
        is_enabled: true,
        trigger_type: TriggerType::RisingEdge,
        source_channel: 0,
        trigger_level_uv: 100_000_000,
        trigger_delay_us: 0,
    };
    let mut frame = [0u8; 65];
    assert_eq!(fill_data_frame_legacy(&cfg, &mut frame), Err(EncodeError::TriggerLevelOutOfRange));
}

#[test]
fn legacy_data_frame_encodes_trigger_block() {
    let mut cfg = one_channel_config(20, 4000);
    cfg.trigger = Trigger {
        is_enabled: true,
        trigger_type: TriggerType::FallingEdge,
        source_channel: 0,
        trigger_level_uv: 0,
        trigger_delay_us: 0,
    };
    let mut frame = [0u8; 65];
    fill_data_frame_legacy(&cfg, &mut frame).unwrap();
    // Level 0 V maps to code 2047 = 0x7FF on the default calibration:
    // the low nibble rides in byte 11 with the source and edge code, the
    // rest in byte 12.
    assert_eq!(frame[11], 0x00 | (1 << 2) | (0xF << 4));
    assert_eq!(frame[12], 0x7F);
    assert_eq!(&frame[13..15], &[0, 0]);
}

#[test]
fn modern_data_frame_bytes() {
    let mut ch = AnalogInput::create(false);
    ch.turn_on();
    let mut off = AnalogInput::create(false);
    off.turn_off();
    let cfg = DataRequestConfig {
        channels: [ch, ch, off, off],
        sample_rate_mhz: 4000,
        total_samples: 20,
        trigger: Trigger::default(),
    };
    let mut frame = [0u8; 64];
    fill_data_frame_modern(&cfg, &mut frame).unwrap();
    // 2 MHz record clock at 4 Hz: 500,000 ticks.
    assert_eq!(&frame[2..6], &500_000u32.to_le_bytes());
    assert_eq!(&frame[6..10], &[20, 0, 0, 0]);
    assert_eq!(&frame[10..14], &[0, 0, 0xFF, 0xFF]);
    assert_eq!(&frame[14..22], &[0; 8]);
}

#[test]
fn modern_data_frame_refuses_unrecordable_timing() {
    let ch = AnalogInput::create(false);
    let cfg = DataRequestConfig {
        channels: [ch, ch, ch, ch],
        sample_rate_mhz: 100_000_000,
        total_samples: 2401,
        trigger: Trigger::default(),
    };
    let mut frame = [0u8; 64];
    assert_eq!(fill_data_frame_modern(&cfg, &mut frame), Err(EncodeError::DataNotRecordable));
}

#[test]
fn legacy_status_header_decodes() {
    let mut buf = [0u8; 64];
    buf[0] = 0x40 | 5;  // power state 1 in the top bits, firmware 5 below
    buf[1] = 100;
    buf[2] = 9;
    let r = StatusResponseLegacy::new(&buf);
    assert_eq!(r.fw_version, 5);
    assert_eq!(r.power_state, PowerState::PowerOn);
    assert_eq!(r.power_usage, 100);
    assert_eq!(r.request_id, 9);
}

#[test]
fn modern_status_header_decodes() {
    let mut buf = [0u8; 64];
    buf[0] = 3;
    buf[1..3].copy_from_slice(&0x0203u16.to_le_bytes());
    buf[3] = 4;
    buf[4..8].copy_from_slice(&1_000_000u32.to_le_bytes());
    let r = StatusResponse::new(&buf);
    assert_eq!(r.request_id, 3);
    assert_eq!(r.fw_version, 0x0203);
    assert_eq!(r.power_state, PowerState::Startup);
    assert_eq!(r.power_usage_bits, 1_000_000);
}

#[test]
fn power_state_codes() {
    assert_eq!(PowerState::from_code(0), PowerState::PowerOff);
    assert_eq!(PowerState::from_code(1), PowerState::PowerOn);
    assert_eq!(PowerState::from_code(2), PowerState::Shorted);
    assert_eq!(PowerState::from_code(3), PowerState::Overcurrent);
    assert_eq!(PowerState::from_code(4), PowerState::Startup);
    assert_eq!(PowerState::from_code(200), PowerState::Unknown);
}

#[test]
fn legacy_usage_scales_to_microwatts() {
    assert_eq!(nlabapi::power::legacy_usage_microwatts(0), 0);
    assert_eq!(nlabapi::power::legacy_usage_microwatts(255), 5_000_000);
    assert_eq!(nlabapi::power::legacy_usage_microwatts(51), 1_000_000);
}
