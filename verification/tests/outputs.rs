use nlabapi::analog_output::{
    freq_register, legacy_ax_gain, legacy_ax_offset, AnalogOutputState, AnalogSignalPolarity,
    AnalogWaveType,
};
use nlabapi::pulse_output::{get_registers, PulseOutputState, PulsePreScale};
use nlabapi::EncodeError;

#[test]
fn freq_register_exact_value() {
    // 1 kHz: 1000 * 2^28 / 4 MHz = 67108.864, truncated.
    assert_eq!(freq_register(1_000_000), 67108);
    assert_eq!(freq_register(0), 0);
}

#[test]
fn legacy_ax_registers_exact_values() {
    // A 1 V unipolar amplitude through the output divider model.
    let gain = legacy_ax_gain(1_000_000, AnalogSignalPolarity::Unipolar);
    assert_eq!(gain, 76);
    assert_eq!(legacy_ax_offset(1_000_000, gain), 31);
    // Zero amplitude asks for unbounded attenuation: the register clamps.
    assert_eq!(legacy_ax_gain(0, AnalogSignalPolarity::Unipolar), 255);
    // A bipolar signal spans twice the amplitude, so its gain is smaller.
    let bipolar = legacy_ax_gain(1_000_000, AnalogSignalPolarity::Bipolar);
    assert!(bipolar < gain);
}

#[test]
fn analog_output_default_state() {
    let s = AnalogOutputState::default();
    assert!(!s.is_on);
    assert_eq!(s.frequency_mhz, 1000);
    assert_eq!(s.amplitude_uv, 1_000_000);
    assert_eq!(s.wave_type, AnalogWaveType::Sine);
    assert_eq!(s.polarity, AnalogSignalPolarity::Unipolar);
}

#[test]
fn pulse_registers_at_1khz_half_duty() {
    // 1000 Hz at 50 % duty: 16000 ticks of the 16 MHz clock fit the
    // 16-bit register un-scaled, and the duty register is half the period
    // register.
    let state = PulseOutputState { is_on: true, frequency_mhz: 1_000_000, duty_ppm: 500_000 };
    let (prescale, period, duty) = get_registers(&state).unwrap();
    assert_eq!(prescale, 0);
    assert_eq!(period, 16000);
    assert_eq!(duty, period / 2);
}

#[test]
fn pulse_prescale_is_smallest_that_fits() {
    // 65535 ticks still fit the un-scaled register; one more period tick
    // forces the next pre-scaler.
    let fits = PulseOutputState { is_on: true, frequency_mhz: 244_144, duty_ppm: 500_000 };
    let (prescale, period, _) = get_registers(&fits).unwrap();
    assert_eq!(prescale, PulsePreScale::One.register());
    assert_eq!(period, 65535);

    let over = PulseOutputState { is_on: true, frequency_mhz: 244_140, duty_ppm: 500_000 };
    let (prescale, period, _) = get_registers(&over).unwrap();
    assert_eq!(prescale, PulsePreScale::Eight.register());
    assert_eq!(period, 8192);
}

#[test]
fn pulse_prescale_codes_and_values() {
    assert_eq!(PulsePreScale::One.value(), 1);
    assert_eq!(PulsePreScale::Eight.value(), 8);
    assert_eq!(PulsePreScale::SixtyFour.value(), 64);
    assert_eq!(PulsePreScale::TwoFiftySix.value(), 256);
    assert_eq!(PulsePreScale::One.register(), 0);
    assert_eq!(PulsePreScale::Eight.register(), 1);
    assert_eq!(PulsePreScale::SixtyFour.register(), 2);
    assert_eq!(PulsePreScale::TwoFiftySix.register(), 3);
}

#[test]
fn pulse_period_too_short_is_refused() {
    // 5 MHz: a 200 ns period is under four ticks of the 16 MHz clock.
    let state = PulseOutputState { is_on: true, frequency_mhz: 5_000_000_000, duty_ppm: 500_000 };
    assert_eq!(get_registers(&state), Err(EncodeError::PulseTooShort));
}

#[test]
fn pulse_period_too_long_is_refused() {
    // 1 mHz: a 1000 s period overflows even the largest pre-scaled
    // register.
    let state = PulseOutputState { is_on: true, frequency_mhz: 1, duty_ppm: 500_000 };
    assert_eq!(get_registers(&state), Err(EncodeError::PulseTooLong));
    // A zero frequency has no representable period at all.
    let state = PulseOutputState { is_on: true, frequency_mhz: 0, duty_ppm: 500_000 };
    assert_eq!(get_registers(&state), Err(EncodeError::PulseTooLong));
}

#[test]
fn pulse_period_and_width_in_nanoseconds() {
    let state = PulseOutputState { is_on: true, frequency_mhz: 1_000_000, duty_ppm: 250_000 };
    assert_eq!(state.period(), 1_000_000);
    assert_eq!(state.pulse_width(), 250_000);
}
