use nlabapi::analog_input::{AnalogInput, AnalogInterface};

#[test]
fn modern_measurement_exact_values() {
    let ch = AnalogInput::create(false);
    assert_eq!(ch.measurement_from_voltage(0), 2047);
    assert_eq!(ch.measurement_from_voltage(5_000_000), 4095);
    assert_eq!(ch.measurement_from_voltage(-5_000_000), 0);
    assert_eq!(ch.measurement_from_voltage(1_234_567), 2553);
}

#[test]
fn modern_measurement_saturates() {
    let ch = AnalogInput::create(false);
    // Far outside the front end's span the measurement saturates at the
    // signed 16-bit limits, as the hardware conversion does.
    assert_eq!(ch.measurement_from_voltage(i64::MAX), i16::MAX);
    assert_eq!(ch.measurement_from_voltage(i64::MIN), i16::MIN);
}

#[test]
fn modern_voltage_exact_values() {
    let ch = AnalogInput::create(false);
    assert_eq!(ch.voltage_from_measurement(4095), 5_000_000);
    assert_eq!(ch.voltage_from_measurement(0), -5_000_000);
    assert_eq!(ch.voltage_from_measurement(2047), -1221);
}

#[test]
fn modern_round_trip_within_one_step() {
    // One ADC code of the modern front end spans 10 V / 4095 of range,
    // about 2442 microvolts; a measure-then-decode round trip stays within
    // one step plus the microvolt of truncation.
    let ch = AnalogInput::create(false);
    for v in [-4_999_999i64, -3_333_333, -1, 0, 1, 999_999, 1_234_567, 4_999_999] {
        let code = ch.measurement_from_voltage(v);
        assert!((0..=4095).contains(&code));
        let rt = ch.voltage_from_measurement(code as u16);
        assert!((rt - v).abs() <= 2443, "{} -> {} -> {}", v, code, rt);
    }
}

#[test]
fn legacy_create_solves_default_range() {
    let ch = AnalogInput::create(true);
    assert!(ch.is_on());
    assert_eq!(ch.gain_cmd(), 0);
    assert_eq!(ch.offset_cmd(), 31);
}

#[test]
fn legacy_set_range_solves_registers() {
    let mut ch = AnalogInput::create(true);
    ch.set_range(-2_000_000, 2_000_000);
    assert_eq!(ch.gain_cmd(), 19);
    assert_eq!(ch.offset_cmd(), 31);
    assert_eq!(ch.gain_milli(), 2494);
}

#[test]
fn legacy_set_range_clamps_degenerate_gain() {
    // A span wider than the hardware can attenuate asks for a gain below
    // the divider's minimum; the register clamps to its nearest legal
    // value instead of failing, and the offset pins to mid-scale.
    let mut ch = AnalogInput::create(true);
    ch.set_range(-50_000_000, 50_000_000);
    assert_eq!(ch.gain_cmd(), 0);
    assert_eq!(ch.offset_cmd(), 31);
}

#[test]
fn legacy_voltage_exact_values() {
    let ch = AnalogInput::create(true);
    assert_eq!(ch.voltage_from_measurement(2047), 0);
    assert_eq!(ch.voltage_from_measurement(0), -4_949_286);
    assert_eq!(ch.voltage_from_measurement(4095), 4_951_703);
    assert_eq!(ch.voltage_from_measurement(1000), -2_531_461);
}

#[test]
fn legacy_round_trip_within_one_step() {
    // With the 4 V range solved above, one ADC code spans about 979
    // microvolts.
    let mut ch = AnalogInput::create(true);
    ch.set_range(-2_000_000, 2_000_000);
    for v in [-1_900_000i64, -1_000_000, -1, 0, 1, 777_777, 1_000_000, 1_900_000] {
        let code = ch.measurement_from_voltage(v);
        assert!((0..=4095).contains(&code));
        let rt = ch.voltage_from_measurement(code as u16);
        assert!((rt - v).abs() <= 980, "{} -> {} -> {}", v, code, rt);
    }
}

#[test]
fn turn_on_and_off_toggle_only_the_flag() {
    let mut ch = AnalogInput::create(true);
    let iface_before = ch.interface;
    ch.turn_off();
    assert!(!ch.is_on());
    assert_eq!(ch.interface, iface_before);
    ch.turn_on();
    assert!(ch.is_on());
    assert_eq!(ch.interface, iface_before);
}

#[test]
fn modern_interface_has_no_registers() {
    let mut ch = AnalogInput::create(false);
    assert_eq!(ch.interface, AnalogInterface::Modern);
    ch.set_range(-1_000_000, 1_000_000);
    assert_eq!(ch.interface, AnalogInterface::Modern);
    assert_eq!(ch.gain_cmd(), 0);
    assert_eq!(ch.offset_cmd(), 0);
    assert_eq!(ch.gain_milli(), 1000);
}
