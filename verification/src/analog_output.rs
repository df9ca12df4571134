//! Analog (waveform) output channels: state, register solving and framing.

use vstd::prelude::*;

verus! {

/// Possible analog output signal types.
#[derive(Debug, PartialEq, Eq, Structural, Copy, Clone)]
pub enum AnalogWaveType {
    Sine,
    Triangle,
}

impl AnalogWaveType {
    /// Wire code of the wave type.
    pub open spec fn wire_code(self) -> u8 {
        match self {
            AnalogWaveType::Sine => 0,
            AnalogWaveType::Triangle => 1,
        }
    }

    /// Wire code of the wave type.
    pub fn value(&self) -> (r: u8)
        ensures
            r == self.wire_code(),
    {
        match self {
            AnalogWaveType::Sine => 0,
            AnalogWaveType::Triangle => 1,
        }
    }
}

/// Possible analog output polarities.
#[derive(Debug, PartialEq, Eq, Structural, Copy, Clone)]
pub enum AnalogSignalPolarity {
    Unipolar,
    Bipolar,
}

impl AnalogSignalPolarity {
    /// Wire code of the polarity.
    pub open spec fn wire_code(self) -> u8 {
        match self {
            AnalogSignalPolarity::Unipolar => 0,
            AnalogSignalPolarity::Bipolar => 1,
        }
    }

    /// Wire code of the polarity.
    pub fn value(&self) -> (r: u8)
        ensures
            r == self.wire_code(),
    {
        match self {
            AnalogSignalPolarity::Unipolar => 0,
            AnalogSignalPolarity::Bipolar => 1,
        }
    }
}

/// The requested configuration of one analog output channel.
///
/// The frequency is carried in millihertz and the amplitude in microvolts, so
/// that register solving is exact integer arithmetic.
#[derive(Debug, PartialEq, Eq, Structural, Copy, Clone)]
pub struct AnalogOutputState {
    pub is_on: bool,
    pub frequency_mhz: u64,
    pub amplitude_uv: i64,
    pub wave_type: AnalogWaveType,
    pub polarity: AnalogSignalPolarity,
}

impl AnalogOutputState {
    /// The state every channel starts in: off, 1 Hz, 1 V, sine, unipolar.
    pub open spec fn spec_default() -> AnalogOutputState {
        AnalogOutputState {
            is_on: false,
            frequency_mhz: 1000,
            amplitude_uv: 1_000_000,
            wave_type: AnalogWaveType::Sine,
            polarity: AnalogSignalPolarity::Unipolar,
        }
    }

    /// The same state with the output on.
    pub open spec fn turned_on(self) -> AnalogOutputState {
        AnalogOutputState { is_on: true, ..self }
    }

    /// The same state with the output off.
    pub open spec fn turned_off(self) -> AnalogOutputState {
        AnalogOutputState { is_on: false, ..self }
    }
}

impl Default for AnalogOutputState {
    fn default() -> (r: Self)
        ensures
            r == AnalogOutputState::spec_default(),
    {
        AnalogOutputState {
            is_on: false,
            frequency_mhz: 1000,
            amplitude_uv: 1_000_000,
            wave_type: AnalogWaveType::Sine,
            polarity: AnalogSignalPolarity::Unipolar,
        }
    }
}

/// The DDS phase-increment register for a target frequency: the frequency in
/// hertz times 2^28, divided by the 4 MHz wave clock, truncated, saturating
/// at the register's width.
pub open spec fn spec_freq_register(frequency_mhz: u64) -> u32 {
    let r = (frequency_mhz * 0x1000_0000) / 4_000_000_000;
    if r > 0xFFFF_FFFF {
        0xFFFF_FFFF
    } else {
        r as u32
    }
}

/// Solves the DDS frequency register for a target frequency.
pub fn freq_register(frequency_mhz: u64) -> (r: u32)
    ensures
        r == spec_freq_register(frequency_mhz),
{
    let scaled: u128 = (frequency_mhz as u128) * 0x1000_0000 / 4_000_000_000;
    if scaled > 0xFFFF_FFFF {
        0xFFFF_FFFF
    } else {
        scaled as u32
    }
}

/// The legacy gain register for a target amplitude: the solution of the
/// output resistor-divider model (feedback 49.9 kOhm against a 0.6 V
/// reference, 75 Ohm fixed plus 100 kOhm / 257 per step), truncated and
/// clamped to the register's width. A bipolar signal spans twice the
/// amplitude, so it halves the dividend. An amplitude of zero asks for
/// unbounded attenuation and clamps to the top of the register.
pub open spec fn spec_legacy_ax_gain(amplitude_uv: i64, polarity: AnalogSignalPolarity) -> u8 {
    let a = abs_i64(amplitude_uv);
    let num: int = if polarity is Bipolar {
        3_847_290_000_000
    } else {
        7_694_580_000_000
    };
    if a == 0 {
        255
    } else if 19275 * a >= num {
        0
    } else {
        let g = (num - 19275 * a) / (100_000 * a);
        if g > 255 {
            255
        } else {
            g as u8
        }
    }
}

/// Magnitude of a signed 64-bit value, as an unbounded integer.
pub open spec fn abs_i64(x: i64) -> int {
    if x >= 0 {
        x as int
    } else {
        -(x as int)
    }
}

/// Magnitude of a signed 64-bit value.
pub fn abs_u128_of_i64(x: i64) -> (r: u128)
    ensures
        r == abs_i64(x),
{
    if x >= 0 {
        x as u128
    } else if x == i64::MIN {
        0x8000_0000_0000_0000u128
    } else {
        (-x) as u128
    }
}

/// Solves the legacy analog-output gain register.
pub fn legacy_ax_gain(amplitude_uv: i64, polarity: AnalogSignalPolarity) -> (r: u8)
    ensures
        r == spec_legacy_ax_gain(amplitude_uv, polarity),
{
    let a: u128 = abs_u128_of_i64(amplitude_uv);
    let num: u128 = if matches!(polarity, AnalogSignalPolarity::Bipolar) {
        3_847_290_000_000
    } else {
        7_694_580_000_000
    };
    if a == 0 {
        255
    } else if 19275 * a >= num {
        0
    } else {
        let g = (num - 19275 * a) / (100_000 * a);
        if g > 255 {
            255
        } else {
            g as u8
        }
    }
}

/// The legacy offset register for a target amplitude, given the solved gain
/// register: the fraction of the amplitude that the divider keeps, scaled to
/// the 255-count range over 3.05 V, truncated and clamped to the register's
/// width. All constants are the divider model's resistances brought to a
/// common denominator.
pub open spec fn spec_legacy_ax_offset(amplitude_uv: i64, gain: u8) -> u8 {
    let a = abs_i64(amplitude_uv);
    let num = (19275 + 100_000 * gain) * a * 5100;
    let den = (12_843_575 + 100_000 * gain) * 61_000_000;
    let o = num / den;
    if o > 255 {
        255
    } else {
        o as u8
    }
}

/// Solves the legacy analog-output offset register.
pub fn legacy_ax_offset(amplitude_uv: i64, gain: u8) -> (r: u8)
    ensures
        r == spec_legacy_ax_offset(amplitude_uv, gain),
{
    let a: u128 = abs_u128_of_i64(amplitude_uv);
    let kept: u128 = 19275 + 100_000 * (gain as u128);
    proof {
        assert(a <= 0x8000_0000_0000_0000u128);
        assert(kept * a <= 25_519_275u128 * 0x8000_0000_0000_0000u128) by (nonlinear_arith)
            requires
                kept <= 25_519_275u128,
                a <= 0x8000_0000_0000_0000u128,
        ;
    }
    let num: u128 = kept * a * 5100;
    let den: u128 = (12_843_575 + 100_000 * (gain as u128)) * 61_000_000;
    let o = num / den;
    if o > 255 {
        255
    } else {
        o as u8
    }
}

/// Turning an output off is idempotent: the committed state after a second
/// turn-off equals the committed state after the first, field for field --
/// and since a session confirmation echoes exactly the requested state,
/// issuing the command twice commits the same state twice, one frame per
/// call.
pub proof fn lemma_turn_off_idempotent(s: AnalogOutputState)
    ensures
        s.turned_off().turned_off() == s.turned_off(),
{
}

/// Turning a pulse output off is idempotent in the same way.
pub proof fn lemma_pulse_turn_off_idempotent(s: crate::pulse_output::PulseOutputState)
    ensures
        s.turned_off().turned_off() == s.turned_off(),
{
}

} // verus!