//! Pulse output channels: state and pulse-timing register solving.

use vstd::prelude::*;
use crate::errors::EncodeError;

verus! {

/// The clock-division factors the pulse timer supports.
#[derive(Debug, PartialEq, Eq, Structural, Copy, Clone)]
pub enum PulsePreScale {
    One,
    Eight,
    SixtyFour,
    TwoFiftySix,
}

impl PulsePreScale {
    /// The division factor itself.
    pub open spec fn spec_value(self) -> u64 {
        match self {
            PulsePreScale::One => 1,
            PulsePreScale::Eight => 8,
            PulsePreScale::SixtyFour => 64,
            PulsePreScale::TwoFiftySix => 256,
        }
    }

    /// The wire code that selects this factor.
    pub open spec fn spec_register(self) -> u8 {
        match self {
            PulsePreScale::One => 0,
            PulsePreScale::Eight => 1,
            PulsePreScale::SixtyFour => 2,
            PulsePreScale::TwoFiftySix => 3,
        }
    }

    /// The division factor itself.
    pub fn value(&self) -> (r: u64)
        ensures
            r == self.spec_value(),
    {
        match *self {
            PulsePreScale::One => 1,
            PulsePreScale::Eight => 8,
            PulsePreScale::SixtyFour => 64,
            PulsePreScale::TwoFiftySix => 256,
        }
    }

    /// The wire code that selects this factor.
    pub fn register(&self) -> (r: u8)
        ensures
            r == self.spec_register(),
    {
        match *self {
            PulsePreScale::One => 0,
            PulsePreScale::Eight => 1,
            PulsePreScale::SixtyFour => 2,
            PulsePreScale::TwoFiftySix => 3,
        }
    }
}

/// The requested configuration of one pulse output channel.
///
/// The frequency is carried in millihertz and the duty cycle in parts per
/// million of the period.
#[derive(Debug, PartialEq, Eq, Structural, Copy, Clone)]
pub struct PulseOutputState {
    pub is_on: bool,
    pub frequency_mhz: u64,
    pub duty_ppm: u32,
}

impl PulseOutputState {
    /// The state every channel starts in: off, 1 Hz, 50 % duty.
    pub open spec fn spec_default() -> PulseOutputState {
        PulseOutputState { is_on: false, frequency_mhz: 1000, duty_ppm: 500_000 }
    }

    /// The same state with the output on.
    pub open spec fn turned_on(self) -> PulseOutputState {
        PulseOutputState { is_on: true, ..self }
    }

    /// The same state with the output off.
    pub open spec fn turned_off(self) -> PulseOutputState {
        PulseOutputState { is_on: false, ..self }
    }

    /// The pulse period in nanoseconds, truncated.
    pub open spec fn spec_period_ns(self) -> int {
        1_000_000_000_000int / (self.frequency_mhz as int)
    }

    /// The pulse width in nanoseconds: the period times the duty cycle,
    /// truncated.
    pub open spec fn spec_pulse_width_ns(self) -> int {
        self.spec_period_ns() * (self.duty_ppm as int) / 1_000_000
    }

    /// The pulse period in nanoseconds.
    pub fn period(&self) -> (r: u64)
        requires
            self.frequency_mhz > 0,
        ensures
            r == self.spec_period_ns(),
    {
        1_000_000_000_000u64 / self.frequency_mhz
    }

    /// The pulse width in nanoseconds.
    pub fn pulse_width(&self) -> (r: u64)
        requires
            self.frequency_mhz > 0,
        ensures
            r == self.spec_pulse_width_ns(),
            r <= 0x4000_0000_0000_0000,
    {
        let p: u128 = (1_000_000_000_000u64 / self.frequency_mhz) as u128;
        proof {
            assert(p * self.duty_ppm <= 1_000_000_000_000 * 0xFFFF_FFFFu128) by (nonlinear_arith)
                requires
                    0 <= p <= 1_000_000_000_000u128,
                    self.duty_ppm <= 0xFFFF_FFFFu32,
            ;
        }
        ((p * (self.duty_ppm as u128)) / 1_000_000) as u64
    }
}

impl Default for PulseOutputState {
    fn default() -> (r: Self)
        ensures
            r == PulseOutputState::spec_default(),
    {
        PulseOutputState { is_on: false, frequency_mhz: 1000, duty_ppm: 500_000 }
    }
}

/// The pulse period counted in ticks of the 16 MHz pulse clock, derived from
/// the truncated nanosecond period.
pub open spec fn spec_period_ticks(state: PulseOutputState) -> int {
    state.spec_period_ns() * 16 / 1000
}

/// The pulse width counted in ticks of the 16 MHz pulse clock.
pub open spec fn spec_duty_ticks(state: PulseOutputState) -> int {
    state.spec_pulse_width_ns() * 16 / 1000
}

/// Whether the pulse timing of a state has a register solution: the period
/// is at least four clock ticks and fits the largest pre-scaled 16-bit
/// register. A zero frequency has no representable period.
pub open spec fn spec_registers_ok(state: PulseOutputState) -> bool {
    &&& state.frequency_mhz > 0
    &&& 4 <= spec_period_ticks(state) <= 0xFFFF * 256
}

/// The error a state without a register solution raises.
pub open spec fn spec_registers_err(state: PulseOutputState) -> EncodeError {
    if state.frequency_mhz > 0 && spec_period_ticks(state) < 4 {
        EncodeError::PulseTooShort
    } else {
        EncodeError::PulseTooLong
    }
}

/// The solved pulse registers of a state: the pre-scaler code, the period
/// register and the duty register, both counted in pre-scaled clock ticks.
/// The duty register wraps at 32 bits the way the hardware field does.
pub open spec fn spec_registers(state: PulseOutputState) -> (u8, u32, u32) {
    let period = spec_period_ticks(state);
    let duty = spec_duty_ticks(state);
    let ps = spec_prescale_for(period);
    (
        ps.spec_register(),
        (period / ps.spec_value() as int) as u32,
        ((duty / ps.spec_value() as int) % 0x1_0000_0000) as u32,
    )
}

/// The smallest supported pre-scaler whose scaled period register fits 16
/// bits, for a period of at most 65535 * 256 ticks.
pub open spec fn spec_prescale_for(period_ticks: int) -> PulsePreScale {
    if period_ticks <= 0xFFFF {
        PulsePreScale::One
    } else if period_ticks <= 0xFFFF * 8 {
        PulsePreScale::Eight
    } else if period_ticks <= 0xFFFF * 64 {
        PulsePreScale::SixtyFour
    } else {
        PulsePreScale::TwoFiftySix
    }
}

/// Solves the three pulse-timing registers for a requested pulse state: the
/// pre-scaler code, the period register and the duty register, the latter
/// two counted in pre-scaled ticks of the 16 MHz pulse clock.
///
/// Succeeds exactly when the period is at least four clock ticks and fits
/// the largest pre-scaled 16-bit register; the chosen pre-scaler is the
/// smallest that makes the period register fit. A zero frequency has no
/// representable period and reads as too long.
pub fn get_registers(pulse_output: &PulseOutputState) -> (r: Result<(u8, u32, u32), EncodeError>)
    ensures
        r is Ok <==> spec_registers_ok(*pulse_output),
        r is Ok ==> r->Ok_0 == spec_registers(*pulse_output),
        r is Err ==> r->Err_0 == spec_registers_err(*pulse_output),
        r is Ok ==> r->Ok_0.1 <= 0xFFFF,
        r is Ok && pulse_output.duty_ppm <= 1_000_000 ==> r->Ok_0.2 == spec_duty_ticks(
            *pulse_output,
        ) / spec_prescale_for(spec_period_ticks(*pulse_output)).spec_value() as int,
{
    if pulse_output.frequency_mhz == 0 {
        return Err(EncodeError::PulseTooLong);
    }

    // The period and duty registers are an integer number of 16 MHz clock
    // cycles.
    let period_ns: u64 = pulse_output.period();
    let width_ns: u64 = pulse_output.pulse_width();
    let period: u64 = ((period_ns as u128) * 16 / 1000) as u64;
    let duty: u64 = ((width_ns as u128) * 16 / 1000) as u64;

    let prescale = if period < 4u64 {
        return Err(EncodeError::PulseTooShort);
    } else if period <= 0xFFFFu64 {
        PulsePreScale::One
    } else if period <= 0xFFFFu64 * 8 {
        PulsePreScale::Eight
    } else if period <= 0xFFFFu64 * 64 {
        PulsePreScale::SixtyFour
    } else if period <= 0xFFFFu64 * 256 {
        PulsePreScale::TwoFiftySix
    } else {
        return Err(EncodeError::PulseTooLong);
    };

    let ps: u64 = prescale.value();
    proof {
        if pulse_output.duty_ppm <= 1_000_000 {
            let pns = pulse_output.spec_period_ns();
            assert(pns * pulse_output.duty_ppm / 1_000_000 <= pns) by (nonlinear_arith)
                requires
                    pns >= 0,
                    pulse_output.duty_ppm <= 1_000_000,
            ;
            assert(width_ns * 16 / 1000 <= period_ns * 16 / 1000) by (nonlinear_arith)
                requires
                    0 <= width_ns <= period_ns,
            ;
            assert(duty / ps <= period / ps) by (nonlinear_arith)
                requires
                    0 <= duty <= period,
                    ps >= 1,
            ;
        }
        assert(period / ps <= 0xFFFF) by (nonlinear_arith)
            requires
                0 <= period <= 0xFFFF * ps as int,
                ps >= 1,
        ;
    }
    let period_register: u32 = (period / ps) as u32;
    // The duty register wraps at its width, as the hardware field does.
    let duty_register: u32 = ((duty / ps) % 0x1_0000_0000) as u32;

    Ok((prescale.register(), period_register, duty_register))
}

} // verus!
