//! Commands a handle can submit to a device session.

use vstd::prelude::*;
use crate::analog_input::AnalogInput;
use crate::analog_output::AnalogOutputState;
use crate::pulse_output::PulseOutputState;
use crate::trigger::Trigger;

verus! {

/// Everything a data sweep needs to frame itself and to interpret the
/// sample stream it causes: a snapshot of the four input channels, the
/// target rate in millihertz, the sample budget and the trigger.
#[derive(Debug, PartialEq, Copy, Clone)]
pub struct DataRequestConfig {
    pub channels: [AnalogInput; 4],
    pub sample_rate_mhz: u64,
    pub total_samples: u32,
    pub trigger: Trigger,
}

/// A command submitted to the session, owning the parameters needed both to
/// frame itself and to interpret its response.
///
/// The modern wire format carries output frequencies, amplitudes and duty
/// cycles as IEEE-754 single-precision values; their bit patterns ride along
/// here so that framing stays exact byte work.
#[derive(Debug, PartialEq, Copy, Clone)]
pub enum Command {
    Quit,
    Initialize { power_on: bool },
    SetAnalogOutput {
        channel: usize,
        state: AnalogOutputState,
        frequency_bits: u32,
        amplitude_bits: u32,
    },
    SetPulseOutput { channel: usize, state: PulseOutputState, frequency_bits: u32, duty_bits: u32 },
    RequestData(DataRequestConfig),
    StopData,
}

impl Command {
    /// The opcode of the command in the modern wire format.
    pub open spec fn spec_id_byte(self) -> u8 {
        match self {
            Command::Quit => 0,
            Command::Initialize { .. } => 1,
            Command::SetAnalogOutput { .. } => 2,
            Command::SetPulseOutput { .. } => 3,
            Command::RequestData(..) => 4,
            Command::StopData => 5,
        }
    }

    /// The opcode of the command in the modern wire format.
    pub fn id_byte(&self) -> (r: u8)
        ensures
            r == self.spec_id_byte(),
    {
        match self {
            Command::Quit => 0,
            Command::Initialize { .. } => 1,
            Command::SetAnalogOutput { .. } => 2,
            Command::SetPulseOutput { .. } => 3,
            Command::RequestData(..) => 4,
            Command::StopData => 5,
        }
    }
}

} // verus!
