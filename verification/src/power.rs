//! Power-supply state reported by the device in every status frame.

use vstd::prelude::*;

verus! {

/// Possible states of the device power supply.
#[derive(Debug, PartialEq, Eq, Structural, Copy, Clone)]
pub enum PowerState {
    PowerOff,
    PowerOn,
    Shorted,
    Overcurrent,
    Startup,
    Unknown,
}

impl PowerState {
    /// The power state that a status byte names; every unassigned code reads
    /// as `Unknown`.
    pub open spec fn spec_from_code(code: u8) -> PowerState {
        if code == 0 {
            PowerState::PowerOff
        } else if code == 1 {
            PowerState::PowerOn
        } else if code == 2 {
            PowerState::Shorted
        } else if code == 3 {
            PowerState::Overcurrent
        } else if code == 4 {
            PowerState::Startup
        } else {
            PowerState::Unknown
        }
    }

    /// Decodes a power-state byte of a status frame.
    pub fn from_code(code: u8) -> (r: PowerState)
        ensures
            r == PowerState::spec_from_code(code),
    {
        match code {
            0 => PowerState::PowerOff,
            1 => PowerState::PowerOn,
            2 => PowerState::Shorted,
            3 => PowerState::Overcurrent,
            4 => PowerState::Startup,
            _ => PowerState::Unknown,
        }
    }
}

/// The raw power-usage reading of the latest status frame.
///
/// The legacy generation reports one byte, scaled so that 255 means 5 W; the
/// modern generation reports an IEEE-754 single-precision value, carried here
/// as its bit pattern, in units of 5 mW. Conversion to watts is left to the
/// caller, so the reading itself stays exact.
#[derive(Debug, PartialEq, Eq, Structural, Copy, Clone)]
pub enum PowerUsage {
    Unmeasured,
    LegacyRaw(u8),
    ModernBits(u32),
}

/// Information about the power supply status of the device.
#[derive(Debug, PartialEq, Eq, Structural, Copy, Clone)]
pub struct PowerStatus {
    pub state: PowerState,
    pub usage: PowerUsage,
}

impl PowerStatus {
    /// The status before any frame has been decoded.
    pub open spec fn unknown() -> PowerStatus {
        PowerStatus { state: PowerState::Unknown, usage: PowerUsage::Unmeasured }
    }
}

impl Default for PowerStatus {
    /// Before the first status frame the state is unknown and no usage has
    /// been measured.
    fn default() -> (r: Self)
        ensures
            r == PowerStatus::unknown(),
    {
        PowerStatus { state: PowerState::Unknown, usage: PowerUsage::Unmeasured }
    }
}

/// Microwatts drawn, from a legacy usage byte: the byte spans 0..=255 over
/// 0 W..=5 W.
pub fn legacy_usage_microwatts(raw: u8) -> (r: u32)
    ensures
        r == raw * 5_000_000 / 255,
{
    (raw as u32) * 5_000_000 / 255
}

} // verus!
