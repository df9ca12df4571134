//! Triggers that gate the start of a data sweep.

use vstd::prelude::*;

verus! {

/// Different trigger types used to start a data sweep.
#[derive(Debug, PartialEq, Eq, Structural, Copy, Clone)]
pub enum TriggerType {
    RisingEdge,
    FallingEdge,
}

impl TriggerType {
    /// Wire code of the trigger edge.
    pub fn value(&self) -> (r: u8)
        ensures
            r == self.wire_code(),
    {
        match self {
            TriggerType::RisingEdge => 2,
            TriggerType::FallingEdge => 1,
        }
    }

    /// Wire code of the trigger edge, as the device expects it.
    pub open spec fn wire_code(self) -> u8 {
        match self {
            TriggerType::RisingEdge => 2,
            TriggerType::FallingEdge => 1,
        }
    }
}

/// A representation of a trigger used to start a data sweep.
///
/// The threshold voltage is carried in microvolts.
#[derive(Debug, PartialEq, Eq, Structural, Copy, Clone)]
pub struct Trigger {
    pub is_enabled: bool,
    pub trigger_type: TriggerType,
    pub source_channel: usize,
    pub trigger_level_uv: i64,
    pub trigger_delay_us: u32,
}

impl Default for Trigger {
    /// A disabled rising-edge trigger on channel 0 at 0 V with no delay.
    fn default() -> (r: Self)
        ensures
            r == Trigger::disabled(),
    {
        Trigger {
            is_enabled: false,
            trigger_type: TriggerType::RisingEdge,
            source_channel: 0,
            trigger_level_uv: 0,
            trigger_delay_us: 0,
        }
    }
}

impl Trigger {
    /// The default trigger: disabled, rising edge, channel 0.
    pub open spec fn disabled() -> Trigger {
        Trigger {
            is_enabled: false,
            trigger_type: TriggerType::RisingEdge,
            source_channel: 0,
            trigger_level_uv: 0,
            trigger_delay_us: 0,
        }
    }
}

} // verus!
