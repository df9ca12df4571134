//! Parameter errors raised while encoding a command into a frame.
//!
//! Every one of these is surfaced synchronously to the caller at encode
//! time: the command is dropped, never transmitted, and the session goes on.

use vstd::prelude::*;

verus! {

/// Why a command's parameters cannot be encoded into a device frame.
#[derive(Debug, PartialEq, Eq, Structural, Copy, Clone)]
pub enum EncodeError {
    /// A data sweep was requested while no scope channel is on.
    NoChannelsOn,
    /// The requested sample timing cannot be recorded: the spacing is below
    /// the device's minimum while the volume exceeds the on-device buffer,
    /// or the rate is too fast to space samples at all.
    DataNotRecordable,
    /// The trigger source is not one of the four input channels.
    InvalidTriggerChannel,
    /// The trigger threshold maps outside the usable ADC range of the
    /// source channel's current calibration.
    TriggerLevelOutOfRange,
    /// The desired pulse period is shorter than four clock ticks.
    PulseTooShort,
    /// The desired pulse period exceeds the largest pre-scaled period.
    PulseTooLong,
}

} // verus!
