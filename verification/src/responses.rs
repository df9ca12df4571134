//! Status responses: the header every incoming frame carries.

use vstd::prelude::*;
use crate::power::PowerState;

verus! {

/// The status header of a legacy incoming frame: firmware version and power
/// state packed into byte 0, the usage byte, and the request id the frame
/// answers.
#[derive(Debug, PartialEq, Eq, Structural, Copy, Clone)]
pub struct StatusResponseLegacy {
    pub fw_version: u8,
    pub power_state: PowerState,
    pub power_usage: u8,
    pub request_id: u8,
}

impl StatusResponseLegacy {
    /// Decodes the legacy status header: the low six bits of byte 0 are the
    /// firmware version, its high two bits the power state, byte 1 the
    /// usage and byte 2 the request id.
    pub fn new(buf: &[u8]) -> (r: Self)
        requires
            buf@.len() >= 3,
        ensures
            r.fw_version == buf@[0] & 0x3F,
            r.power_state == PowerState::spec_from_code((buf@[0] & 0xC0) >> 6),
            r.power_usage == buf@[1],
            r.request_id == buf@[2],
    {
        StatusResponseLegacy {
            fw_version: buf[0] & 0x3F,
            power_state: PowerState::from_code((buf[0] & 0xC0) >> 6),
            power_usage: buf[1],
            request_id: buf[2],
        }
    }
}

/// The status header of a modern incoming frame: the request id, a 16-bit
/// firmware version, the power state, and the power usage as the bit
/// pattern of a little-endian IEEE-754 single.
#[derive(Debug, PartialEq, Eq, Structural, Copy, Clone)]
pub struct StatusResponse {
    pub fw_version: u16,
    pub power_state: PowerState,
    pub power_usage_bits: u32,
    pub request_id: u8,
}

/// The little-endian 16-bit value at two consecutive bytes.
pub open spec fn spec_u16_at(buf: Seq<u8>, i: int) -> u16 {
    (buf[i] as u16) | ((buf[i + 1] as u16) << 8)
}

/// The little-endian 32-bit value at four consecutive bytes.
pub open spec fn spec_u32_at(buf: Seq<u8>, i: int) -> u32 {
    (buf[i] as u32) | ((buf[i + 1] as u32) << 8) | ((buf[i + 2] as u32) << 16) | ((buf[i
        + 3] as u32) << 24)
}

impl StatusResponse {
    /// Decodes the modern status header: byte 0 is the request id, bytes
    /// 1..3 the firmware version, byte 3 the power state and bytes 4..8 the
    /// power usage.
    pub fn new(buf: &[u8]) -> (r: Self)
        requires
            buf@.len() >= 8,
        ensures
            r.request_id == buf@[0],
            r.fw_version == spec_u16_at(buf@, 1),
            r.power_state == PowerState::spec_from_code(buf@[3]),
            r.power_usage_bits == spec_u32_at(buf@, 4),
    {
        StatusResponse {
            request_id: buf[0],
            fw_version: (buf[1] as u16) | ((buf[2] as u16) << 8),
            power_state: PowerState::from_code(buf[3]),
            power_usage_bits: (buf[4] as u32) | ((buf[5] as u32) << 8) | ((buf[6] as u32) << 16)
                | ((buf[7] as u32) << 24),
        }
    }
}

} // verus!
