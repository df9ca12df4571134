//! The wire codec: filling outgoing frames for both protocol generations.
//!
//! Legacy devices exchange 65-byte output reports (byte 0 is the report id)
//! and 64-byte input reports; modern devices exchange 64-byte bulk frames.
//! All multi-byte fields are little-endian. Each fill function writes into a
//! frame and its contract, a named predicate over the old and new bytes,
//! states every byte it touches.

use vstd::prelude::*;
use crate::analog_input::AnalogInput;
use crate::analog_output::{
    legacy_ax_gain, legacy_ax_offset, freq_register, spec_freq_register, spec_legacy_ax_gain,
    spec_legacy_ax_offset, AnalogOutputState,
};
use crate::commands::DataRequestConfig;
use crate::errors::EncodeError;
use crate::pulse_output::{
    get_registers, spec_registers, spec_registers_err, spec_registers_ok, PulseOutputState,
};

verus! {

/// Byte `k` of the little-endian encoding of a 32-bit value.
pub open spec fn spec_le32(x: u32, k: int) -> u8 {
    ((x >> (8 * k)) & 0xFF) as u8
}

/// Byte `k` of the little-endian encoding of a 16-bit value.
pub open spec fn spec_le16(x: u16, k: int) -> u8 {
    ((x >> (8 * k)) & 0xFF) as u8
}

/// The keep-alive request a legacy host writes when it has no command to
/// send, so the device still answers with a status report.
pub fn null_req() -> (r: [u8; 2])
    ensures
        r@[0] == 0,
        r@[1] == 0xFF,
{
    [0, 0xFF]
}

/// Writes a 32-bit value into four consecutive bytes, little-endian.
fn put_u32_le(buf: &mut [u8; 65], i: usize, x: u32)
    requires
        i + 4 <= 65,
    ensures
        forall|j: int| 0 <= j < 65 && !(i <= j < i + 4) ==> final(buf)@[j] == old(buf)@[j],
        forall|k: int| 0 <= k < 4 ==> final(buf)@[i + k] == spec_le32(x, k),
{
    proof {
        assert((x >> 0) & 0xFF < 256 && (x >> 8) & 0xFF < 256 && (x >> 16) & 0xFF < 256 && (x
            >> 24) & 0xFF < 256 && (x >> 0) & 0xFF == x & 0xFF) by (bit_vector);
    }
    buf[i] = (x & 0xFF) as u8;
    buf[i + 1] = ((x >> 8) & 0xFF) as u8;
    buf[i + 2] = ((x >> 16) & 0xFF) as u8;
    buf[i + 3] = ((x >> 24) & 0xFF) as u8;
}

/// Writes a 32-bit value into four consecutive bytes of a modern frame,
/// little-endian.
fn put_u32_le_modern(buf: &mut [u8; 64], i: usize, x: u32)
    requires
        i + 4 <= 64,
    ensures
        forall|j: int| 0 <= j < 64 && !(i <= j < i + 4) ==> final(buf)@[j] == old(buf)@[j],
        forall|k: int| 0 <= k < 4 ==> final(buf)@[i + k] == spec_le32(x, k),
{
    proof {
        assert((x >> 0) & 0xFF < 256 && (x >> 8) & 0xFF < 256 && (x >> 16) & 0xFF < 256 && (x
            >> 24) & 0xFF < 256 && (x >> 0) & 0xFF == x & 0xFF) by (bit_vector);
    }
    buf[i] = (x & 0xFF) as u8;
    buf[i + 1] = ((x >> 8) & 0xFF) as u8;
    buf[i + 2] = ((x >> 16) & 0xFF) as u8;
    buf[i + 3] = ((x >> 24) & 0xFF) as u8;
}

/// Writes a 16-bit value into two consecutive bytes of a modern frame,
/// little-endian.
fn put_u16_le_modern(buf: &mut [u8; 64], i: usize, x: u16)
    requires
        i + 2 <= 64,
    ensures
        forall|j: int| 0 <= j < 64 && !(i <= j < i + 2) ==> final(buf)@[j] == old(buf)@[j],
        forall|k: int| 0 <= k < 2 ==> final(buf)@[i + k] == spec_le16(x, k),
{
    proof {
        assert((x >> 0) & 0xFF < 256 && (x >> 8) & 0xFF < 256 && (x >> 0) & 0xFF == x & 0xFF)
            by (bit_vector);
    }
    buf[i] = (x & 0xFF) as u8;
    buf[i + 1] = ((x >> 8) & 0xFF) as u8;
}

// ---------------------------------------------------------------------------
// Initialization and stop commands
// ---------------------------------------------------------------------------

/// A legacy initialization frame: opcode 0x07 powers the supply on, 0x06
/// leaves it off. Everything else stays as it was.
pub open spec fn spec_init_legacy_filled(old_f: Seq<u8>, new_f: Seq<u8>, power_on: bool) -> bool {
    &&& new_f.len() == 65
    &&& new_f[1] == (if power_on {
        0x07u8
    } else {
        0x06u8
    })
    &&& (forall|j: int| 0 <= j < 65 && j != 1 ==> new_f[j] == old_f[j])
}

/// Fills a legacy frame with the initialization command.
pub fn fill_init_frame_legacy(power_on: bool, buf: &mut [u8; 65])
    ensures
        spec_init_legacy_filled(old(buf)@, final(buf)@, power_on),
{
    if power_on {
        buf[1] = 0x07;
    } else {
        buf[1] = 0x06;
    }
}

/// A modern initialization frame: byte 2 carries the power-on flag.
pub open spec fn spec_init_modern_filled(old_f: Seq<u8>, new_f: Seq<u8>, power_on: bool) -> bool {
    &&& new_f.len() == 64
    &&& new_f[2] == (if power_on {
        1u8
    } else {
        0u8
    })
    &&& (forall|j: int| 0 <= j < 64 && j != 2 ==> new_f[j] == old_f[j])
}

/// Fills a modern frame with the initialization command.
pub fn fill_init_frame_modern(power_on: bool, buf: &mut [u8; 64])
    ensures
        spec_init_modern_filled(old(buf)@, final(buf)@, power_on),
{
    buf[2] = if power_on {
        1
    } else {
        0
    };
}

/// A legacy stop-data frame: opcode 0x05.
pub open spec fn spec_stop_legacy_filled(old_f: Seq<u8>, new_f: Seq<u8>) -> bool {
    &&& new_f.len() == 65
    &&& new_f[1] == 0x05
    &&& (forall|j: int| 0 <= j < 65 && j != 1 ==> new_f[j] == old_f[j])
}

/// Fills a legacy frame with the stop-data command.
pub fn fill_stop_frame_legacy(buf: &mut [u8; 65])
    ensures
        spec_stop_legacy_filled(old(buf)@, final(buf)@),
{
    buf[1] = 0x05;
}

// ---------------------------------------------------------------------------
// Analog output commands
// ---------------------------------------------------------------------------

/// The control byte of a legacy analog-output channel that is on: the wave
/// code, the enable bit, and the inversion bit for a negative amplitude.
pub open spec fn spec_ax_ctrl_legacy(state: AnalogOutputState) -> u8 {
    (state.wave_type.wire_code() | 0x80u8) | (if state.amplitude_uv < 0 {
        0x02u8
    } else {
        0u8
    })
}

/// A legacy analog-output frame: opcode 0x02, then a ten-byte channel block
/// holding the control byte, the four-byte split DDS frequency register and
/// the solved gain and offset registers; a channel that is off gets 0xFF
/// instead.
pub open spec fn spec_ax_legacy_filled(
    old_f: Seq<u8>,
    new_f: Seq<u8>,
    channel: int,
    state: AnalogOutputState,
) -> bool {
    let i = 3 + 10 * channel;
    let fr = spec_freq_register(state.frequency_mhz);
    let gain = spec_legacy_ax_gain(state.amplitude_uv, state.polarity);
    &&& new_f.len() == 65
    &&& new_f[1] == 0x02
    &&& (forall|j: int| 0 <= j < 65 && j != 1 && !(i <= j < i + 10) ==> new_f[j] == old_f[j])
    &&& (state.is_on ==> {
        &&& new_f[i] == spec_ax_ctrl_legacy(state)
        &&& new_f[i + 1] == (fr & 0xFF) as u8
        &&& new_f[i + 2] == ((fr & 0x3F00) >> 8) as u8
        &&& new_f[i + 3] == ((fr >> 14) & 0xFF) as u8
        &&& new_f[i + 4] == (((fr >> 14) & 0x3F00) >> 8) as u8
        &&& new_f[i + 5] == gain
        &&& new_f[i + 6] == spec_legacy_ax_offset(state.amplitude_uv, gain)
        &&& (forall|j: int| i + 7 <= j < i + 10 ==> new_f[j] == old_f[j])
    })
    &&& (!state.is_on ==> new_f[i] == 0xFF && (forall|j: int|
        i < j < i + 10 ==> new_f[j] == old_f[j]))
}

/// Fills a legacy frame with an analog-output command.
pub fn fill_ax_frame_legacy(channel: usize, state: &AnalogOutputState, buf: &mut [u8; 65])
    requires
        channel < 2,
    ensures
        spec_ax_legacy_filled(old(buf)@, final(buf)@, channel as int, *state),
{
    buf[1] = 0x02;
    let i_ch: usize = 3 + 10 * channel;
    if state.is_on {
        let ctrl: u8 = (state.wave_type.value() | 0x80) | (if state.amplitude_uv < 0 {
            0x02
        } else {
            0
        });
        buf[i_ch] = ctrl;

        let fr: u32 = freq_register(state.frequency_mhz);
        proof {
            assert(fr & 0xFF < 256 && (fr & 0x3F00) >> 8 < 256 && (fr >> 14) & 0xFF < 256 && ((fr
                >> 14) & 0x3F00) >> 8 < 256) by (bit_vector);
        }
        buf[i_ch + 1] = (fr & 0xFF) as u8;
        buf[i_ch + 2] = ((fr & 0x3F00) >> 8) as u8;
        buf[i_ch + 3] = ((fr >> 14) & 0xFF) as u8;
        buf[i_ch + 4] = (((fr >> 14) & 0x3F00) >> 8) as u8;

        let gain: u8 = legacy_ax_gain(state.amplitude_uv, state.polarity);
        let offset: u8 = legacy_ax_offset(state.amplitude_uv, gain);
        buf[i_ch + 5] = gain;
        buf[i_ch + 6] = offset;
    } else {
        buf[i_ch] = 0xFF;
    }
}

/// A modern analog-output frame: the channel mask in byte 3, then a
/// twelve-byte channel block holding the enable byte, the frequency and
/// amplitude as little-endian IEEE-754 singles, the wave code and the
/// polarity code.
pub open spec fn spec_ax_modern_filled(
    old_f: Seq<u8>,
    new_f: Seq<u8>,
    channel: int,
    state: AnalogOutputState,
    frequency_bits: u32,
    amplitude_bits: u32,
) -> bool {
    let i = 4 + 12 * channel;
    &&& new_f.len() == 64
    &&& new_f[3] == (1u8 << channel as u8)
    &&& (forall|j: int| 0 <= j < 64 && j != 3 && !(i <= j < i + 11) ==> new_f[j] == old_f[j])
    &&& new_f[i] == (if state.is_on {
        1u8
    } else {
        0u8
    })
    &&& (forall|k: int| 0 <= k < 4 ==> new_f[i + 1 + k] == spec_le32(frequency_bits, k))
    &&& (forall|k: int| 0 <= k < 4 ==> new_f[i + 5 + k] == spec_le32(amplitude_bits, k))
    &&& new_f[i + 9] == state.wave_type.wire_code()
    &&& new_f[i + 10] == state.polarity.wire_code()
}

/// Fills a modern frame with an analog-output command.
pub fn fill_ax_frame_modern(
    channel: usize,
    state: &AnalogOutputState,
    frequency_bits: u32,
    amplitude_bits: u32,
    buf: &mut [u8; 64],
)
    requires
        channel < 2,
    ensures
        spec_ax_modern_filled(
            old(buf)@,
            final(buf)@,
            channel as int,
            *state,
            frequency_bits,
            amplitude_bits,
        ),
{
    proof {
        let c = channel as u8;
        assert(c < 2 ==> (1u8 << c) < 256) by (bit_vector);
    }
    buf[3] = 1u8 << (channel as u8);
    let idx: usize = 4 + 12 * channel;
    buf[idx] = if state.is_on {
        1
    } else {
        0
    };
    put_u32_le_modern(buf, idx + 1, frequency_bits);
    put_u32_le_modern(buf, idx + 5, amplitude_bits);
    buf[idx + 9] = state.wave_type.value();
    buf[idx + 10] = state.polarity.value();
}

// ---------------------------------------------------------------------------
// Pulse output commands
// ---------------------------------------------------------------------------

/// A legacy pulse-output frame: opcode 0x01, then a ten-byte channel block
/// holding the enable-plus-pre-scaler byte and the period and duty
/// registers; a channel that is off gets 0xFF.
pub open spec fn spec_px_legacy_filled(
    old_f: Seq<u8>,
    new_f: Seq<u8>,
    channel: int,
    state: PulseOutputState,
) -> bool {
    let i = 3 + 10 * channel;
    let regs = spec_registers(state);
    &&& new_f.len() == 65
    &&& new_f[1] == 0x01
    &&& (forall|j: int| 0 <= j < 65 && j != 1 && !(i <= j < i + 10) ==> new_f[j] == old_f[j])
    &&& (state.is_on ==> {
        &&& new_f[i] == (0x80u8 | regs.0)
        &&& (forall|k: int| 0 <= k < 4 ==> new_f[i + 1 + k] == spec_le32(regs.1, k))
        &&& (forall|k: int| 0 <= k < 4 ==> new_f[i + 5 + k] == spec_le32(regs.2, k))
        &&& new_f[i + 9] == old_f[i + 9]
    })
    &&& (!state.is_on ==> new_f[i] == 0xFF && (forall|j: int|
        i < j < i + 10 ==> new_f[j] == old_f[j]))
}

/// Fills a legacy frame with a pulse-output command. Fails, and leaves the
/// frame for dropping, when the pulse timing has no register solution --
/// also for a channel that is off: the register solve runs either way.
pub fn fill_px_frame_legacy(channel: usize, state: &PulseOutputState, buf: &mut [u8; 65]) -> (r:
    Result<(), EncodeError>)
    requires
        channel < 2,
    ensures
        r is Ok <==> spec_registers_ok(*state),
        r is Ok ==> spec_px_legacy_filled(old(buf)@, final(buf)@, channel as int, *state),
        r is Err ==> r->Err_0 == spec_registers_err(*state),
        r is Err ==> final(buf)@.len() == 65 && final(buf)@[1] == 0x01 && (forall|j: int|
            0 <= j < 65 && j != 1 ==> final(buf)@[j] == old(buf)@[j]),
{
    buf[1] = 0x01;
    let i_ch: usize = 3 + 10 * channel;
    let (prescale, period, duty) = match get_registers(state) {
        Ok(regs) => regs,
        Err(e) => {
            return Err(e);
        },
    };
    if state.is_on {
        buf[i_ch] = 0x80 | prescale;
        put_u32_le(buf, i_ch + 1, period);
        put_u32_le(buf, i_ch + 5, duty);
    } else {
        buf[i_ch] = 0xFF;
    }
    Ok(())
}

/// A modern pulse-output frame: the channel mask in byte 3, then a
/// twelve-byte channel block holding the enable byte and the frequency and
/// duty cycle as little-endian IEEE-754 singles.
pub open spec fn spec_px_modern_filled(
    old_f: Seq<u8>,
    new_f: Seq<u8>,
    channel: int,
    state: PulseOutputState,
    frequency_bits: u32,
    duty_bits: u32,
) -> bool {
    let i = 4 + 12 * channel;
    &&& new_f.len() == 64
    &&& new_f[3] == (1u8 << channel as u8)
    &&& (forall|j: int| 0 <= j < 64 && j != 3 && !(i <= j < i + 9) ==> new_f[j] == old_f[j])
    &&& new_f[i] == (if state.is_on {
        1u8
    } else {
        0u8
    })
    &&& (forall|k: int| 0 <= k < 4 ==> new_f[i + 1 + k] == spec_le32(frequency_bits, k))
    &&& (forall|k: int| 0 <= k < 4 ==> new_f[i + 5 + k] == spec_le32(duty_bits, k))
}

/// Fills a modern frame with a pulse-output command.
pub fn fill_px_frame_modern(
    channel: usize,
    state: &PulseOutputState,
    frequency_bits: u32,
    duty_bits: u32,
    buf: &mut [u8; 64],
)
    requires
        channel < 2,
    ensures
        spec_px_modern_filled(
            old(buf)@,
            final(buf)@,
            channel as int,
            *state,
            frequency_bits,
            duty_bits,
        ),
{
    proof {
        let c = channel as u8;
        assert(c < 2 ==> (1u8 << c) < 256) by (bit_vector);
    }
    buf[3] = 1u8 << (channel as u8);
    let idx: usize = 4 + 12 * channel;
    buf[idx] = if state.is_on {
        1
    } else {
        0
    };
    put_u32_le_modern(buf, idx + 1, frequency_bits);
    put_u32_le_modern(buf, idx + 5, duty_bits);
}

// ---------------------------------------------------------------------------
// Data requests
// ---------------------------------------------------------------------------

/// How many of the four input channels are on.
pub open spec fn spec_num_on(channels: [AnalogInput; 4]) -> int {
    (if channels[0].is_on {
        1int
    } else {
        0int
    }) + (if channels[1].is_on {
        1int
    } else {
        0int
    }) + (if channels[2].is_on {
        1int
    } else {
        0int
    }) + (if channels[3].is_on {
        1int
    } else {
        0int
    })
}

/// Counts the input channels that are on.
pub fn num_channels_on(channels: &[AnalogInput; 4]) -> (r: usize)
    ensures
        r == spec_num_on(*channels),
{
    let mut n: usize = 0;
    if channels[0].is_on {
        n += 1;
    }
    if channels[1].is_on {
        n += 1;
    }
    if channels[2].is_on {
        n += 1;
    }
    if channels[3].is_on {
        n += 1;
    }
    n
}

/// The spacing between records of a legacy sweep, in device sample ticks:
/// the shared ADC clock divided over the channels that are on, then by the
/// requested rate, truncated. An unachievable zero rate saturates the
/// field.
pub open spec fn spec_sbr_legacy(rate_mhz: u64, n_on: int) -> u32 {
    if rate_mhz == 0 {
        0xFFFF_FFFFu32
    } else if n_on == 1 {
        (4_000_000_000int / rate_mhz as int) as u32
    } else if n_on == 2 {
        (2_000_000_000int / rate_mhz as int) as u32
    } else {
        (1_000_000_000int / rate_mhz as int) as u32
    }
}

/// The spacing between records of a modern sweep, in device sample ticks.
pub open spec fn spec_sbr_modern(rate_mhz: u64) -> u32 {
    if rate_mhz == 0 {
        0xFFFF_FFFFu32
    } else {
        (2_000_000_000int / rate_mhz as int) as u32
    }
}

/// The trigger-delay field of a legacy sweep: the delay in microseconds
/// scaled like the inter-sample spacing, truncated to the 16-bit field.
pub open spec fn spec_trigger_delay_legacy(delay_us: u32, n_on: int, sbr: u32) -> u16 {
    let factor: int = if n_on == 1 {
        4
    } else if n_on == 2 {
        2
    } else {
        1
    };
    (((factor * delay_us) / sbr as int) % 0x1_0000) as u16
}

/// The trigger-delay field of a modern sweep, truncated to its 32-bit
/// field.
pub open spec fn spec_trigger_delay_modern(delay_us: u32, sbr: u32) -> u32 {
    (((2 * delay_us) / sbr as int) % 0x1_0000_0000) as u32
}

/// Whether a legacy data request encodes, and the error when it does not:
/// at least one channel must be on; timing below 250 ticks cannot fill more
/// than the 3200-reading device buffer; an enabled trigger must point at a
/// real channel, map to a usable ADC code on it, and have a computable
/// delay.
pub open spec fn spec_data_legacy_result(config: DataRequestConfig) -> Result<(), EncodeError> {
    let n_on = spec_num_on(config.channels);
    let sbr = spec_sbr_legacy(config.sample_rate_mhz, n_on);
    if n_on == 0 {
        Err(EncodeError::NoChannelsOn)
    } else if sbr < 250 && config.total_samples * n_on > 3200 {
        Err(EncodeError::DataNotRecordable)
    } else if config.trigger.is_enabled {
        if config.trigger.source_channel >= 4 {
            Err(EncodeError::InvalidTriggerChannel)
        } else {
            let lvl = config.channels[config.trigger.source_channel as int].spec_measurement(
                config.trigger.trigger_level_uv as int,
            );
            if !(105 <= lvl < 3990) {
                Err(EncodeError::TriggerLevelOutOfRange)
            } else if sbr == 0 {
                Err(EncodeError::DataNotRecordable)
            } else {
                Ok(())
            }
        }
    } else {
        Ok(())
    }
}

/// A legacy data-request frame: opcode 0x08, the record spacing and total
/// sample count as 32-bit fields, the trigger block in bytes 11..15, and
/// the per-channel gain and offset registers in bytes 15..23, with 0xFF
/// marking a channel that is off.
pub open spec fn spec_data_legacy_filled(
    old_f: Seq<u8>,
    new_f: Seq<u8>,
    config: DataRequestConfig,
) -> bool {
    let n_on = spec_num_on(config.channels);
    let sbr = spec_sbr_legacy(config.sample_rate_mhz, n_on);
    let t = config.trigger;
    &&& new_f.len() == 65
    &&& new_f[1] == 0x08
    &&& (forall|j: int| 0 <= j < 65 && j != 1 && !(3 <= j < 23) ==> new_f[j] == old_f[j])
    &&& (forall|k: int| 0 <= k < 4 ==> new_f[3 + k] == spec_le32(sbr, k))
    &&& (forall|k: int| 0 <= k < 4 ==> new_f[7 + k] == spec_le32(config.total_samples, k))
    &&& (t.is_enabled ==> {
        let lvl = config.channels[t.source_channel as int].spec_measurement(
            t.trigger_level_uv as int,
        ) as u16;
        let delay = spec_trigger_delay_legacy(t.trigger_delay_us, n_on, sbr);
        &&& new_f[11] == ((t.source_channel as u8 | (t.trigger_type.wire_code() << 2)) | (((lvl
            & 0x000F) << 4) as u8))
        &&& new_f[12] == ((lvl & 0x0FF0) >> 4) as u8
        &&& new_f[13] == spec_le16(delay, 0)
        &&& new_f[14] == spec_le16(delay, 1)
    })
    &&& (!t.is_enabled ==> new_f[11] == 0 && new_f[12] == 0 && new_f[13] == 0 && new_f[14] == 0)
    &&& (forall|i: int|
        0 <= i < 4 ==> new_f[15 + i] == (if config.channels[i].is_on {
            config.channels[i].spec_gain_cmd()
        } else {
            0xFFu8
        }))
    &&& (forall|i: int|
        0 <= i < 4 ==> new_f[19 + i] == (if config.channels[i].is_on {
            config.channels[i].spec_offset_cmd()
        } else {
            old_f[19 + i]
        }))
}

/// Fills a legacy frame with a data request.
pub fn fill_data_frame_legacy(config: &DataRequestConfig, buf: &mut [u8; 65]) -> (r: Result<
    (),
    EncodeError,
>)
    ensures
        r == spec_data_legacy_result(*config),
        r is Ok ==> spec_data_legacy_filled(old(buf)@, final(buf)@, *config),
        r is Err ==> final(buf)@ == old(buf)@,
{
    let n_on: usize = num_channels_on(&config.channels);
    if n_on == 0 {
        return Err(EncodeError::NoChannelsOn);
    }
    let sbr: u32 = if config.sample_rate_mhz == 0 {
        0xFFFF_FFFF
    } else if n_on == 1 {
        (4_000_000_000u64 / config.sample_rate_mhz) as u32
    } else if n_on == 2 {
        (2_000_000_000u64 / config.sample_rate_mhz) as u32
    } else {
        (1_000_000_000u64 / config.sample_rate_mhz) as u32
    };
    proof {
        assert((config.total_samples as u64) * (n_on as u64) <= 0xFFFF_FFFFu64 * 4)
            by (nonlinear_arith)
            requires
                n_on <= 4,
                config.total_samples <= 0xFFFF_FFFFu64,
        ;
    }
    if sbr < 250 && (config.total_samples as u64) * (n_on as u64) > 3200 {
        return Err(EncodeError::DataNotRecordable);
    }

    // Validate the trigger before touching the frame, so a refused command
    // leaves it untouched.
    let mut trig_bytes: (u8, u8, u16) = (0, 0, 0);
    if config.trigger.is_enabled {
        let src = config.trigger.source_channel;
        if src >= 4 {
            return Err(EncodeError::InvalidTriggerChannel);
        }
        let lvl_i = config.channels[src].measurement_from_voltage(config.trigger.trigger_level_uv);
        if !(105 <= lvl_i && lvl_i < 3990) {
            return Err(EncodeError::TriggerLevelOutOfRange);
        }
        if sbr == 0 {
            return Err(EncodeError::DataNotRecordable);
        }
        let lvl = lvl_i as u16;
        proof {
            let l = lvl;
            assert(l < 4096 ==> ((l & 0x000F) << 4) < 256 && ((l & 0x0FF0) >> 4) < 256)
                by (bit_vector);
        }
        let factor: u64 = if n_on == 1 {
            4
        } else if n_on == 2 {
            2
        } else {
            1
        };
        let delay: u16 = ((factor * (config.trigger.trigger_delay_us as u64)) / (sbr as u64)
            % 0x1_0000) as u16;
        let b11: u8 = ((src as u8) | (config.trigger.trigger_type.value() << 2)) | (((lvl & 0x000F)
            << 4) as u8);
        let b12: u8 = ((lvl & 0x0FF0) >> 4) as u8;
        trig_bytes = (b11, b12, delay);
    }

    buf[1] = 0x08;
    put_u32_le(buf, 3, sbr);
    put_u32_le(buf, 7, config.total_samples);

    if config.trigger.is_enabled {
        buf[11] = trig_bytes.0;
        buf[12] = trig_bytes.1;
        proof {
            let d = trig_bytes.2;
            assert((d >> 0) & 0xFF < 256 && (d >> 8) & 0xFF < 256 && (d >> 0) & 0xFF == d & 0xFF)
                by (bit_vector);
        }
        buf[13] = (trig_bytes.2 & 0xFF) as u8;
        buf[14] = ((trig_bytes.2 >> 8) & 0xFF) as u8;
    } else {
        buf[11] = 0;
        buf[12] = 0;
        buf[13] = 0;
        buf[14] = 0;
    }

    if config.channels[0].is_on {
        buf[15] = config.channels[0].gain_cmd();
        buf[19] = config.channels[0].offset_cmd();
    } else {
        buf[15] = 0xFF;
    }
    if config.channels[1].is_on {
        buf[16] = config.channels[1].gain_cmd();
        buf[20] = config.channels[1].offset_cmd();
    } else {
        buf[16] = 0xFF;
    }
    if config.channels[2].is_on {
        buf[17] = config.channels[2].gain_cmd();
        buf[21] = config.channels[2].offset_cmd();
    } else {
        buf[17] = 0xFF;
    }
    if config.channels[3].is_on {
        buf[18] = config.channels[3].gain_cmd();
        buf[22] = config.channels[3].offset_cmd();
    } else {
        buf[18] = 0xFF;
    }

    Ok(())
}

/// Whether a modern data request encodes, and the error when it does not:
/// timing below 25 ticks cannot fill more than the 2400-sample device
/// buffer; an enabled trigger must point at a real channel, map to a usable
/// ADC code on it, and have a computable delay.
pub open spec fn spec_data_modern_result(config: DataRequestConfig) -> Result<(), EncodeError> {
    let sbr = spec_sbr_modern(config.sample_rate_mhz);
    if sbr < 25 && config.total_samples > 2400 {
        Err(EncodeError::DataNotRecordable)
    } else if config.trigger.is_enabled {
        if config.trigger.source_channel >= 4 {
            Err(EncodeError::InvalidTriggerChannel)
        } else {
            let lvl = config.channels[config.trigger.source_channel as int].spec_measurement(
                config.trigger.trigger_level_uv as int,
            );
            if !(5 <= lvl < 4090) {
                Err(EncodeError::TriggerLevelOutOfRange)
            } else if sbr == 0 {
                Err(EncodeError::DataNotRecordable)
            } else {
                Ok(())
            }
        }
    } else {
        Ok(())
    }
}

/// A modern data-request frame: the record spacing in bytes 2..6, the total
/// sample count in bytes 6..10, the per-channel gain registers in bytes
/// 10..14 with 0xFF marking a channel that is off, and the trigger block in
/// bytes 14..22.
pub open spec fn spec_data_modern_filled(
    old_f: Seq<u8>,
    new_f: Seq<u8>,
    config: DataRequestConfig,
) -> bool {
    let sbr = spec_sbr_modern(config.sample_rate_mhz);
    let t = config.trigger;
    &&& new_f.len() == 64
    &&& (forall|j: int| 0 <= j < 64 && !(2 <= j < 22) ==> new_f[j] == old_f[j])
    &&& (forall|k: int| 0 <= k < 4 ==> new_f[2 + k] == spec_le32(sbr, k))
    &&& (forall|k: int| 0 <= k < 4 ==> new_f[6 + k] == spec_le32(config.total_samples, k))
    &&& (forall|i: int|
        0 <= i < 4 ==> new_f[10 + i] == (if config.channels[i].is_on {
            config.channels[i].spec_gain_cmd()
        } else {
            0xFFu8
        }))
    &&& (t.is_enabled ==> {
        let lvl = config.channels[t.source_channel as int].spec_measurement(
            t.trigger_level_uv as int,
        ) as u16;
        let delay = spec_trigger_delay_modern(t.trigger_delay_us, sbr);
        &&& new_f[14] == t.trigger_type.wire_code()
        &&& new_f[15] == t.source_channel as u8
        &&& new_f[16] == spec_le16(lvl, 0)
        &&& new_f[17] == spec_le16(lvl, 1)
        &&& (forall|k: int| 0 <= k < 4 ==> new_f[18 + k] == spec_le32(delay, k))
    })
    &&& (!t.is_enabled ==> (forall|j: int| 14 <= j < 22 ==> new_f[j] == 0))
}

/// Fills a modern frame with a data request.
pub fn fill_data_frame_modern(config: &DataRequestConfig, buf: &mut [u8; 64]) -> (r: Result<
    (),
    EncodeError,
>)
    ensures
        r == spec_data_modern_result(*config),
        r is Ok ==> spec_data_modern_filled(old(buf)@, final(buf)@, *config),
        r is Err ==> final(buf)@ == old(buf)@,
{
    let sbr: u32 = if config.sample_rate_mhz == 0 {
        0xFFFF_FFFF
    } else {
        (2_000_000_000u64 / config.sample_rate_mhz) as u32
    };
    if sbr < 25 && config.total_samples > 2400 {
        return Err(EncodeError::DataNotRecordable);
    }

    let mut trig: (u16, u32) = (0, 0);
    if config.trigger.is_enabled {
        let src = config.trigger.source_channel;
        if src >= 4 {
            return Err(EncodeError::InvalidTriggerChannel);
        }
        let lvl_i = config.channels[src].measurement_from_voltage(config.trigger.trigger_level_uv);
        if !(5 <= lvl_i && lvl_i < 4090) {
            return Err(EncodeError::TriggerLevelOutOfRange);
        }
        if sbr == 0 {
            return Err(EncodeError::DataNotRecordable);
        }
        let delay: u32 = ((2 * (config.trigger.trigger_delay_us as u64)) / (sbr as u64)
            % 0x1_0000_0000) as u32;
        trig = (lvl_i as u16, delay);
    }

    put_u32_le_modern(buf, 2, sbr);
    put_u32_le_modern(buf, 6, config.total_samples);

    if config.channels[0].is_on {
        buf[10] = config.channels[0].gain_cmd();
    } else {
        buf[10] = 0xFF;
    }
    if config.channels[1].is_on {
        buf[11] = config.channels[1].gain_cmd();
    } else {
        buf[11] = 0xFF;
    }
    if config.channels[2].is_on {
        buf[12] = config.channels[2].gain_cmd();
    } else {
        buf[12] = 0xFF;
    }
    if config.channels[3].is_on {
        buf[13] = config.channels[3].gain_cmd();
    } else {
        buf[13] = 0xFF;
    }

    if config.trigger.is_enabled {
        buf[14] = config.trigger.trigger_type.value();
        buf[15] = config.trigger.source_channel as u8;
        put_u16_le_modern(buf, 16, trig.0);
        put_u32_le_modern(buf, 18, trig.1);
    } else {
        buf[14] = 0;
        buf[15] = 0;
        buf[16] = 0;
        buf[17] = 0;
        buf[18] = 0;
        buf[19] = 0;
        buf[20] = 0;
        buf[21] = 0;
    }

    Ok(())
}

} // verus!
