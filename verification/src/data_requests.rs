//! Data sweeps: unpacking sample payloads and collating channel streams.
//!
//! Legacy devices interleave the readings of all active channels in the
//! reply frame itself, packed two 12-bit codes per three bytes. Modern
//! devices stream each channel over its own bulk endpoint; the readings are
//! buffered per channel and only collated into samples once every active
//! channel has delivered, which keeps the channels aligned.

use vstd::prelude::*;
use crate::analog_input::AnalogInput;
use crate::codec::{num_channels_on, spec_num_on};

verus! {

/// Voltage information from all open channels at a given time. A slot is
/// `None` exactly when its channel was off for the sweep; voltages are in
/// microvolts.
#[derive(Debug, PartialEq, Clone)]
pub struct Sample {
    pub time_since_start_ns: u64,
    pub data: [Option<i64>; 4],
}

impl Sample {
    /// How many scope channels a sample covers.
    pub fn num_channels() -> (r: u32)
        ensures
            r == 4,
    {
        4
    }

    /// Empties every slot.
    pub fn clear(&mut self)
        ensures
            final(self).time_since_start_ns == old(self).time_since_start_ns,
            forall|i: int| 0 <= i < 4 ==> final(self).data[i] is None,
    {
        self.data = [None, None, None, None];
    }
}

impl Default for Sample {
    /// A sample with every slot empty at time zero.
    fn default() -> (r: Self)
        ensures
            r.time_since_start_ns == 0,
            forall|i: int| 0 <= i < 4 ==> r.data[i] is None,
    {
        Sample { time_since_start_ns: 0, data: [None, None, None, None] }
    }
}

/// The 12-bit ADC code at position `k` of a packed payload: two codes per
/// three bytes, starting at byte 4; an even position takes a byte and the
/// low nibble after it, an odd one the high nibble and the byte after it.
pub open spec fn spec_packed_adc(buf: Seq<u8>, k: int) -> u16 {
    let byte = 4 + (k / 2) * 3;
    if k % 2 == 0 {
        (buf[byte] as u16) | (((buf[byte + 1] & 0x0F) as u16) << 8)
    } else {
        ((buf[byte + 1] as u16) >> 4) | ((buf[byte + 2] as u16) << 4)
    }
}

/// Reads the 12-bit ADC code at position `k` of a packed payload.
pub fn packed_adc(buf: &[u8; 64], k: usize) -> (r: u16)
    requires
        k < 40,
    ensures
        r == spec_packed_adc(buf@, k as int),
{
    let byte: usize = 4 + k / 2 * 3;
    if k % 2 == 0 {
        (buf[byte] as u16) | (((buf[byte + 1] & 0x0F) as u16) << 8)
    } else {
        ((buf[byte + 1] as u16) >> 4) | ((buf[byte + 2] as u16) << 4)
    }
}

/// How many of the active channels sit before channel `i`: the position of
/// channel `i`'s reading within one interleaved record.
pub open spec fn spec_on_rank(channels: [AnalogInput; 4], i: int) -> int {
    (if i > 0 && channels[0].is_on {
        1int
    } else {
        0int
    }) + (if i > 1 && channels[1].is_on {
        1int
    } else {
        0int
    }) + (if i > 2 && channels[2].is_on {
        1int
    } else {
        0int
    })
}

/// What one decoded sample of an interleaved legacy payload holds: the
/// calibrated voltage of reading `j * n_on + rank(i)` in every active slot
/// `i`, and nothing in the others.
pub open spec fn spec_legacy_sample_ok(
    channels: [AnalogInput; 4],
    buf: Seq<u8>,
    j: int,
    s: Sample,
) -> bool {
    let n_on = spec_num_on(channels);
    &&& s.time_since_start_ns == 0
    &&& (forall|i: int|
        0 <= i < 4 ==> (if channels[i].is_on {
            s.data[i] == Some(
                channels[i].spec_voltage(
                    spec_packed_adc(buf, j * n_on + spec_on_rank(channels, i)),
                ) as i64,
            )
        } else {
            s.data[i] is None
        }))
}

/// How many samples of a legacy reply frame can be decoded: the count the
/// device reports, capped by the 40 readings the packed payload can hold.
pub open spec fn spec_legacy_sample_count(channels: [AnalogInput; 4], buf: Seq<u8>) -> int {
    let n_on = spec_num_on(channels);
    if n_on == 0 {
        buf[3] as int
    } else if buf[3] as int <= 40int / n_on {
        buf[3] as int
    } else {
        40int / n_on
    }
}

/// Decodes the samples a legacy reply frame carries, together with the
/// count of finished samples the device reports. The readings of the
/// active channels are interleaved per record; each is mapped back to a
/// voltage through its channel's calibration.
pub fn parse_legacy_samples(channels: &[AnalogInput; 4], buf: &[u8; 64]) -> (r: (Vec<Sample>, u32))
    ensures
        r.1 == buf@[3],
        r.0@.len() == spec_legacy_sample_count(*channels, buf@),
        forall|j: int|
            0 <= j < r.0@.len() ==> spec_legacy_sample_ok(*channels, buf@, j, #[trigger] r.0@[j]),
{
    let reported: u32 = buf[3] as u32;
    let n_on: usize = num_channels_on(channels);
    let m: u32 = if n_on == 0 {
        reported
    } else if reported <= (40 / n_on) as u32 {
        reported
    } else {
        (40 / n_on) as u32
    };
    proof {
        assert(m * n_on <= 40) by (nonlinear_arith)
            requires
                n_on == 0 ==> m * n_on == 0,
                n_on > 0 ==> m <= 40int / (n_on as int),
                n_on >= 0,
                m >= 0,
        ;
    }

    let mut samples: Vec<Sample> = Vec::new();
    let mut rd: usize = 0;
    let mut j: u32 = 0;
    while j < m
        invariant
            0 <= j <= m,
            n_on == spec_num_on(*channels),
            m * n_on <= 40,
            rd == j * n_on,
            samples@.len() == j,
            forall|j2: int|
                0 <= j2 < j ==> spec_legacy_sample_ok(*channels, buf@, j2, #[trigger] samples@[j2]),
        decreases m - j,
    {
        proof {
            assert(j * n_on + n_on <= m * n_on) by (nonlinear_arith)
                requires
                    j < m,
                    n_on >= 0,
            ;
        }
        let mut data: [Option<i64>; 4] = [None, None, None, None];
        let mut taken: usize = 0;
        if channels[0].is_on {
            data[0] = Some(channels[0].voltage_from_measurement(packed_adc(buf, rd + taken)));
            taken += 1;
        }
        if channels[1].is_on {
            data[1] = Some(channels[1].voltage_from_measurement(packed_adc(buf, rd + taken)));
            taken += 1;
        }
        if channels[2].is_on {
            data[2] = Some(channels[2].voltage_from_measurement(packed_adc(buf, rd + taken)));
            taken += 1;
        }
        if channels[3].is_on {
            data[3] = Some(channels[3].voltage_from_measurement(packed_adc(buf, rd + taken)));
            taken += 1;
        }
        samples.push(Sample { time_since_start_ns: 0, data });
        rd += taken;
        proof {
            assert((j + 1) * n_on == j * n_on + n_on) by (nonlinear_arith);
        }
        j += 1;
    }
    (samples, reported)
}

/// The per-channel reassembly buffers of a modern sweep: raw ADC codes that
/// arrived on each channel's endpoint and await collation. Leftover codes
/// are never discarded between cycles.
#[derive(Debug, PartialEq, Clone)]
pub struct Collators {
    pub ch0: Vec<u16>,
    pub ch1: Vec<u16>,
    pub ch2: Vec<u16>,
    pub ch3: Vec<u16>,
}

impl Collators {
    /// The buffered codes of channel `i`, oldest first.
    pub open spec fn at(self, i: int) -> Seq<u16> {
        if i == 0 {
            self.ch0@
        } else if i == 1 {
            self.ch1@
        } else if i == 2 {
            self.ch2@
        } else {
            self.ch3@
        }
    }

    /// Four empty buffers.
    pub fn new() -> (r: Collators)
        ensures
            forall|i: int| 0 <= i < 4 ==> r.at(i).len() == 0,
    {
        Collators { ch0: Vec::new(), ch1: Vec::new(), ch2: Vec::new(), ch3: Vec::new() }
    }
}

/// The readings a modern channel frame carries: byte 1 counts them, capped
/// by the 40 readings the packed payload can hold.
pub open spec fn spec_channel_readings(buf: Seq<u8>) -> Seq<u16> {
    let n: int = if buf[1] as int <= 40 {
        buf[1] as int
    } else {
        40
    };
    Seq::new(n as nat, |k: int| spec_packed_adc(buf, k))
}

/// Unpacks a modern channel frame and appends its readings to that
/// channel's reassembly buffer.
pub fn append_channel_data(collator: &mut Vec<u16>, buf: &[u8; 64])
    ensures
        final(collator)@ == old(collator)@ + spec_channel_readings(buf@),
{
    let n: usize = if (buf[1] as usize) <= 40 {
        buf[1] as usize
    } else {
        40
    };
    let mut k: usize = 0;
    while k < n
        invariant
            0 <= k <= n,
            n <= 40,
            n == spec_channel_readings(buf@).len(),
            collator@ == old(collator)@ + spec_channel_readings(buf@).take(k as int),
        decreases n - k,
    {
        collator.push(packed_adc(buf, k));
        proof {
            assert(spec_channel_readings(buf@).take(k + 1) == spec_channel_readings(buf@).take(
                k as int,
            ).push(spec_packed_adc(buf@, k as int)));
        }
        k += 1;
    }
    proof {
        assert(spec_channel_readings(buf@).take(n as int) == spec_channel_readings(buf@));
    }
}

/// How many aligned samples the buffers hold: the least buffered count
/// among the active channels, or none at all when no channel is active.
pub open spec fn spec_complete_samples(channels: [AnalogInput; 4], c: Collators) -> int {
    if spec_num_on(channels) == 0 {
        0
    } else {
        let none: int = usize::MAX as int;
        let l0: int = if channels[0].is_on {
            c.at(0).len() as int
        } else {
            none
        };
        let l1: int = if channels[1].is_on {
            c.at(1).len() as int
        } else {
            none
        };
        let l2: int = if channels[2].is_on {
            c.at(2).len() as int
        } else {
            none
        };
        let l3: int = if channels[3].is_on {
            c.at(3).len() as int
        } else {
            none
        };
        spec_min4(l0, l1, l2, l3)
    }
}

/// The least of four values.
pub open spec fn spec_min4(a: int, b: int, c: int, d: int) -> int {
    let x = if a <= b {
        a
    } else {
        b
    };
    let y = if c <= d {
        c
    } else {
        d
    };
    if x <= y {
        x
    } else {
        y
    }
}

/// What one collated sample holds: the calibrated voltage of the `j`-th
/// buffered code in every active slot, and nothing in the others.
pub open spec fn spec_collated_sample_ok(
    channels: [AnalogInput; 4],
    c: Collators,
    j: int,
    s: Sample,
) -> bool {
    &&& s.time_since_start_ns == 0
    &&& (forall|i: int|
        0 <= i < 4 ==> (if channels[i].is_on {
            s.data[i] == Some(channels[i].spec_voltage(c.at(i)[j]) as i64)
        } else {
            s.data[i] is None
        }))
}

/// Removes the first `m` buffered codes of a channel.
fn drop_front(v: &mut Vec<u16>, m: usize)
    requires
        m <= old(v)@.len(),
    ensures
        final(v)@ == old(v)@.skip(m as int),
{
    let tail = v.split_off(m);
    *v = tail;
    proof {
        assert(final(v)@ =~= old(v)@.skip(m as int));
    }
}

/// Collates the aligned prefix of the reassembly buffers into samples: as
/// many as every active channel has buffered. The collated codes leave the
/// buffers; what remains of a channel's stream is kept for the next cycle,
/// and an inactive channel's buffer is left alone.
pub fn collate_samples(channels: &[AnalogInput; 4], c: &mut Collators) -> (r: Vec<Sample>)
    ensures
        r@.len() == spec_complete_samples(*channels, *old(c)),
        forall|j: int|
            0 <= j < r@.len() ==> spec_collated_sample_ok(*channels, *old(c), j, #[trigger] r@[j]),
        forall|i: int|
            0 <= i < 4 ==> final(c).at(i) == (if channels[i].is_on {
                old(c).at(i).skip(r@.len() as int)
            } else {
                old(c).at(i)
            }),
{
    let n_on: usize = num_channels_on(channels);
    if n_on == 0 {
        return Vec::new();
    }
    let mut m: usize = usize::MAX;
    if channels[0].is_on && c.ch0.len() < m {
        m = c.ch0.len();
    }
    if channels[1].is_on && c.ch1.len() < m {
        m = c.ch1.len();
    }
    if channels[2].is_on && c.ch2.len() < m {
        m = c.ch2.len();
    }
    if channels[3].is_on && c.ch3.len() < m {
        m = c.ch3.len();
    }

    let mut samples: Vec<Sample> = Vec::new();
    let mut j: usize = 0;
    while j < m
        invariant
            0 <= j <= m,
            m == spec_complete_samples(*channels, *c),
            samples@.len() == j,
            forall|j2: int|
                0 <= j2 < j ==> spec_collated_sample_ok(*channels, *c, j2, #[trigger] samples@[j2]),
        decreases m - j,
    {
        let mut data: [Option<i64>; 4] = [None, None, None, None];
        if channels[0].is_on {
            data[0] = Some(channels[0].voltage_from_measurement(c.ch0[j]));
        }
        if channels[1].is_on {
            data[1] = Some(channels[1].voltage_from_measurement(c.ch1[j]));
        }
        if channels[2].is_on {
            data[2] = Some(channels[2].voltage_from_measurement(c.ch2[j]));
        }
        if channels[3].is_on {
            data[3] = Some(channels[3].voltage_from_measurement(c.ch3[j]));
        }
        samples.push(Sample { time_since_start_ns: 0, data });
        j += 1;
    }

    if channels[0].is_on {
        drop_front(&mut c.ch0, m);
    }
    if channels[1].is_on {
        drop_front(&mut c.ch1, m);
    }
    if channels[2].is_on {
        drop_front(&mut c.ch2, m);
    }
    if channels[3].is_on {
        drop_front(&mut c.ch3, m);
    }
    samples
}

} // verus!
