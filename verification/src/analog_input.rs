//! Scope input channels and their voltage / ADC-code calibration.
//!
//! Both hardware generations map voltages to 12-bit ADC codes through an
//! affine transform. The modern front end has unity gain and a fixed span;
//! the legacy front end derives gain and offset from two 8-bit registers
//! through a resistor-divider network. All transforms are evaluated in
//! microvolts with exact integer arithmetic.

use vstd::prelude::*;
use crate::arith::{
    abs_int, clamp_i16, clamp_to_i16, clamp_u8, div_trunc, div_trunc_i128, lemma_div_trunc_bound,
    lemma_scale_round_trip,
};

verus! {

/// The analog front end of one input channel.
#[derive(Debug, PartialEq, Eq, Structural, Copy, Clone)]
pub enum AnalogInterface {
    /// The legacy divider network, parameterized by two 8-bit registers.
    Legacy { gain_setting: u8, offset_setting: u8 },
    /// The modern front end: unity gain over a fixed -5 V..5 V span.
    Modern,
}

/// Interface to a single scope channel.
#[derive(Debug, PartialEq, Eq, Structural, Copy, Clone)]
pub struct AnalogInput {
    pub is_on: bool,
    pub interface: AnalogInterface,
}

/// The legacy channel gain scaled by 1600: one gain-register step adds
/// 125 / 1600 (that is 20 / 256), on a base of 1616 / 1600 (one plus
/// 50 / 5000).
pub open spec fn spec_gain1600(g: u8) -> int {
    1616 + 125 * g
}

/// The voltage offset of a legacy channel in microvolts, truncated: the
/// level whose measurement sits mid-scale, solved from the two registers of
/// the divider model.
pub open spec fn spec_legacy_level_uv(g: u8, o: u8) -> int {
    div_trunc(
        5_000_000 * (o * (528 + 4125 * g)) - 5_115_000_000 * (16 + 125 * g),
        1023 * spec_gain1600(g),
    )
}

impl AnalogInput {
    /// The channel's mid-scale voltage in microvolts.
    pub open spec fn spec_level_uv(self) -> int {
        match self.interface {
            AnalogInterface::Legacy { gain_setting, offset_setting } => spec_legacy_level_uv(
                gain_setting,
                offset_setting,
            ),
            AnalogInterface::Modern => 0,
        }
    }

    /// ADC codes per `spec_span_scale` microvolts: the slope of the affine
    /// transform, as a ratio with `spec_span_scale`.
    pub open spec fn spec_code_scale(self) -> int {
        match self.interface {
            AnalogInterface::Legacy { gain_setting, .. } => spec_gain1600(gain_setting) * 4095,
            AnalogInterface::Modern => 8190,
        }
    }

    /// The denominator paired with `spec_code_scale`: one ADC code spans
    /// `spec_span_scale / spec_code_scale` microvolts.
    pub open spec fn spec_span_scale(self) -> int {
        match self.interface {
            AnalogInterface::Legacy { .. } => 16_000_000_000,
            AnalogInterface::Modern => 20_000_000,
        }
    }

    /// The half-scale code offset of the transform, scaled by
    /// `spec_span_scale`: the legacy transform centers on code 2047 exactly,
    /// the modern one on 2047.5.
    pub open spec fn spec_center_offset(self) -> int {
        match self.interface {
            AnalogInterface::Legacy { .. } => 0,
            AnalogInterface::Modern => 10_000_000,
        }
    }

    /// The gain register byte a data request carries for this channel.
    pub open spec fn spec_gain_cmd(self) -> u8 {
        match self.interface {
            AnalogInterface::Legacy { gain_setting, .. } => gain_setting,
            AnalogInterface::Modern => 0,
        }
    }

    /// The offset register byte a data request carries for this channel.
    pub open spec fn spec_offset_cmd(self) -> u8 {
        match self.interface {
            AnalogInterface::Legacy { offset_setting, .. } => offset_setting,
            AnalogInterface::Modern => 0,
        }
    }

    /// The exact ADC code of a voltage, before clamping: the affine
    /// transform of the voltage relative to the channel's level, truncated
    /// toward zero, centered on code 2047.
    pub open spec fn spec_code(self, v_uv: int) -> int {
        div_trunc(
            (v_uv - self.spec_level_uv()) * self.spec_code_scale() + self.spec_center_offset(),
            self.spec_span_scale(),
        ) + 2047
    }

    /// The measurement of a voltage: its code clamped to the signed 16-bit
    /// range.
    pub open spec fn spec_measurement(self, v_uv: int) -> int {
        clamp_i16(self.spec_code(v_uv))
    }

    /// The voltage of an ADC code in microvolts, truncated: the inverse
    /// affine transform.
    pub open spec fn spec_voltage(self, code: u16) -> int {
        div_trunc(
            (code - 2047) * self.spec_span_scale() - self.spec_center_offset(),
            self.spec_code_scale(),
        ) + self.spec_level_uv()
    }
}

/// The legacy gain register solved for a requested span: the exact solution
/// of `1 + 1/100 + g * 5/64 == 10 V / span`, truncated and clamped to the
/// register's width.
pub open spec fn spec_legacy_gain_setting(span_uv: int) -> u8 {
    if span_uv <= 0 {
        255
    } else if 6464 * span_uv >= 64_000_000_000 {
        0
    } else {
        clamp_u8((64_000_000_000 - 6464 * span_uv) / (500 * span_uv))
    }
}

/// The legacy offset register solved for a requested mid-scale level, given
/// the already-solved gain register: rounded to the nearest register count
/// and clamped to the register's width. A channel gain that degenerates
/// below 1.1 pins the register to its mid-scale count of 31 instead.
pub open spec fn spec_legacy_offset_setting(g: u8, level_uv: int) -> u8 {
    if spec_gain1600(g) < 1760 {
        31
    } else {
        let q = 528 + 4125 * g;
        let x = level_uv * spec_gain1600(g) + 5_000_000 * (16 + 125 * g);
        let num = 4092 * x + 10_000_000 * q;
        if num <= 0 {
            0
        } else {
            clamp_u8(num / (20_000_000 * q))
        }
    }
}

impl AnalogInput {
    /// A channel as a session starts it: on, ranged over -5 V..5 V.
    pub fn create(is_legacy: bool) -> (r: AnalogInput)
        ensures
            r.is_on,
            is_legacy ==> r.interface == (AnalogInterface::Legacy {
                gain_setting: spec_legacy_gain_setting(10_000_000),
                offset_setting: spec_legacy_offset_setting(
                    spec_legacy_gain_setting(10_000_000),
                    0,
                ),
            }),
            !is_legacy ==> r.interface == AnalogInterface::Modern,
    {
        let mut analog_input = if is_legacy {
            AnalogInput {
                is_on: true,
                interface: AnalogInterface::Legacy { gain_setting: 0, offset_setting: 0 },
            }
        } else {
            AnalogInput { is_on: true, interface: AnalogInterface::Modern }
        };
        analog_input.set_range(-5_000_000, 5_000_000);
        analog_input
    }

    /// Whether the channel takes part in data sweeps.
    pub fn is_on(&self) -> (r: bool)
        ensures
            r == self.is_on,
    {
        self.is_on
    }

    /// Includes the channel in subsequent data sweeps.
    pub fn turn_on(&mut self)
        ensures
            *final(self) == (AnalogInput { is_on: true, ..*old(self) }),
    {
        self.is_on = true;
    }

    /// Excludes the channel from subsequent data sweeps.
    pub fn turn_off(&mut self)
        ensures
            *final(self) == (AnalogInput { is_on: false, ..*old(self) }),
    {
        self.is_on = false;
    }

    /// Re-solves the channel calibration so that the ADC code span covers
    /// `vmin_uv..vmax_uv`: the gain register from the span, then the offset
    /// register from the mid-scale level, each truncated and clamped to its
    /// width. The modern front end has no registers and keeps its fixed
    /// span.
    pub fn set_range(&mut self, vmin_uv: i64, vmax_uv: i64)
        requires
            vmin_uv < vmax_uv,
        ensures
            final(self).is_on == old(self).is_on,
            old(self).interface is Modern ==> final(self).interface == old(self).interface,
            old(self).interface is Legacy ==> final(self).interface == {
                let g = spec_legacy_gain_setting(vmax_uv - vmin_uv);
                AnalogInterface::Legacy {
                    gain_setting: g,
                    offset_setting: spec_legacy_offset_setting(
                        g,
                        div_trunc(vmin_uv + vmax_uv, 2),
                    ),
                }
            },
    {
        match self.interface {
            AnalogInterface::Modern => {},
            AnalogInterface::Legacy { .. } => {
                let span: i128 = (vmax_uv as i128) - (vmin_uv as i128);
                let level: i128 = div_trunc_i128((vmin_uv as i128) + (vmax_uv as i128), 2);
                let g = legacy_gain_setting_exec(span);
                let o = legacy_offset_setting_exec(g, level);
                self.interface = AnalogInterface::Legacy { gain_setting: g, offset_setting: o };
            },
        }
    }

    /// The channel gain in thousandths: unity for the modern front end, the
    /// divider gain for the legacy one, truncated.
    pub fn gain_milli(&self) -> (r: u64)
        ensures
            self.interface is Modern ==> r == 1000,
            self.interface matches AnalogInterface::Legacy { gain_setting, .. } ==> r
                == spec_gain1600(gain_setting) * 5 / 8,
    {
        match self.interface {
            AnalogInterface::Modern => 1000,
            AnalogInterface::Legacy { gain_setting, .. } => {
                (1616 + 125 * (gain_setting as u64)) * 5 / 8
            },
        }
    }

    /// The measurement the ADC reports for a voltage, saturated to the
    /// signed 16-bit range.
    pub fn measurement_from_voltage(&self, voltage_uv: i64) -> (r: i16)
        ensures
            r == self.spec_measurement(voltage_uv as int),
    {
        let level: i64 = self.level_uv();
        let d: i128 = (voltage_uv as i128) - (level as i128);
        let (kn, kd, h) = self.scales();
        proof {
            assert(abs_int(d * kn + h) < 0x1_0000_0000_0000_0000_0000_0000_0000) by (nonlinear_arith)
                requires
                    abs_int(d as int) < 0x2_0000_0000_0000_0000,
                    0 < kn <= 0x4000_0000_0000,
                    0 <= h <= 0x4000_0000_0000,
            ;
        }
        let num: i128 = d * (kn as i128) + (h as i128);
        let code: i128 = div_trunc_i128(num, kd as i128);
        proof {
            lemma_div_trunc_bound(num as int, kd as int);
        }
        clamp_to_i16(code + 2047)
    }

    /// The voltage a reported ADC code stands for, in microvolts.
    pub fn voltage_from_measurement(&self, adc_data: u16) -> (r: i64)
        ensures
            r == self.spec_voltage(adc_data),
    {
        let level: i64 = self.level_uv();
        let (kn, kd, h) = self.scales();
        let c: i128 = (adc_data as i128) - 2047;
        proof {
            assert(abs_int(c * kd) <= 65536 * 0x4000_0000_0000) by (nonlinear_arith)
                requires
                    abs_int(c as int) <= 65536,
                    0 < kd <= 0x4000_0000_0000,
            ;
        }
        let num: i128 = c * (kd as i128) - (h as i128);
        let q: i128 = div_trunc_i128(num, kn as i128);
        proof {
            lemma_div_trunc_bound(num as int, kn as int);
        }
        (q + (level as i128)) as i64
    }

    /// The gain register byte a data request carries for this channel.
    pub fn gain_cmd(&self) -> (r: u8)
        ensures
            r == self.spec_gain_cmd(),
    {
        match self.interface {
            AnalogInterface::Legacy { gain_setting, .. } => gain_setting,
            AnalogInterface::Modern => 0,
        }
    }

    /// The offset register byte a data request carries for this channel.
    pub fn offset_cmd(&self) -> (r: u8)
        ensures
            r == self.spec_offset_cmd(),
    {
        match self.interface {
            AnalogInterface::Legacy { offset_setting, .. } => offset_setting,
            AnalogInterface::Modern => 0,
        }
    }

    /// The channel's mid-scale voltage in microvolts.
    fn level_uv(&self) -> (r: i64)
        ensures
            r == self.spec_level_uv(),
            abs_int(r as int) <= 0x8_0000_0000_0000,
    {
        match self.interface {
            AnalogInterface::Modern => 0,
            AnalogInterface::Legacy { gain_setting, offset_setting } => {
                let g = gain_setting as i128;
                let o = offset_setting as i128;
                proof {
                    assert(0 <= o * (528 + 4125 * g) <= 255 * 1_052_403) by (nonlinear_arith)
                        requires
                            0 <= o <= 255,
                            0 <= g <= 255,
                    ;
                }
                let num: i128 = 5_000_000 * (o * (528 + 4125 * g)) - 5_115_000_000 * (16 + 125
                    * g);
                let den: i128 = 1023 * (1616 + 125 * g);
                let q = div_trunc_i128(num, den);
                proof {
                    lemma_div_trunc_bound(num as int, den as int);
                }
                q as i64
            },
        }
    }

    /// The slope numerator, denominator and center offset of the channel's
    /// transform.
    fn scales(&self) -> (r: (i64, i64, i64))
        ensures
            r.0 == self.spec_code_scale(),
            r.1 == self.spec_span_scale(),
            r.2 == self.spec_center_offset(),
            0 < r.0 <= 0x4000_0000_0000,
            0 < r.1 <= 0x4000_0000_0000,
            0 <= r.2 <= 0x4000_0000_0000,
    {
        match self.interface {
            AnalogInterface::Modern => (8190, 20_000_000, 10_000_000),
            AnalogInterface::Legacy { gain_setting, .. } => {
                ((1616 + 125 * (gain_setting as i64)) * 4095, 16_000_000_000, 0)
            },
        }
    }
}

/// Solves the legacy gain register for a span in microvolts.
fn legacy_gain_setting_exec(span: i128) -> (r: u8)
    requires
        span < 0x7fff_ffff_ffff_ffff_ffff,
    ensures
        r == spec_legacy_gain_setting(span as int),
{
    if span <= 0 {
        255
    } else if 6464 * span >= 64_000_000_000 {
        0
    } else {
        let q: i128 = div_trunc_i128(64_000_000_000 - 6464 * span, 500 * span);
        if q > 255 {
            255
        } else {
            q as u8
        }
    }
}

/// Solves the legacy offset register for a mid-scale level in microvolts,
/// given the solved gain register.
fn legacy_offset_setting_exec(g: u8, level: i128) -> (r: u8)
    requires
        abs_int(level as int) < 0x8000_0000_0000_0000,
    ensures
        r == spec_legacy_offset_setting(g, level as int),
{
    if 125 * (g as u32) < 144 {
        31
    } else {
        let gi = g as i128;
        let q: i128 = 528 + 4125 * gi;
        proof {
            assert(level * (1616 + 125 * gi) <= 0x8000_0000_0000_0000i128 * 33491
                && level * (1616 + 125 * gi) >= -0x8000_0000_0000_0000i128 * 33491)
                by (nonlinear_arith)
                requires
                    abs_int(level as int) < 0x8000_0000_0000_0000,
                    1616 <= 1616 + 125 * gi <= 33491,
            ;
        }
        let x: i128 = level * (1616 + 125 * gi) + 5_000_000 * (16 + 125 * gi);
        let num: i128 = 4092 * x + 10_000_000 * q;
        if num <= 0 {
            0
        } else {
            let o: i128 = div_trunc_i128(num, 20_000_000 * q);
            if o > 255 {
                255
            } else {
                o as u8
            }
        }
    }
}

/// Round trip of the calibration: measuring a voltage and mapping the
/// reported code back reproduces the voltage to within one ADC-code
/// quantization step plus the microvolt the result is truncated to. This
/// holds for any register state, wherever the code does not saturate, so in
/// particular at both endpoints of the span that `set_range` solved for.
pub proof fn lemma_calibration_round_trip(ch: AnalogInput, v_uv: i64)
    requires
        0 <= ch.spec_code(v_uv as int) <= 4095,
    ensures
        abs_int(ch.spec_voltage(ch.spec_code(v_uv as int) as u16) - v_uv) * ch.spec_code_scale()
            < ch.spec_code_scale() + ch.spec_span_scale(),
{
    let kn = ch.spec_code_scale();
    let kd = ch.spec_span_scale();
    let h = ch.spec_center_offset();
    let level = ch.spec_level_uv();
    let d = v_uv - level;
    let code = ch.spec_code(v_uv as int);
    let t = div_trunc(d * kn + h, kd);
    assert(code == t + 2047);
    assert(code as u16 == code);
    assert((code as u16 - 2047) == t);
    let rt = ch.spec_voltage(code as u16);
    assert(rt == div_trunc(t * kd - h, kn) + level);
    lemma_scale_round_trip(d, kn, kd, h);
}

} // verus!
