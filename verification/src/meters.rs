//! Telemetry samples and the windowed averaging reduction.
//!
//! One `Meters` value is one sample tick: the eight measurement registers,
//! decoded into engineering values. A window of samples reduces to one
//! `AveragedMeters`, whose fields are the exact field-wise arithmetic means
//! kept as (sum, count) pairs. An empty window has no mean and is rejected.

use vstd::prelude::*;

use crate::fixed::Deci;
use crate::fixed::MeanDeci;
use crate::fixed::mean_is_exactly;
use crate::registers::RegisterName;
use crate::registers::outcome_wf;
use crate::registers::read_value;
use crate::registers::register_spec;
use crate::registers::sensed_signed_tenths;

verus! {

/// One telemetry sample: every field an engineering value in tenths.
#[derive(Clone, Copy, Debug, PartialEq, Eq, Structural)]
pub struct Meters {
    pub input_voltage: Deci,
    pub input_current: Deci,
    pub output_voltage: Deci,
    pub output_current: Deci,
    pub batt_voltage: Deci,
    pub batt_current: Deci,
    pub batt_soc: Deci,
    pub batt_int_resistance: Deci,
}

/// The field-wise means of a window of samples, each exact as a rational
/// `sum_tenths / count`. All eight counts equal the window length.
#[derive(Clone, Copy, Debug, PartialEq, Eq, Structural)]
pub struct AveragedMeters {
    pub input_voltage: MeanDeci,
    pub input_current: MeanDeci,
    pub output_voltage: MeanDeci,
    pub output_current: MeanDeci,
    pub batt_voltage: MeanDeci,
    pub batt_current: MeanDeci,
    pub batt_soc: MeanDeci,
    pub batt_int_resistance: MeanDeci,
}

/// Why a window could not be reduced.
#[derive(Clone, Copy, Debug, PartialEq, Eq, Structural)]
pub enum AverageError {
    /// The window held no samples: the mean of nothing is undefined, and is
    /// rejected rather than returned as a zero or an indeterminate value.
    EmptyWindow,
}

/// Sum of `f` over the first `n` samples of `s`.
pub open spec fn sum_prefix(s: Seq<Meters>, n: int, f: spec_fn(Meters) -> int) -> int
    decreases n,
{
    if n <= 0 {
        0
    } else {
        sum_prefix(s, n - 1, f) + f(s[n - 1])
    }
}

pub open spec fn sel_input_voltage() -> spec_fn(Meters) -> int {
    |m: Meters| m.input_voltage.tenths as int
}

pub open spec fn sel_input_current() -> spec_fn(Meters) -> int {
    |m: Meters| m.input_current.tenths as int
}

pub open spec fn sel_output_voltage() -> spec_fn(Meters) -> int {
    |m: Meters| m.output_voltage.tenths as int
}

pub open spec fn sel_output_current() -> spec_fn(Meters) -> int {
    |m: Meters| m.output_current.tenths as int
}

pub open spec fn sel_batt_voltage() -> spec_fn(Meters) -> int {
    |m: Meters| m.batt_voltage.tenths as int
}

pub open spec fn sel_batt_current() -> spec_fn(Meters) -> int {
    |m: Meters| m.batt_current.tenths as int
}

pub open spec fn sel_batt_soc() -> spec_fn(Meters) -> int {
    |m: Meters| m.batt_soc.tenths as int
}

pub open spec fn sel_batt_int_resistance() -> spec_fn(Meters) -> int {
    |m: Meters| m.batt_int_resistance.tenths as int
}

/// One mean is the exact arithmetic mean of one field over the window `s`:
/// its count is the window length and its sum is the field's sum, so the
/// mean it denotes is `(sum of the field) / (number of samples)`, exactly.
pub open spec fn is_field_mean(m: MeanDeci, s: Seq<Meters>, f: spec_fn(Meters) -> int) -> bool {
    &&& m.count == s.len()
    &&& m.sum_tenths == sum_prefix(s, s.len() as int, f)
}

/// `avg` is the field-wise exact arithmetic mean of the window `s`.
pub open spec fn is_average_of(avg: AveragedMeters, s: Seq<Meters>) -> bool {
    &&& is_field_mean(avg.input_voltage, s, sel_input_voltage())
    &&& is_field_mean(avg.input_current, s, sel_input_current())
    &&& is_field_mean(avg.output_voltage, s, sel_output_voltage())
    &&& is_field_mean(avg.output_current, s, sel_output_current())
    &&& is_field_mean(avg.batt_voltage, s, sel_batt_voltage())
    &&& is_field_mean(avg.batt_current, s, sel_batt_current())
    &&& is_field_mean(avg.batt_soc, s, sel_batt_soc())
    &&& is_field_mean(avg.batt_int_resistance, s, sel_batt_int_resistance())
}

impl Meters {
    /// Reduce a window of samples to its field-wise exact arithmetic mean.
    ///
    /// Succeeds on every non-empty window, and only on those: an empty
    /// window yields `AverageError::EmptyWindow`, never a silent zero.
    pub fn average(values: Vec<Meters>) -> (r: Result<AveragedMeters, AverageError>)
        ensures
            r is Ok <==> values@.len() >= 1,
            r matches Ok(avg) ==> is_average_of(avg, values@),
            r is Err ==> r == Err::<AveragedMeters, AverageError>(AverageError::EmptyWindow),
    {
        let n: usize = values.len();
        if n == 0 {
            return Err(AverageError::EmptyWindow);
        }
        let mut sum_iv: i128 = 0;
        let mut sum_ic: i128 = 0;
        let mut sum_ov: i128 = 0;
        let mut sum_oc: i128 = 0;
        let mut sum_bv: i128 = 0;
        let mut sum_bc: i128 = 0;
        let mut sum_soc: i128 = 0;
        let mut sum_bir: i128 = 0;
        let mut i: usize = 0;
        while i < n
            invariant
                i <= n,
                n == values@.len(),
                sum_iv == sum_prefix(values@, i as int, sel_input_voltage()),
                sum_ic == sum_prefix(values@, i as int, sel_input_current()),
                sum_ov == sum_prefix(values@, i as int, sel_output_voltage()),
                sum_oc == sum_prefix(values@, i as int, sel_output_current()),
                sum_bv == sum_prefix(values@, i as int, sel_batt_voltage()),
                sum_bc == sum_prefix(values@, i as int, sel_batt_current()),
                sum_soc == sum_prefix(values@, i as int, sel_batt_soc()),
                sum_bir == sum_prefix(values@, i as int, sel_batt_int_resistance()),
                -0x80000000 * (i as int) <= sum_iv <= 0x80000000 * (i as int),
                -0x80000000 * (i as int) <= sum_ic <= 0x80000000 * (i as int),
                -0x80000000 * (i as int) <= sum_ov <= 0x80000000 * (i as int),
                -0x80000000 * (i as int) <= sum_oc <= 0x80000000 * (i as int),
                -0x80000000 * (i as int) <= sum_bv <= 0x80000000 * (i as int),
                -0x80000000 * (i as int) <= sum_bc <= 0x80000000 * (i as int),
                -0x80000000 * (i as int) <= sum_soc <= 0x80000000 * (i as int),
                -0x80000000 * (i as int) <= sum_bir <= 0x80000000 * (i as int),
            decreases n - i,
        {
            let m: Meters = values[i];
            sum_iv = sum_iv + m.input_voltage.tenths as i128;
            sum_ic = sum_ic + m.input_current.tenths as i128;
            sum_ov = sum_ov + m.output_voltage.tenths as i128;
            sum_oc = sum_oc + m.output_current.tenths as i128;
            sum_bv = sum_bv + m.batt_voltage.tenths as i128;
            sum_bc = sum_bc + m.batt_current.tenths as i128;
            sum_soc = sum_soc + m.batt_soc.tenths as i128;
            sum_bir = sum_bir + m.batt_int_resistance.tenths as i128;
            i = i + 1;
        }
        Ok(AveragedMeters {
            input_voltage: MeanDeci { sum_tenths: sum_iv, count: n as u64 },
            input_current: MeanDeci { sum_tenths: sum_ic, count: n as u64 },
            output_voltage: MeanDeci { sum_tenths: sum_ov, count: n as u64 },
            output_current: MeanDeci { sum_tenths: sum_oc, count: n as u64 },
            batt_voltage: MeanDeci { sum_tenths: sum_bv, count: n as u64 },
            batt_current: MeanDeci { sum_tenths: sum_bc, count: n as u64 },
            batt_soc: MeanDeci { sum_tenths: sum_soc, count: n as u64 },
            batt_int_resistance: MeanDeci { sum_tenths: sum_bir, count: n as u64 },
        })
    }
}

/// The raw transport outcomes of one sample tick, one per measurement
/// register, read in the register map's fixed order so the sample is
/// time-coherent to within one tick.
pub struct MeterReads {
    pub input_voltage: Option<Vec<u16>>,
    pub input_current: Option<Vec<u16>>,
    pub output_voltage: Option<Vec<u16>>,
    pub output_current: Option<Vec<u16>>,
    pub batt_voltage: Option<Vec<u16>>,
    pub batt_current: Option<Vec<u16>>,
    pub batt_soc: Option<Vec<u16>>,
    pub batt_int_resistance: Option<Vec<u16>>,
}

impl MeterReads {
    pub open spec fn wf(&self) -> bool {
        &&& outcome_wf(self.input_voltage)
        &&& outcome_wf(self.input_current)
        &&& outcome_wf(self.output_voltage)
        &&& outcome_wf(self.output_current)
        &&& outcome_wf(self.batt_voltage)
        &&& outcome_wf(self.batt_current)
        &&& outcome_wf(self.batt_soc)
        &&& outcome_wf(self.batt_int_resistance)
    }
}

/// Decode one sample from the raw transport outcomes. Every measurement
/// register is signed, scale 10, so each field's tenths are exactly the
/// signed first word of its read, with a failed read degrading to zero by
/// the sentinel policy.
pub fn meters_from_reads(reads: MeterReads) -> (m: Meters)
    requires
        reads.wf(),
    ensures
        m.input_voltage.tenths as int == sensed_signed_tenths(reads.input_voltage),
        m.input_current.tenths as int == sensed_signed_tenths(reads.input_current),
        m.output_voltage.tenths as int == sensed_signed_tenths(reads.output_voltage),
        m.output_current.tenths as int == sensed_signed_tenths(reads.output_current),
        m.batt_voltage.tenths as int == sensed_signed_tenths(reads.batt_voltage),
        m.batt_current.tenths as int == sensed_signed_tenths(reads.batt_current),
        m.batt_soc.tenths as int == sensed_signed_tenths(reads.batt_soc),
        m.batt_int_resistance.tenths as int == sensed_signed_tenths(reads.batt_int_resistance),
{
    let MeterReads {
        input_voltage,
        input_current,
        output_voltage,
        output_current,
        batt_voltage,
        batt_current,
        batt_soc,
        batt_int_resistance,
    } = reads;
    Meters {
        input_voltage: read_value(&register_spec(RegisterName::InputVoltage), input_voltage),
        input_current: read_value(&register_spec(RegisterName::InputCurrent), input_current),
        output_voltage: read_value(&register_spec(RegisterName::OutputVoltage), output_voltage),
        output_current: read_value(&register_spec(RegisterName::OutputCurrent), output_current),
        batt_voltage: read_value(&register_spec(RegisterName::BattVoltage), batt_voltage),
        batt_current: read_value(&register_spec(RegisterName::BattCurrent), batt_current),
        batt_soc: read_value(&register_spec(RegisterName::BattSoc), batt_soc),
        batt_int_resistance: read_value(
            &register_spec(RegisterName::BattIntResistance),
            batt_int_resistance,
        ),
    }
}

/// The mean of a single-sample window is that sample, unchanged: each field
/// of the average denotes exactly the corresponding field of the sample.
pub proof fn lemma_average_singleton(avg: AveragedMeters, s: Seq<Meters>)
    requires
        is_average_of(avg, s),
        s.len() == 1,
    ensures
        mean_is_exactly(avg.input_voltage, s[0].input_voltage),
        mean_is_exactly(avg.input_current, s[0].input_current),
        mean_is_exactly(avg.output_voltage, s[0].output_voltage),
        mean_is_exactly(avg.output_current, s[0].output_current),
        mean_is_exactly(avg.batt_voltage, s[0].batt_voltage),
        mean_is_exactly(avg.batt_current, s[0].batt_current),
        mean_is_exactly(avg.batt_soc, s[0].batt_soc),
        mean_is_exactly(avg.batt_int_resistance, s[0].batt_int_resistance),
{
    reveal_with_fuel(sum_prefix, 2);
    assert(sum_prefix(s, 1, sel_input_voltage()) == sel_input_voltage()(s[0]));
    assert(sum_prefix(s, 1, sel_input_current()) == sel_input_current()(s[0]));
    assert(sum_prefix(s, 1, sel_output_voltage()) == sel_output_voltage()(s[0]));
    assert(sum_prefix(s, 1, sel_output_current()) == sel_output_current()(s[0]));
    assert(sum_prefix(s, 1, sel_batt_voltage()) == sel_batt_voltage()(s[0]));
    assert(sum_prefix(s, 1, sel_batt_current()) == sel_batt_current()(s[0]));
    assert(sum_prefix(s, 1, sel_batt_soc()) == sel_batt_soc()(s[0]));
    assert(sum_prefix(s, 1, sel_batt_int_resistance()) == sel_batt_int_resistance()(s[0]));
}

} // verus!
