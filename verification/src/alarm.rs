//! Threshold-based alarm evaluation.
//!
//! A pure derivation: one averaged sample window against the two configured
//! thresholds gives the two alarm flags, recomputed every cycle and never
//! carried forward. Both boundaries are inclusive: a reading exactly at its
//! threshold counts as down. The comparison `mean <= threshold` is decided
//! exactly by multiplying through by the window's positive sample count,
//! so no rounding can move a reading across a boundary.

use vstd::prelude::*;

use crate::fixed::Deci;
use crate::fixed::MeanDeci;
use crate::fixed::mean_at_most;
use crate::meters::AveragedMeters;

verus! {

/// The configured alarm thresholds: AC considered down at or below
/// `ac_down` input volts, battery considered low at or below `batt_low`
/// battery volts.
#[derive(Clone, Copy, Debug, PartialEq, Eq, Structural)]
pub struct AlarmThresholds {
    pub ac_down: Deci,
    pub batt_low: Deci,
}

/// The alarm flags derived from one averaged window.
#[derive(Clone, Copy, Debug, PartialEq, Eq, Structural)]
pub struct AlarmState {
    pub ac_down: bool,
    pub batt_low: bool,
}

impl AlarmState {
    /// The AC-down flag as the 0/1 integer the metadata row stores.
    pub fn ac_down_flag(&self) -> (r: i32)
        ensures
            r == if self.ac_down { 1int } else { 0int },
    {
        if self.ac_down {
            1
        } else {
            0
        }
    }

    /// The battery-low flag as the 0/1 integer the metadata row stores.
    pub fn batt_low_flag(&self) -> (r: i32)
        ensures
            r == if self.batt_low { 1int } else { 0int },
    {
        if self.batt_low {
            1
        } else {
            0
        }
    }
}

/// Decide one inclusive threshold comparison, `mean <= threshold`, exactly.
fn mean_below(m: &MeanDeci, threshold: &Deci) -> (r: bool)
    ensures
        r == mean_at_most(*m, *threshold),
{
    proof {
        let tt = threshold.tenths as int;
        let cc = m.count as int;
        assert(-0x80000000 * 0x10000000000000000 <= tt * cc <= 0x80000000
            * 0x10000000000000000) by (nonlinear_arith)
            requires
                -0x80000000 <= tt <= 0x7fffffff,
                0 <= cc < 0x10000000000000000;
    }
    m.sum_tenths <= (threshold.tenths as i128) * (m.count as i128)
}

/// Evaluate the alarm flags for one averaged window: AC is down iff the
/// mean input voltage is at or below the AC-down threshold, and the battery
/// is low iff the mean battery voltage is at or below the battery-low
/// threshold — both boundaries inclusive.
pub fn evaluate(avg: &AveragedMeters, thresholds: &AlarmThresholds) -> (r: AlarmState)
    ensures
        r.ac_down == mean_at_most(avg.input_voltage, thresholds.ac_down),
        r.batt_low == mean_at_most(avg.batt_voltage, thresholds.batt_low),
{
    AlarmState {
        ac_down: mean_below(&avg.input_voltage, &thresholds.ac_down),
        batt_low: mean_below(&avg.batt_voltage, &thresholds.batt_low),
    }
}

} // verus!
