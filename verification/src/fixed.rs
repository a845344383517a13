//! Exact fixed-point model of engineering values.
//!
//! Every measurement and setting of the device decodes from a 16-bit
//! register word by a sign interpretation and a division by a small scale
//! factor, so each one is a whole number of tenths of a unit. Keeping the
//! values in tenths makes every statement in this crate exact: no rounding
//! is ever performed, and window means are kept as (sum, count) pairs.

use vstd::prelude::*;

verus! {

/// An engineering value in tenths of a unit (volts, amps, percent, ohms).
#[derive(Clone, Copy, Debug, PartialEq, Eq, Structural)]
pub struct Deci {
    pub tenths: i32,
}

/// The exact arithmetic mean of a window of fixed-point values, kept as the
/// pair (sum of the samples' tenths, number of samples). The mean itself is
/// the rational `sum_tenths / count` tenths; nothing is rounded away.
#[derive(Clone, Copy, Debug, PartialEq, Eq, Structural)]
pub struct MeanDeci {
    pub sum_tenths: i128,
    pub count: u64,
}

/// The mean `m` is exactly the value `d`: as rationals,
/// `sum_tenths / count == d.tenths`, multiplied through by the positive count.
pub open spec fn mean_is_exactly(m: MeanDeci, d: Deci) -> bool {
    &&& m.count >= 1
    &&& m.sum_tenths == d.tenths as int * m.count as int
}

/// The mean `m` is at most the value `d`: for `count >= 1` this says, as
/// rationals, `sum_tenths / count <= d.tenths`, multiplied through by the
/// positive count.
pub open spec fn mean_at_most(m: MeanDeci, d: Deci) -> bool {
    m.sum_tenths <= d.tenths as int * m.count as int
}

/// The multiplied-through comparison is the plain one: on a window whose
/// mean is exactly the value `d`, the mean is at most `t` iff `d <= t`.
/// Deciding thresholds on sums therefore never moves a reading across a
/// boundary, however many samples the window holds.
pub proof fn lemma_mean_at_most_agrees(m: MeanDeci, d: Deci, t: Deci)
    requires
        mean_is_exactly(m, d),
    ensures
        mean_at_most(m, t) <==> d.tenths <= t.tenths,
{
    let dd = d.tenths as int;
    let tt = t.tenths as int;
    let cc = m.count as int;
    assert((dd * cc <= tt * cc) <==> dd <= tt) by (nonlinear_arith)
        requires
            cc >= 1;
}

} // verus!
