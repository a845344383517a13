//! The windowed sampling state.
//!
//! One `Sampler` drives one fixed-duration window: it is begun at a start
//! timestamp, collects one sample per tick while the wall clock is inside
//! the window, and then reduces the collected samples to their field-wise
//! mean. The caller owns the clock and the tick suspensions; the sampler
//! holds the verified bookkeeping. A window shorter than one tick yields a
//! single-sample window, which is valid; only a window that collected
//! nothing at all is rejected at reduction.

use vstd::prelude::*;

use crate::meters::AverageError;
use crate::meters::AveragedMeters;
use crate::meters::Meters;
use crate::meters::is_average_of;

verus! {

/// Design-default window length, in seconds.
pub const DEFAULT_WINDOW_SECS: i64 = 10;

/// Design-default tick interval between samples, in milliseconds.
pub const DEFAULT_TICK_MILLIS: u64 = 1000;

/// One sampling window in progress: the samples collected so far, the
/// wall-clock second the window was begun at, and its length.
pub struct Sampler {
    pub samples: Vec<Meters>,
    pub started_at: i64,
    pub window_secs: i64,
}

impl Sampler {
    /// The window's end lies inside the clock's range.
    pub open spec fn wf(&self) -> bool {
        &&& 0 <= self.window_secs
        &&& self.started_at + self.window_secs <= i64::MAX
    }

    /// Begin an empty window at the clock reading `now`.
    pub fn begin(now: i64, window_secs: i64) -> (s: Sampler)
        requires
            0 <= window_secs,
            now + window_secs <= i64::MAX,
        ensures
            s.samples@.len() == 0,
            s.started_at == now,
            s.window_secs == window_secs,
            s.wf(),
    {
        Sampler { samples: Vec::new(), started_at: now, window_secs }
    }

    /// Append one sample to the window.
    pub fn record(&mut self, m: Meters)
        ensures
            final(self).samples@ == old(self).samples@.push(m),
            final(self).started_at == old(self).started_at,
            final(self).window_secs == old(self).window_secs,
    {
        self.samples.push(m);
    }

    /// Whether the window's wall-clock duration has elapsed at the clock
    /// reading `now`: sampling continues strictly inside the window.
    pub fn window_complete(&self, now: i64) -> (r: bool)
        requires
            self.wf(),
        ensures
            r == (now >= self.started_at + self.window_secs),
    {
        now >= self.started_at + self.window_secs
    }

    /// Reduce the window to its field-wise exact mean. Succeeds on every
    /// window that collected at least one sample, and only on those.
    pub fn reduce(self) -> (r: Result<AveragedMeters, AverageError>)
        ensures
            r is Ok <==> self.samples@.len() >= 1,
            r matches Ok(avg) ==> is_average_of(avg, self.samples@),
            r is Err ==> r == Err::<AveragedMeters, AverageError>(AverageError::EmptyWindow),
    {
        Meters::average(self.samples)
    }
}

} // verus!
