//! Assembly of one persisted telemetry cycle.
//!
//! One cycle persists two logically related writes: a reading row appended
//! to the time series, and the freshly derived alarm flags written onto the
//! device's metadata row. This module assembles both as one plain-value
//! plan; the storage collaborator executes the two writes, each of whose
//! failures stays observable to it. The two writes are not atomic: the
//! plan only fixes what each one must carry.

use vstd::prelude::*;

use crate::alarm::AlarmState;
use crate::alarm::AlarmThresholds;
use crate::alarm::evaluate;
use crate::fixed::mean_at_most;
use crate::meters::AveragedMeters;

verus! {

/// One reading row, timestamped and tagged with the device identifier,
/// carrying the averaged window's exact field means.
#[derive(Clone, Copy, Debug, PartialEq, Eq, Structural)]
pub struct ReadingRow {
    pub time_millis: i64,
    pub sensor_id: i32,
    pub meters: AveragedMeters,
}

/// Everything one persistence cycle writes: the reading row to append, and
/// the alarm flags to set on the metadata row.
#[derive(Clone, Copy, Debug, PartialEq, Eq, Structural)]
pub struct UploadPlan {
    pub reading: ReadingRow,
    pub alarms: AlarmState,
}

/// The plan carries exactly this cycle's data: the given timestamp and
/// device identifier, the averaged window unchanged, and the alarm flags
/// derived from that window against the given thresholds.
pub open spec fn plan_matches(
    plan: UploadPlan,
    now_millis: i64,
    device_id: i32,
    avg: AveragedMeters,
    thresholds: AlarmThresholds,
) -> bool {
    &&& plan.reading.time_millis == now_millis
    &&& plan.reading.sensor_id == device_id
    &&& plan.reading.meters == avg
    &&& plan.alarms.ac_down == mean_at_most(avg.input_voltage, thresholds.ac_down)
    &&& plan.alarms.batt_low == mean_at_most(avg.batt_voltage, thresholds.batt_low)
}

/// Assemble one persistence cycle at the given timestamp.
pub fn plan_upload(
    now_millis: i64,
    device_id: i32,
    avg: &AveragedMeters,
    thresholds: &AlarmThresholds,
) -> (p: UploadPlan)
    ensures
        plan_matches(p, now_millis, device_id, *avg, *thresholds),
{
    UploadPlan {
        reading: ReadingRow { time_millis: now_millis, sensor_id: device_id, meters: *avg },
        alarms: evaluate(avg, thresholds),
    }
}

/// Relies on chrono's `From<SystemTime>` conversion and
/// `DateTime::timestamp_millis` for the current wall-clock time as
/// milliseconds since the Unix epoch. The conversion handles a clock that
/// reads before the epoch, so the call returns on every clock reading.
/// Nothing is assumed of the value: callers treat whatever comes back as
/// the cycle's timestamp.
#[verifier::external_body]
fn current_time_millis() -> i64 {
    chrono::DateTime::<chrono::Utc>::from(std::time::SystemTime::now()).timestamp_millis()
}

/// Assemble one persistence cycle timestamped at the wall clock's present
/// reading. Everything but the timestamp is pinned; the timestamp is
/// whatever the clock returned, carried unchanged into the row.
pub fn plan_upload_now(
    device_id: i32,
    avg: &AveragedMeters,
    thresholds: &AlarmThresholds,
) -> (p: UploadPlan)
    ensures
        plan_matches(p, p.reading.time_millis, device_id, *avg, *thresholds),
{
    let now: i64 = current_time_millis();
    plan_upload(now, device_id, avg, thresholds)
}

} // verus!
