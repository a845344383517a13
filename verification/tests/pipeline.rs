use nextys_monitor::alarm::AlarmThresholds;
use nextys_monitor::alarm::evaluate;
use nextys_monitor::fixed::Deci;
use nextys_monitor::fixed::MeanDeci;
use nextys_monitor::identity::DeviceIdentity;
use nextys_monitor::identity::ResolveStep;
use nextys_monitor::identity::record_id;
use nextys_monitor::identity::resolve_step;
use nextys_monitor::meters::AverageError;
use nextys_monitor::meters::AveragedMeters;
use nextys_monitor::meters::MeterReads;
use nextys_monitor::meters::Meters;
use nextys_monitor::meters::meters_from_reads;
use nextys_monitor::sampler::DEFAULT_WINDOW_SECS;
use nextys_monitor::sampler::Sampler;
use nextys_monitor::upload::plan_upload;
use nextys_monitor::upload::plan_upload_now;

fn meters_with(input_voltage: i32, batt_voltage: i32) -> Meters {
    Meters {
        input_voltage: Deci { tenths: input_voltage },
        input_current: Deci { tenths: 15 },
        output_voltage: Deci { tenths: 241 },
        output_current: Deci { tenths: 32 },
        batt_voltage: Deci { tenths: batt_voltage },
        batt_current: Deci { tenths: -5 },
        batt_soc: Deci { tenths: 987 },
        batt_int_resistance: Deci { tenths: 4 },
    }
}

fn mean(sum_tenths: i128, count: u64) -> MeanDeci {
    MeanDeci { sum_tenths, count }
}

fn averaged_with(input_voltage: MeanDeci, batt_voltage: MeanDeci) -> AveragedMeters {
    AveragedMeters {
        input_voltage,
        input_current: mean(0, 1),
        output_voltage: mean(0, 1),
        output_current: mean(0, 1),
        batt_voltage,
        batt_current: mean(0, 1),
        batt_soc: mean(0, 1),
        batt_int_resistance: mean(0, 1),
    }
}

#[test]
fn average_of_empty_window_is_a_defined_error() {
    let r = Meters::average(Vec::new());
    assert_eq!(r, Err(AverageError::EmptyWindow));
}

#[test]
fn average_of_single_sample_is_that_sample() {
    let m = meters_with(121, 133);
    let avg = Meters::average(vec![m]).unwrap();
    assert_eq!(avg.input_voltage, mean(121, 1));
    assert_eq!(avg.input_current, mean(15, 1));
    assert_eq!(avg.output_voltage, mean(241, 1));
    assert_eq!(avg.output_current, mean(32, 1));
    assert_eq!(avg.batt_voltage, mean(133, 1));
    assert_eq!(avg.batt_current, mean(-5, 1));
    assert_eq!(avg.batt_soc, mean(987, 1));
    assert_eq!(avg.batt_int_resistance, mean(4, 1));
}

#[test]
fn average_sums_every_sample_exactly_once() {
    let samples = vec![meters_with(120, 130), meters_with(122, 128), meters_with(-10, 0)];
    let avg = Meters::average(samples).unwrap();
    assert_eq!(avg.input_voltage, mean(232, 3));
    assert_eq!(avg.batt_voltage, mean(258, 3));
    assert_eq!(avg.batt_current, mean(-15, 3));
    assert_eq!(avg.batt_soc, mean(987 * 3, 3));
}

#[test]
fn alarm_thresholds_are_inclusive() {
    // a mean of exactly 10.0 V against a 10.0 V threshold counts as down
    let at_boundary = averaged_with(mean(100, 1), mean(100, 1));
    let th = AlarmThresholds { ac_down: Deci { tenths: 100 }, batt_low: Deci { tenths: 50 } };
    let st = evaluate(&at_boundary, &th);
    assert!(st.ac_down);
    assert!(!st.batt_low);

    // a mean of 10.01 V (sum 100.1 tenths over 10 samples) is not down
    let just_above = averaged_with(mean(1001, 10), mean(1001, 10));
    let st2 = evaluate(&just_above, &th);
    assert!(!st2.ac_down);

    let th_batt = AlarmThresholds { ac_down: Deci { tenths: 0 }, batt_low: Deci { tenths: 101 } };
    let st3 = evaluate(&just_above, &th_batt);
    assert!(st3.batt_low);
}

#[test]
fn alarm_flags_become_zero_or_one() {
    let avg = averaged_with(mean(100, 1), mean(100, 1));
    let th = AlarmThresholds { ac_down: Deci { tenths: 100 }, batt_low: Deci { tenths: 50 } };
    let st = evaluate(&avg, &th);
    assert_eq!(st.ac_down_flag(), 1);
    assert_eq!(st.batt_low_flag(), 0);
}

#[test]
fn identity_resolution_is_idempotent() {
    let mut identity = DeviceIdentity { device_id: Some(7) };
    assert_eq!(resolve_step(&identity), ResolveStep::UseExisting(7));
    assert_eq!(resolve_step(&identity), ResolveStep::UseExisting(7));
    assert_eq!(identity.device_id, Some(7));

    identity = DeviceIdentity { device_id: None };
    assert_eq!(resolve_step(&identity), ResolveStep::InsertMetadata);
    record_id(&mut identity, 20);
    assert_eq!(resolve_step(&identity), ResolveStep::UseExisting(20));
    assert_eq!(resolve_step(&identity), ResolveStep::UseExisting(20));
}

#[test]
fn meters_assemble_from_raw_reads() {
    let m = meters_from_reads(MeterReads {
        input_voltage: Some(vec![120]),
        input_current: Some(vec![0xFFFF]),
        output_voltage: Some(vec![241]),
        output_current: Some(vec![32]),
        batt_voltage: Some(vec![130]),
        batt_current: Some(vec![0x8000]),
        batt_soc: Some(vec![1000]),
        batt_int_resistance: None,
    });
    assert_eq!(m.input_voltage.tenths, 120);
    assert_eq!(m.input_current.tenths, -1);
    assert_eq!(m.output_voltage.tenths, 241);
    assert_eq!(m.output_current.tenths, 32);
    assert_eq!(m.batt_voltage.tenths, 130);
    assert_eq!(m.batt_current.tenths, -32768);
    assert_eq!(m.batt_soc.tenths, 1000);
    // the failed read degraded to zero by the sentinel policy
    assert_eq!(m.batt_int_resistance.tenths, 0);
}

#[test]
fn sampler_collects_then_reduces() {
    let mut s = Sampler::begin(1000, DEFAULT_WINDOW_SECS);
    assert!(!s.window_complete(1000));
    assert!(!s.window_complete(1009));
    assert!(s.window_complete(1010));
    assert!(s.window_complete(5000));
    s.record(meters_with(120, 130));
    s.record(meters_with(124, 126));
    let avg = s.reduce().unwrap();
    assert_eq!(avg.input_voltage, mean(244, 2));
    assert_eq!(avg.batt_voltage, mean(256, 2));
}

#[test]
fn sampler_single_sample_window_is_valid() {
    // a window shorter than one tick still holds exactly one sample
    let mut s = Sampler::begin(500, 0);
    assert!(s.window_complete(500));
    s.record(meters_with(118, 129));
    let avg = s.reduce().unwrap();
    assert_eq!(avg.input_voltage, mean(118, 1));
}

#[test]
fn sampler_empty_window_is_rejected_at_reduction() {
    let s = Sampler::begin(0, 10);
    assert_eq!(s.reduce(), Err(AverageError::EmptyWindow));
}

#[test]
fn upload_plan_carries_the_cycle_unchanged() {
    let avg = averaged_with(mean(600, 5), mean(640, 5));
    let th = AlarmThresholds { ac_down: Deci { tenths: 120 }, batt_low: Deci { tenths: 120 } };
    let plan = plan_upload(1_700_000_000_000, 42, &avg, &th);
    assert_eq!(plan.reading.time_millis, 1_700_000_000_000);
    assert_eq!(plan.reading.sensor_id, 42);
    assert_eq!(plan.reading.meters, avg);
    assert!(plan.alarms.ac_down);
    assert!(!plan.alarms.batt_low);
}

#[test]
fn upload_plan_now_pins_everything_but_the_clock() {
    let avg = averaged_with(mean(600, 5), mean(400, 5));
    let th = AlarmThresholds { ac_down: Deci { tenths: 110 }, batt_low: Deci { tenths: 90 } };
    let plan = plan_upload_now(9, &avg, &th);
    assert_eq!(plan.reading.sensor_id, 9);
    assert_eq!(plan.reading.meters, avg);
    assert!(!plan.alarms.ac_down);
    assert!(plan.alarms.batt_low);
}

#[test]
fn five_sample_scenario_hits_the_inclusive_boundary() {
    // input voltages 12.0, 12.2, 11.8, 12.0, 12.0 average to exactly 12.0
    let samples = vec![
        meters_with(120, 130),
        meters_with(122, 130),
        meters_with(118, 130),
        meters_with(120, 130),
        meters_with(120, 130),
    ];
    let avg = Meters::average(samples).unwrap();
    assert_eq!(avg.input_voltage, mean(600, 5));
    // the mean is exactly 12.0: sum == 120 tenths * 5 samples
    assert_eq!(avg.input_voltage.sum_tenths, 120 * 5);

    // with the AC-down threshold at 12.0, the boundary counts as down
    let th = AlarmThresholds { ac_down: Deci { tenths: 120 }, batt_low: Deci { tenths: 100 } };
    let st = evaluate(&avg, &th);
    assert!(st.ac_down);
    assert!(!st.batt_low);
}
