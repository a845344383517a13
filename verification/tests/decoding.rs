use nextys_monitor::convert_to_signed;
use nextys_monitor::registers::RegisterName;
use nextys_monitor::registers::decode;
use nextys_monitor::registers::read_value;
use nextys_monitor::registers::reading_or_sentinel;
use nextys_monitor::registers::register_spec;
use nextys_monitor::settings::BatteryType;
use nextys_monitor::settings::SettingReads;
use nextys_monitor::settings::battery_type_of_code;
use nextys_monitor::settings::settings_from_reads;

#[test]
fn convert_to_signed_reinterprets_words() {
    assert_eq!(convert_to_signed(vec![0x0000]), 0);
    assert_eq!(convert_to_signed(vec![0x0001]), 1);
    assert_eq!(convert_to_signed(vec![0x7FFF]), 32767);
    assert_eq!(convert_to_signed(vec![0x8000]), -32768);
    assert_eq!(convert_to_signed(vec![0xFFFF]), -1);
}

#[test]
fn decode_unsigned_divides_by_scale() {
    // 123 / 10 == 12.3 == 123 tenths
    assert_eq!(decode(&vec![123], false, 10).tenths, 123);
    // 123 / 1 == 123.0 == 1230 tenths
    assert_eq!(decode(&vec![123], false, 1).tenths, 1230);
    // the largest word still decodes exactly
    assert_eq!(decode(&vec![0xFFFF], false, 10).tenths, 65535);
}

#[test]
fn decode_signed_wraps_to_negative() {
    // 0xFFFF signed at scale 10 is -0.1, i.e. -1 tenth
    assert_eq!(decode(&vec![0xFFFF], true, 10).tenths, -1);
    assert_eq!(decode(&vec![0x8000], true, 10).tenths, -32768);
    assert_eq!(decode(&vec![0x7FFF], true, 10).tenths, 32767);
    assert_eq!(decode(&vec![0xFFFF], true, 1).tenths, -10);
}

#[test]
fn sentinel_replaces_failed_reads_with_zero_word() {
    assert_eq!(reading_or_sentinel(None), vec![0]);
    assert_eq!(reading_or_sentinel(Some(vec![5, 6])), vec![5, 6]);
}

#[test]
fn read_value_degrades_failures_to_zero() {
    let reg = register_spec(RegisterName::InputVoltage);
    assert_eq!(read_value(&reg, None).tenths, 0);
    assert_eq!(read_value(&reg, Some(vec![0xFFFF])).tenths, -1);
}

#[test]
fn register_map_holds_the_device_table() {
    let iv = register_spec(RegisterName::InputVoltage);
    assert_eq!(iv.address, 0x2000);
    assert_eq!(iv.count, 1);
    assert_eq!(iv.scale, 10);
    assert!(iv.signed);

    let soc = register_spec(RegisterName::BattSoc);
    assert_eq!(soc.address, 0x200A);
    assert!(soc.signed);

    let bir = register_spec(RegisterName::BattIntResistance);
    assert_eq!(bir.address, 0x2009);

    let bt = register_spec(RegisterName::BattType);
    assert_eq!(bt.address, 0x1010);
    assert_eq!(bt.scale, 1);
    assert!(!bt.signed);

    let cv = register_spec(RegisterName::BattChargeVoltage);
    assert_eq!(cv.address, 0x1011);
    assert_eq!(cv.scale, 10);
    assert!(!cv.signed);

    let mo = register_spec(RegisterName::MaxOutputCurrent);
    assert_eq!(mo.address, 0x1023);
}

#[test]
fn chemistry_codes_map_to_their_chemistry() {
    assert_eq!(battery_type_of_code(1), BatteryType::Lead);
    assert_eq!(battery_type_of_code(2), BatteryType::Nickel);
    assert_eq!(battery_type_of_code(3), BatteryType::Lithium);
    assert_eq!(battery_type_of_code(4), BatteryType::Supercapacitor);
}

#[test]
fn unrecognized_chemistry_codes_degrade_to_unknown() {
    assert_eq!(battery_type_of_code(0), BatteryType::Unknown);
    assert_eq!(battery_type_of_code(5), BatteryType::Unknown);
    assert_eq!(battery_type_of_code(255), BatteryType::Unknown);
    assert_eq!(battery_type_of_code(u16::MAX), BatteryType::Unknown);
}

#[test]
fn settings_snapshot_decodes_every_register() {
    let s = settings_from_reads(SettingReads {
        batt_type: Some(vec![3]),
        batt_charge_voltage: Some(vec![144]),
        batt_charge_current: Some(vec![50]),
        batt_float_voltage: Some(vec![136]),
        batt_low_voltage: Some(vec![110]),
        batt_deep_discharge_voltage: Some(vec![105]),
        batt_max_discharge_current: Some(vec![200]),
        batt_capacity: Some(vec![400]),
        nominal_output_voltage: Some(vec![120]),
        max_input_current: Some(vec![80]),
        max_output_current: None,
    });
    assert_eq!(s.batt_type, BatteryType::Lithium);
    assert_eq!(s.batt_type_int, 3);
    assert_eq!(s.batt_charge_voltage.tenths, 144);
    assert_eq!(s.batt_charge_current.tenths, 50);
    assert_eq!(s.batt_float_voltage.tenths, 136);
    assert_eq!(s.batt_low_voltage.tenths, 110);
    assert_eq!(s.batt_deep_discharge_voltage.tenths, 105);
    assert_eq!(s.batt_max_discharge_current.tenths, 200);
    assert_eq!(s.batt_capacity.tenths, 400);
    assert_eq!(s.nominal_output_voltage.tenths, 120);
    assert_eq!(s.max_input_current.tenths, 80);
    // the failed read degraded to zero by the sentinel policy
    assert_eq!(s.max_output_current.tenths, 0);
}

#[test]
fn settings_snapshot_keeps_the_raw_chemistry_word_signed() {
    let mut reads = SettingReads {
        batt_type: Some(vec![0xFFFF]),
        batt_charge_voltage: None,
        batt_charge_current: None,
        batt_float_voltage: None,
        batt_low_voltage: None,
        batt_deep_discharge_voltage: None,
        batt_max_discharge_current: None,
        batt_capacity: None,
        nominal_output_voltage: None,
        max_input_current: None,
        max_output_current: None,
    };
    let s = settings_from_reads(reads);
    assert_eq!(s.batt_type, BatteryType::Unknown);
    assert_eq!(s.batt_type_int, -1);

    // a failed chemistry read is the code 0, which is Unknown, not an error
    reads = SettingReads {
        batt_type: None,
        batt_charge_voltage: None,
        batt_charge_current: None,
        batt_float_voltage: None,
        batt_low_voltage: None,
        batt_deep_discharge_voltage: None,
        batt_max_discharge_current: None,
        batt_capacity: None,
        nominal_output_voltage: None,
        max_input_current: None,
        max_output_current: None,
    };
    let s2 = settings_from_reads(reads);
    assert_eq!(s2.batt_type, BatteryType::Unknown);
    assert_eq!(s2.batt_type_int, 0);
}
