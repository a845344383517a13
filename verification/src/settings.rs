//! The device configuration snapshot and its decoders.
//!
//! Settings are read once per invocation from eleven configuration
//! registers. All numeric settings are unsigned, scale-10 values; the
//! battery chemistry is the one enumerated decode in the system, a closed
//! lookup that degrades to `Unknown` on any unrecognized code.

use vstd::prelude::*;

use crate::fixed::Deci;
use crate::registers::RegisterName;
use crate::registers::outcome_wf;
use crate::registers::read_value;
use crate::registers::reading_or_sentinel;
use crate::registers::register_spec;
use crate::registers::sensed_code;
use crate::registers::sensed_unsigned_tenths;
use crate::registers::word_as_signed;

verus! {

/// Battery chemistry, as the device reports it.
#[derive(Clone, Copy, Debug, PartialEq, Eq, Structural)]
pub enum BatteryType {
    Lead,
    Nickel,
    Lithium,
    Supercapacitor,
    Unknown,
}

/// The chemistry lookup table: codes 1 to 4 name a chemistry, every other
/// code means the chemistry is unknown.
pub open spec fn spec_battery_type_of_code(code: u16) -> BatteryType {
    if code == 1 {
        BatteryType::Lead
    } else if code == 2 {
        BatteryType::Nickel
    } else if code == 3 {
        BatteryType::Lithium
    } else if code == 4 {
        BatteryType::Supercapacitor
    } else {
        BatteryType::Unknown
    }
}

/// Decode the battery chemistry code. Total: an unrecognized code degrades
/// to `Unknown`, it never fails.
pub fn battery_type_of_code(code: u16) -> (t: BatteryType)
    ensures
        t == spec_battery_type_of_code(code),
{
    match code {
        1 => BatteryType::Lead,
        2 => BatteryType::Nickel,
        3 => BatteryType::Lithium,
        4 => BatteryType::Supercapacitor,
        _ => BatteryType::Unknown,
    }
}

/// One snapshot of the device's configuration and calibration registers,
/// read-only once constructed. Numeric fields are engineering values in
/// tenths (volts, amps, ampere-hours).
#[derive(Clone, Copy, Debug, PartialEq, Eq, Structural)]
pub struct Settings {
    pub batt_type: BatteryType,
    pub batt_type_int: i16,
    pub batt_charge_voltage: Deci,
    pub batt_charge_current: Deci,
    pub batt_float_voltage: Deci,
    pub batt_low_voltage: Deci,
    pub batt_deep_discharge_voltage: Deci,
    pub batt_max_discharge_current: Deci,
    pub batt_capacity: Deci,
    pub nominal_output_voltage: Deci,
    pub max_input_current: Deci,
    pub max_output_current: Deci,
}

/// The raw transport outcomes of one settings snapshot, one per
/// configuration register, in the register map's order.
pub struct SettingReads {
    pub batt_type: Option<Vec<u16>>,
    pub batt_charge_voltage: Option<Vec<u16>>,
    pub batt_charge_current: Option<Vec<u16>>,
    pub batt_float_voltage: Option<Vec<u16>>,
    pub batt_low_voltage: Option<Vec<u16>>,
    pub batt_deep_discharge_voltage: Option<Vec<u16>>,
    pub batt_max_discharge_current: Option<Vec<u16>>,
    pub batt_capacity: Option<Vec<u16>>,
    pub nominal_output_voltage: Option<Vec<u16>>,
    pub max_input_current: Option<Vec<u16>>,
    pub max_output_current: Option<Vec<u16>>,
}

impl SettingReads {
    pub open spec fn wf(&self) -> bool {
        &&& outcome_wf(self.batt_type)
        &&& outcome_wf(self.batt_charge_voltage)
        &&& outcome_wf(self.batt_charge_current)
        &&& outcome_wf(self.batt_float_voltage)
        &&& outcome_wf(self.batt_low_voltage)
        &&& outcome_wf(self.batt_deep_discharge_voltage)
        &&& outcome_wf(self.batt_max_discharge_current)
        &&& outcome_wf(self.batt_capacity)
        &&& outcome_wf(self.nominal_output_voltage)
        &&& outcome_wf(self.max_input_current)
        &&& outcome_wf(self.max_output_current)
    }
}

/// Decode one settings snapshot from the raw transport outcomes. Each
/// numeric register decodes by the map's unsigned scale-10 rule, with a
/// failed read degrading to zero by the sentinel policy; the chemistry
/// code decodes through the closed lookup table, and is also kept raw,
/// reinterpreted as a signed 16-bit value.
pub fn settings_from_reads(reads: SettingReads) -> (s: Settings)
    requires
        reads.wf(),
    ensures
        s.batt_type == spec_battery_type_of_code(sensed_code(reads.batt_type)),
        s.batt_type_int as int == word_as_signed(sensed_code(reads.batt_type)),
        s.batt_charge_voltage.tenths as int == sensed_unsigned_tenths(reads.batt_charge_voltage),
        s.batt_charge_current.tenths as int == sensed_unsigned_tenths(reads.batt_charge_current),
        s.batt_float_voltage.tenths as int == sensed_unsigned_tenths(reads.batt_float_voltage),
        s.batt_low_voltage.tenths as int == sensed_unsigned_tenths(reads.batt_low_voltage),
        s.batt_deep_discharge_voltage.tenths as int == sensed_unsigned_tenths(
            reads.batt_deep_discharge_voltage,
        ),
        s.batt_max_discharge_current.tenths as int == sensed_unsigned_tenths(
            reads.batt_max_discharge_current,
        ),
        s.batt_capacity.tenths as int == sensed_unsigned_tenths(reads.batt_capacity),
        s.nominal_output_voltage.tenths as int == sensed_unsigned_tenths(
            reads.nominal_output_voltage,
        ),
        s.max_input_current.tenths as int == sensed_unsigned_tenths(reads.max_input_current),
        s.max_output_current.tenths as int == sensed_unsigned_tenths(reads.max_output_current),
{
    let SettingReads {
        batt_type,
        batt_charge_voltage,
        batt_charge_current,
        batt_float_voltage,
        batt_low_voltage,
        batt_deep_discharge_voltage,
        batt_max_discharge_current,
        batt_capacity,
        nominal_output_voltage,
        max_input_current,
        max_output_current,
    } = reads;
    let code_words: Vec<u16> = reading_or_sentinel(batt_type);
    let code: u16 = code_words[0];
    let batt_type_decoded: BatteryType = battery_type_of_code(code);
    let batt_type_raw: i16 = crate::convert_to_signed(code_words);
    Settings {
        batt_type: batt_type_decoded,
        batt_type_int: batt_type_raw,
        batt_charge_voltage: read_value(
            &register_spec(RegisterName::BattChargeVoltage),
            batt_charge_voltage,
        ),
        batt_charge_current: read_value(
            &register_spec(RegisterName::BattChargeCurrent),
            batt_charge_current,
        ),
        batt_float_voltage: read_value(
            &register_spec(RegisterName::BattFloatVoltage),
            batt_float_voltage,
        ),
        batt_low_voltage: read_value(
            &register_spec(RegisterName::BattLowVoltage),
            batt_low_voltage,
        ),
        batt_deep_discharge_voltage: read_value(
            &register_spec(RegisterName::BattDeepDischargeVoltage),
            batt_deep_discharge_voltage,
        ),
        batt_max_discharge_current: read_value(
            &register_spec(RegisterName::BattMaxDischargeCurrent),
            batt_max_discharge_current,
        ),
        batt_capacity: read_value(&register_spec(RegisterName::BattCapacity), batt_capacity),
        nominal_output_voltage: read_value(
            &register_spec(RegisterName::NominalOutputVoltage),
            nominal_output_voltage,
        ),
        max_input_current: read_value(
            &register_spec(RegisterName::MaxInputCurrent),
            max_input_current,
        ),
        max_output_current: read_value(
            &register_spec(RegisterName::MaxOutputCurrent),
            max_output_current,
        ),
    }
}

} // verus!
