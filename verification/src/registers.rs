//! The device register map and the raw-word decoder.
//!
//! Each logical measurement or setting of the power supply lives at one
//! 16-bit holding register. A `RegisterSpec` says where it lives and how
//! its raw word turns into an engineering value: whether the word is a
//! two's-complement signed quantity, and by which factor the raw integer
//! is divided. The map itself is a closed, immutable table.

use vstd::prelude::*;

use crate::fixed::Deci;

verus! {

/// Two's-complement interpretation of a 16-bit register word.
pub open spec fn word_as_signed(w: u16) -> int {
    if w < 0x8000 {
        w as int
    } else {
        w as int - 0x10000
    }
}

/// The integer a register word stands for, before scaling.
pub open spec fn word_value(w: u16, signed: bool) -> int {
    if signed {
        word_as_signed(w)
    } else {
        w as int
    }
}

/// Every logical register the monitor reads, one name per measurement or
/// setting. The set is closed: a lookup can never miss.
#[derive(Clone, Copy, Debug, PartialEq, Eq, Structural)]
pub enum RegisterName {
    BattType,
    BattChargeVoltage,
    BattChargeCurrent,
    BattFloatVoltage,
    BattLowVoltage,
    BattDeepDischargeVoltage,
    BattMaxDischargeCurrent,
    BattCapacity,
    NominalOutputVoltage,
    MaxInputCurrent,
    MaxOutputCurrent,
    InputVoltage,
    InputCurrent,
    OutputVoltage,
    OutputCurrent,
    BattVoltage,
    BattCurrent,
    BattSoc,
    BattIntResistance,
}

/// Where a logical register lives and how its raw word decodes: the holding
/// register address, how many words to read, the factor the raw integer is
/// divided by to give engineering units, and whether the word is signed.
#[derive(Clone, Copy, Debug, PartialEq, Eq, Structural)]
pub struct RegisterSpec {
    pub address: u16,
    pub count: u16,
    pub scale: u16,
    pub signed: bool,
}

impl RegisterSpec {
    /// The decoder handles exactly the scales the device uses.
    pub open spec fn wf(&self) -> bool {
        &&& self.count >= 1
        &&& (self.scale == 1 || self.scale == 10)
    }
}

/// The register map as a mathematical table.
pub open spec fn spec_register_spec(name: RegisterName) -> RegisterSpec {
    match name {
        RegisterName::BattType => RegisterSpec { address: 0x1010, count: 1, scale: 1, signed: false },
        RegisterName::BattChargeVoltage => RegisterSpec { address: 0x1011, count: 1, scale: 10, signed: false },
        RegisterName::BattChargeCurrent => RegisterSpec { address: 0x1012, count: 1, scale: 10, signed: false },
        RegisterName::BattFloatVoltage => RegisterSpec { address: 0x1013, count: 1, scale: 10, signed: false },
        RegisterName::BattLowVoltage => RegisterSpec { address: 0x1014, count: 1, scale: 10, signed: false },
        RegisterName::BattDeepDischargeVoltage => RegisterSpec { address: 0x1015, count: 1, scale: 10, signed: false },
        RegisterName::BattMaxDischargeCurrent => RegisterSpec { address: 0x1016, count: 1, scale: 10, signed: false },
        RegisterName::BattCapacity => RegisterSpec { address: 0x1017, count: 1, scale: 10, signed: false },
        RegisterName::NominalOutputVoltage => RegisterSpec { address: 0x1021, count: 1, scale: 10, signed: false },
        RegisterName::MaxInputCurrent => RegisterSpec { address: 0x1022, count: 1, scale: 10, signed: false },
        RegisterName::MaxOutputCurrent => RegisterSpec { address: 0x1023, count: 1, scale: 10, signed: false },
        RegisterName::InputVoltage => RegisterSpec { address: 0x2000, count: 1, scale: 10, signed: true },
        RegisterName::InputCurrent => RegisterSpec { address: 0x2001, count: 1, scale: 10, signed: true },
        RegisterName::OutputVoltage => RegisterSpec { address: 0x2002, count: 1, scale: 10, signed: true },
        RegisterName::OutputCurrent => RegisterSpec { address: 0x2003, count: 1, scale: 10, signed: true },
        RegisterName::BattVoltage => RegisterSpec { address: 0x2004, count: 1, scale: 10, signed: true },
        RegisterName::BattCurrent => RegisterSpec { address: 0x2005, count: 1, scale: 10, signed: true },
        RegisterName::BattSoc => RegisterSpec { address: 0x200A, count: 1, scale: 10, signed: true },
        RegisterName::BattIntResistance => RegisterSpec { address: 0x2009, count: 1, scale: 10, signed: true },
    }
}

/// Look a logical register up in the map. Total: the name set is closed.
pub fn register_spec(name: RegisterName) -> (r: RegisterSpec)
    ensures
        r == spec_register_spec(name),
        r.wf(),
{
    match name {
        RegisterName::BattType => RegisterSpec { address: 0x1010, count: 1, scale: 1, signed: false },
        RegisterName::BattChargeVoltage => RegisterSpec { address: 0x1011, count: 1, scale: 10, signed: false },
        RegisterName::BattChargeCurrent => RegisterSpec { address: 0x1012, count: 1, scale: 10, signed: false },
        RegisterName::BattFloatVoltage => RegisterSpec { address: 0x1013, count: 1, scale: 10, signed: false },
        RegisterName::BattLowVoltage => RegisterSpec { address: 0x1014, count: 1, scale: 10, signed: false },
        RegisterName::BattDeepDischargeVoltage => RegisterSpec { address: 0x1015, count: 1, scale: 10, signed: false },
        RegisterName::BattMaxDischargeCurrent => RegisterSpec { address: 0x1016, count: 1, scale: 10, signed: false },
        RegisterName::BattCapacity => RegisterSpec { address: 0x1017, count: 1, scale: 10, signed: false },
        RegisterName::NominalOutputVoltage => RegisterSpec { address: 0x1021, count: 1, scale: 10, signed: false },
        RegisterName::MaxInputCurrent => RegisterSpec { address: 0x1022, count: 1, scale: 10, signed: false },
        RegisterName::MaxOutputCurrent => RegisterSpec { address: 0x1023, count: 1, scale: 10, signed: false },
        RegisterName::InputVoltage => RegisterSpec { address: 0x2000, count: 1, scale: 10, signed: true },
        RegisterName::InputCurrent => RegisterSpec { address: 0x2001, count: 1, scale: 10, signed: true },
        RegisterName::OutputVoltage => RegisterSpec { address: 0x2002, count: 1, scale: 10, signed: true },
        RegisterName::OutputCurrent => RegisterSpec { address: 0x2003, count: 1, scale: 10, signed: true },
        RegisterName::BattVoltage => RegisterSpec { address: 0x2004, count: 1, scale: 10, signed: true },
        RegisterName::BattCurrent => RegisterSpec { address: 0x2005, count: 1, scale: 10, signed: true },
        RegisterName::BattSoc => RegisterSpec { address: 0x200A, count: 1, scale: 10, signed: true },
        RegisterName::BattIntResistance => RegisterSpec { address: 0x2009, count: 1, scale: 10, signed: true },
    }
}

/// The map's invariant: no two logical registers share an address, so a
/// name identifies its register uniquely.
pub proof fn lemma_register_addresses_unique(a: RegisterName, b: RegisterName)
    ensures
        spec_register_spec(a).address == spec_register_spec(b).address ==> a == b,
{
}

/// Decode a raw register read into an engineering value. The first word is
/// reinterpreted as two's-complement if the register is signed, then divided
/// by the scale factor. The contract is the exact rational statement
/// `r == word / scale`, multiplied through by the positive scale:
/// `r.tenths / 10 == word_value / scale`.
pub fn decode(words: &Vec<u16>, signed: bool, scale: u16) -> (r: Deci)
    requires
        words@.len() >= 1,
        scale == 1 || scale == 10,
    ensures
        r.tenths as int * scale as int == word_value(words@[0], signed) * 10,
        scale == 10 ==> r.tenths as int == word_value(words@[0], signed),
        scale == 1 ==> r.tenths as int == word_value(words@[0], signed) * 10,
{
    let w: u16 = words[0];
    let v: i32 = if signed {
        if w < 0x8000 {
            w as i32
        } else {
            (w as i32) - 0x10000
        }
    } else {
        w as i32
    };
    if scale == 10 {
        Deci { tenths: v }
    } else {
        Deci { tenths: v * 10 }
    }
}

/// The sentinel policy for a failed transport read: a transport error is
/// degraded to the single word 0, so the decoded reading is a zero value.
/// A successful read passes through unchanged. Callers must correlate zero
/// readings with the transport's error log before trusting them.
pub fn reading_or_sentinel(outcome: Option<Vec<u16>>) -> (r: Vec<u16>)
    ensures
        outcome matches Some(w) ==> r@ == w@,
        outcome is None ==> r@ =~= seq![0u16],
{
    match outcome {
        Some(w) => w,
        None => {
            let mut v: Vec<u16> = Vec::new();
            v.push(0);
            v
        },
    }
}

/// The tenths a signed, scale-10 register read denotes once the sentinel
/// policy is applied: a failed read is zero, a successful one the signed
/// first word (scale 10 makes raw words and tenths coincide).
pub open spec fn sensed_signed_tenths(outcome: Option<Vec<u16>>) -> int {
    match outcome {
        Some(w) => word_as_signed(w[0]),
        None => 0,
    }
}

/// The tenths an unsigned, scale-10 register read denotes once the sentinel
/// policy is applied.
pub open spec fn sensed_unsigned_tenths(outcome: Option<Vec<u16>>) -> int {
    match outcome {
        Some(w) => w[0] as int,
        None => 0,
    }
}

/// The raw code word a read denotes once the sentinel policy is applied:
/// a failed read degrades to the code 0.
pub open spec fn sensed_code(outcome: Option<Vec<u16>>) -> u16 {
    match outcome {
        Some(w) => w[0],
        None => 0,
    }
}

/// A transport outcome fit for decoding: a successful read returned at
/// least one word.
pub open spec fn outcome_wf(outcome: Option<Vec<u16>>) -> bool {
    outcome matches Some(w) ==> w.len() >= 1
}

/// One device-reader step with the transport already done: apply the
/// sentinel policy to the transport outcome, then decode by the register's
/// rule. A failed read therefore yields exactly zero.
pub fn read_value(reg: &RegisterSpec, outcome: Option<Vec<u16>>) -> (r: Deci)
    requires
        reg.wf(),
        outcome matches Some(w) ==> w@.len() >= 1,
    ensures
        outcome matches Some(w) ==> r.tenths as int * reg.scale as int == word_value(w@[0], reg.signed) * 10,
        outcome is None ==> r.tenths == 0,
{
    let words = reading_or_sentinel(outcome);
    decode(&words, reg.signed, reg.scale)
}

} // verus!
