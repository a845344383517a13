//! Verified core of a DC power-supply telemetry monitor.
//!
//! The device exposes measurements and settings as 16-bit Modbus-style
//! holding registers. This library holds the verified logic of the monitor:
//! the register map, raw-word decoding into engineering units, windowed
//! sample aggregation, alarm-threshold evaluation, device-identity
//! resolution and the assembly of the rows that get persisted. Transport
//! and storage are left to the surrounding binary, which hands raw words in
//! and takes plain rows back out.
//!
//! Engineering values are modelled as exact fixed-point numbers (tenths of
//! a unit), so every contract here is an exact statement about integers.

use vstd::prelude::*;

pub mod alarm;
pub mod fixed;
pub mod identity;
pub mod meters;
pub mod registers;
pub mod sampler;
pub mod settings;
pub mod upload;

verus! {

use crate::registers::word_as_signed;

/// Reinterpret the first word of a raw register read as a signed 16-bit value.
pub fn convert_to_signed(input: Vec<u16>) -> (r: i16)
    requires
        input@.len() >= 1,
    ensures
        r as int == word_as_signed(input@[0]),
{
    let w: u16 = input[0];
    if w < 0x8000 {
        w as i16
    } else {
        ((w as i32) - 0x10000) as i16
    }
}

} // verus!
