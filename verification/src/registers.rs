//! Register map: the closed association between symbolic signals and their
//! numeric holding-register addresses, and the signed interpretation of raw
//! register words. Read and write addresses are kept apart because the two
//! sets differ for the same physical datapoint.

use vstd::prelude::*;

verus! {

/// A readable signal. The enumeration is closed and every variant has a
/// decode rule, so an unmapped read response is statically impossible.
#[derive(Copy, Clone, PartialEq, Eq, Structural, Debug)]
pub enum ReadReg {
    OffOn,
    TargetIndoorTemp,
    IndoorTemp,
    WaterInTemp,
    WaterOutTemp,
    WaterOutSetTemp,
    HotWaterOffOn,
    HotWaterSetTemp,
    HotWaterTemp,
}

/// A writable register.
#[derive(Copy, Clone, PartialEq, Eq, Structural, Debug)]
pub enum WriteReg {
    OffOn,
    AirConditionerMode,
    IndoorTemp,
    WaterOutSetTemp,
    HotWaterOffOn,
    HotWaterSetTemp,
}

/// Holding-register address from which a signal is read.
pub open spec fn spec_read_address(r: ReadReg) -> u16 {
    match r {
        ReadReg::OffOn => 52,
        ReadReg::TargetIndoorTemp => 58,
        ReadReg::IndoorTemp => 59,
        ReadReg::WaterInTemp => 65,
        ReadReg::WaterOutTemp => 66,
        ReadReg::WaterOutSetTemp => 68,
        ReadReg::HotWaterOffOn => 72,
        ReadReg::HotWaterSetTemp => 74,
        ReadReg::HotWaterTemp => 75,
    }
}

pub fn read_address(r: ReadReg) -> (a: u16)
    ensures
        a == spec_read_address(r),
{
    match r {
        ReadReg::OffOn => 52,
        ReadReg::TargetIndoorTemp => 58,
        ReadReg::IndoorTemp => 59,
        ReadReg::WaterInTemp => 65,
        ReadReg::WaterOutTemp => 66,
        ReadReg::WaterOutSetTemp => 68,
        ReadReg::HotWaterOffOn => 72,
        ReadReg::HotWaterSetTemp => 74,
        ReadReg::HotWaterTemp => 75,
    }
}

/// Holding-register address to which a register is written.
pub open spec fn spec_write_address(r: WriteReg) -> u16 {
    match r {
        WriteReg::OffOn => 52,
        WriteReg::AirConditionerMode => 53,
        WriteReg::IndoorTemp => 58,
        WriteReg::WaterOutSetTemp => 68,
        WriteReg::HotWaterOffOn => 72,
        WriteReg::HotWaterSetTemp => 74,
    }
}

pub fn write_address(r: WriteReg) -> (a: u16)
    ensures
        a == spec_write_address(r),
{
    match r {
        WriteReg::OffOn => 52,
        WriteReg::AirConditionerMode => 53,
        WriteReg::IndoorTemp => 58,
        WriteReg::WaterOutSetTemp => 68,
        WriteReg::HotWaterOffOn => 72,
        WriteReg::HotWaterSetTemp => 74,
    }
}

/// Signed interpretation of a raw 16-bit register word: words at or above
/// 0x8000 stand for negative values (two's complement).
pub open spec fn signed_of_raw(raw: u16) -> i16 {
    if raw < 0x8000 {
        raw as i16
    } else {
        (raw - 0x10000) as i16
    }
}

/// Raw 16-bit register word that encodes a signed value.
pub open spec fn raw_of_signed(v: i16) -> u16 {
    if v >= 0 {
        v as u16
    } else {
        (v + 0x10000) as u16
    }
}

/// Decode a raw register word into its signed value.
pub fn decode_signed(raw: u16) -> (v: i16)
    ensures
        v == signed_of_raw(raw),
{
    if raw < 0x8000 {
        raw as i16
    } else {
        let wide: i32 = raw as i32;
        (wide - 0x10000) as i16
    }
}

/// Encode a signed value as a raw register word.
pub fn encode_signed(v: i16) -> (raw: u16)
    ensures
        raw == raw_of_signed(v),
{
    if v >= 0 {
        v as u16
    } else {
        let wide: i32 = v as i32;
        (wide + 0x10000) as u16
    }
}

/// Law: the signed interpretation and the raw encoding of a register word
/// invert each other, so a setpoint written to the bus reads back as the
/// same signed value (sign extension included).
pub proof fn lemma_signed_raw_round_trip(raw: u16, v: i16)
    ensures
        raw_of_signed(signed_of_raw(raw)) == raw,
        signed_of_raw(raw_of_signed(v)) == v,
{
}

} // verus!
