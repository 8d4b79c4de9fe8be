//! Device-state mirror: the last-known value of every readable signal, the
//! user-intended setpoints, and the operating mode, together with the
//! bounds-checked setpoint adjustments.
//!
//! An adjustment moves a setpoint by a fixed step, but is accepted only when
//! the live reference reading that the setpoint tracks lies inside the valid
//! range: a safety interlock against commanding targets while the underlying
//! sensor reports an implausible condition. A rejected adjustment leaves the
//! mirror untouched.

use vstd::prelude::*;

use crate::registers::{signed_of_raw, ReadReg, WriteReg};

verus! {

/// The mutually exclusive operating mode of the device.
#[derive(Copy, Clone, PartialEq, Eq, Structural, Debug)]
pub enum Mode {
    /// Domestic hot water.
    Dhw,
    /// Central heating.
    Ch,
}

/// Size of one setpoint increment or decrement.
pub const SETPOINT_STEP: i16 = 5;

/// Lowest reference reading (inclusive) at which an adjustment is accepted.
pub const REF_MIN: i16 = 0;

/// Lowest reference reading above the accepted range (exclusive bound).
pub const REF_MAX: i16 = 800;

/// The three user-adjustable setpoints.
#[derive(Copy, Clone, PartialEq, Eq, Structural, Debug)]
pub enum SetpointKind {
    /// Target indoor temperature (central-heating setpoint).
    CentralHeating,
    /// Target domestic-hot-water temperature.
    HotWater,
    /// Target flow (water-out) temperature.
    Flow,
}

/// The in-memory mirror of device state. Created zeroed at loop start and
/// mutated only by decoded read responses and acknowledged writes.
#[derive(Copy, Clone, PartialEq, Eq, Structural, Debug)]
pub struct Pump {
    /// Last mode confirmed by a write acknowledgment or a mode-status read.
    pub mode: Mode,
    /// Live domestic-hot-water temperature.
    pub dhw_temp: i16,
    /// Live return (water-in) temperature.
    pub return_temp: i16,
    /// Live flow (water-out) temperature.
    pub flow_temp: i16,
    /// Device-reported target flow temperature.
    pub target_flow_temp: i16,
    /// Device-reported target domestic-hot-water temperature.
    pub target_dhw_temp: i16,
    /// Live indoor temperature.
    pub indoor_temp: i16,
    /// Device-reported target indoor temperature.
    pub target_indoor_temp: i16,
    /// User-intended indoor-temperature setpoint.
    pub set_target_indoor_temp: i16,
    /// User-intended domestic-hot-water setpoint.
    pub set_dhw_temp: i16,
    /// User-intended flow-temperature setpoint.
    pub set_flow_temp: i16,
}

/// The mirror at loop start: every field zeroed, mode central heating.
pub open spec fn initial_pump() -> Pump {
    Pump {
        mode: Mode::Ch,
        dhw_temp: 0,
        return_temp: 0,
        flow_temp: 0,
        target_flow_temp: 0,
        target_dhw_temp: 0,
        indoor_temp: 0,
        target_indoor_temp: 0,
        set_target_indoor_temp: 0,
        set_dhw_temp: 0,
        set_flow_temp: 0,
    }
}

impl Default for Pump {
    fn default() -> (p: Pump)
        ensures
            p == initial_pump(),
    {
        Pump {
            mode: Mode::Ch,
            dhw_temp: 0,
            return_temp: 0,
            flow_temp: 0,
            target_flow_temp: 0,
            target_dhw_temp: 0,
            indoor_temp: 0,
            target_indoor_temp: 0,
            set_target_indoor_temp: 0,
            set_dhw_temp: 0,
            set_flow_temp: 0,
        }
    }
}

/// Whether a live reference reading is plausible enough to accept an
/// adjustment of the setpoint that tracks it.
pub open spec fn ref_in_range(v: i16) -> bool {
    REF_MIN <= v < REF_MAX
}

/// The live sensor reading that a setpoint tracks — the measured value, not
/// the setpoint itself nor the device's read-back of it.
pub open spec fn reference_of(p: Pump, k: SetpointKind) -> i16 {
    match k {
        SetpointKind::CentralHeating => p.indoor_temp,
        SetpointKind::HotWater => p.dhw_temp,
        SetpointKind::Flow => p.flow_temp,
    }
}

/// The current user-intended setpoint of a kind.
pub open spec fn setpoint_of(p: Pump, k: SetpointKind) -> i16 {
    match k {
        SetpointKind::CentralHeating => p.set_target_indoor_temp,
        SetpointKind::HotWater => p.set_dhw_temp,
        SetpointKind::Flow => p.set_flow_temp,
    }
}

/// The mirror with one setpoint replaced.
pub open spec fn with_setpoint(p: Pump, k: SetpointKind, v: i16) -> Pump {
    match k {
        SetpointKind::CentralHeating => Pump { set_target_indoor_temp: v, ..p },
        SetpointKind::HotWater => Pump { set_dhw_temp: v, ..p },
        SetpointKind::Flow => Pump { set_flow_temp: v, ..p },
    }
}

/// Register written when a setpoint adjustment is accepted.
pub open spec fn spec_setpoint_write_reg(k: SetpointKind) -> WriteReg {
    match k {
        SetpointKind::CentralHeating => WriteReg::IndoorTemp,
        SetpointKind::HotWater => WriteReg::HotWaterSetTemp,
        SetpointKind::Flow => WriteReg::WaterOutSetTemp,
    }
}

pub fn setpoint_write_reg(k: SetpointKind) -> (r: WriteReg)
    ensures
        r == spec_setpoint_write_reg(k),
{
    match k {
        SetpointKind::CentralHeating => WriteReg::IndoorTemp,
        SetpointKind::HotWater => WriteReg::HotWaterSetTemp,
        SetpointKind::Flow => WriteReg::WaterOutSetTemp,
    }
}

/// Outcome of an adjustment: the new setpoint when the reference reading is
/// in range and the stepped value fits a signed 16-bit register, nothing
/// otherwise.
pub open spec fn adjust_result(p: Pump, k: SetpointKind, delta: int) -> Option<i16> {
    if ref_in_range(reference_of(p, k)) && i16::MIN <= setpoint_of(p, k) + delta <= i16::MAX {
        Some((setpoint_of(p, k) + delta) as i16)
    } else {
        None
    }
}

/// The mirror after an adjustment: the stepped setpoint on acceptance, the
/// mirror unchanged on rejection.
pub open spec fn adjust_next(p: Pump, k: SetpointKind, delta: int) -> Pump {
    match adjust_result(p, k, delta) {
        Some(v) => with_setpoint(p, k, v),
        None => p,
    }
}

/// The mirror after one decoded read response: the raw word is stored,
/// sign-extended, into the field matching the signal. A mode-status register
/// is boolean-scaled: reading it as active (raw word one) records its mode;
/// reading it as inactive leaves the last confirmed mode in place, so a full
/// refresh — which reads both mode-status registers — ends with the mode the
/// device actually reports active.
pub open spec fn apply_read_spec(p: Pump, r: ReadReg, raw: u16) -> Pump {
    match r {
        ReadReg::OffOn => if raw == 1 {
            Pump { mode: Mode::Ch, ..p }
        } else {
            p
        },
        ReadReg::TargetIndoorTemp => Pump { target_indoor_temp: signed_of_raw(raw), ..p },
        ReadReg::IndoorTemp => Pump { indoor_temp: signed_of_raw(raw), ..p },
        ReadReg::WaterInTemp => Pump { return_temp: signed_of_raw(raw), ..p },
        ReadReg::WaterOutTemp => Pump { flow_temp: signed_of_raw(raw), ..p },
        ReadReg::WaterOutSetTemp => Pump { target_flow_temp: signed_of_raw(raw), ..p },
        ReadReg::HotWaterOffOn => if raw == 1 {
            Pump { mode: Mode::Dhw, ..p }
        } else {
            p
        },
        ReadReg::HotWaterSetTemp => Pump { target_dhw_temp: signed_of_raw(raw), ..p },
        ReadReg::HotWaterTemp => Pump { dhw_temp: signed_of_raw(raw), ..p },
    }
}

impl Pump {
    /// Record a confirmed operating mode. Unconditional.
    pub fn set_mode(&mut self, val: Mode)
        ensures
            *final(self) == (Pump { mode: val, ..*old(self) }),
    {
        self.mode = val;
    }

    /// Decode one read response into the mirror, per the signal's mapping.
    pub fn apply_read(&mut self, r: ReadReg, raw: u16)
        ensures
            *final(self) == apply_read_spec(*old(self), r, raw),
    {
        match r {
            ReadReg::OffOn => {
                if raw == 1 {
                    self.mode = Mode::Ch;
                }
            },
            ReadReg::TargetIndoorTemp => {
                self.target_indoor_temp = crate::registers::decode_signed(raw);
            },
            ReadReg::IndoorTemp => {
                self.indoor_temp = crate::registers::decode_signed(raw);
            },
            ReadReg::WaterInTemp => {
                self.return_temp = crate::registers::decode_signed(raw);
            },
            ReadReg::WaterOutTemp => {
                self.flow_temp = crate::registers::decode_signed(raw);
            },
            ReadReg::WaterOutSetTemp => {
                self.target_flow_temp = crate::registers::decode_signed(raw);
            },
            ReadReg::HotWaterOffOn => {
                if raw == 1 {
                    self.mode = Mode::Dhw;
                }
            },
            ReadReg::HotWaterSetTemp => {
                self.target_dhw_temp = crate::registers::decode_signed(raw);
            },
            ReadReg::HotWaterTemp => {
                self.dhw_temp = crate::registers::decode_signed(raw);
            },
        }
    }

    /// Move a setpoint by `delta`, accepted only when the reference reading
    /// the setpoint tracks is in range and the stepped value fits a signed
    /// 16-bit register. On rejection the mirror is unchanged.
    pub fn adjust_setpoint(&mut self, k: SetpointKind, delta: i16) -> (r: Option<i16>)
        ensures
            r == adjust_result(*old(self), k, delta as int),
            *final(self) == adjust_next(*old(self), k, delta as int),
    {
        let reference = match k {
            SetpointKind::CentralHeating => self.indoor_temp,
            SetpointKind::HotWater => self.dhw_temp,
            SetpointKind::Flow => self.flow_temp,
        };
        if !(REF_MIN <= reference && reference < REF_MAX) {
            return None;
        }
        let sp = match k {
            SetpointKind::CentralHeating => self.set_target_indoor_temp,
            SetpointKind::HotWater => self.set_dhw_temp,
            SetpointKind::Flow => self.set_flow_temp,
        };
        let wide: i32 = (sp as i32) + (delta as i32);
        if wide < -32768 || wide > 32767 {
            return None;
        }
        let v = wide as i16;
        match k {
            SetpointKind::CentralHeating => {
                self.set_target_indoor_temp = v;
            },
            SetpointKind::HotWater => {
                self.set_dhw_temp = v;
            },
            SetpointKind::Flow => {
                self.set_flow_temp = v;
            },
        }
        Some(v)
    }

    /// Step the flow-temperature setpoint up.
    pub fn flow_up(&mut self) -> (r: Option<i16>)
        ensures
            r == adjust_result(*old(self), SetpointKind::Flow, SETPOINT_STEP as int),
            *final(self) == adjust_next(*old(self), SetpointKind::Flow, SETPOINT_STEP as int),
    {
        self.adjust_setpoint(SetpointKind::Flow, SETPOINT_STEP)
    }

    /// Step the flow-temperature setpoint down.
    pub fn flow_down(&mut self) -> (r: Option<i16>)
        ensures
            r == adjust_result(*old(self), SetpointKind::Flow, -SETPOINT_STEP as int),
            *final(self) == adjust_next(*old(self), SetpointKind::Flow, -SETPOINT_STEP as int),
    {
        self.adjust_setpoint(SetpointKind::Flow, -SETPOINT_STEP)
    }

    /// Step the central-heating (indoor) setpoint up.
    pub fn ch_up(&mut self) -> (r: Option<i16>)
        ensures
            r == adjust_result(*old(self), SetpointKind::CentralHeating, SETPOINT_STEP as int),
            *final(self) == adjust_next(*old(self), SetpointKind::CentralHeating, SETPOINT_STEP as int),
    {
        self.adjust_setpoint(SetpointKind::CentralHeating, SETPOINT_STEP)
    }

    /// Step the central-heating (indoor) setpoint down.
    pub fn ch_down(&mut self) -> (r: Option<i16>)
        ensures
            r == adjust_result(*old(self), SetpointKind::CentralHeating, -SETPOINT_STEP as int),
            *final(self) == adjust_next(*old(self), SetpointKind::CentralHeating, -SETPOINT_STEP as int),
    {
        self.adjust_setpoint(SetpointKind::CentralHeating, -SETPOINT_STEP)
    }

    /// Step the domestic-hot-water setpoint up.
    pub fn dhw_up(&mut self) -> (r: Option<i16>)
        ensures
            r == adjust_result(*old(self), SetpointKind::HotWater, SETPOINT_STEP as int),
            *final(self) == adjust_next(*old(self), SetpointKind::HotWater, SETPOINT_STEP as int),
    {
        self.adjust_setpoint(SetpointKind::HotWater, SETPOINT_STEP)
    }

    /// Step the domestic-hot-water setpoint down.
    pub fn dhw_down(&mut self) -> (r: Option<i16>)
        ensures
            r == adjust_result(*old(self), SetpointKind::HotWater, -SETPOINT_STEP as int),
            *final(self) == adjust_next(*old(self), SetpointKind::HotWater, -SETPOINT_STEP as int),
    {
        self.adjust_setpoint(SetpointKind::HotWater, -SETPOINT_STEP)
    }
}

/// Law: `apply_read` stores exactly the sign-extended value of the raw word
/// into the field that matches the signal, and a mode-status register read
/// as active records its mode while an inactive reading changes nothing, so
/// an immediate query of the mirror returns the decoded value.
pub proof fn lemma_apply_read_decodes(p: Pump, raw: u16)
    ensures
        apply_read_spec(p, ReadReg::HotWaterTemp, raw).dhw_temp == signed_of_raw(raw),
        apply_read_spec(p, ReadReg::WaterInTemp, raw).return_temp == signed_of_raw(raw),
        apply_read_spec(p, ReadReg::WaterOutTemp, raw).flow_temp == signed_of_raw(raw),
        apply_read_spec(p, ReadReg::WaterOutSetTemp, raw).target_flow_temp == signed_of_raw(raw),
        apply_read_spec(p, ReadReg::HotWaterSetTemp, raw).target_dhw_temp == signed_of_raw(raw),
        apply_read_spec(p, ReadReg::IndoorTemp, raw).indoor_temp == signed_of_raw(raw),
        apply_read_spec(p, ReadReg::TargetIndoorTemp, raw).target_indoor_temp == signed_of_raw(
            raw,
        ),
        apply_read_spec(p, ReadReg::HotWaterOffOn, 1).mode == Mode::Dhw,
        raw != 1 ==> apply_read_spec(p, ReadReg::HotWaterOffOn, raw) == p,
        apply_read_spec(p, ReadReg::OffOn, 1).mode == Mode::Ch,
        raw != 1 ==> apply_read_spec(p, ReadReg::OffOn, raw) == p,
        raw < 0x8000 ==> signed_of_raw(raw) == raw,
        raw >= 0x8000 ==> signed_of_raw(raw) == raw - 0x10000,
{
}

/// Law: decoding read responses never touches the user-intended setpoints,
/// so a refresh cannot clobber what the user asked for.
pub proof fn lemma_apply_read_keeps_setpoints(p: Pump, r: ReadReg, raw: u16)
    ensures
        apply_read_spec(p, r, raw).set_target_indoor_temp == p.set_target_indoor_temp,
        apply_read_spec(p, r, raw).set_dhw_temp == p.set_dhw_temp,
        apply_read_spec(p, r, raw).set_flow_temp == p.set_flow_temp,
{
}

/// Law: a rejected adjustment mutates nothing, so any number of rejected
/// calls leaves the mirror exactly as it was.
pub proof fn lemma_adjust_rejected_no_mutation(p: Pump, k: SetpointKind, delta: int)
    requires
        adjust_result(p, k, delta) is None,
    ensures
        adjust_next(p, k, delta) == p,
        adjust_next(adjust_next(p, k, delta), k, delta) == p,
{
}

/// Law: an accepted step followed by the opposite step of the same size
/// restores the whole mirror, setpoint included; alternating them any number
/// of times therefore returns to the original value.
pub proof fn lemma_adjust_round_trip(p: Pump, k: SetpointKind, delta: int)
    requires
        adjust_result(p, k, delta) is Some,
    ensures
        adjust_next(adjust_next(p, k, delta), k, -delta) == p,
{
}

} // verus!
