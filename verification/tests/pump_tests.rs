use heatpump::pump::{Mode, Pump, SetpointKind, REF_MAX, SETPOINT_STEP};
use heatpump::registers::{decode_signed, encode_signed, ReadReg};

#[test]
fn default_pump_is_zeroed_in_ch_mode() {
    let p = Pump::default();
    assert_eq!(p.mode, Mode::Ch);
    assert_eq!(p.dhw_temp, 0);
    assert_eq!(p.return_temp, 0);
    assert_eq!(p.flow_temp, 0);
    assert_eq!(p.target_flow_temp, 0);
    assert_eq!(p.target_dhw_temp, 0);
    assert_eq!(p.indoor_temp, 0);
    assert_eq!(p.target_indoor_temp, 0);
    assert_eq!(p.set_target_indoor_temp, 0);
    assert_eq!(p.set_dhw_temp, 0);
    assert_eq!(p.set_flow_temp, 0);
}

#[test]
fn apply_read_stores_decoded_value_per_signal() {
    let mut p = Pump::default();
    p.apply_read(ReadReg::HotWaterTemp, 250);
    assert_eq!(p.dhw_temp, 250);
    p.apply_read(ReadReg::WaterInTemp, 301);
    assert_eq!(p.return_temp, 301);
    p.apply_read(ReadReg::WaterOutTemp, 302);
    assert_eq!(p.flow_temp, 302);
    p.apply_read(ReadReg::WaterOutSetTemp, 303);
    assert_eq!(p.target_flow_temp, 303);
    p.apply_read(ReadReg::HotWaterSetTemp, 304);
    assert_eq!(p.target_dhw_temp, 304);
    p.apply_read(ReadReg::IndoorTemp, 305);
    assert_eq!(p.indoor_temp, 305);
    p.apply_read(ReadReg::TargetIndoorTemp, 306);
    assert_eq!(p.target_indoor_temp, 306);
}

#[test]
fn apply_read_sign_extends_negative_temperatures() {
    let mut p = Pump::default();
    // two's complement: 0xFFFB stands for -5 (half a degree below zero at x10 scale)
    p.apply_read(ReadReg::HotWaterTemp, 0xFFFB);
    assert_eq!(p.dhw_temp, -5);
    p.apply_read(ReadReg::IndoorTemp, 0x8000);
    assert_eq!(p.indoor_temp, -32768);
}

#[test]
fn apply_read_mode_register_read_as_active_records_its_mode() {
    let mut p = Pump::default();
    p.apply_read(ReadReg::HotWaterOffOn, 1);
    assert_eq!(p.mode, Mode::Dhw);
    p.apply_read(ReadReg::OffOn, 1);
    assert_eq!(p.mode, Mode::Ch);
}

#[test]
fn apply_read_mode_register_read_as_inactive_changes_nothing() {
    let mut p = Pump::default();
    p.apply_read(ReadReg::HotWaterOffOn, 1);
    assert_eq!(p.mode, Mode::Dhw);
    let before = p;
    // a zero word says "this mode is not active": the last confirmed mode stays
    p.apply_read(ReadReg::OffOn, 0);
    assert_eq!(p, before);
    p.apply_read(ReadReg::HotWaterOffOn, 0);
    assert_eq!(p, before);
    // a word other than one is not an active flag either
    p.apply_read(ReadReg::OffOn, 2);
    assert_eq!(p, before);
}

#[test]
fn decode_and_encode_invert_each_other() {
    assert_eq!(decode_signed(250), 250);
    assert_eq!(decode_signed(0xFFFB), -5);
    assert_eq!(decode_signed(0x7FFF), 32767);
    assert_eq!(encode_signed(250), 250);
    assert_eq!(encode_signed(-5), 0xFFFB);
    assert_eq!(encode_signed(-32768), 0x8000);
    for raw in [0u16, 1, 249, 250, 0x7FFF, 0x8000, 0xFFFB, 0xFFFF] {
        assert_eq!(encode_signed(decode_signed(raw)), raw);
    }
}

#[test]
fn ch_up_steps_setpoint_when_reference_in_range() {
    let mut p = Pump::default();
    p.indoor_temp = 250;
    assert_eq!(p.ch_up(), Some(SETPOINT_STEP));
    assert_eq!(p.set_target_indoor_temp, SETPOINT_STEP);
    assert_eq!(p.ch_up(), Some(2 * SETPOINT_STEP));
    assert_eq!(p.set_target_indoor_temp, 2 * SETPOINT_STEP);
}

#[test]
fn ch_up_rejected_when_reference_out_of_range() {
    let mut p = Pump::default();
    p.indoor_temp = REF_MAX;
    p.set_target_indoor_temp = 40;
    let before = p;
    assert_eq!(p.ch_up(), None);
    assert_eq!(p, before);
    // rejection is idempotent: any number of rejected calls mutates nothing
    assert_eq!(p.ch_up(), None);
    assert_eq!(p.ch_up(), None);
    assert_eq!(p, before);
}

#[test]
fn ch_up_rejected_on_negative_reference() {
    let mut p = Pump::default();
    p.indoor_temp = -1;
    let before = p;
    assert_eq!(p.ch_down(), None);
    assert_eq!(p, before);
}

#[test]
fn setpoint_round_trip_restores_original() {
    let mut p = Pump::default();
    p.indoor_temp = 400;
    p.dhw_temp = 450;
    p.flow_temp = 350;
    p.set_target_indoor_temp = 200;
    p.set_dhw_temp = 480;
    p.set_flow_temp = 320;
    let before = p;
    assert_eq!(p.ch_up(), Some(205));
    assert_eq!(p.ch_down(), Some(200));
    assert_eq!(p.dhw_up(), Some(485));
    assert_eq!(p.dhw_down(), Some(480));
    assert_eq!(p.flow_up(), Some(325));
    assert_eq!(p.flow_down(), Some(320));
    assert_eq!(p, before);
}

#[test]
fn alternating_steps_many_times_return_to_original() {
    let mut p = Pump::default();
    p.flow_temp = 100;
    p.set_flow_temp = 300;
    for _ in 0..50 {
        assert_eq!(p.flow_up(), Some(305));
        assert_eq!(p.flow_down(), Some(300));
    }
    assert_eq!(p.set_flow_temp, 300);
}

#[test]
fn dhw_adjustment_checks_live_sensor_not_setpoint() {
    let mut p = Pump::default();
    // the live hot-water reading is plausible, the setpoint is far outside
    // the reference range: the adjustment is still accepted
    p.dhw_temp = 500;
    p.set_dhw_temp = 2000;
    assert_eq!(p.dhw_up(), Some(2005));
    // the live reading is implausible: rejected although the setpoint is fine
    p.dhw_temp = 900;
    p.set_dhw_temp = 450;
    assert_eq!(p.dhw_up(), None);
    assert_eq!(p.set_dhw_temp, 450);
}

#[test]
fn ch_adjustment_checks_live_sensor_not_read_back() {
    let mut p = Pump::default();
    // the device-reported target is in range but the live indoor reading is
    // not: rejected on the measured value
    p.target_indoor_temp = 300;
    p.indoor_temp = 850;
    assert_eq!(p.ch_up(), None);
    assert_eq!(p.set_target_indoor_temp, 0);
    // the live reading is plausible: accepted even with the read-back far out
    p.indoor_temp = 210;
    p.target_indoor_temp = 2000;
    assert_eq!(p.ch_up(), Some(5));
}

#[test]
fn adjustment_rejected_at_numeric_limit() {
    let mut p = Pump::default();
    p.flow_temp = 100;
    p.set_flow_temp = i16::MAX - 2;
    let before = p;
    assert_eq!(p.flow_up(), None);
    assert_eq!(p, before);
    p.set_flow_temp = i16::MIN + 2;
    assert_eq!(p.flow_down(), None);
    assert_eq!(p.set_flow_temp, i16::MIN + 2);
}

#[test]
fn set_mode_is_unconditional() {
    let mut p = Pump::default();
    p.set_mode(Mode::Dhw);
    assert_eq!(p.mode, Mode::Dhw);
    p.set_mode(Mode::Ch);
    assert_eq!(p.mode, Mode::Ch);
}

#[test]
fn adjust_setpoint_by_kind_matches_named_methods() {
    let mut a = Pump::default();
    let mut b = Pump::default();
    a.indoor_temp = 100;
    b.indoor_temp = 100;
    assert_eq!(
        a.adjust_setpoint(SetpointKind::CentralHeating, SETPOINT_STEP),
        b.ch_up()
    );
    assert_eq!(a, b);
}
