use heatpump::control::{Action, Controller, Event, StepOutcome, HEAT_MODE, OFF, ON};
use heatpump::orders::{Instruction, Order, Request};
use heatpump::pump::Mode;
use heatpump::registers::{ReadReg, WriteReg};

/// The fixed refresh order.
const REFRESH: [ReadReg; 9] = [
    ReadReg::HotWaterTemp,
    ReadReg::WaterInTemp,
    ReadReg::WaterOutTemp,
    ReadReg::WaterOutSetTemp,
    ReadReg::HotWaterOffOn,
    ReadReg::HotWaterSetTemp,
    ReadReg::OffOn,
    ReadReg::IndoorTemp,
    ReadReg::TargetIndoorTemp,
];

/// The fixed temperature-request order.
const TEMPS: [ReadReg; 7] = [
    ReadReg::HotWaterTemp,
    ReadReg::HotWaterSetTemp,
    ReadReg::WaterOutTemp,
    ReadReg::WaterOutSetTemp,
    ReadReg::IndoorTemp,
    ReadReg::TargetIndoorTemp,
    ReadReg::WaterInTemp,
];

/// Run the start-up sequence against a powered-on device and the first full
/// refresh with every register answering `raw`, leaving the machine awaiting
/// a command.
fn warmed_up(raw: u16) -> Controller {
    let (mut c, a0) = Controller::new();
    assert_eq!(a0, Action::IssueRead(ReadReg::OffOn));
    let o = c.step(Event::ReadOk(1));
    assert_eq!(o.action, Action::IssueWrite(WriteReg::AirConditionerMode, HEAT_MODE));
    let o = c.step(Event::WriteOk);
    assert_eq!(o.action, Action::IssueRead(REFRESH[0]));
    for i in 0..REFRESH.len() {
        let o = c.step(Event::ReadOk(raw));
        if i + 1 < REFRESH.len() {
            assert_eq!(o.action, Action::IssueRead(REFRESH[i + 1]));
        } else {
            assert_eq!(o.action, Action::AwaitOrder);
        }
        assert!(!o.out_of_range);
    }
    c
}

#[test]
fn startup_powers_on_a_sleeping_device() {
    let (mut c, a0) = Controller::new();
    assert_eq!(a0, Action::IssueRead(ReadReg::OffOn));
    // the device reports off: power it on, re-check, then select heating
    let o = c.step(Event::ReadOk(0));
    assert_eq!(o.action, Action::IssueWrite(WriteReg::OffOn, ON));
    let o = c.step(Event::WriteOk);
    assert_eq!(o.action, Action::IssueRead(ReadReg::OffOn));
    let o = c.step(Event::ReadOk(1));
    assert_eq!(o.action, Action::IssueWrite(WriteReg::AirConditionerMode, HEAT_MODE));
    let o = c.step(Event::WriteOk);
    assert_eq!(o.action, Action::IssueRead(ReadReg::HotWaterTemp));
}

#[test]
fn startup_skips_power_on_when_already_on() {
    let (mut c, _) = Controller::new();
    let o = c.step(Event::ReadOk(1));
    assert_eq!(o.action, Action::IssueWrite(WriteReg::AirConditionerMode, HEAT_MODE));
}

#[test]
fn refresh_reads_every_signal_in_the_published_order() {
    let c = warmed_up(250);
    assert_eq!(c.pump.dhw_temp, 250);
    assert_eq!(c.pump.return_temp, 250);
    assert_eq!(c.pump.flow_temp, 250);
    assert_eq!(c.pump.target_flow_temp, 250);
    assert_eq!(c.pump.target_dhw_temp, 250);
    assert_eq!(c.pump.indoor_temp, 250);
    assert_eq!(c.pump.target_indoor_temp, 250);
    // neither mode-status register read as active (250 is not the active
    // flag): the last confirmed mode stays
    assert_eq!(c.pump.mode, Mode::Ch);
}

#[test]
fn refresh_records_the_mode_the_device_reports_active() {
    let (mut c, _) = Controller::new();
    c.step(Event::ReadOk(1));
    c.step(Event::WriteOk);
    // the device is in domestic-hot-water mode: its hot-water status reads 1
    // and its power (central-heating) status reads 0
    for reg in REFRESH {
        let raw = match reg {
            ReadReg::HotWaterOffOn => 1,
            ReadReg::OffOn => 0,
            _ => 250,
        };
        c.step(Event::ReadOk(raw));
    }
    assert_eq!(c.pump.mode, Mode::Dhw);
    // a closed queue starts the next refresh; the device now reports central
    // heating active and the refresh restores it
    c.step(Event::Closed);
    for reg in REFRESH {
        let raw = match reg {
            ReadReg::HotWaterOffOn => 0,
            ReadReg::OffOn => 1,
            _ => 250,
        };
        c.step(Event::ReadOk(raw));
    }
    assert_eq!(c.pump.mode, Mode::Ch);
}

#[test]
fn fault_on_third_refresh_read_halts_after_two_completed_reads() {
    let (mut c, _) = Controller::new();
    c.step(Event::ReadOk(1));
    c.step(Event::WriteOk);
    // two reads complete, the third faults
    let o = c.step(Event::ReadOk(210));
    assert_eq!(o.action, Action::IssueRead(REFRESH[1]));
    let o = c.step(Event::ReadOk(220));
    assert_eq!(o.action, Action::IssueRead(REFRESH[2]));
    let o = c.step(Event::Fault);
    // the loop stops at once: no write, no further read is requested
    assert_eq!(o.action, Action::Halt);
    // the mirror keeps exactly the two decoded reads
    assert_eq!(c.pump.dhw_temp, 210);
    assert_eq!(c.pump.return_temp, 220);
    assert_eq!(c.pump.flow_temp, 0);
    // the machine stays halted whatever comes next
    let o = c.step(Event::ReadOk(5));
    assert_eq!(o.action, Action::Halt);
}

#[test]
fn preloaded_commands_run_in_order_writes_then_batch() {
    let mut c = warmed_up(250);
    let queue = [
        Order::Put(Instruction::ChUp),
        Order::Put(Instruction::ChUp),
        Order::Get(Request::Temps),
    ];
    let mut transactions: Vec<Action> = Vec::new();

    let mut next = 0;
    loop {
        // the machine awaits a command: hand it the next queued one
        let mut o = c.step(Event::Arrived(queue[next]));
        next += 1;
        // drive bus transactions until the machine awaits a command again
        loop {
            match o.action {
                Action::IssueRead(_) => {
                    transactions.push(o.action);
                    o = c.step(Event::ReadOk(250));
                }
                Action::IssueWrite(_, _) => {
                    transactions.push(o.action);
                    o = c.step(Event::WriteOk);
                }
                Action::AwaitOrder => break,
                Action::Halt => panic!("loop halted unexpectedly"),
            }
        }
        if next == queue.len() {
            break;
        }
    }

    // first command: one setpoint-increment write (setpoint 0 stepped to 5),
    // then a full refresh
    assert_eq!(transactions[0], Action::IssueWrite(WriteReg::IndoorTemp, 5));
    for i in 0..9 {
        assert_eq!(transactions[1 + i], Action::IssueRead(REFRESH[i]));
    }
    // second command: the next increment, then a full refresh
    assert_eq!(transactions[10], Action::IssueWrite(WriteReg::IndoorTemp, 10));
    for i in 0..9 {
        assert_eq!(transactions[11 + i], Action::IssueRead(REFRESH[i]));
    }
    // third command: the multi-signal read batch, never interleaved earlier
    for i in 0..7 {
        assert_eq!(transactions[20 + i], Action::IssueRead(TEMPS[i]));
    }
    // then the trailing refresh of the next cycle
    for i in 0..9 {
        assert_eq!(transactions[27 + i], Action::IssueRead(REFRESH[i]));
    }
    assert_eq!(transactions.len(), 36);
}

#[test]
fn mode_switch_issues_enable_then_disable_then_confirms() {
    let mut c = warmed_up(250);
    let o = c.step(Event::Arrived(Order::Put(Instruction::Dwh)));
    assert_eq!(o.action, Action::IssueWrite(WriteReg::HotWaterOffOn, ON));
    // mode is not yet updated: only after both writes are attempted
    assert_eq!(c.pump.mode, Mode::Ch);
    let o = c.step(Event::WriteOk);
    assert_eq!(o.action, Action::IssueWrite(WriteReg::OffOn, OFF));
    assert_eq!(c.pump.mode, Mode::Ch);
    let o = c.step(Event::WriteOk);
    assert_eq!(c.pump.mode, Mode::Dhw);
    assert_eq!(o.action, Action::IssueRead(REFRESH[0]));
}

#[test]
fn mode_switch_to_central_heating_uses_the_other_register_pair() {
    let mut c = warmed_up(250);
    c.pump.set_mode(Mode::Dhw);
    let o = c.step(Event::Arrived(Order::Put(Instruction::Ch)));
    assert_eq!(o.action, Action::IssueWrite(WriteReg::OffOn, ON));
    let o = c.step(Event::WriteOk);
    assert_eq!(o.action, Action::IssueWrite(WriteReg::HotWaterOffOn, OFF));
    c.step(Event::WriteOk);
    assert_eq!(c.pump.mode, Mode::Ch);
}

#[test]
fn mode_switch_attempts_second_write_even_after_first_faults() {
    let mut c = warmed_up(250);
    let o = c.step(Event::Arrived(Order::Put(Instruction::Dwh)));
    assert_eq!(o.action, Action::IssueWrite(WriteReg::HotWaterOffOn, ON));
    // the enable write faults: the disable write is still attempted
    let o = c.step(Event::Fault);
    assert_eq!(o.action, Action::IssueWrite(WriteReg::OffOn, OFF));
    assert_eq!(c.pump.mode, Mode::Ch);
    // after both attempts the mode is recorded, then the fault is fatal
    let o = c.step(Event::WriteOk);
    assert_eq!(c.pump.mode, Mode::Dhw);
    assert_eq!(o.action, Action::Halt);
}

#[test]
fn rejected_setpoint_takes_no_bus_action_and_continues() {
    // every reference reads 900: out of the plausible range
    let mut c = warmed_up(900);
    let before = c.pump;
    let o: StepOutcome = c.step(Event::Arrived(Order::Put(Instruction::DhwUp)));
    assert!(o.out_of_range);
    // no write: the loop goes straight on to the next refresh
    assert_eq!(o.action, Action::IssueRead(REFRESH[0]));
    assert_eq!(c.pump, before);
}

#[test]
fn accepted_setpoint_write_carries_the_encoded_value() {
    let mut c = warmed_up(250);
    c.pump.set_flow_temp = -10;
    let o = c.step(Event::Arrived(Order::Put(Instruction::WaterOutUp)));
    // -10 + 5 = -5, encoded two's complement
    assert_eq!(o.action, Action::IssueWrite(WriteReg::WaterOutSetTemp, 0xFFFB));
    assert_eq!(c.pump.set_flow_temp, -5);
    let o = c.step(Event::WriteOk);
    assert_eq!(o.action, Action::IssueRead(REFRESH[0]));
}

#[test]
fn setpoint_write_fault_is_fatal() {
    let mut c = warmed_up(250);
    let o = c.step(Event::Arrived(Order::Put(Instruction::ChUp)));
    assert!(matches!(o.action, Action::IssueWrite(WriteReg::IndoorTemp, _)));
    let o = c.step(Event::Fault);
    assert_eq!(o.action, Action::Halt);
}

#[test]
fn closed_queue_keeps_refreshing() {
    let mut c = warmed_up(250);
    let o = c.step(Event::Closed);
    assert_eq!(o.action, Action::IssueRead(REFRESH[0]));
}

#[test]
fn get_temps_reads_the_published_batch_and_updates_the_mirror() {
    let mut c = warmed_up(250);
    let mut o = c.step(Event::Arrived(Order::Get(Request::Temps)));
    for i in 0..TEMPS.len() {
        assert_eq!(o.action, Action::IssueRead(TEMPS[i]));
        o = c.step(Event::ReadOk(300 + i as u16));
    }
    // the batch is over: the next cycle's refresh begins
    assert_eq!(o.action, Action::IssueRead(REFRESH[0]));
    assert_eq!(c.pump.dhw_temp, 300);
    assert_eq!(c.pump.target_dhw_temp, 301);
    assert_eq!(c.pump.flow_temp, 302);
    assert_eq!(c.pump.target_flow_temp, 303);
    assert_eq!(c.pump.indoor_temp, 304);
    assert_eq!(c.pump.target_indoor_temp, 305);
    assert_eq!(c.pump.return_temp, 306);
}
