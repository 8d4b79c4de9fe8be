//! Device control loop, as an explicit state machine.
//!
//! The machine owns the device-state mirror and a phase. Each `step` takes
//! one event (a read response, a write acknowledgment, a transport fault, or
//! a queued command) and returns the next bus action the caller must perform.
//! The caller runs the loop: it performs the action — after waiting out the
//! mandatory inter-transaction gap — and feeds the outcome back as the next
//! event.
//!
//! A cycle is: power-up sequence once, then a full ordered refresh of every
//! readable signal, then a blocking wait for exactly one command, then the
//! command's transactions, then the next refresh. A closed command queue is
//! treated as a stall: the loop keeps refreshing without further commands.
//! Any transport fault is fatal and halts the machine; an out-of-range
//! setpoint request is reported, takes no bus action, and the loop goes on.
//! A mode switch issues two writes in a fixed order — enable the target
//! mode's register, then disable the other — and both are attempted even if
//! the first faults; the mirror's mode is updated only after both attempts
//! (a partial failure leaves device and mirror mode-inconsistent: a known,
//! documented limitation of the non-atomic pair).

use vstd::prelude::*;

use crate::orders::{Instruction, Order, Request};
use crate::pump::{
    adjust_next, adjust_result, apply_read_spec, initial_pump, ref_in_range,
    spec_setpoint_write_reg, Mode, Pump, SetpointKind, SETPOINT_STEP,
};
use crate::registers::{raw_of_signed, signed_of_raw, ReadReg, WriteReg};

verus! {

/// Register value that switches a mode register on.
pub const ON: u16 = 1;

/// Register value that switches a mode register off.
pub const OFF: u16 = 0;

/// Value written to the air-conditioner-mode register at start-up to select
/// heating.
pub const HEAT_MODE: u16 = 4;

/// Number of signals read in one full refresh.
pub const REFRESH_LEN: usize = 9;

/// Number of signals read by the temperature bulk request.
pub const TEMPS_LEN: usize = 7;

/// The fixed, published order in which a full refresh reads the signals.
pub open spec fn refresh_list() -> Seq<ReadReg> {
    seq![
        ReadReg::HotWaterTemp,
        ReadReg::WaterInTemp,
        ReadReg::WaterOutTemp,
        ReadReg::WaterOutSetTemp,
        ReadReg::HotWaterOffOn,
        ReadReg::HotWaterSetTemp,
        ReadReg::OffOn,
        ReadReg::IndoorTemp,
        ReadReg::TargetIndoorTemp,
    ]
}

/// The fixed, published order in which the temperature bulk request reads
/// the signals.
pub open spec fn temps_list() -> Seq<ReadReg> {
    seq![
        ReadReg::HotWaterTemp,
        ReadReg::HotWaterSetTemp,
        ReadReg::WaterOutTemp,
        ReadReg::WaterOutSetTemp,
        ReadReg::IndoorTemp,
        ReadReg::TargetIndoorTemp,
        ReadReg::WaterInTemp,
    ]
}

/// The signal a full refresh reads at position `i`.
pub fn refresh_signal_at(i: usize) -> (r: ReadReg)
    requires
        i < REFRESH_LEN,
    ensures
        r == refresh_list()[i as int],
{
    match i {
        0 => ReadReg::HotWaterTemp,
        1 => ReadReg::WaterInTemp,
        2 => ReadReg::WaterOutTemp,
        3 => ReadReg::WaterOutSetTemp,
        4 => ReadReg::HotWaterOffOn,
        5 => ReadReg::HotWaterSetTemp,
        6 => ReadReg::OffOn,
        7 => ReadReg::IndoorTemp,
        _ => ReadReg::TargetIndoorTemp,
    }
}

/// The signal the temperature bulk request reads at position `i`.
pub fn temps_signal_at(i: usize) -> (r: ReadReg)
    requires
        i < TEMPS_LEN,
    ensures
        r == temps_list()[i as int],
{
    match i {
        0 => ReadReg::HotWaterTemp,
        1 => ReadReg::HotWaterSetTemp,
        2 => ReadReg::WaterOutTemp,
        3 => ReadReg::WaterOutSetTemp,
        4 => ReadReg::IndoorTemp,
        5 => ReadReg::TargetIndoorTemp,
        _ => ReadReg::WaterInTemp,
    }
}

/// Register enabled first when switching to a mode.
pub open spec fn enable_reg(m: Mode) -> WriteReg {
    match m {
        Mode::Ch => WriteReg::OffOn,
        Mode::Dhw => WriteReg::HotWaterOffOn,
    }
}

/// Register disabled second when switching to a mode.
pub open spec fn disable_reg(m: Mode) -> WriteReg {
    match m {
        Mode::Ch => WriteReg::HotWaterOffOn,
        Mode::Dhw => WriteReg::OffOn,
    }
}

/// The instruction that requests a switch to a mode.
pub open spec fn mode_instruction(m: Mode) -> Instruction {
    match m {
        Mode::Ch => Instruction::Ch,
        Mode::Dhw => Instruction::Dwh,
    }
}

/// Where the machine stands inside a cycle, i.e. which event it awaits.
#[derive(Copy, Clone, PartialEq, Eq, Structural, Debug)]
pub enum Phase {
    /// Awaiting the start-up read of the power register.
    PowerCheck,
    /// Awaiting the acknowledgment of the power-on write.
    PowerOn,
    /// Awaiting the read that re-checks the power register.
    PowerVerify,
    /// Awaiting the acknowledgment of the heat-mode write.
    HeatMode,
    /// Awaiting the read response for the refresh signal at this position.
    Refresh(usize),
    /// Awaiting the next queued command.
    Awaiting,
    /// Awaiting the read response for the bulk-request signal at this
    /// position.
    GetBatch(usize),
    /// Awaiting the acknowledgment of an accepted setpoint write.
    SetpointWrite,
    /// Awaiting the outcome of the enable write of a mode switch.
    ModeFirst(Mode),
    /// Awaiting the outcome of the disable write of a mode switch; the flag
    /// records whether the enable write faulted.
    ModeSecond(Mode, bool),
    /// Stopped for good after a transport fault.
    Halted,
}

/// What the caller hands back after performing an action.
#[derive(Copy, Clone, PartialEq, Eq, Structural, Debug)]
pub enum Event {
    /// A read transaction returned this raw register word.
    ReadOk(u16),
    /// A write transaction was acknowledged.
    WriteOk,
    /// A transaction failed at the transport.
    Fault,
    /// The command queue delivered an order.
    Arrived(Order),
    /// The command queue closed: the producer ended.
    Closed,
}

/// The next thing the caller must do, each transaction preceded by the
/// mandatory inter-transaction gap.
#[derive(Copy, Clone, PartialEq, Eq, Structural, Debug)]
pub enum Action {
    /// Read one register of this signal and feed back `ReadOk` or `Fault`.
    IssueRead(ReadReg),
    /// Write this value to this register and feed back `WriteOk` or `Fault`.
    IssueWrite(WriteReg, u16),
    /// Block on the command queue and feed back `Arrived` or `Closed`.
    AwaitOrder,
    /// The loop is over; no further transaction may be issued.
    Halt,
}

/// One step's result: the next action, and whether a setpoint request was
/// rejected as out of range (a recoverable diagnostic, not a fault).
#[derive(Copy, Clone, PartialEq, Eq, Structural, Debug)]
pub struct StepOutcome {
    pub action: Action,
    pub out_of_range: bool,
}

/// The control loop's whole state: the mirror and the phase.
#[derive(Copy, Clone, PartialEq, Eq, Structural, Debug)]
pub struct Controller {
    pub pump: Pump,
    pub phase: Phase,
}

/// The machine before its first event: zeroed mirror, power check issued.
pub open spec fn initial_controller() -> Controller {
    Controller { pump: initial_pump(), phase: Phase::PowerCheck }
}

/// Keep the mirror, move to a phase, return an action.
pub open spec fn proceed(c: Controller, phase: Phase, action: Action) -> (Controller, StepOutcome) {
    (Controller { phase: phase, ..c }, StepOutcome { action: action, out_of_range: false })
}

/// Stop for good: a fault, or an event the phase cannot take.
pub open spec fn halt(c: Controller) -> (Controller, StepOutcome) {
    proceed(c, Phase::Halted, Action::Halt)
}

/// Begin the next full refresh.
pub open spec fn start_refresh(c: Controller) -> (Controller, StepOutcome) {
    proceed(c, Phase::Refresh(0), Action::IssueRead(refresh_list()[0]))
}

/// The setpoint a user instruction adjusts, with its signed step; mode
/// switches and bulk reads have no adjustment.
pub open spec fn adjustment_of(ins: Instruction) -> Option<(SetpointKind, int)> {
    match ins {
        Instruction::WaterOutUp => Some((SetpointKind::Flow, SETPOINT_STEP as int)),
        Instruction::WaterOutDown => Some((SetpointKind::Flow, -SETPOINT_STEP as int)),
        Instruction::ChUp => Some((SetpointKind::CentralHeating, SETPOINT_STEP as int)),
        Instruction::ChDown => Some((SetpointKind::CentralHeating, -SETPOINT_STEP as int)),
        Instruction::DhwUp => Some((SetpointKind::HotWater, SETPOINT_STEP as int)),
        Instruction::DhwDown => Some((SetpointKind::HotWater, -SETPOINT_STEP as int)),
        Instruction::Dwh => None,
        Instruction::Ch => None,
    }
}

/// Outcome of a setpoint instruction: on acceptance the stepped value is
/// written to the setpoint's register; on rejection no bus action is taken,
/// the rejection is flagged, and the next cycle's refresh begins.
pub open spec fn handle_adjust(c: Controller, k: SetpointKind, delta: int) -> (
    Controller,
    StepOutcome,
) {
    match adjust_result(c.pump, k, delta) {
        Some(v) => (
            Controller { pump: adjust_next(c.pump, k, delta), phase: Phase::SetpointWrite },
            StepOutcome {
                action: Action::IssueWrite(spec_setpoint_write_reg(k), raw_of_signed(v)),
                out_of_range: false,
            },
        ),
        None => (
            Controller { pump: c.pump, phase: Phase::Refresh(0) },
            StepOutcome { action: Action::IssueRead(refresh_list()[0]), out_of_range: true },
        ),
    }
}

/// Dispatch one dequeued command.
pub open spec fn handle_order(c: Controller, o: Order) -> (Controller, StepOutcome) {
    match o {
        Order::Get(Request::Temps) => proceed(
            c,
            Phase::GetBatch(0),
            Action::IssueRead(temps_list()[0]),
        ),
        Order::Put(ins) => match adjustment_of(ins) {
            Some((k, delta)) => handle_adjust(c, k, delta),
            None => {
                let m = if ins == Instruction::Dwh {
                    Mode::Dhw
                } else {
                    Mode::Ch
                };
                proceed(c, Phase::ModeFirst(m), Action::IssueWrite(enable_reg(m), ON))
            },
        },
    }
}

/// The transition relation of the control loop: from a state and an event to
/// the next state and the caller's next action. Total: an event the phase
/// cannot take halts the machine.
pub open spec fn transition(c: Controller, ev: Event) -> (Controller, StepOutcome) {
    match c.phase {
        Phase::PowerCheck => match ev {
            Event::ReadOk(raw) => if raw == 0 {
                proceed(c, Phase::PowerOn, Action::IssueWrite(WriteReg::OffOn, ON))
            } else {
                proceed(c, Phase::HeatMode, Action::IssueWrite(WriteReg::AirConditionerMode, HEAT_MODE))
            },
            _ => halt(c),
        },
        Phase::PowerOn => match ev {
            Event::WriteOk => proceed(c, Phase::PowerVerify, Action::IssueRead(ReadReg::OffOn)),
            _ => halt(c),
        },
        Phase::PowerVerify => match ev {
            Event::ReadOk(_) => proceed(
                c,
                Phase::HeatMode,
                Action::IssueWrite(WriteReg::AirConditionerMode, HEAT_MODE),
            ),
            _ => halt(c),
        },
        Phase::HeatMode => match ev {
            Event::WriteOk => start_refresh(c),
            _ => halt(c),
        },
        Phase::Refresh(i) => match ev {
            Event::ReadOk(raw) => if i < REFRESH_LEN {
                let p2 = apply_read_spec(c.pump, refresh_list()[i as int], raw);
                if i + 1 < REFRESH_LEN {
                    (
                        Controller { pump: p2, phase: Phase::Refresh((i + 1) as usize) },
                        StepOutcome {
                            action: Action::IssueRead(refresh_list()[i + 1]),
                            out_of_range: false,
                        },
                    )
                } else {
                    (
                        Controller { pump: p2, phase: Phase::Awaiting },
                        StepOutcome { action: Action::AwaitOrder, out_of_range: false },
                    )
                }
            } else {
                halt(c)
            },
            _ => halt(c),
        },
        Phase::Awaiting => match ev {
            Event::Arrived(o) => handle_order(c, o),
            Event::Closed => start_refresh(c),
            _ => halt(c),
        },
        Phase::GetBatch(i) => match ev {
            Event::ReadOk(raw) => if i < TEMPS_LEN {
                let p2 = apply_read_spec(c.pump, temps_list()[i as int], raw);
                if i + 1 < TEMPS_LEN {
                    (
                        Controller { pump: p2, phase: Phase::GetBatch((i + 1) as usize) },
                        StepOutcome {
                            action: Action::IssueRead(temps_list()[i + 1]),
                            out_of_range: false,
                        },
                    )
                } else {
                    start_refresh(Controller { pump: p2, ..c })
                }
            } else {
                halt(c)
            },
            _ => halt(c),
        },
        Phase::SetpointWrite => match ev {
            Event::WriteOk => start_refresh(c),
            _ => halt(c),
        },
        Phase::ModeFirst(m) => match ev {
            Event::WriteOk => proceed(
                c,
                Phase::ModeSecond(m, false),
                Action::IssueWrite(disable_reg(m), OFF),
            ),
            Event::Fault => proceed(
                c,
                Phase::ModeSecond(m, true),
                Action::IssueWrite(disable_reg(m), OFF),
            ),
            _ => halt(c),
        },
        Phase::ModeSecond(m, faulted) => {
            let confirmed = Controller { pump: (Pump { mode: m, ..c.pump }), ..c };
            match ev {
                Event::WriteOk => if faulted {
                    halt(confirmed)
                } else {
                    start_refresh(confirmed)
                },
                Event::Fault => halt(confirmed),
                _ => halt(c),
            }
        },
        Phase::Halted => halt(c),
    }
}

impl Controller {
    /// A fresh machine and the first action to perform: the start-up read of
    /// the power register.
    pub fn new() -> (r: (Controller, Action))
        ensures
            r.0 == initial_controller(),
            r.1 == Action::IssueRead(ReadReg::OffOn),
    {
        (
            Controller { pump: Pump::default(), phase: Phase::PowerCheck },
            Action::IssueRead(ReadReg::OffOn),
        )
    }

    /// Halt in place.
    fn halt_step(&mut self) -> (r: StepOutcome)
        ensures
            (*final(self), r) == halt(*old(self)),
    {
        self.phase = Phase::Halted;
        StepOutcome { action: Action::Halt, out_of_range: false }
    }

    /// Move to the start of the next full refresh.
    fn refresh_step(&mut self) -> (r: StepOutcome)
        ensures
            (*final(self), r) == start_refresh(*old(self)),
    {
        self.phase = Phase::Refresh(0);
        StepOutcome { action: Action::IssueRead(refresh_signal_at(0)), out_of_range: false }
    }

    /// Consume one event and return the caller's next action, exactly as the
    /// transition relation says.
    pub fn step(&mut self, ev: Event) -> (r: StepOutcome)
        ensures
            (*final(self), r) == transition(*old(self), ev),
    {
        match self.phase {
            Phase::PowerCheck => match ev {
                Event::ReadOk(raw) => {
                    if raw == 0 {
                        self.phase = Phase::PowerOn;
                        StepOutcome {
                            action: Action::IssueWrite(WriteReg::OffOn, ON),
                            out_of_range: false,
                        }
                    } else {
                        self.phase = Phase::HeatMode;
                        StepOutcome {
                            action: Action::IssueWrite(WriteReg::AirConditionerMode, HEAT_MODE),
                            out_of_range: false,
                        }
                    }
                },
                _ => self.halt_step(),
            },
            Phase::PowerOn => match ev {
                Event::WriteOk => {
                    self.phase = Phase::PowerVerify;
                    StepOutcome { action: Action::IssueRead(ReadReg::OffOn), out_of_range: false }
                },
                _ => self.halt_step(),
            },
            Phase::PowerVerify => match ev {
                Event::ReadOk(_) => {
                    self.phase = Phase::HeatMode;
                    StepOutcome {
                        action: Action::IssueWrite(WriteReg::AirConditionerMode, HEAT_MODE),
                        out_of_range: false,
                    }
                },
                _ => self.halt_step(),
            },
            Phase::HeatMode => match ev {
                Event::WriteOk => self.refresh_step(),
                _ => self.halt_step(),
            },
            Phase::Refresh(i) => match ev {
                Event::ReadOk(raw) => {
                    if i < REFRESH_LEN {
                        self.pump.apply_read(refresh_signal_at(i), raw);
                        let next: usize = i + 1;
                        if next < REFRESH_LEN {
                            self.phase = Phase::Refresh(next);
                            StepOutcome {
                                action: Action::IssueRead(refresh_signal_at(next)),
                                out_of_range: false,
                            }
                        } else {
                            self.phase = Phase::Awaiting;
                            StepOutcome { action: Action::AwaitOrder, out_of_range: false }
                        }
                    } else {
                        self.halt_step()
                    }
                },
                _ => self.halt_step(),
            },
            Phase::Awaiting => match ev {
                Event::Arrived(o) => self.order_step(o),
                Event::Closed => self.refresh_step(),
                _ => self.halt_step(),
            },
            Phase::GetBatch(i) => match ev {
                Event::ReadOk(raw) => {
                    if i < TEMPS_LEN {
                        self.pump.apply_read(temps_signal_at(i), raw);
                        let next: usize = i + 1;
                        if next < TEMPS_LEN {
                            self.phase = Phase::GetBatch(next);
                            StepOutcome {
                                action: Action::IssueRead(temps_signal_at(next)),
                                out_of_range: false,
                            }
                        } else {
                            self.refresh_step()
                        }
                    } else {
                        self.halt_step()
                    }
                },
                _ => self.halt_step(),
            },
            Phase::SetpointWrite => match ev {
                Event::WriteOk => self.refresh_step(),
                _ => self.halt_step(),
            },
            Phase::ModeFirst(m) => match ev {
                Event::WriteOk => {
                    self.phase = Phase::ModeSecond(m, false);
                    StepOutcome {
                        action: Action::IssueWrite(disable_reg_exec(m), OFF),
                        out_of_range: false,
                    }
                },
                Event::Fault => {
                    self.phase = Phase::ModeSecond(m, true);
                    StepOutcome {
                        action: Action::IssueWrite(disable_reg_exec(m), OFF),
                        out_of_range: false,
                    }
                },
                _ => self.halt_step(),
            },
            Phase::ModeSecond(m, faulted) => match ev {
                Event::WriteOk => {
                    self.pump.set_mode(m);
                    if faulted {
                        self.halt_step()
                    } else {
                        self.refresh_step()
                    }
                },
                Event::Fault => {
                    self.pump.set_mode(m);
                    self.halt_step()
                },
                _ => self.halt_step(),
            },
            Phase::Halted => self.halt_step(),
        }
    }

    /// Dispatch one dequeued command.
    fn order_step(&mut self, o: Order) -> (r: StepOutcome)
        requires
            old(self).phase == Phase::Awaiting,
        ensures
            (*final(self), r) == handle_order(*old(self), o),
    {
        match o {
            Order::Get(Request::Temps) => {
                self.phase = Phase::GetBatch(0);
                StepOutcome { action: Action::IssueRead(temps_signal_at(0)), out_of_range: false }
            },
            Order::Put(ins) => match ins {
                Instruction::WaterOutUp => self.adjust_step(SetpointKind::Flow, SETPOINT_STEP),
                Instruction::WaterOutDown => self.adjust_step(SetpointKind::Flow, -SETPOINT_STEP),
                Instruction::ChUp => self.adjust_step(
                    SetpointKind::CentralHeating,
                    SETPOINT_STEP,
                ),
                Instruction::ChDown => self.adjust_step(
                    SetpointKind::CentralHeating,
                    -SETPOINT_STEP,
                ),
                Instruction::DhwUp => self.adjust_step(SetpointKind::HotWater, SETPOINT_STEP),
                Instruction::DhwDown => self.adjust_step(SetpointKind::HotWater, -SETPOINT_STEP),
                Instruction::Dwh => {
                    self.phase = Phase::ModeFirst(Mode::Dhw);
                    StepOutcome {
                        action: Action::IssueWrite(WriteReg::HotWaterOffOn, ON),
                        out_of_range: false,
                    }
                },
                Instruction::Ch => {
                    self.phase = Phase::ModeFirst(Mode::Ch);
                    StepOutcome {
                        action: Action::IssueWrite(WriteReg::OffOn, ON),
                        out_of_range: false,
                    }
                },
            },
        }
    }

    /// Apply one setpoint instruction to the mirror and plan its write.
    fn adjust_step(&mut self, k: SetpointKind, delta: i16) -> (r: StepOutcome)
        ensures
            (*final(self), r) == handle_adjust(*old(self), k, delta as int),
    {
        match self.pump.adjust_setpoint(k, delta) {
            Some(v) => {
                self.phase = Phase::SetpointWrite;
                StepOutcome {
                    action: Action::IssueWrite(
                        crate::pump::setpoint_write_reg(k),
                        crate::registers::encode_signed(v),
                    ),
                    out_of_range: false,
                }
            },
            None => {
                self.phase = Phase::Refresh(0);
                StepOutcome {
                    action: Action::IssueRead(refresh_signal_at(0)),
                    out_of_range: true,
                }
            },
        }
    }
}

/// Register disabled second when switching to a mode.
pub fn disable_reg_exec(m: Mode) -> (r: WriteReg)
    ensures
        r == disable_reg(m),
{
    match m {
        Mode::Ch => WriteReg::HotWaterOffOn,
        Mode::Dhw => WriteReg::OffOn,
    }
}

/// A phase whose refresh or batch position lies inside its list.
pub open spec fn phase_wf(ph: Phase) -> bool {
    match ph {
        Phase::Refresh(i) => i < REFRESH_LEN,
        Phase::GetBatch(i) => i < TEMPS_LEN,
        _ => true,
    }
}

/// Law: the machine starts well formed and every transition keeps the
/// refresh and batch positions inside their lists, so a reachable state
/// never reads past the end of a signal list.
pub proof fn lemma_transition_preserves_wf(c: Controller, ev: Event)
    requires
        phase_wf(c.phase),
    ensures
        phase_wf(transition(c, ev).0.phase),
        phase_wf(initial_controller().phase),
{
}

/// Law: a mode-switch command issues exactly two write transactions in the
/// fixed order — enable the target mode's register with `ON`, then disable
/// the other mode's register with `OFF` — and the mirror's mode changes only
/// after both writes have been attempted, whatever each attempt's outcome.
pub proof fn lemma_mode_switch_two_writes(c: Controller, m: Mode, ev1: Event, ev2: Event)
    requires
        c.phase == Phase::Awaiting,
        ev1 == Event::WriteOk || ev1 == Event::Fault,
        ev2 == Event::WriteOk || ev2 == Event::Fault,
    ensures
        ({
            let (c1, o1) = transition(c, Event::Arrived(Order::Put(mode_instruction(m))));
            let (c2, o2) = transition(c1, ev1);
            let (c3, o3) = transition(c2, ev2);
            &&& o1.action == Action::IssueWrite(enable_reg(m), ON)
            &&& c1.pump == c.pump
            &&& o2.action == Action::IssueWrite(disable_reg(m), OFF)
            &&& c2.pump == c.pump
            &&& c3.pump == (Pump { mode: m, ..c.pump })
            &&& ((ev1 == Event::WriteOk && ev2 == Event::WriteOk) ==> (c3, o3) == start_refresh(
                Controller { pump: (Pump { mode: m, ..c.pump }), ..c2 },
            ))
            &&& ((ev1 == Event::Fault || ev2 == Event::Fault) ==> o3.action == Action::Halt)
        }),
{
}

/// Law: a transport fault during a refresh halts the loop at once: the next
/// action is `Halt`, so no write is attempted that cycle, and the mirror
/// keeps exactly the reads already applied.
pub proof fn lemma_refresh_fault_halts(c: Controller, i: usize)
    requires
        c.phase == Phase::Refresh(i),
    ensures
        transition(c, Event::Fault).0 == (Controller { phase: Phase::Halted, ..c }),
        transition(c, Event::Fault).1.action == Action::Halt,
{
}

/// The machine after consuming a sequence of events, one step per event.
pub open spec fn run(c: Controller, evs: Seq<Event>) -> Controller
    decreases evs.len(),
{
    if evs.len() == 0 {
        c
    } else {
        run(transition(c, evs[0]).0, evs.drop_first())
    }
}

/// The actions the machine hands back while consuming a sequence of events,
/// in order: the bus transactions and waits the caller performs.
pub open spec fn action_trace(c: Controller, evs: Seq<Event>) -> Seq<Action>
    decreases evs.len(),
{
    if evs.len() == 0 {
        Seq::empty()
    } else {
        seq![transition(c, evs[0]).1.action] + action_trace(
            transition(c, evs[0]).0,
            evs.drop_first(),
        )
    }
}

/// The read-response events for a sequence of raw words.
pub open spec fn read_events(raws: Seq<u16>) -> Seq<Event> {
    Seq::new(raws.len(), |i: int| Event::ReadOk(raws[i]))
}

/// The actions a refresh emits once the read at position `i` is answered:
/// the remaining reads in order, then the wait for the next command.
pub open spec fn refresh_actions_from(i: int) -> Seq<Action>
    decreases REFRESH_LEN - i,
{
    if i + 1 < REFRESH_LEN {
        seq![Action::IssueRead(refresh_list()[i + 1])] + refresh_actions_from(i + 1)
    } else {
        seq![Action::AwaitOrder]
    }
}

/// The actions the temperature batch emits once the read at position `i` is
/// answered: the remaining batch reads in order, then the first read of the
/// next cycle's refresh.
pub open spec fn temps_actions_from(i: int) -> Seq<Action>
    decreases TEMPS_LEN - i,
{
    if i + 1 < TEMPS_LEN {
        seq![Action::IssueRead(temps_list()[i + 1])] + temps_actions_from(i + 1)
    } else {
        seq![Action::IssueRead(refresh_list()[0])]
    }
}

/// The mirror after the reads of `signals` from position `i` on are answered
/// by `raws`, one response per signal, in order.
pub open spec fn apply_reads_from(p: Pump, signals: Seq<ReadReg>, i: int, raws: Seq<u16>) -> Pump
    decreases raws.len(),
{
    if raws.len() == 0 {
        p
    } else {
        apply_reads_from(
            apply_read_spec(p, signals[i], raws[0]),
            signals,
            i + 1,
            raws.drop_first(),
        )
    }
}

/// Consuming one event is one transition.
pub proof fn lemma_run_one(c: Controller, e: Event)
    ensures
        run(c, seq![e]) == transition(c, e).0,
        action_trace(c, seq![e]) == seq![transition(c, e).1.action],
{
    let evs = seq![e];
    assert(evs[0] == e);
    assert(evs.drop_first() =~= Seq::<Event>::empty());
    assert(run(transition(c, e).0, evs.drop_first()) == transition(c, e).0);
    assert(action_trace(transition(c, e).0, evs.drop_first()) =~= Seq::<Action>::empty());
    assert(action_trace(c, evs) =~= seq![transition(c, e).1.action]);
}

/// Consuming two events is two transitions.
pub proof fn lemma_run_two(c: Controller, e1: Event, e2: Event)
    ensures
        run(c, seq![e1, e2]) == transition(transition(c, e1).0, e2).0,
        action_trace(c, seq![e1, e2]) == seq![
            transition(c, e1).1.action,
            transition(transition(c, e1).0, e2).1.action,
        ],
{
    let evs = seq![e1, e2];
    let c1 = transition(c, e1).0;
    assert(evs[0] == e1);
    assert(evs.drop_first() =~= seq![e2]);
    lemma_run_one(c1, e2);
    assert(action_trace(c, evs) =~= seq![
        transition(c, e1).1.action,
        transition(c1, e2).1.action,
    ]);
}

/// Consuming a concatenation of event sequences is consuming the first, then
/// the second from where the first left off; the traces concatenate.
pub proof fn lemma_run_append(c: Controller, a: Seq<Event>, b: Seq<Event>)
    ensures
        run(c, a + b) == run(run(c, a), b),
        action_trace(c, a + b) == action_trace(c, a) + action_trace(run(c, a), b),
    decreases a.len(),
{
    if a.len() == 0 {
        assert(a + b =~= b);
        assert(action_trace(c, a) =~= Seq::<Action>::empty());
        assert(action_trace(c, a) + action_trace(c, b) =~= action_trace(c, b));
    } else {
        let c1 = transition(c, a[0]).0;
        assert((a + b)[0] == a[0]);
        assert((a + b).drop_first() =~= a.drop_first() + b);
        lemma_run_append(c1, a.drop_first(), b);
        assert(action_trace(c, a + b) =~= action_trace(c, a) + action_trace(run(c, a), b));
    }
}

/// Law: from refresh position `i`, answering the remaining reads drives the
/// machine through exactly the remaining refresh reads in order, then the
/// command wait; every response is decoded into the mirror and nothing else
/// changes.
pub proof fn lemma_refresh_trace(c: Controller, i: usize, raws: Seq<u16>)
    requires
        c.phase == Phase::Refresh(i),
        i < REFRESH_LEN,
        raws.len() == REFRESH_LEN - i,
    ensures
        action_trace(c, read_events(raws)) == refresh_actions_from(i as int),
        run(c, read_events(raws)) == (Controller {
            pump: apply_reads_from(c.pump, refresh_list(), i as int, raws),
            phase: Phase::Awaiting,
        }),
    decreases raws.len(),
{
    let evs = read_events(raws);
    assert(evs[0] == Event::ReadOk(raws[0]));
    let c1 = transition(c, evs[0]).0;
    let o1 = transition(c, evs[0]).1;
    assert(c1.pump == apply_read_spec(c.pump, refresh_list()[i as int], raws[0]));
    assert(evs.drop_first() =~= read_events(raws.drop_first()));
    assert(run(c, evs) == run(c1, evs.drop_first()));
    assert(apply_reads_from(c.pump, refresh_list(), i as int, raws) == apply_reads_from(
        c1.pump,
        refresh_list(),
        i as int + 1,
        raws.drop_first(),
    ));
    if i + 1 < REFRESH_LEN {
        assert(c1.phase == Phase::Refresh((i + 1) as usize));
        assert(o1.action == Action::IssueRead(refresh_list()[i as int + 1]));
        lemma_refresh_trace(c1, (i + 1) as usize, raws.drop_first());
        assert(action_trace(c, evs) =~= refresh_actions_from(i as int));
    } else {
        assert(raws.len() == 1);
        assert(c1.phase == Phase::Awaiting);
        assert(o1.action == Action::AwaitOrder);
        assert(evs.drop_first().len() == 0);
        assert(run(c1, evs.drop_first()) == c1);
        assert(action_trace(c1, evs.drop_first()) =~= Seq::<Action>::empty());
        assert(raws.drop_first().len() == 0);
        assert(apply_reads_from(c1.pump, refresh_list(), i as int + 1, raws.drop_first())
            == c1.pump);
        assert(action_trace(c, evs) =~= refresh_actions_from(i as int));
    }
}

/// Law: from batch position `i`, answering the remaining reads drives the
/// machine through exactly the remaining batch reads in order, then straight
/// into the next cycle's refresh; every response is decoded into the mirror.
pub proof fn lemma_temps_trace(c: Controller, i: usize, raws: Seq<u16>)
    requires
        c.phase == Phase::GetBatch(i),
        i < TEMPS_LEN,
        raws.len() == TEMPS_LEN - i,
    ensures
        action_trace(c, read_events(raws)) == temps_actions_from(i as int),
        run(c, read_events(raws)) == (Controller {
            pump: apply_reads_from(c.pump, temps_list(), i as int, raws),
            phase: Phase::Refresh(0),
        }),
    decreases raws.len(),
{
    let evs = read_events(raws);
    assert(evs[0] == Event::ReadOk(raws[0]));
    let c1 = transition(c, evs[0]).0;
    let o1 = transition(c, evs[0]).1;
    assert(c1.pump == apply_read_spec(c.pump, temps_list()[i as int], raws[0]));
    assert(evs.drop_first() =~= read_events(raws.drop_first()));
    assert(run(c, evs) == run(c1, evs.drop_first()));
    assert(apply_reads_from(c.pump, temps_list(), i as int, raws) == apply_reads_from(
        c1.pump,
        temps_list(),
        i as int + 1,
        raws.drop_first(),
    ));
    if i + 1 < TEMPS_LEN {
        assert(c1.phase == Phase::GetBatch((i + 1) as usize));
        assert(o1.action == Action::IssueRead(temps_list()[i as int + 1]));
        lemma_temps_trace(c1, (i + 1) as usize, raws.drop_first());
        assert(action_trace(c, evs) =~= temps_actions_from(i as int));
    } else {
        assert(raws.len() == 1);
        assert(c1.phase == Phase::Refresh(0));
        assert(o1.action == Action::IssueRead(refresh_list()[0]));
        assert(evs.drop_first().len() == 0);
        assert(run(c1, evs.drop_first()) == c1);
        assert(action_trace(c1, evs.drop_first()) =~= Seq::<Action>::empty());
        assert(raws.drop_first().len() == 0);
        assert(apply_reads_from(c1.pump, temps_list(), i as int + 1, raws.drop_first())
            == c1.pump);
        assert(action_trace(c, evs) =~= temps_actions_from(i as int));
    }
}

/// Law: one full refresh stores the sign-extended value of each of the nine
/// responses into its signal's field, records the mode the device reports
/// active (the power-status word is decoded after the hot-water-status word),
/// and keeps the user-intended setpoints untouched.
pub proof fn lemma_full_refresh_pump(p: Pump, raws: Seq<u16>)
    requires
        raws.len() == REFRESH_LEN,
    ensures
        apply_reads_from(p, refresh_list(), 0, raws) == (Pump {
            dhw_temp: signed_of_raw(raws[0]),
            return_temp: signed_of_raw(raws[1]),
            flow_temp: signed_of_raw(raws[2]),
            target_flow_temp: signed_of_raw(raws[3]),
            mode: if raws[6] == 1 {
                Mode::Ch
            } else if raws[4] == 1 {
                Mode::Dhw
            } else {
                p.mode
            },
            target_dhw_temp: signed_of_raw(raws[5]),
            indoor_temp: signed_of_raw(raws[7]),
            target_indoor_temp: signed_of_raw(raws[8]),
            ..p
        }),
{
    let r1 = raws.drop_first();
    let r2 = r1.drop_first();
    let r3 = r2.drop_first();
    let r4 = r3.drop_first();
    let r5 = r4.drop_first();
    let r6 = r5.drop_first();
    let r7 = r6.drop_first();
    let r8 = r7.drop_first();
    let p1 = apply_read_spec(p, refresh_list()[0], raws[0]);
    let p2 = apply_read_spec(p1, refresh_list()[1], raws[1]);
    let p3 = apply_read_spec(p2, refresh_list()[2], raws[2]);
    let p4 = apply_read_spec(p3, refresh_list()[3], raws[3]);
    let p5 = apply_read_spec(p4, refresh_list()[4], raws[4]);
    let p6 = apply_read_spec(p5, refresh_list()[5], raws[5]);
    let p7 = apply_read_spec(p6, refresh_list()[6], raws[6]);
    let p8 = apply_read_spec(p7, refresh_list()[7], raws[7]);
    let p9 = apply_read_spec(p8, refresh_list()[8], raws[8]);
    assert(apply_reads_from(p, refresh_list(), 0, raws) == apply_reads_from(
        p1,
        refresh_list(),
        1,
        r1,
    ));
    assert(apply_reads_from(p1, refresh_list(), 1, r1) == apply_reads_from(
        p2,
        refresh_list(),
        2,
        r2,
    ));
    assert(apply_reads_from(p2, refresh_list(), 2, r2) == apply_reads_from(
        p3,
        refresh_list(),
        3,
        r3,
    ));
    assert(apply_reads_from(p3, refresh_list(), 3, r3) == apply_reads_from(
        p4,
        refresh_list(),
        4,
        r4,
    ));
    assert(apply_reads_from(p4, refresh_list(), 4, r4) == apply_reads_from(
        p5,
        refresh_list(),
        5,
        r5,
    ));
    assert(apply_reads_from(p5, refresh_list(), 5, r5) == apply_reads_from(
        p6,
        refresh_list(),
        6,
        r6,
    ));
    assert(apply_reads_from(p6, refresh_list(), 6, r6) == apply_reads_from(
        p7,
        refresh_list(),
        7,
        r7,
    ));
    assert(apply_reads_from(p7, refresh_list(), 7, r7) == apply_reads_from(
        p8,
        refresh_list(),
        8,
        r8,
    ));
    let r9 = r8.drop_first();
    assert(r8[0] == raws[8]);
    assert(apply_reads_from(p8, refresh_list(), 8, r8) == apply_reads_from(
        p9,
        refresh_list(),
        9,
        r9,
    ));
    assert(r9.len() == 0);
    assert(apply_reads_from(p9, refresh_list(), 9, r9) == p9);
}

/// Law: with the queue pre-loaded with two central-heating increments and
/// then a temperature request — both increments accepted: the live indoor
/// reading plausible before each, and the stepped setpoint within the
/// register's numeric range — the loop processes the commands strictly in
/// that order, one per cycle: an increment write, a full refresh, the second
/// increment write, a full refresh, then the multi-signal read batch, never
/// interleaved differently; afterwards the machine stands at the next
/// cycle's refresh.
pub proof fn lemma_preloaded_commands_in_order(
    c: Controller,
    raws1: Seq<u16>,
    raws2: Seq<u16>,
    raws3: Seq<u16>,
)
    requires
        c.phase == Phase::Awaiting,
        raws1.len() == REFRESH_LEN,
        raws2.len() == REFRESH_LEN,
        raws3.len() == TEMPS_LEN,
        ref_in_range(c.pump.indoor_temp),
        // the indoor reading refreshed between the increments (position 7 of
        // the refresh order) stays plausible
        ref_in_range(signed_of_raw(raws1[7])),
        c.pump.set_target_indoor_temp + 2 * SETPOINT_STEP <= i16::MAX,
    ensures
        ({
            let sp = c.pump.set_target_indoor_temp;
            let increment = seq![
                Event::Arrived(Order::Put(Instruction::ChUp)),
                Event::WriteOk,
            ];
            let evs = increment + read_events(raws1) + increment + read_events(raws2) + seq![
                Event::Arrived(Order::Get(Request::Temps)),
            ] + read_events(raws3);
            &&& action_trace(c, evs) == seq![
                Action::IssueWrite(
                    WriteReg::IndoorTemp,
                    raw_of_signed((sp + SETPOINT_STEP) as i16),
                ),
                Action::IssueRead(refresh_list()[0]),
            ] + refresh_actions_from(0) + seq![
                Action::IssueWrite(
                    WriteReg::IndoorTemp,
                    raw_of_signed((sp + 2 * SETPOINT_STEP) as i16),
                ),
                Action::IssueRead(refresh_list()[0]),
            ] + refresh_actions_from(0) + seq![
                Action::IssueRead(temps_list()[0]),
            ] + temps_actions_from(0)
            &&& run(c, evs).phase == Phase::Refresh(0)
        }),
{
    let sp = c.pump.set_target_indoor_temp;
    let v1 = (sp + SETPOINT_STEP) as i16;
    let v2 = (sp + 2 * SETPOINT_STEP) as i16;
    let e_up = Event::Arrived(Order::Put(Instruction::ChUp));
    let e_ok = Event::WriteOk;
    let e_get = Event::Arrived(Order::Get(Request::Temps));
    let increment = seq![e_up, e_ok];
    let evs = increment + read_events(raws1) + increment + read_events(raws2) + seq![e_get]
        + read_events(raws3);

    // first increment: accepted, one write, then the refresh begins
    assert(adjust_result(c.pump, SetpointKind::CentralHeating, SETPOINT_STEP as int) == Some(v1));
    let c1 = transition(c, e_up).0;
    assert(transition(c, e_up).1.action == Action::IssueWrite(
        WriteReg::IndoorTemp,
        raw_of_signed(v1),
    ));
    assert(c1.pump.set_target_indoor_temp == v1);
    let c2 = transition(c1, e_ok).0;
    assert(transition(c1, e_ok).1.action == Action::IssueRead(refresh_list()[0]));
    assert(c2.phase == Phase::Refresh(0));
    lemma_run_two(c, e_up, e_ok);

    // first interleaved refresh
    lemma_refresh_trace(c2, 0, raws1);
    lemma_full_refresh_pump(c2.pump, raws1);
    let c3 = run(c2, read_events(raws1));
    assert(c3.phase == Phase::Awaiting);
    assert(c3.pump.indoor_temp == signed_of_raw(raws1[7]));
    assert(c3.pump.set_target_indoor_temp == v1);

    // second increment: accepted on the refreshed indoor reading
    assert(adjust_result(c3.pump, SetpointKind::CentralHeating, SETPOINT_STEP as int) == Some(v2));
    let c4 = transition(c3, e_up).0;
    assert(transition(c3, e_up).1.action == Action::IssueWrite(
        WriteReg::IndoorTemp,
        raw_of_signed(v2),
    ));
    let c5 = transition(c4, e_ok).0;
    assert(transition(c4, e_ok).1.action == Action::IssueRead(refresh_list()[0]));
    assert(c5.phase == Phase::Refresh(0));
    lemma_run_two(c3, e_up, e_ok);

    // second interleaved refresh
    lemma_refresh_trace(c5, 0, raws2);
    let c6 = run(c5, read_events(raws2));
    assert(c6.phase == Phase::Awaiting);

    // the temperature request: the batch begins
    let c7 = transition(c6, e_get).0;
    assert(transition(c6, e_get).1.action == Action::IssueRead(temps_list()[0]));
    assert(c7.phase == Phase::GetBatch(0));
    lemma_run_one(c6, e_get);

    // the batch runs to its end and the next cycle's refresh starts
    lemma_temps_trace(c7, 0, raws3);

    // stitch the six segments together
    lemma_run_append(c, increment, read_events(raws1));
    lemma_run_append(c, increment + read_events(raws1), increment);
    lemma_run_append(c, increment + read_events(raws1) + increment, read_events(raws2));
    lemma_run_append(
        c,
        increment + read_events(raws1) + increment + read_events(raws2),
        seq![e_get],
    );
    lemma_run_append(
        c,
        increment + read_events(raws1) + increment + read_events(raws2) + seq![e_get],
        read_events(raws3),
    );
    assert(run(c, evs).phase == Phase::Refresh(0));
    assert(action_trace(c, evs) =~= seq![
        Action::IssueWrite(WriteReg::IndoorTemp, raw_of_signed(v1)),
        Action::IssueRead(refresh_list()[0]),
    ] + refresh_actions_from(0) + seq![
        Action::IssueWrite(WriteReg::IndoorTemp, raw_of_signed(v2)),
        Action::IssueRead(refresh_list()[0]),
    ] + refresh_actions_from(0) + seq![Action::IssueRead(temps_list()[0])]
        + temps_actions_from(0));
}

} // verus!
