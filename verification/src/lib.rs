//! Verified core of a heat-pump supervisor that drives a register-oriented
//! device over a half-duplex serial bus.
//!
//! The crate holds the pure, verified logic only: the register map, the
//! in-memory device-state mirror with its bounds-checked setpoint
//! adjustments, the control-loop state machine (state and event in, state
//! and next bus action out), and the inter-transaction pacer. The serial
//! transport, the async runtime and the keyboard reader live outside the
//! library and feed it plain values.

pub mod control;
pub mod orders;
pub mod pacing;
pub mod pump;
pub mod registers;
