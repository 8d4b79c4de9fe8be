//! Commands: the discrete values carried from the input producer to the
//! control loop, and the mapping from single-character tokens to them.

use vstd::prelude::*;

verus! {

/// A user instruction that mutates device state.
#[derive(Copy, Clone, PartialEq, Eq, Structural, Debug)]
pub enum Instruction {
    /// Step the flow-temperature setpoint up.
    WaterOutUp,
    /// Step the flow-temperature setpoint down.
    WaterOutDown,
    /// Step the domestic-hot-water setpoint up.
    DhwUp,
    /// Step the domestic-hot-water setpoint down.
    DhwDown,
    /// Step the central-heating (indoor) setpoint up.
    ChUp,
    /// Step the central-heating (indoor) setpoint down.
    ChDown,
    /// Switch to domestic-hot-water mode.
    Dwh,
    /// Switch to central-heating mode.
    Ch,
}

/// A read-only bulk request.
#[derive(Copy, Clone, PartialEq, Eq, Structural, Debug)]
pub enum Request {
    /// Refresh the temperature signals.
    Temps,
}

/// A queued command: either a bulk read or a state-changing instruction.
#[derive(Copy, Clone, PartialEq, Eq, Structural, Debug)]
pub enum Order {
    Get(Request),
    Put(Instruction),
}

/// ASCII `r`: refresh the temperature signals.
pub const TOKEN_TEMPS: u8 = 114;

/// ASCII `1`: flow-temperature setpoint up.
pub const TOKEN_FLOW_UP: u8 = 49;

/// ASCII `2`: flow-temperature setpoint down.
pub const TOKEN_FLOW_DOWN: u8 = 50;

/// ASCII `u`: central-heating setpoint up.
pub const TOKEN_CH_UP: u8 = 117;

/// ASCII `d`: central-heating setpoint down.
pub const TOKEN_CH_DOWN: u8 = 100;

/// ASCII `p`: domestic-hot-water setpoint up.
pub const TOKEN_DHW_UP: u8 = 112;

/// ASCII `l`: domestic-hot-water setpoint down.
pub const TOKEN_DHW_DOWN: u8 = 108;

/// ASCII `c`: switch to central-heating mode.
pub const TOKEN_MODE_CH: u8 = 99;

/// ASCII `w`: switch to domestic-hot-water mode.
pub const TOKEN_MODE_DHW: u8 = 119;

/// The command a single-character token stands for; unrecognized tokens map
/// to nothing and are discarded at the input boundary.
pub open spec fn spec_order_of_token(t: u8) -> Option<Order> {
    if t == TOKEN_TEMPS {
        Some(Order::Get(Request::Temps))
    } else if t == TOKEN_FLOW_UP {
        Some(Order::Put(Instruction::WaterOutUp))
    } else if t == TOKEN_FLOW_DOWN {
        Some(Order::Put(Instruction::WaterOutDown))
    } else if t == TOKEN_CH_UP {
        Some(Order::Put(Instruction::ChUp))
    } else if t == TOKEN_CH_DOWN {
        Some(Order::Put(Instruction::ChDown))
    } else if t == TOKEN_DHW_UP {
        Some(Order::Put(Instruction::DhwUp))
    } else if t == TOKEN_DHW_DOWN {
        Some(Order::Put(Instruction::DhwDown))
    } else if t == TOKEN_MODE_CH {
        Some(Order::Put(Instruction::Ch))
    } else if t == TOKEN_MODE_DHW {
        Some(Order::Put(Instruction::Dwh))
    } else {
        None
    }
}

/// Map one input token to its command.
pub fn order_of_token(t: u8) -> (r: Option<Order>)
    ensures
        r == spec_order_of_token(t),
{
    match t {
        TOKEN_TEMPS => Some(Order::Get(Request::Temps)),
        TOKEN_FLOW_UP => Some(Order::Put(Instruction::WaterOutUp)),
        TOKEN_FLOW_DOWN => Some(Order::Put(Instruction::WaterOutDown)),
        TOKEN_CH_UP => Some(Order::Put(Instruction::ChUp)),
        TOKEN_CH_DOWN => Some(Order::Put(Instruction::ChDown)),
        TOKEN_DHW_UP => Some(Order::Put(Instruction::DhwUp)),
        TOKEN_DHW_DOWN => Some(Order::Put(Instruction::DhwDown)),
        TOKEN_MODE_CH => Some(Order::Put(Instruction::Ch)),
        TOKEN_MODE_DHW => Some(Order::Put(Instruction::Dwh)),
        _ => None,
    }
}

} // verus!
