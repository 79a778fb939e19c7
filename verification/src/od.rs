//! CANopen object dictionary entries of the DS20270DA drive.
use vstd::prelude::*;

verus! {

pub const CONTROL_WORD: u16 = 0x6040;
pub const STATUS_WORD: u16 = 0x6041;
pub const MODES_OF_OPERATION: u16 = 0x6060;
pub const MODES_OF_OPERATION_DISPLAY: u16 = 0x6061;
pub const TARGET_VELOCITY: u16 = 0x60FF;
pub const VELOCITY_ACTUAL: u16 = 0x606C;

/// Position actual value (encoder feedback), 5600 counts per revolution.
/// The DS20270DA leaves 0x6064 at 0; live counts are in 0x6063.
pub const POSITION_ACTUAL: u16 = 0x6063;
pub const PROFILE_ACCELERATION: u16 = 0x6083;
pub const PROFILE_DECELERATION: u16 = 0x6084;

/// Drive-internal CAN disconnection watchdog: timeout in ms.
pub const CAN_WATCHDOG_TIMEOUT: u16 = 0x450B;

/// Drive-internal CAN disconnection watchdog: action (0 alarm, 1 disable,
/// 2 zero speed).
pub const CAN_WATCHDOG_ACTION: u16 = 0x450C;

} // verus!
