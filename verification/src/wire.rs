//! The identifiers of the wire protocol.
//!
//! A request names its operation by one character, and a response names
//! its kind by one.

use vstd::prelude::*;

verus! {

/// First contact (`S`): understood by every generation of firmware.
pub const ID_HELLO: u8 = 0x53;

/// Offer of one protocol version (`H`).
pub const ID_HANDSHAKE: u8 = 0x48;

/// Switch target power (`P`).
pub const ID_POWER_SET: u8 = 0x50;

/// Ask whether target power is on (`p`).
pub const ID_POWER_GET: u8 = 0x70;

/// Drive the reset line (`Z`).
pub const ID_RESET_SET: u8 = 0x5a;

/// Ask whether the reset line is asserted (`z`).
pub const ID_RESET_GET: u8 = 0x7a;

/// Set the clock frequency (`F`).
pub const ID_FREQUENCY_SET: u8 = 0x46;

/// Ask for the clock frequency (`f`).
pub const ID_FREQUENCY_GET: u8 = 0x66;

/// Ask for the target voltage (`V`).
pub const ID_VOLTAGE: u8 = 0x56;

/// Clock bits in over SWD (`I`).
pub const ID_SWD_IN: u8 = 0x49;

/// Clock bits out over SWD (`O`).
pub const ID_SWD_OUT: u8 = 0x4f;

/// Shift bits through a JTAG device (`D`).
pub const ID_JTAG_SHIFT: u8 = 0x44;

/// Enumerate the devices of the JTAG chain (`J`).
pub const ID_JTAG_SCAN: u8 = 0x4a;

/// Read a debug-port register (`r`).
pub const ID_DP_READ: u8 = 0x72;

/// Write a debug-port register (`w`).
pub const ID_DP_WRITE: u8 = 0x77;

/// Read an access-port register (`a`).
pub const ID_AP_READ: u8 = 0x61;

/// Write an access-port register (`A`).
pub const ID_AP_WRITE: u8 = 0x41;

/// Read a 64-bit access-port register (`q`).
pub const ID_WIDE_READ: u8 = 0x71;

/// Write a 64-bit access-port register (`Q`).
pub const ID_WIDE_WRITE: u8 = 0x51;

/// The request was carried out (`K`).
pub const RESPONSE_OK: u8 = 0x4b;

/// The probe reports a fault (`E`).
pub const RESPONSE_FAULT: u8 = 0x45;

/// The request did not get through and may be sent again (`N`).
pub const RESPONSE_NACK: u8 = 0x4e;

} // verus!
