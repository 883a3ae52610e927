//! The logical operations of a debug probe.
//!
//! A command says what is to be done, in terms that do not depend on the
//! protocol version. Which commands a version can carry, and which
//! parameters are in order, is decided here; how a command looks on the
//! wire is for the encoders.

use crate::version::ProtocolVersion;
use vstd::prelude::*;

verus! {

/// The highest clock frequency that may be asked for, in hertz.
pub const MAX_FREQUENCY: u32 = 4_000_000;

/// The most bits that one SWD or JTAG transfer moves.
pub const MAX_TRANSFER_BITS: u8 = 32;

/// The highest address of a debug-port or access-port register.
pub const MAX_REGISTER_ADDRESS: u8 = 0xfc;

/// A group of operations that a protocol version provides or lacks.
#[derive(Clone, Copy, Debug, PartialEq, Eq, Structural)]
pub enum Capability {
    /// Power, reset, frequency and voltage.
    General,
    /// Transfers over serial wire debug.
    Swd,
    /// Transfers over JTAG, and the scan of its chain.
    Jtag,
    /// Access to debug-port and access-port registers.
    Adiv5,
}

/// What a successful response to a command carries.
#[derive(Clone, Copy, Debug, PartialEq, Eq, Structural)]
pub enum ReplyShape {
    /// Nothing: the acknowledgement is all.
    Nothing,
    /// A yes or no.
    Flag,
    /// A 32-bit number.
    Word,
    /// A 64-bit number.
    Wide,
    /// A text.
    Text,
    /// The devices of a JTAG chain.
    Devices,
}

/// One operation, with its parameters.
#[allow(inconsistent_fields)]
#[derive(Clone, Copy, Debug, PartialEq, Eq, Structural)]
pub enum Command {
    /// Switch target power on or off.
    SetPower { enable: bool },
    /// Ask whether target power is on.
    GetPower,
    /// Assert or release the reset line.
    SetReset { asserted: bool },
    /// Ask whether the reset line is asserted.
    GetReset,
    /// Set the clock frequency.
    SetFrequency { hertz: u32 },
    /// Ask for the clock frequency.
    GetFrequency,
    /// Ask for the target voltage.
    ReadVoltage,
    /// Clock `bits` bits in over SWD.
    SwdIn { bits: u8 },
    /// Clock the low `bits` bits of `value` out over SWD.
    SwdOut { value: u32, bits: u8 },
    /// Shift the low `bits` bits of `value` through the device at place
    /// `chain` of the JTAG chain, and take what comes out.
    JtagShift { chain: u8, value: u32, bits: u8 },
    /// Enumerate the devices of the JTAG chain.
    JtagScan,
    /// Read a debug-port register of target `device`.
    DpRead { device: u8, address: u8 },
    /// Write a debug-port register of target `device`.
    DpWrite { device: u8, address: u8, value: u32 },
    /// Read a register of access port `ap` of target `device`.
    ApRead { device: u8, ap: u8, address: u8 },
    /// Write a register of access port `ap` of target `device`.
    ApWrite { device: u8, ap: u8, address: u8, value: u32 },
    /// Read a 64-bit register of access port `ap` of target `device`.
    WideRead { device: u8, ap: u8, address: u8 },
    /// Write a 64-bit register of access port `ap` of target `device`.
    WideWrite { device: u8, ap: u8, address: u8, value: u64 },
}

/// Whether `bits` is a transfer length in range.
pub open spec fn transfer_in_range(bits: u8) -> bool {
    1 <= bits <= MAX_TRANSFER_BITS
}

/// Whether `address` names a register: aligned to four bytes, and within
/// the register file.
pub open spec fn register_address(address: u8) -> bool {
    address % 4 == 0 && address <= MAX_REGISTER_ADDRESS
}

impl Command {
    /// The group that the command belongs to.
    pub open spec fn capability(self) -> Capability {
        match self {
            Command::SetPower { .. } => Capability::General,
            Command::GetPower => Capability::General,
            Command::SetReset { .. } => Capability::General,
            Command::GetReset => Capability::General,
            Command::SetFrequency { .. } => Capability::General,
            Command::GetFrequency => Capability::General,
            Command::ReadVoltage => Capability::General,
            Command::SwdIn { .. } => Capability::Swd,
            Command::SwdOut { .. } => Capability::Swd,
            Command::JtagShift { .. } => Capability::Jtag,
            Command::JtagScan => Capability::Jtag,
            Command::DpRead { .. } => Capability::Adiv5,
            Command::DpWrite { .. } => Capability::Adiv5,
            Command::ApRead { .. } => Capability::Adiv5,
            Command::ApWrite { .. } => Capability::Adiv5,
            Command::WideRead { .. } => Capability::Adiv5,
            Command::WideWrite { .. } => Capability::Adiv5,
        }
    }

    /// Whether the parameters are in order: a frequency from one hertz to
    /// the maximum, a transfer of one to thirty-two bits, a register
    /// address that is aligned and in range.
    pub open spec fn parameters_valid(self) -> bool {
        match self {
            Command::SetFrequency { hertz } => 1 <= hertz <= MAX_FREQUENCY,
            Command::SwdIn { bits } => transfer_in_range(bits),
            Command::SwdOut { bits, .. } => transfer_in_range(bits),
            Command::JtagShift { bits, .. } => transfer_in_range(bits),
            Command::DpRead { address, .. } => register_address(address),
            Command::DpWrite { address, .. } => register_address(address),
            Command::ApRead { address, .. } => register_address(address),
            Command::ApWrite { address, .. } => register_address(address),
            Command::WideRead { address, .. } => register_address(address),
            Command::WideWrite { address, .. } => register_address(address),
            _ => true,
        }
    }

    /// What a successful response to the command carries.
    pub open spec fn reply_shape(self) -> ReplyShape {
        match self {
            Command::SetPower { .. } => ReplyShape::Nothing,
            Command::GetPower => ReplyShape::Flag,
            Command::SetReset { .. } => ReplyShape::Nothing,
            Command::GetReset => ReplyShape::Flag,
            Command::SetFrequency { .. } => ReplyShape::Nothing,
            Command::GetFrequency => ReplyShape::Word,
            Command::ReadVoltage => ReplyShape::Text,
            Command::SwdIn { .. } => ReplyShape::Word,
            Command::SwdOut { .. } => ReplyShape::Nothing,
            Command::JtagShift { .. } => ReplyShape::Word,
            Command::JtagScan => ReplyShape::Devices,
            Command::DpRead { .. } => ReplyShape::Word,
            Command::DpWrite { .. } => ReplyShape::Nothing,
            Command::ApRead { .. } => ReplyShape::Word,
            Command::ApWrite { .. } => ReplyShape::Nothing,
            Command::WideRead { .. } => ReplyShape::Wide,
            Command::WideWrite { .. } => ReplyShape::Nothing,
        }
    }

    /// The group that the command belongs to.
    pub fn group(&self) -> (capability: Capability)
        ensures
            capability == self.capability(),
    {
        match self {
            Command::SetPower { .. } => Capability::General,
            Command::GetPower => Capability::General,
            Command::SetReset { .. } => Capability::General,
            Command::GetReset => Capability::General,
            Command::SetFrequency { .. } => Capability::General,
            Command::GetFrequency => Capability::General,
            Command::ReadVoltage => Capability::General,
            Command::SwdIn { .. } => Capability::Swd,
            Command::SwdOut { .. } => Capability::Swd,
            Command::JtagShift { .. } => Capability::Jtag,
            Command::JtagScan => Capability::Jtag,
            Command::DpRead { .. } => Capability::Adiv5,
            Command::DpWrite { .. } => Capability::Adiv5,
            Command::ApRead { .. } => Capability::Adiv5,
            Command::ApWrite { .. } => Capability::Adiv5,
            Command::WideRead { .. } => Capability::Adiv5,
            Command::WideWrite { .. } => Capability::Adiv5,
        }
    }

    /// Whether the parameters are in order.
    pub fn check_parameters(&self) -> (ok: bool)
        ensures
            ok == self.parameters_valid(),
    {
        match self {
            Command::SetFrequency { hertz } => 1 <= *hertz && *hertz <= MAX_FREQUENCY,
            Command::SwdIn { bits } => transfer_ok(*bits),
            Command::SwdOut { bits, .. } => transfer_ok(*bits),
            Command::JtagShift { bits, .. } => transfer_ok(*bits),
            Command::DpRead { address, .. } => address_ok(*address),
            Command::DpWrite { address, .. } => address_ok(*address),
            Command::ApRead { address, .. } => address_ok(*address),
            Command::ApWrite { address, .. } => address_ok(*address),
            Command::WideRead { address, .. } => address_ok(*address),
            Command::WideWrite { address, .. } => address_ok(*address),
            _ => true,
        }
    }

    /// What a successful response to the command carries.
    pub fn shape(&self) -> (shape: ReplyShape)
        ensures
            shape == self.reply_shape(),
    {
        match self {
            Command::SetPower { .. } => ReplyShape::Nothing,
            Command::GetPower => ReplyShape::Flag,
            Command::SetReset { .. } => ReplyShape::Nothing,
            Command::GetReset => ReplyShape::Flag,
            Command::SetFrequency { .. } => ReplyShape::Nothing,
            Command::GetFrequency => ReplyShape::Word,
            Command::ReadVoltage => ReplyShape::Text,
            Command::SwdIn { .. } => ReplyShape::Word,
            Command::SwdOut { .. } => ReplyShape::Nothing,
            Command::JtagShift { .. } => ReplyShape::Word,
            Command::JtagScan => ReplyShape::Devices,
            Command::DpRead { .. } => ReplyShape::Word,
            Command::DpWrite { .. } => ReplyShape::Nothing,
            Command::ApRead { .. } => ReplyShape::Word,
            Command::ApWrite { .. } => ReplyShape::Nothing,
            Command::WideRead { .. } => ReplyShape::Wide,
            Command::WideWrite { .. } => ReplyShape::Nothing,
        }
    }
}

/// Whether `bits` is a transfer length in range.
pub fn transfer_ok(bits: u8) -> (ok: bool)
    ensures
        ok == transfer_in_range(bits),
{
    1 <= bits && bits <= MAX_TRANSFER_BITS
}

/// Whether `address` names a register.
pub fn address_ok(address: u8) -> (ok: bool)
    ensures
        ok == register_address(address),
{
    address % 4 == 0 && address <= MAX_REGISTER_ADDRESS
}

/// Whether `version` can carry `command`.
///
/// Every version has the general and the SWD commands, the scan of the
/// JTAG chain, and the debug-port registers of a single target. Addressing
/// a target by number, and the access-port registers, came with version
/// one. Addressing a device within the JTAG chain, and the 64-bit
/// registers, came with version three.
pub open spec fn supported(version: ProtocolVersion, command: Command) -> bool {
    match command {
        Command::JtagShift { chain, .. } => chain == 0 || version == ProtocolVersion::V3,
        Command::DpRead { device, .. } => device == 0 || version != ProtocolVersion::V0,
        Command::DpWrite { device, .. } => device == 0 || version != ProtocolVersion::V0,
        Command::ApRead { .. } => version != ProtocolVersion::V0,
        Command::ApWrite { .. } => version != ProtocolVersion::V0,
        Command::WideRead { .. } => version == ProtocolVersion::V3,
        Command::WideWrite { .. } => version == ProtocolVersion::V3,
        _ => true,
    }
}

/// Whether `version` can carry `command`.
pub fn is_supported(version: ProtocolVersion, command: &Command) -> (yes: bool)
    ensures
        yes == supported(version, *command),
{
    let newest: bool = match version {
        ProtocolVersion::V3 => true,
        _ => false,
    };
    let oldest: bool = match version {
        ProtocolVersion::V0 => true,
        _ => false,
    };
    match command {
        Command::JtagShift { chain, .. } => *chain == 0 || newest,
        Command::DpRead { device, .. } => *device == 0 || !oldest,
        Command::DpWrite { device, .. } => *device == 0 || !oldest,
        Command::ApRead { .. } => !oldest,
        Command::ApWrite { .. } => !oldest,
        Command::WideRead { .. } => newest,
        Command::WideWrite { .. } => newest,
        _ => true,
    }
}

/// The protocol only grows: what a version can carry, every later version
/// can carry too.
pub proof fn lemma_later_versions_carry_more(
    earlier: ProtocolVersion,
    later: ProtocolVersion,
    command: Command,
)
    requires
        earlier.number() <= later.number(),
        supported(earlier, command),
    ensures
        supported(later, command),
{
}

} // verus!
