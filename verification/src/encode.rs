//! How commands look on the wire, one encoder for each protocol version.
//!
//! A request frame names the operation by its identifier and carries the
//! parameters as hexadecimal text, numbers most significant byte first.
//! The versions agree on the identifiers and differ in the parameters: the
//! oldest addresses neither a target nor a place in the JTAG chain, and
//! only the newest knows 64-bit registers. A command that a version cannot
//! express is refused, never bent into something that it can.

use crate::command::{supported, Command};
use crate::error::{BlackMagicProbeError, ErrorKind};
use crate::frame::{Frame, FrameView};
use crate::hex::hex_text;
use crate::version::ProtocolVersion;
use crate::wire::{
    ID_AP_READ, ID_AP_WRITE, ID_DP_READ, ID_DP_WRITE, ID_FREQUENCY_GET, ID_FREQUENCY_SET,
    ID_JTAG_SCAN, ID_JTAG_SHIFT, ID_POWER_GET, ID_POWER_SET, ID_RESET_GET, ID_RESET_SET,
    ID_SWD_IN, ID_SWD_OUT, ID_VOLTAGE, ID_WIDE_READ, ID_WIDE_WRITE,
};
use vstd::prelude::*;

verus! {

/// A yes or no as a byte.
pub open spec fn flag_byte(flag: bool) -> u8 {
    if flag {
        1
    } else {
        0
    }
}

/// The four bytes of `value`, most significant first.
pub open spec fn be32(value: u32) -> Seq<u8> {
    seq![
        (value / 0x100_0000) as u8,
        (value / 0x1_0000 % 0x100) as u8,
        (value / 0x100 % 0x100) as u8,
        (value % 0x100) as u8,
    ]
}

/// The eight bytes of `value`, most significant first.
pub open spec fn be64(value: u64) -> Seq<u8> {
    be32((value / 0x1_0000_0000) as u32) + be32((value % 0x1_0000_0000) as u32)
}

/// The identifier under which a command travels.
pub open spec fn request_id(command: Command) -> u8 {
    match command {
        Command::SetPower { .. } => ID_POWER_SET,
        Command::GetPower => ID_POWER_GET,
        Command::SetReset { .. } => ID_RESET_SET,
        Command::GetReset => ID_RESET_GET,
        Command::SetFrequency { .. } => ID_FREQUENCY_SET,
        Command::GetFrequency => ID_FREQUENCY_GET,
        Command::ReadVoltage => ID_VOLTAGE,
        Command::SwdIn { .. } => ID_SWD_IN,
        Command::SwdOut { .. } => ID_SWD_OUT,
        Command::JtagShift { .. } => ID_JTAG_SHIFT,
        Command::JtagScan => ID_JTAG_SCAN,
        Command::DpRead { .. } => ID_DP_READ,
        Command::DpWrite { .. } => ID_DP_WRITE,
        Command::ApRead { .. } => ID_AP_READ,
        Command::ApWrite { .. } => ID_AP_WRITE,
        Command::WideRead { .. } => ID_WIDE_READ,
        Command::WideWrite { .. } => ID_WIDE_WRITE,
    }
}

/// The parameters of a command as `version` lays them out, before they are
/// written as text.
pub open spec fn request_parameters(version: ProtocolVersion, command: Command) -> Seq<u8> {
    match command {
        Command::SetPower { enable } => seq![flag_byte(enable)],
        Command::SetReset { asserted } => seq![flag_byte(asserted)],
        Command::SetFrequency { hertz } => be32(hertz),
        Command::SwdIn { bits } => seq![bits],
        Command::SwdOut { value, bits } => seq![bits] + be32(value),
        Command::JtagShift { chain, value, bits } => if version == ProtocolVersion::V3 {
            seq![chain, bits] + be32(value)
        } else {
            seq![bits] + be32(value)
        },
        Command::DpRead { device, address } => if version == ProtocolVersion::V0 {
            seq![address]
        } else {
            seq![device, address]
        },
        Command::DpWrite { device, address, value } => if version == ProtocolVersion::V0 {
            seq![address] + be32(value)
        } else {
            seq![device, address] + be32(value)
        },
        Command::ApRead { device, ap, address } => seq![device, ap, address],
        Command::ApWrite { device, ap, address, value } => seq![device, ap, address] + be32(value),
        Command::WideRead { device, ap, address } => seq![device, ap, address],
        Command::WideWrite { device, ap, address, value } => seq![device, ap, address] + be64(
            value,
        ),
        _ => Seq::empty(),
    }
}

/// The request frame for `command` under `version`.
pub open spec fn request(version: ProtocolVersion, command: Command) -> FrameView {
    FrameView {
        command_id: request_id(command),
        payload: hex_text(request_parameters(version, command)),
    }
}

/// Whether `result` is the outcome of encoding `command` for `version`:
/// the request frame where the version can carry the command, and the
/// refusal where it cannot.
pub open spec fn encodes(
    result: Result<Frame, BlackMagicProbeError>,
    version: ProtocolVersion,
    command: Command,
) -> bool {
    if supported(version, command) {
        result matches Ok(frame) && frame@ == request(version, command)
    } else {
        result matches Err(error) && error.plain(ErrorKind::UnsupportedOperation)
    }
}

fn push32(out: &mut Vec<u8>, value: u32)
    ensures
        final(out)@ == old(out)@ + be32(value),
{
    out.push((value / 0x100_0000) as u8);
    out.push((value / 0x1_0000 % 0x100) as u8);
    out.push((value / 0x100 % 0x100) as u8);
    out.push((value % 0x100) as u8);
    assert(out@ =~= old(out)@ + be32(value));
}

fn push64(out: &mut Vec<u8>, value: u64)
    ensures
        final(out)@ == old(out)@ + be64(value),
{
    push32(out, (value / 0x1_0000_0000) as u32);
    push32(out, (value % 0x1_0000_0000) as u32);
    assert(out@ =~= old(out)@ + be64(value));
}

fn byte_of(flag: bool) -> (byte: u8)
    ensures
        byte == flag_byte(flag),
{
    if flag {
        1
    } else {
        0
    }
}

fn frame_of(command_id: u8, parameters: &Vec<u8>) -> (frame: Frame)
    requires
        crate::frame::is_command_id(command_id),
        parameters@.len() <= 16,
    ensures
        frame@ == (FrameView { command_id, payload: hex_text(parameters@) }),
{
    Frame::request(command_id, parameters.as_slice())
}

fn refused() -> (result: Result<Frame, BlackMagicProbeError>)
    ensures
        result matches Err(error) && error.plain(ErrorKind::UnsupportedOperation),
{
    Err(BlackMagicProbeError::new(ErrorKind::UnsupportedOperation))
}

/// Encodes a command for version zero: one target, one JTAG device, 32-bit
/// registers of the debug port.
pub fn encode_v0(command: &Command) -> (result: Result<Frame, BlackMagicProbeError>)
    ensures
        encodes(result, ProtocolVersion::V0, *command),
{
    let mut parameters: Vec<u8> = Vec::new();
    match *command {
        Command::SetPower { enable } => {
            parameters.push(byte_of(enable));
            Ok(frame_of(ID_POWER_SET, &parameters))
        },
        Command::GetPower => Ok(frame_of(ID_POWER_GET, &parameters)),
        Command::SetReset { asserted } => {
            parameters.push(byte_of(asserted));
            Ok(frame_of(ID_RESET_SET, &parameters))
        },
        Command::GetReset => Ok(frame_of(ID_RESET_GET, &parameters)),
        Command::SetFrequency { hertz } => {
            push32(&mut parameters, hertz);
            Ok(frame_of(ID_FREQUENCY_SET, &parameters))
        },
        Command::GetFrequency => Ok(frame_of(ID_FREQUENCY_GET, &parameters)),
        Command::ReadVoltage => Ok(frame_of(ID_VOLTAGE, &parameters)),
        Command::SwdIn { bits } => {
            parameters.push(bits);
            Ok(frame_of(ID_SWD_IN, &parameters))
        },
        Command::SwdOut { value, bits } => {
            parameters.push(bits);
            push32(&mut parameters, value);
            Ok(frame_of(ID_SWD_OUT, &parameters))
        },
        Command::JtagShift { chain, value, bits } => {
            if chain != 0 {
                return refused();
            }
            parameters.push(bits);
            push32(&mut parameters, value);
            Ok(frame_of(ID_JTAG_SHIFT, &parameters))
        },
        Command::JtagScan => Ok(frame_of(ID_JTAG_SCAN, &parameters)),
        Command::DpRead { device, address } => {
            if device != 0 {
                return refused();
            }
            parameters.push(address);
            Ok(frame_of(ID_DP_READ, &parameters))
        },
        Command::DpWrite { device, address, value } => {
            if device != 0 {
                return refused();
            }
            parameters.push(address);
            push32(&mut parameters, value);
            Ok(frame_of(ID_DP_WRITE, &parameters))
        },
        _ => refused(),
    }
}

/// Encodes a command for version one: the addressed debug-port and
/// access-port commands, and for the rest what version zero has.
pub fn encode_v1(command: &Command) -> (result: Result<Frame, BlackMagicProbeError>)
    ensures
        encodes(result, ProtocolVersion::V1, *command),
{
    let mut parameters: Vec<u8> = Vec::new();
    match *command {
        Command::DpRead { device, address } => {
            parameters.push(device);
            parameters.push(address);
            assert(parameters@ =~= request_parameters(ProtocolVersion::V1, *command));
            Ok(frame_of(ID_DP_READ, &parameters))
        },
        Command::DpWrite { device, address, value } => {
            parameters.push(device);
            parameters.push(address);
            push32(&mut parameters, value);
            assert(parameters@ =~= request_parameters(ProtocolVersion::V1, *command));
            Ok(frame_of(ID_DP_WRITE, &parameters))
        },
        Command::ApRead { device, ap, address } => {
            parameters.push(device);
            parameters.push(ap);
            parameters.push(address);
            assert(parameters@ =~= request_parameters(ProtocolVersion::V1, *command));
            Ok(frame_of(ID_AP_READ, &parameters))
        },
        Command::ApWrite { device, ap, address, value } => {
            parameters.push(device);
            parameters.push(ap);
            parameters.push(address);
            push32(&mut parameters, value);
            assert(parameters@ =~= request_parameters(ProtocolVersion::V1, *command));
            Ok(frame_of(ID_AP_WRITE, &parameters))
        },
        _ => encode_v0(command),
    }
}

/// Encodes a command for version two. Its requests are those of version
/// one; what it changed is how the probe acknowledges them.
pub fn encode_v2(command: &Command) -> (result: Result<Frame, BlackMagicProbeError>)
    ensures
        encodes(result, ProtocolVersion::V2, *command),
{
    encode_v1(command)
}

/// Encodes a command for version three: JTAG transfers that name their
/// place in the chain, the 64-bit registers, and for the rest what version
/// two has.
pub fn encode_v3(command: &Command) -> (result: Result<Frame, BlackMagicProbeError>)
    ensures
        encodes(result, ProtocolVersion::V3, *command),
{
    let mut parameters: Vec<u8> = Vec::new();
    match *command {
        Command::JtagShift { chain, value, bits } => {
            parameters.push(chain);
            parameters.push(bits);
            push32(&mut parameters, value);
            assert(parameters@ =~= request_parameters(ProtocolVersion::V3, *command));
            Ok(frame_of(ID_JTAG_SHIFT, &parameters))
        },
        Command::WideRead { device, ap, address } => {
            parameters.push(device);
            parameters.push(ap);
            parameters.push(address);
            assert(parameters@ =~= request_parameters(ProtocolVersion::V3, *command));
            Ok(frame_of(ID_WIDE_READ, &parameters))
        },
        Command::WideWrite { device, ap, address, value } => {
            parameters.push(device);
            parameters.push(ap);
            parameters.push(address);
            push64(&mut parameters, value);
            assert(parameters@ =~= request_parameters(ProtocolVersion::V3, *command));
            Ok(frame_of(ID_WIDE_WRITE, &parameters))
        },
        _ => encode_v2(command),
    }
}

/// Encodes `command` as `version` has it.
///
/// Returns the request frame, or the error `UnsupportedOperation` where the
/// version has no way to express the command.
pub fn encode_command(version: ProtocolVersion, command: &Command) -> (result: Result<
    Frame,
    BlackMagicProbeError,
>)
    ensures
        encodes(result, version, *command),
{
    match version {
        ProtocolVersion::V0 => encode_v0(command),
        ProtocolVersion::V1 => encode_v1(command),
        ProtocolVersion::V2 => encode_v2(command),
        ProtocolVersion::V3 => encode_v3(command),
    }
}

} // verus!
