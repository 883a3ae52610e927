//! What a probe answers, and how the answer is read.
//!
//! A response frame is named by its kind. An acknowledgement carries the
//! result of the operation, laid out as the operation has it; a fault
//! carries a code and a diagnostic text. From version two on a probe can
//! also answer that the request did not get through: nothing was done, and
//! the request may be sent again. A frame that fits none of this is
//! malformed.

use crate::command::{Command, ReplyShape};
use crate::error::{BlackMagicProbeError, ErrorKind};
use crate::frame::{Frame, FrameView};
use crate::encode::{be32, be64, flag_byte};
use crate::hex::{
    big_endian_value, byte_pairs, decode, decode_bytes, decoded, hex_text,
    lemma_byte_pairs_of_hex_text, lemma_decoded_fits, lemma_round_trip,
};
use crate::version::ProtocolVersion;
use crate::wire::{RESPONSE_FAULT, RESPONSE_NACK, RESPONSE_OK};
use vstd::prelude::*;
use vstd::slice::slice_subrange;

verus! {

/// The digits that describe one device in the answer to a scan: eight for
/// its identification code, two for the length of its instruction register.
pub const DEVICE_DIGITS: usize = 10;

/// One device of a JTAG chain.
#[derive(Clone, Copy, Debug, PartialEq, Eq, Structural)]
pub struct JtagDevice {
    /// The identification code that the device shifts out.
    pub idcode: u32,
    /// The length of its instruction register, in bits.
    pub ir_length: u8,
}

/// The result of an operation.
#[derive(Clone, Debug, PartialEq, Eq)]
pub enum Value {
    /// The operation was carried out; there is nothing to report.
    Done,
    /// A yes or no.
    Flag(bool),
    /// A register value or another number.
    Number(u64),
    /// A text, as the bytes the probe sent.
    Text(Vec<u8>),
    /// The devices of the JTAG chain, in chain order.
    Devices(Vec<JtagDevice>),
}

/// A result as a mathematical value.
pub enum ValueView {
    Done,
    Flag(bool),
    Number(u64),
    Text(Seq<u8>),
    Devices(Seq<JtagDevice>),
}

impl View for Value {
    type V = ValueView;

    open spec fn view(&self) -> ValueView {
        match self {
            Value::Done => ValueView::Done,
            Value::Flag(flag) => ValueView::Flag(*flag),
            Value::Number(number) => ValueView::Number(*number),
            Value::Text(text) => ValueView::Text(text@),
            Value::Devices(devices) => ValueView::Devices(devices@),
        }
    }
}

/// A failure that the probe reported.
#[derive(Clone, Debug, PartialEq, Eq)]
pub struct RemoteFault {
    /// The probe's code for the failure.
    pub code: u8,
    /// The probe's words on it, possibly none.
    pub diagnostic: Vec<u8>,
}

/// What a probe answered.
#[derive(Clone, Debug, PartialEq, Eq)]
pub enum Response {
    /// The operation was carried out, with this result.
    Success(Value),
    /// The request did not get through; it is safe to send it again.
    Nack,
    /// The probe reported a failure; the request must not be repeated
    /// unasked.
    Fault(RemoteFault),
}

/// An answer as a mathematical value.
pub enum ResponseView {
    Success(ValueView),
    Nack,
    Fault { code: u8, diagnostic: Seq<u8> },
}

impl View for Response {
    type V = ResponseView;

    open spec fn view(&self) -> ResponseView {
        match self {
            Response::Success(value) => ResponseView::Success(value@),
            Response::Nack => ResponseView::Nack,
            Response::Fault(fault) => ResponseView::Fault {
                code: fault.code,
                diagnostic: fault.diagnostic@,
            },
        }
    }
}

/// The device that the `index`-th group of digits of `payload` describes.
pub open spec fn device_at(payload: Seq<u8>, index: int) -> JtagDevice {
    let start = DEVICE_DIGITS * index;
    JtagDevice {
        idcode: decoded(payload.subrange(start, start + 8), 8) as u32,
        ir_length: decoded(payload.subrange(start + 8, start + 10), 2) as u8,
    }
}

/// The result that `payload` holds, read as `shape` lays it out; `None`
/// where the payload does not have the length that the shape asks for, or
/// a flag is neither zero nor one.
pub open spec fn value_of(shape: ReplyShape, payload: Seq<u8>) -> Option<ValueView> {
    match shape {
        ReplyShape::Nothing => if payload.len() == 0 {
            Some(ValueView::Done)
        } else {
            None
        },
        ReplyShape::Flag => if payload.len() == 2 && decoded(payload, 2) <= 1 {
            Some(ValueView::Flag(decoded(payload, 2) == 1))
        } else {
            None
        },
        ReplyShape::Word => if payload.len() == 8 {
            Some(ValueView::Number(decoded(payload, 8) as u64))
        } else {
            None
        },
        ReplyShape::Wide => if payload.len() == 16 {
            Some(ValueView::Number(decoded(payload, 16) as u64))
        } else {
            None
        },
        ReplyShape::Text => if payload.len() % 2 == 0 {
            Some(ValueView::Text(byte_pairs(payload)))
        } else {
            None
        },
        ReplyShape::Devices => if payload.len() % DEVICE_DIGITS as nat == 0 {
            Some(
                ValueView::Devices(
                    Seq::new(payload.len() / DEVICE_DIGITS as nat, |i: int| device_at(payload, i)),
                ),
            )
        } else {
            None
        },
    }
}

/// The fault that `payload` describes: two digits of code, then the
/// diagnostic text in digit pairs; `None` where it is not laid out so.
pub open spec fn fault_of(payload: Seq<u8>) -> Option<ResponseView> {
    if payload.len() >= 2 && payload.len() % 2 == 0 {
        Some(
            ResponseView::Fault {
                code: decoded(payload.take(2), 2) as u8,
                diagnostic: byte_pairs(payload.skip(2)),
            },
        )
    } else {
        None
    }
}

/// What `reply` says in answer to `command` under `version`; `None` where
/// it is malformed.
pub open spec fn response_of(
    version: ProtocolVersion,
    command: Command,
    reply: FrameView,
) -> Option<ResponseView> {
    if reply.command_id == RESPONSE_OK {
        match value_of(command.reply_shape(), reply.payload) {
            Some(value) => Some(ResponseView::Success(value)),
            None => None,
        }
    } else if reply.command_id == RESPONSE_FAULT {
        fault_of(reply.payload)
    } else if reply.command_id == RESPONSE_NACK && version.has_nack() {
        Some(ResponseView::Nack)
    } else {
        None
    }
}

/// Whether `result` is the outcome of decoding a reply that says
/// `expected`: the response where there is one, and the error
/// `MalformedFrame` where there is none.
pub open spec fn decodes(
    result: Result<Response, BlackMagicProbeError>,
    expected: Option<ResponseView>,
) -> bool {
    match expected {
        Some(view) => result matches Ok(response) && response@ == view,
        None => result matches Err(error) && error.plain(ErrorKind::MalformedFrame),
    }
}

/// Reads the devices that the payload of a scan describes.
fn decode_devices(payload: &[u8]) -> (devices: Vec<JtagDevice>)
    requires
        payload@.len() % DEVICE_DIGITS as nat == 0,
    ensures
        devices@ == Seq::new(
            payload@.len() / DEVICE_DIGITS as nat,
            |i: int| device_at(payload@, i),
        ),
{
    let mut devices: Vec<JtagDevice> = Vec::new();
    let count: usize = payload.len() / DEVICE_DIGITS;
    let mut i: usize = 0;
    while i < count
        invariant
            i <= count,
            count == payload@.len() / DEVICE_DIGITS as nat,
            payload@.len() <= usize::MAX,
            devices@.len() == i,
            forall|j: int| 0 <= j < i ==> devices@[j] == device_at(payload@, j),
        decreases count - i,
    {
        let start: usize = DEVICE_DIGITS * i;
        let code_digits = slice_subrange(payload, start, start + 8);
        let length_digits = slice_subrange(payload, start + 8, start + 10);
        let code: u64 = decode(code_digits, 8);
        let length: u64 = decode(length_digits, 2);
        proof {
            lemma_decoded_fits(code_digits@, 8);
            lemma_decoded_fits(length_digits@, 2);
        }
        devices.push(JtagDevice { idcode: code as u32, ir_length: length as u8 });
        i += 1;
    }
    assert(devices@ =~= Seq::new(
        payload@.len() / DEVICE_DIGITS as nat,
        |i: int| device_at(payload@, i),
    ));
    devices
}

/// Reads the payload of an acknowledgement as `shape` lays it out.
pub fn decode_value(shape: ReplyShape, payload: &[u8]) -> (value: Option<Value>)
    ensures
        match value_of(shape, payload@) {
            Some(view) => value matches Some(v) && v@ == view,
            None => value.is_none(),
        },
{
    match shape {
        ReplyShape::Nothing => {
            if payload.len() == 0 {
                Some(Value::Done)
            } else {
                None
            }
        },
        ReplyShape::Flag => {
            if payload.len() != 2 {
                return None;
            }
            let number: u64 = decode(payload, 2);
            if number <= 1 {
                Some(Value::Flag(number == 1))
            } else {
                None
            }
        },
        ReplyShape::Word => {
            if payload.len() == 8 {
                Some(Value::Number(decode(payload, 8)))
            } else {
                None
            }
        },
        ReplyShape::Wide => {
            if payload.len() == 16 {
                Some(Value::Number(decode(payload, 16)))
            } else {
                None
            }
        },
        ReplyShape::Text => {
            if payload.len() % 2 == 0 {
                Some(Value::Text(decode_bytes(payload)))
            } else {
                None
            }
        },
        ReplyShape::Devices => {
            if payload.len() % DEVICE_DIGITS == 0 {
                Some(Value::Devices(decode_devices(payload)))
            } else {
                None
            }
        },
    }
}

/// Reads the payload of a fault.
pub fn decode_fault(payload: &[u8]) -> (response: Option<Response>)
    ensures
        match fault_of(payload@) {
            Some(view) => response matches Some(r) && r@ == view,
            None => response.is_none(),
        },
{
    if payload.len() < 2 || payload.len() % 2 != 0 {
        return None;
    }
    let code_digits = slice_subrange(payload, 0, 2);
    let code: u64 = decode(code_digits, 2);
    proof {
        lemma_decoded_fits(code_digits@, 2);
        assert(code_digits@ =~= payload@.take(2));
    }
    let text = slice_subrange(payload, 2, payload.len());
    assert(text@ =~= payload@.skip(2));
    Some(Response::Fault(RemoteFault { code: code as u8, diagnostic: decode_bytes(text) }))
}

fn malformed() -> (result: Result<Response, BlackMagicProbeError>)
    ensures
        result matches Err(error) && error.plain(ErrorKind::MalformedFrame),
{
    Err(BlackMagicProbeError::new(ErrorKind::MalformedFrame))
}

/// Decodes a reply under version zero: an acknowledgement or a fault.
pub fn decode_v0(command: &Command, reply: &Frame) -> (result: Result<
    Response,
    BlackMagicProbeError,
>)
    ensures
        decodes(result, response_of(ProtocolVersion::V0, *command, reply@)),
{
    let kind: u8 = reply.command_id();
    if kind == RESPONSE_OK {
        match decode_value(command.shape(), reply.payload()) {
            Some(value) => Ok(Response::Success(value)),
            None => malformed(),
        }
    } else if kind == RESPONSE_FAULT {
        match decode_fault(reply.payload()) {
            Some(fault) => Ok(fault),
            None => malformed(),
        }
    } else {
        malformed()
    }
}

/// Decodes a reply under version one, which answers as version zero does.
pub fn decode_v1(command: &Command, reply: &Frame) -> (result: Result<
    Response,
    BlackMagicProbeError,
>)
    ensures
        decodes(result, response_of(ProtocolVersion::V1, *command, reply@)),
{
    decode_v0(command, reply)
}

/// Decodes a reply under version two: as before, and besides the negative
/// acknowledgement.
pub fn decode_v2(command: &Command, reply: &Frame) -> (result: Result<
    Response,
    BlackMagicProbeError,
>)
    ensures
        decodes(result, response_of(ProtocolVersion::V2, *command, reply@)),
{
    if reply.command_id() == RESPONSE_NACK {
        Ok(Response::Nack)
    } else {
        decode_v1(command, reply)
    }
}

/// Decodes a reply under version three, which answers as version two does.
pub fn decode_v3(command: &Command, reply: &Frame) -> (result: Result<
    Response,
    BlackMagicProbeError,
>)
    ensures
        decodes(result, response_of(ProtocolVersion::V3, *command, reply@)),
{
    decode_v2(command, reply)
}

/// Decodes the reply to `command` as `version` has it.
///
/// Returns what the probe answered, or the error `MalformedFrame` for a
/// reply that the version does not know or that is not laid out as the
/// command's result is.
pub fn decode_response(version: ProtocolVersion, command: &Command, reply: &Frame) -> (result:
    Result<Response, BlackMagicProbeError>)
    ensures
        decodes(result, response_of(version, *command, reply@)),
{
    match version {
        ProtocolVersion::V0 => decode_v0(command, reply),
        ProtocolVersion::V1 => decode_v1(command, reply),
        ProtocolVersion::V2 => decode_v2(command, reply),
        ProtocolVersion::V3 => decode_v3(command, reply),
    }
}

/// The four bytes of a number, most significant first, have that number as
/// their big-endian value.
proof fn lemma_be32_value(number: u32)
    ensures
        big_endian_value(be32(number)) == number,
{
    let bytes = be32(number);
    let three = bytes.drop_last();
    let two = three.drop_last();
    let one = two.drop_last();
    assert(one.drop_last() =~= Seq::<u8>::empty());
    assert(big_endian_value(one.drop_last()) == 0);
    assert(big_endian_value(one) == bytes[0]);
    assert(big_endian_value(two) == 256 * big_endian_value(one) + bytes[1]);
    assert(big_endian_value(three) == 256 * big_endian_value(two) + bytes[2]);
    assert(big_endian_value(bytes) == 256 * big_endian_value(three) + bytes[3]);
}

/// A yes or no that a probe sends as the encoders would write it is read
/// back as it was.
pub proof fn lemma_flag_reads_back(flag: bool)
    ensures
        value_of(ReplyShape::Flag, hex_text(seq![flag_byte(flag)])) == Some(ValueView::Flag(flag)),
{
    let byte = seq![flag_byte(flag)];
    lemma_round_trip(byte);
    lemma_value_push(Seq::<u8>::empty(), flag_byte(flag));
    assert(byte =~= Seq::<u8>::empty().push(flag_byte(flag)));
}

/// A 32-bit number that a probe sends as the encoders would write it is
/// read back as that number.
pub proof fn lemma_word_reads_back(number: u32)
    ensures
        value_of(ReplyShape::Word, hex_text(be32(number))) == Some(
            ValueView::Number(number as u64),
        ),
{
    lemma_round_trip(be32(number));
    lemma_be32_value(number);
}

/// One more byte at the end multiplies the big-endian value by 256 and adds
/// the byte.
proof fn lemma_value_push(bytes: Seq<u8>, last: u8)
    ensures
        big_endian_value(bytes.push(last)) == 256 * big_endian_value(bytes) + last,
{
    assert(bytes.push(last).drop_last() =~= bytes);
}

/// Four more bytes at the end multiply the big-endian value by two to the
/// power of 32 and add the value of the four.
proof fn lemma_value_append_four(front: Seq<u8>, tail: Seq<u8>)
    requires
        tail.len() == 4,
    ensures
        big_endian_value(front + tail) == 0x1_0000_0000 * big_endian_value(front)
            + big_endian_value(tail),
{
    let none = Seq::<u8>::empty();
    assert(front + tail =~= front.push(tail[0]).push(tail[1]).push(tail[2]).push(tail[3]));
    assert(tail =~= none.push(tail[0]).push(tail[1]).push(tail[2]).push(tail[3]));
    lemma_value_push(front, tail[0]);
    lemma_value_push(front.push(tail[0]), tail[1]);
    lemma_value_push(front.push(tail[0]).push(tail[1]), tail[2]);
    lemma_value_push(front.push(tail[0]).push(tail[1]).push(tail[2]), tail[3]);
    lemma_value_push(none, tail[0]);
    lemma_value_push(none.push(tail[0]), tail[1]);
    lemma_value_push(none.push(tail[0]).push(tail[1]), tail[2]);
    lemma_value_push(none.push(tail[0]).push(tail[1]).push(tail[2]), tail[3]);
}

/// The eight bytes of a number, most significant first, have that number
/// as their big-endian value.
proof fn lemma_be64_value(number: u64)
    ensures
        big_endian_value(be64(number)) == number,
{
    let high = (number / 0x1_0000_0000) as u32;
    let low = (number % 0x1_0000_0000) as u32;
    lemma_be32_value(high);
    lemma_be32_value(low);
    lemma_value_append_four(be32(high), be32(low));
}

/// A 64-bit number that a probe sends as the encoders would write it is
/// read back as that number.
pub proof fn lemma_wide_reads_back(number: u64)
    ensures
        value_of(ReplyShape::Wide, hex_text(be64(number))) == Some(ValueView::Number(number)),
{
    lemma_round_trip(be64(number));
    lemma_be64_value(number);
}

/// A text that a probe sends as hexadecimal digits is read back byte for
/// byte.
pub proof fn lemma_text_reads_back(text: Seq<u8>)
    ensures
        value_of(ReplyShape::Text, hex_text(text)) == Some(ValueView::Text(text)),
{
    lemma_byte_pairs_of_hex_text(text);
}

} // verus!
