//! Frames: the delimited units of the wire protocol.
//!
//! On the wire a frame is a start marker, one command identifier, a payload
//! of hexadecimal digits and an end marker. Requests and responses share
//! this envelope.

use crate::error::{BlackMagicProbeError, ErrorKind};
use crate::hex::{all_hex, encode, hex_digit, hex_text, is_hex_digit};
use vstd::prelude::*;

verus! {

/// The byte that opens a frame (`!`).
pub const FRAME_START: u8 = 0x21;

/// The byte that closes a frame (`#`).
pub const FRAME_END: u8 = 0x23;

/// The most digits a payload may hold.
pub const MAX_PAYLOAD_DIGITS: usize = 1021;

/// The most bytes that may stand between the two markers: the command
/// identifier and a payload of full length.
pub const MAX_FRAME_BODY: usize = 1022;

/// Whether `c` can serve as a command identifier: a printable ASCII
/// character other than the two markers.
pub open spec fn is_command_id(c: u8) -> bool {
    0x21 <= c <= 0x7e && c != FRAME_START && c != FRAME_END
}

/// A frame as a mathematical value.
pub struct FrameView {
    pub command_id: u8,
    pub payload: Seq<u8>,
}

impl FrameView {
    /// The framing rules: a proper command identifier, and a payload of
    /// hexadecimal digits that is not over length.
    pub open spec fn valid(self) -> bool {
        &&& is_command_id(self.command_id)
        &&& self.payload.len() <= MAX_PAYLOAD_DIGITS
        &&& all_hex(self.payload)
    }

    /// What stands between the markers.
    pub open spec fn body(self) -> Seq<u8> {
        seq![self.command_id] + self.payload
    }

    /// The bytes of the frame on the wire.
    pub open spec fn wire(self) -> Seq<u8> {
        seq![FRAME_START] + self.body() + seq![FRAME_END]
    }
}

/// What the bytes between two markers amount to: a frame, if the first is
/// a command identifier and the rest are hexadecimal digits.
pub open spec fn parse_body(body: Seq<u8>) -> Option<FrameView> {
    let frame = FrameView { command_id: body[0], payload: body.skip(1) };
    if body.len() >= 1 && frame.valid() {
        Some(frame)
    } else {
        None
    }
}

/// One frame. A value of this type always obeys the framing rules.
#[derive(Debug, PartialEq, Eq)]
pub struct Frame {
    command_id: u8,
    payload: Vec<u8>,
}

impl View for Frame {
    type V = FrameView;

    closed spec fn view(&self) -> FrameView {
        FrameView { command_id: self.command_id, payload: self.payload@ }
    }
}

impl Clone for Frame {
    fn clone(&self) -> (copy: Self)
        ensures
            copy@ == self@,
    {
        proof {
            use_type_invariant(self);
        }
        let payload = self.payload.clone();
        assert(payload@ =~= self.payload@);
        Frame { command_id: self.command_id, payload }
    }
}

/// Whether `c` can serve as a command identifier.
pub fn command_id_ok(c: u8) -> (ok: bool)
    ensures
        ok == is_command_id(c),
{
    0x21 <= c && c <= 0x7e && c != FRAME_START && c != FRAME_END
}

/// Whether every byte of `text` is a hexadecimal digit.
pub fn digits_ok(text: &[u8]) -> (ok: bool)
    ensures
        ok == all_hex(text@),
{
    let mut i: usize = 0;
    while i < text.len()
        invariant
            i <= text.len(),
            forall|j: int| 0 <= j < i ==> is_hex_digit(#[trigger] text@[j]),
        decreases text.len() - i,
    {
        if hex_digit(text[i]).is_none() {
            return false;
        }
        i += 1;
    }
    true
}

impl Frame {
    /// The invariant of the type: the framing rules hold.
    #[verifier::type_invariant]
    pub open spec fn well_formed(&self) -> bool {
        self@.valid()
    }

    /// The frame that carries `payload` under `command_id`, for a caller
    /// that knows both to be in order.
    pub(crate) fn request(command_id: u8, payload: &[u8]) -> (frame: Frame)
        requires
            is_command_id(command_id),
            2 * payload@.len() <= MAX_PAYLOAD_DIGITS,
        ensures
            frame@ == (FrameView { command_id, payload: hex_text(payload@) }),
    {
        let digits = encode(payload);
        Frame { command_id, payload: digits }
    }

    /// Builds the frame that carries `payload` under `command_id`, the
    /// payload written as hexadecimal text.
    ///
    /// A command identifier that is none, and a payload whose text would be
    /// over length, are rejected as malformed.
    pub fn new(command_id: u8, payload: &[u8]) -> (result: Result<Frame, BlackMagicProbeError>)
        ensures
            result.is_ok() == (is_command_id(command_id) && 2 * payload@.len()
                <= MAX_PAYLOAD_DIGITS),
            result matches Ok(frame) ==> frame@ == (FrameView {
                command_id,
                payload: hex_text(payload@),
            }),
            result matches Err(error) ==> error.plain(ErrorKind::MalformedFrame),
    {
        if !command_id_ok(command_id) || payload.len() > MAX_PAYLOAD_DIGITS / 2 {
            return Err(BlackMagicProbeError::new(ErrorKind::MalformedFrame));
        }
        Ok(Frame::request(command_id, payload))
    }

    /// Builds a frame from a command identifier and a payload that is
    /// already hexadecimal text.
    pub fn from_digits(command_id: u8, digits: Vec<u8>) -> (result: Result<
        Frame,
        BlackMagicProbeError,
    >)
        ensures
            result.is_ok() == (FrameView { command_id, payload: digits@ }).valid(),
            result matches Ok(frame) ==> frame@ == (FrameView { command_id, payload: digits@ }),
            result matches Err(error) ==> error.plain(ErrorKind::MalformedFrame),
    {
        if !command_id_ok(command_id) || digits.len() > MAX_PAYLOAD_DIGITS || !digits_ok(
            digits.as_slice(),
        ) {
            return Err(BlackMagicProbeError::new(ErrorKind::MalformedFrame));
        }
        Ok(Frame { command_id, payload: digits })
    }

    /// The command identifier.
    pub fn command_id(&self) -> (id: u8)
        ensures
            id == self@.command_id,
    {
        self.command_id
    }

    /// The payload, as the hexadecimal digits that travel on the wire.
    pub fn payload(&self) -> (digits: &[u8])
        ensures
            digits@ == self@.payload,
    {
        self.payload.as_slice()
    }

    /// The bytes to put on the wire for this frame.
    pub fn to_wire(&self) -> (bytes: Vec<u8>)
        ensures
            bytes@ == self@.wire(),
    {
        let mut bytes: Vec<u8> = Vec::new();
        bytes.push(FRAME_START);
        bytes.push(self.command_id);
        let mut i: usize = 0;
        while i < self.payload.len()
            invariant
                i <= self.payload.len(),
                bytes@ == seq![FRAME_START, self.command_id] + self.payload@.take(i as int),
            decreases self.payload.len() - i,
        {
            bytes.push(self.payload[i]);
            assert(self.payload@.take(i + 1) =~= self.payload@.take(i as int).push(
                self.payload@[i as int],
            ));
            i += 1;
        }
        bytes.push(FRAME_END);
        assert(bytes@ =~= self@.wire());
        bytes
    }
}

/// Prepares a frame for sending: the bytes that have to reach the probe in
/// one write, for the given command identifier and binary payload.
pub fn send_frame(command_id: u8, payload: &[u8]) -> (result: Result<Vec<u8>, BlackMagicProbeError>)
    ensures
        result.is_ok() == (is_command_id(command_id) && 2 * payload@.len() <= MAX_PAYLOAD_DIGITS),
        result matches Ok(bytes) ==> bytes@ == (FrameView {
            command_id,
            payload: hex_text(payload@),
        }).wire(),
        result matches Err(error) ==> error.plain(ErrorKind::MalformedFrame),
{
    match Frame::new(command_id, payload) {
        Ok(frame) => Ok(frame.to_wire()),
        Err(error) => Err(error),
    }
}

/// Judges a write of `expected` bytes of which the transport took
/// `written`, or which it failed outright (`None`): anything but the whole
/// frame is a transport error.
pub fn confirm_write(expected: usize, written: Option<usize>) -> (result: Result<
    (),
    BlackMagicProbeError,
>)
    ensures
        result.is_ok() == (written == Some(expected)),
        result matches Err(error) ==> error.plain(ErrorKind::Transport),
{
    match written {
        Some(count) => {
            if count == expected {
                Ok(())
            } else {
                Err(BlackMagicProbeError::new(ErrorKind::Transport))
            }
        },
        None => Err(BlackMagicProbeError::new(ErrorKind::Transport)),
    }
}

/// The wire form of a valid frame is delimited and bounded: it opens with
/// the start marker and closes with the end marker, holds neither marker
/// in between, and is no longer than the longest body and the two markers.
/// After the start marker comes the command identifier, and every byte
/// from there to the end marker is a hexadecimal digit.
pub proof fn lemma_wire_is_delimited(frame: FrameView)
    requires
        frame.valid(),
    ensures
        frame.wire().len() == frame.payload.len() + 3,
        frame.wire().len() <= MAX_FRAME_BODY + 2,
        frame.wire()[0] == FRAME_START,
        frame.wire()[1] == frame.command_id,
        frame.wire().last() == FRAME_END,
        forall|i: int|
            1 <= i < frame.wire().len() - 1 ==> #[trigger] frame.wire()[i] != FRAME_START
                && frame.wire()[i] != FRAME_END,
        forall|i: int| 2 <= i < frame.wire().len() - 1 ==> is_hex_digit(#[trigger] frame.wire()[i]),
{
    let wire = frame.wire();
    assert forall|i: int| 2 <= i < wire.len() - 1 implies is_hex_digit(#[trigger] wire[i]) by {
        assert(wire[i] == frame.payload[i - 2]);
    }
}

} // verus!
