//! The errors that the engine reports.

use vstd::prelude::*;
use vstd::string::StringExecFns;

verus! {

/// What went wrong, in a form a caller can branch on.
#[derive(Clone, Copy, Debug, PartialEq, Eq, Structural)]
pub enum ErrorKind {
    /// The transport to the probe could not be opened.
    Open,
    /// The probe answered in none of the protocol versions known here.
    NoCompatibleProtocol,
    /// No complete response arrived before the deadline.
    Timeout,
    /// A frame broke the framing rules, or a response did not have the
    /// layout its protocol version gives it.
    MalformedFrame,
    /// The transport failed while a frame was written.
    Transport,
    /// The negotiated protocol version cannot express the operation.
    UnsupportedOperation,
    /// A parameter was rejected before anything was sent.
    InvalidParameter,
    /// The probe reported a failure, with this code.
    RemoteFault(u8),
}

/// An error of the engine: its kind, and a text for people to read.
#[derive(Clone, Debug, PartialEq, Eq)]
pub struct BlackMagicProbeError {
    pub kind: ErrorKind,
    pub message: String,
}

/// The text that goes with an error kind when the probe supplied none.
pub open spec fn default_message(kind: ErrorKind) -> Seq<char> {
    match kind {
        ErrorKind::Open => "Could not open serial device"@,
        ErrorKind::NoCompatibleProtocol => "Could not initialize device"@,
        ErrorKind::Timeout => "Timed out waiting for the probe"@,
        ErrorKind::MalformedFrame => "Malformed frame"@,
        ErrorKind::Transport => "Could not write to the probe"@,
        ErrorKind::UnsupportedOperation => "Operation not supported by the probe's protocol"@,
        ErrorKind::InvalidParameter => "Invalid parameter"@,
        ErrorKind::RemoteFault(_) => "Probe reported a fault"@,
    }
}

impl BlackMagicProbeError {
    /// Whether this is the error of the given kind with the standard text
    /// for that kind.
    pub open spec fn plain(self, kind: ErrorKind) -> bool {
        self.kind == kind && self.message@ == default_message(kind)
    }

    /// An error of the given kind with the standard text for that kind.
    pub fn new(kind: ErrorKind) -> (error: Self)
        ensures
            error.plain(kind),
    {
        let text: &str = match kind {
            ErrorKind::Open => "Could not open serial device",
            ErrorKind::NoCompatibleProtocol => "Could not initialize device",
            ErrorKind::Timeout => "Timed out waiting for the probe",
            ErrorKind::MalformedFrame => "Malformed frame",
            ErrorKind::Transport => "Could not write to the probe",
            ErrorKind::UnsupportedOperation => "Operation not supported by the probe's protocol",
            ErrorKind::InvalidParameter => "Invalid parameter",
            ErrorKind::RemoteFault(_) => "Probe reported a fault",
        };
        BlackMagicProbeError { kind, message: String::from_str(text) }
    }

    /// An error of the given kind with a text of the caller's own.
    pub fn with_message(kind: ErrorKind, message: String) -> (error: Self)
        ensures
            error.kind == kind,
            error.message == message,
    {
        BlackMagicProbeError { kind, message }
    }

    /// The text of the error.
    pub fn to_text(&self) -> (text: String)
        ensures
            text@ == self.message@,
    {
        self.message.clone()
    }
}

} // verus!
