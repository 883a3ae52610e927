//! The session with a probe, and the operations it offers.
//!
//! A session exists once the transport is open and a protocol version is
//! negotiated, and it keeps that version for as long as it lives. Each
//! operation is carried out in two steps around the exchange with the
//! probe: `submit` checks and encodes the command, and the method named
//! after the operation reads the result that the exchange ended with. The
//! session remembers the power, reset and frequency settings that it last
//! learned of. It never answers from that memory in the probe's place:
//! every submitted command is sent.

use crate::command::{supported, Command};
use crate::error::{BlackMagicProbeError, ErrorKind};
use crate::exchange::{begun, Exchange, DEFAULT_RETRY_BOUND};
use crate::negotiate::{Negotiator, Stage};
use crate::response::{JtagDevice, Value, ValueView};
use crate::text::{text_from_bytes, text_of};
use crate::version::ProtocolVersion;
use vstd::prelude::*;

verus! {

/// A session as a mathematical value.
pub struct ProbeView {
    /// The serial number by which the probe was opened.
    pub serial: Seq<char>,
    /// The negotiated protocol version.
    pub version: ProtocolVersion,
    /// How many times a request is transmitted at most.
    pub retry_bound: u32,
    /// Whether target power is on, as far as known.
    pub power: Option<bool>,
    /// Whether the reset line is asserted, as far as known.
    pub reset: Option<bool>,
    /// The clock frequency in hertz, as far as known.
    pub frequency: Option<u32>,
}

/// The session that opening the probe `serial` gives under `version`:
/// nothing is known of the target yet.
pub open spec fn opened(serial: Seq<char>, version: ProtocolVersion) -> ProbeView {
    ProbeView {
        serial,
        version,
        retry_bound: DEFAULT_RETRY_BOUND,
        power: None,
        reset: None,
        frequency: None,
    }
}

/// A session with a probe.
#[derive(Debug)]
pub struct BlackMagicProbe {
    serial: String,
    version: ProtocolVersion,
    retry_bound: u32,
    power: Option<bool>,
    reset: Option<bool>,
    frequency: Option<u32>,
}

impl View for BlackMagicProbe {
    type V = ProbeView;

    closed spec fn view(&self) -> ProbeView {
        ProbeView {
            serial: self.serial@,
            version: self.version,
            retry_bound: self.retry_bound,
            power: self.power,
            reset: self.reset,
            frequency: self.frequency,
        }
    }
}

fn unexpected<T>() -> (result: Result<T, BlackMagicProbeError>)
    ensures
        result matches Err(error) && error.plain(ErrorKind::MalformedFrame),
{
    Err(BlackMagicProbeError::new(ErrorKind::MalformedFrame))
}

impl BlackMagicProbe {
    /// The invariant of the type: a request is transmitted at least once.
    #[verifier::type_invariant]
    pub open spec fn well_formed(&self) -> bool {
        self@.retry_bound >= 1
    }

    /// Opens the session with the probe of the given serial number, from
    /// what opening the transport and negotiating the version came to.
    ///
    /// `transport_open` says whether the transport could be opened, and
    /// `negotiation` is the negotiation that was run over it. The session
    /// is created if the negotiation settled on a version. Otherwise the
    /// error says why not: `Open` for a transport that did not open, the
    /// negotiation's own reason where it failed, and
    /// `NoCompatibleProtocol` where it was never brought to an end.
    pub fn open_by_serial(serial: &str, transport_open: bool, negotiation: &Negotiator) -> (result:
        Result<Self, BlackMagicProbeError>)
        ensures
            !transport_open ==> (result matches Err(error) && error.plain(ErrorKind::Open)),
            transport_open ==> match negotiation@.stage {
                Stage::Negotiated(version) => result matches Ok(probe) && probe@ == opened(
                    serial@,
                    version,
                ),
                Stage::Failed(kind) => result matches Err(error) && error.plain(kind),
                _ => result matches Err(error) && error.plain(ErrorKind::NoCompatibleProtocol),
            },
    {
        if !transport_open {
            return Err(BlackMagicProbeError::new(ErrorKind::Open));
        }
        match negotiation.stage() {
            Stage::Negotiated(version) => Ok(
                BlackMagicProbe {
                    serial: serial.to_owned(),
                    version,
                    retry_bound: DEFAULT_RETRY_BOUND,
                    power: None,
                    reset: None,
                    frequency: None,
                },
            ),
            Stage::Failed(kind) => Err(BlackMagicProbeError::new(kind)),
            _ => Err(BlackMagicProbeError::new(ErrorKind::NoCompatibleProtocol)),
        }
    }

    /// The serial number by which the probe was opened.
    pub fn serial(&self) -> (serial: String)
        ensures
            serial@ == self@.serial,
    {
        self.serial.clone()
    }

    /// The negotiated protocol version.
    pub fn version(&self) -> (version: ProtocolVersion)
        ensures
            version == self@.version,
    {
        self.version
    }

    /// How many times a request is transmitted at most.
    pub fn retry_bound(&self) -> (bound: u32)
        ensures
            bound == self@.retry_bound,
            bound >= 1,
    {
        proof {
            use_type_invariant(self);
        }
        self.retry_bound
    }

    /// Sets how many times a request is transmitted at most. A bound of
    /// zero is refused, and the bound stays as it was.
    pub fn set_retry_bound(&mut self, bound: u32) -> (result: Result<(), BlackMagicProbeError>)
        ensures
            bound >= 1 ==> result.is_ok() && final(self)@ == (ProbeView {
                retry_bound: bound,
                ..old(self)@
            }),
            bound == 0 ==> (result matches Err(error) && error.plain(ErrorKind::InvalidParameter))
                && final(self)@ == old(self)@,
    {
        if bound == 0 {
            return Err(BlackMagicProbeError::new(ErrorKind::InvalidParameter));
        }
        self.retry_bound = bound;
        Ok(())
    }

    /// Whether target power is on, as far as the session knows.
    pub fn cached_power(&self) -> (power: Option<bool>)
        ensures
            power == self@.power,
    {
        self.power
    }

    /// Whether the reset line is asserted, as far as the session knows.
    pub fn cached_reset(&self) -> (reset: Option<bool>)
        ensures
            reset == self@.reset,
    {
        self.reset
    }

    /// The clock frequency in hertz, as far as the session knows.
    pub fn cached_frequency(&self) -> (frequency: Option<u32>)
        ensures
            frequency == self@.frequency,
    {
        self.frequency
    }

    /// Begins the exchange for `command`, under the session's protocol
    /// version and retry bound.
    ///
    /// Parameters out of order give the error `InvalidParameter`, and a
    /// command that the version cannot carry gives `UnsupportedOperation`.
    /// In both cases there is no exchange, and so no byte to write.
    pub fn submit(&self, command: &Command) -> (result: Result<Exchange, BlackMagicProbeError>)
        ensures
            !command.parameters_valid() ==> (result matches Err(error) && error.plain(
                ErrorKind::InvalidParameter,
            )),
            command.parameters_valid() && !supported(self@.version, *command) ==> (
            result matches Err(error) && error.plain(ErrorKind::UnsupportedOperation)),
            command.parameters_valid() && supported(self@.version, *command) ==> (
            result matches Ok(exchange) && exchange@ == begun(
                self@.version,
                *command,
                self@.retry_bound,
            )),
    {
        Exchange::begin(self.version, command, self.retry_bound)
    }

    /// Reads the result of switching target power to `enable`, and
    /// remembers the new setting.
    ///
    /// Returns the setting. A result other than a bare acknowledgement is
    /// none of this operation: it gives `MalformedFrame` and changes
    /// nothing.
    pub fn set_power(&mut self, enable: bool, value: &Value) -> (result: Result<
        bool,
        BlackMagicProbeError,
    >)
        ensures
            value@ is Done ==> result == Ok::<bool, BlackMagicProbeError>(enable) && final(self)@
                == (ProbeView { power: Some(enable), ..old(self)@ }),
            !(value@ is Done) ==> (result matches Err(error) && error.plain(
                ErrorKind::MalformedFrame,
            )) && final(self)@ == old(self)@,
    {
        match value {
            Value::Done => {
                proof {
                    use_type_invariant(&*self);
                }
                self.power = Some(enable);
                Ok(enable)
            },
            _ => unexpected(),
        }
    }

    /// Reads the result of driving the reset line, asserted or released as
    /// `asserted` says, and remembers the new setting.
    ///
    /// Returns `true`. A result other than a bare acknowledgement gives
    /// `MalformedFrame` and changes nothing.
    pub fn nrst_set(&mut self, asserted: bool, value: &Value) -> (result: Result<
        bool,
        BlackMagicProbeError,
    >)
        ensures
            value@ is Done ==> result == Ok::<bool, BlackMagicProbeError>(true) && final(self)@
                == (ProbeView { reset: Some(asserted), ..old(self)@ }),
            !(value@ is Done) ==> (result matches Err(error) && error.plain(
                ErrorKind::MalformedFrame,
            )) && final(self)@ == old(self)@,
    {
        match value {
            Value::Done => {
                proof {
                    use_type_invariant(&*self);
                }
                self.reset = Some(asserted);
                Ok(true)
            },
            _ => unexpected(),
        }
    }

    /// Reads the result of setting the clock frequency to `speed` hertz,
    /// and remembers the new setting.
    ///
    /// A result other than a bare acknowledgement gives `MalformedFrame`
    /// and changes nothing.
    pub fn max_speed_set(&mut self, speed: u32, value: &Value) -> (result: Result<
        (),
        BlackMagicProbeError,
    >)
        ensures
            value@ is Done ==> result.is_ok() && final(self)@ == (ProbeView {
                frequency: Some(speed),
                ..old(self)@
            }),
            !(value@ is Done) ==> (result matches Err(error) && error.plain(
                ErrorKind::MalformedFrame,
            )) && final(self)@ == old(self)@,
    {
        match value {
            Value::Done => {
                proof {
                    use_type_invariant(&*self);
                }
                self.frequency = Some(speed);
                Ok(())
            },
            _ => unexpected(),
        }
    }

    /// Reads the clock frequency that the probe reported, and remembers
    /// it.
    ///
    /// Returns the frequency in hertz. A result other than a number that
    /// fits 32 bits gives `MalformedFrame` and changes nothing.
    pub fn max_speed_get(&mut self, value: &Value) -> (result: Result<u32, BlackMagicProbeError>)
        ensures
            match value@ {
                ValueView::Number(hertz) if hertz <= u32::MAX => result == Ok::<
                    u32,
                    BlackMagicProbeError,
                >(hertz as u32) && final(self)@ == (ProbeView {
                    frequency: Some(hertz as u32),
                    ..old(self)@
                }),
                _ => (result matches Err(error) && error.plain(ErrorKind::MalformedFrame))
                    && final(self)@ == old(self)@,
            },
    {
        match value {
            Value::Number(hertz) => {
                if *hertz <= u32::MAX as u64 {
                    let speed: u32 = *hertz as u32;
                    proof {
                        use_type_invariant(&*self);
                    }
                    self.frequency = Some(speed);
                    Ok(speed)
                } else {
                    unexpected()
                }
            },
            _ => unexpected(),
        }
    }

    /// Reads the target voltage that the probe reported.
    ///
    /// Returns the probe's text. Bytes that are not valid UTF-8 give the
    /// empty text, and a result other than a text gives `MalformedFrame`.
    pub fn target_voltage(&self, value: &Value) -> (result: Result<String, BlackMagicProbeError>)
        ensures
            match value@ {
                ValueView::Text(bytes) => result matches Ok(text) && text@ == text_of(bytes),
                _ => result matches Err(error) && error.plain(ErrorKind::MalformedFrame),
            },
    {
        match value {
            Value::Text(bytes) => Ok(text_from_bytes(bytes.as_slice())),
            _ => unexpected(),
        }
    }

    /// Reads the power setting that the probe reported, and remembers it.
    ///
    /// A result other than a flag gives `MalformedFrame` and changes
    /// nothing.
    pub fn get_power(&mut self, value: &Value) -> (result: Result<bool, BlackMagicProbeError>)
        ensures
            match value@ {
                ValueView::Flag(on) => result == Ok::<bool, BlackMagicProbeError>(on)
                    && final(self)@ == (ProbeView { power: Some(on), ..old(self)@ }),
                _ => (result matches Err(error) && error.plain(ErrorKind::MalformedFrame))
                    && final(self)@ == old(self)@,
            },
    {
        match value {
            Value::Flag(on) => {
                proof {
                    use_type_invariant(&*self);
                }
                self.power = Some(*on);
                Ok(*on)
            },
            _ => unexpected(),
        }
    }

    /// Reads the state of the reset line that the probe reported, and
    /// remembers it.
    ///
    /// A result other than a flag gives `MalformedFrame` and changes
    /// nothing.
    pub fn nrst_get(&mut self, value: &Value) -> (result: Result<bool, BlackMagicProbeError>)
        ensures
            match value@ {
                ValueView::Flag(asserted) => result == Ok::<bool, BlackMagicProbeError>(asserted)
                    && final(self)@ == (ProbeView { reset: Some(asserted), ..old(self)@ }),
                _ => (result matches Err(error) && error.plain(ErrorKind::MalformedFrame))
                    && final(self)@ == old(self)@,
            },
    {
        match value {
            Value::Flag(asserted) => {
                proof {
                    use_type_invariant(&*self);
                }
                self.reset = Some(*asserted);
                Ok(*asserted)
            },
            _ => unexpected(),
        }
    }

    /// Reads the value of a 32-bit register, or the bits of a transfer,
    /// that the probe reported.
    ///
    /// A result other than a number that fits 32 bits gives
    /// `MalformedFrame`.
    pub fn dp_read(&self, value: &Value) -> (result: Result<u32, BlackMagicProbeError>)
        ensures
            match value@ {
                ValueView::Number(word) if word <= u32::MAX => result == Ok::<
                    u32,
                    BlackMagicProbeError,
                >(word as u32),
                _ => result matches Err(error) && error.plain(ErrorKind::MalformedFrame),
            },
    {
        match value {
            Value::Number(word) => {
                if *word <= u32::MAX as u64 {
                    Ok(*word as u32)
                } else {
                    unexpected()
                }
            },
            _ => unexpected(),
        }
    }

    /// Reads the value of a 64-bit register that the probe reported.
    ///
    /// A result other than a number gives `MalformedFrame`.
    pub fn wide_read(&self, value: &Value) -> (result: Result<u64, BlackMagicProbeError>)
        ensures
            match value@ {
                ValueView::Number(wide) => result == Ok::<u64, BlackMagicProbeError>(wide),
                _ => result matches Err(error) && error.plain(ErrorKind::MalformedFrame),
            },
    {
        match value {
            Value::Number(wide) => Ok(*wide),
            _ => unexpected(),
        }
    }

    /// Reads the result of a register write, or of a transfer that brings
    /// nothing back.
    ///
    /// A result other than a bare acknowledgement gives `MalformedFrame`.
    pub fn dp_write(&self, value: &Value) -> (result: Result<(), BlackMagicProbeError>)
        ensures
            value@ is Done ==> result.is_ok(),
            !(value@ is Done) ==> (result matches Err(error) && error.plain(
                ErrorKind::MalformedFrame,
            )),
    {
        match value {
            Value::Done => Ok(()),
            _ => unexpected(),
        }
    }

    /// Reads the devices that a scan of the JTAG chain found, in chain
    /// order.
    ///
    /// A result other than a list of devices gives `MalformedFrame`.
    pub fn jtag_scan(&self, value: &Value) -> (result: Result<
        Vec<JtagDevice>,
        BlackMagicProbeError,
    >)
        ensures
            match value@ {
                ValueView::Devices(devices) => result matches Ok(found) && found@ == devices,
                _ => result matches Err(error) && error.plain(ErrorKind::MalformedFrame),
            },
    {
        match value {
            Value::Devices(devices) => {
                let found = devices.clone();
                assert(found@ =~= devices@);
                Ok(found)
            },
            _ => unexpected(),
        }
    }
}

} // verus!
