//! One request and its response, with the retries that are safe.
//!
//! An exchange is begun for a command: the parameters are checked, the
//! command is encoded for the session's protocol version, and the bytes to
//! send are ready. Each frame that the probe answers with is then judged.
//! A negative acknowledgement means that the probe did nothing, so the same
//! bytes are sent again, up to a bound on the number of transmissions.
//! Every other answer ends the exchange: a fault is never retried here,
//! since the probe may have acted on the request already.
//!
//! The exchange sends and receives nothing itself. The caller writes the
//! bytes, reads the reply and reports it.

use crate::command::{supported, Command};
use crate::encode::{encode_command, request};
use crate::error::{default_message, BlackMagicProbeError, ErrorKind};
use crate::frame::{Frame, FrameView};
use crate::response::{decode_response, response_of, Response, ResponseView, Value, ValueView};
use crate::text::{text_from_bytes, text_of};
use crate::version::ProtocolVersion;
use crate::wire::RESPONSE_NACK;
use vstd::prelude::*;

verus! {

/// How many times a request is transmitted at most, unless the session is
/// told otherwise.
pub const DEFAULT_RETRY_BOUND: u32 = 3;

/// The fault code under which a request is reported that the probe turned
/// away as often as the bound allows.
pub const FAULT_NOT_ACCEPTED: u8 = 0xff;

/// An exchange as a mathematical value.
pub struct ExchangeView {
    /// The protocol version of the session.
    pub version: ProtocolVersion,
    /// The command that the exchange is for.
    pub command: Command,
    /// The bytes of the request.
    pub wire: Seq<u8>,
    /// How many times the request was handed out for transmission.
    pub attempts: nat,
    /// How many times it may be transmitted at most.
    pub bound: nat,
}

/// What a reply means for an exchange.
pub enum Verdict {
    /// The request is to be sent again.
    Resend,
    /// The operation succeeded, with this result.
    Success(ValueView),
    /// The operation failed, with an error of this kind and text.
    Failure { kind: ErrorKind, message: Seq<char> },
}

impl ExchangeView {
    /// What `reply` means at this point of the exchange.
    pub open spec fn verdict(self, reply: FrameView) -> Verdict {
        match response_of(self.version, self.command, reply) {
            None => Verdict::Failure {
                kind: ErrorKind::MalformedFrame,
                message: default_message(ErrorKind::MalformedFrame),
            },
            Some(ResponseView::Success(value)) => Verdict::Success(value),
            Some(ResponseView::Fault { code, diagnostic }) => Verdict::Failure {
                kind: ErrorKind::RemoteFault(code),
                message: text_of(diagnostic),
            },
            Some(ResponseView::Nack) => if self.attempts < self.bound {
                Verdict::Resend
            } else {
                Verdict::Failure {
                    kind: ErrorKind::RemoteFault(FAULT_NOT_ACCEPTED),
                    message: default_message(ErrorKind::RemoteFault(FAULT_NOT_ACCEPTED)),
                }
            },
        }
    }

    /// The exchange after `reply`: one more transmission where the request
    /// is sent again, and no change otherwise.
    pub open spec fn after_reply(self, reply: FrameView) -> ExchangeView {
        if self.verdict(reply) is Resend {
            ExchangeView { attempts: self.attempts + 1, ..self }
        } else {
            self
        }
    }

    /// What a run of replies comes to: the verdict on the first reply that
    /// ends the exchange, or `Resend` while none has ended it.
    pub open spec fn outcome(self, replies: Seq<FrameView>) -> Verdict
        decreases replies.len(),
    {
        if replies.len() == 0 {
            Verdict::Resend
        } else if self.verdict(replies[0]) is Resend {
            self.after_reply(replies[0]).outcome(replies.drop_first())
        } else {
            self.verdict(replies[0])
        }
    }
}

/// The exchange that is begun for `command` under `version`, with `bound`
/// transmissions allowed.
pub open spec fn begun(version: ProtocolVersion, command: Command, bound: u32) -> ExchangeView {
    ExchangeView {
        version,
        command,
        wire: request(version, command).wire(),
        attempts: 1,
        bound: bound as nat,
    }
}

/// What the caller is to do after a reply.
#[derive(Debug, PartialEq, Eq)]
pub enum Progress {
    /// Send the request again and report the next reply.
    Resend,
    /// The exchange is over, with this result.
    Finished(Result<Value, BlackMagicProbeError>),
}

/// Whether `progress` is the exec form of `verdict`.
pub open spec fn announces(progress: Progress, verdict: Verdict) -> bool {
    match verdict {
        Verdict::Resend => progress is Resend,
        Verdict::Success(value) => progress matches Progress::Finished(Ok(got)) && got@ == value,
        Verdict::Failure { kind, message } => progress matches Progress::Finished(Err(error))
            && error.kind == kind && error.message@ == message,
    }
}

/// One request and its response.
#[derive(Debug)]
pub struct Exchange {
    version: ProtocolVersion,
    command: Command,
    wire: Vec<u8>,
    attempts: u32,
    bound: u32,
}

impl View for Exchange {
    type V = ExchangeView;

    closed spec fn view(&self) -> ExchangeView {
        ExchangeView {
            version: self.version,
            command: self.command,
            wire: self.wire@,
            attempts: self.attempts as nat,
            bound: self.bound as nat,
        }
    }
}

impl Exchange {
    /// Begins the exchange for `command`.
    ///
    /// The parameters are checked first, then the command is encoded for
    /// `version`. Parameters out of order give the error
    /// `InvalidParameter`, and a command that the version cannot carry
    /// gives `UnsupportedOperation`. In both cases there is no exchange and
    /// nothing to send.
    pub fn begin(version: ProtocolVersion, command: &Command, bound: u32) -> (result: Result<
        Exchange,
        BlackMagicProbeError,
    >)
        ensures
            !command.parameters_valid() ==> (result matches Err(error) && error.plain(
                ErrorKind::InvalidParameter,
            )),
            command.parameters_valid() && !supported(version, *command) ==> (result matches Err(
                error,
            ) && error.plain(ErrorKind::UnsupportedOperation)),
            command.parameters_valid() && supported(version, *command) ==> (result matches Ok(
                exchange,
            ) && exchange@ == begun(version, *command, bound)),
    {
        if !command.check_parameters() {
            return Err(BlackMagicProbeError::new(ErrorKind::InvalidParameter));
        }
        match encode_command(version, command) {
            Ok(frame) => Ok(
                Exchange { version, command: *command, wire: frame.to_wire(), attempts: 1, bound },
            ),
            Err(error) => Err(error),
        }
    }

    /// The bytes of the request, to be written to the probe in one piece.
    pub fn request_bytes(&self) -> (bytes: &[u8])
        ensures
            bytes@ == self@.wire,
    {
        self.wire.as_slice()
    }

    /// The command that the exchange is for.
    pub fn command(&self) -> (command: Command)
        ensures
            command == self@.command,
    {
        self.command
    }

    /// How many times the request was handed out for transmission.
    pub fn attempts(&self) -> (attempts: u32)
        ensures
            attempts == self@.attempts,
    {
        self.attempts
    }

    /// Judges the probe's reply to the request.
    ///
    /// Returns `Resend` where the probe turned the request away and the
    /// bound leaves room for another transmission; else the result of the
    /// operation, or the error that ends it.
    pub fn on_reply(&mut self, reply: &Frame) -> (progress: Progress)
        ensures
            announces(progress, old(self)@.verdict(reply@)),
            final(self)@ == old(self)@.after_reply(reply@),
    {
        match decode_response(self.version, &self.command, reply) {
            Err(error) => Progress::Finished(Err(error)),
            Ok(Response::Success(value)) => Progress::Finished(Ok(value)),
            Ok(Response::Fault(fault)) => {
                let message = text_from_bytes(fault.diagnostic.as_slice());
                Progress::Finished(
                    Err(
                        BlackMagicProbeError::with_message(
                            ErrorKind::RemoteFault(fault.code),
                            message,
                        ),
                    ),
                )
            },
            Ok(Response::Nack) => {
                if self.attempts < self.bound {
                    self.attempts = self.attempts + 1;
                    Progress::Resend
                } else {
                    Progress::Finished(
                        Err(BlackMagicProbeError::new(ErrorKind::RemoteFault(FAULT_NOT_ACCEPTED))),
                    )
                }
            },
        }
    }
}

/// Whether every frame of `replies` is a negative acknowledgement.
pub open spec fn all_nacks(replies: Seq<FrameView>) -> bool {
    forall|i: int| 0 <= i < replies.len() ==> (#[trigger] replies[i]).command_id == RESPONSE_NACK
}

/// Negative acknowledgements are answered by sending again as long as the
/// bound leaves room, and by a fault as soon as it does not.
proof fn lemma_nacks_then(exchange: ExchangeView, nacks: Seq<FrameView>, last: FrameView)
    requires
        exchange.version.has_nack(),
        exchange.attempts <= exchange.bound,
        all_nacks(nacks),
        !(exchange.verdict(last) is Resend),
        last.command_id != RESPONSE_NACK,
    ensures
        exchange.attempts + nacks.len() <= exchange.bound ==> exchange.outcome(nacks.push(last))
            == exchange.verdict(last),
        exchange.attempts + nacks.len() > exchange.bound ==> exchange.outcome(nacks.push(last))
            == (Verdict::Failure {
            kind: ErrorKind::RemoteFault(FAULT_NOT_ACCEPTED),
            message: default_message(ErrorKind::RemoteFault(FAULT_NOT_ACCEPTED)),
        }),
    decreases nacks.len(),
{
    let replies = nacks.push(last);
    if nacks.len() == 0 {
        assert(replies[0] == last);
    } else {
        assert(replies[0] == nacks[0]);
        assert(replies.drop_first() =~= nacks.drop_first().push(last));
        assert(nacks[0].command_id == RESPONSE_NACK);
        assert forall|i: int| 0 <= i < nacks.drop_first().len() implies (
        #[trigger] nacks.drop_first()[i]).command_id == RESPONSE_NACK by {
            assert(nacks.drop_first()[i] == nacks[i + 1]);
        }
        if exchange.attempts < exchange.bound {
            let next = exchange.after_reply(nacks[0]);
            assert(next.verdict(last) == exchange.verdict(last));
            lemma_nacks_then(next, nacks.drop_first(), last);
        }
    }
}

/// The bound on retries. Under a protocol version that has negative
/// acknowledgements, let a probe answer a fresh exchange with `nacks`, all
/// of them negative acknowledgements, and then with `ack`, a proper
/// acknowledgement of the command. If there are fewer negative
/// acknowledgements than the bound, the exchange ends in the success that
/// `ack` carries. If there are as many or more, it ends in a remote fault
/// before `ack` is ever looked at: the request is not sent more often than
/// the bound says.
pub proof fn lemma_retry_bound(
    version: ProtocolVersion,
    command: Command,
    bound: u32,
    nacks: Seq<FrameView>,
    ack: FrameView,
    value: ValueView,
)
    requires
        version.has_nack(),
        bound >= 1,
        all_nacks(nacks),
        response_of(version, command, ack) == Some(ResponseView::Success(value)),
    ensures
        nacks.len() < bound ==> begun(version, command, bound).outcome(nacks.push(ack))
            == Verdict::Success(value),
        nacks.len() >= bound ==> begun(version, command, bound).outcome(nacks.push(ack)) == (
        Verdict::Failure {
            kind: ErrorKind::RemoteFault(FAULT_NOT_ACCEPTED),
            message: default_message(ErrorKind::RemoteFault(FAULT_NOT_ACCEPTED)),
        }),
{
    lemma_nacks_then(begun(version, command, bound), nacks, ack);
}

} // verus!
