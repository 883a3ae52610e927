//! Negotiation of the protocol version when a session is opened.
//!
//! The host greets the probe with a frame that every firmware understands.
//! Firmware of the newest generation answers with its version number, and
//! the matter is settled. Older firmware answers with a bare
//! acknowledgement; the host then offers the older versions one by one, in
//! its order of preference, until the probe accepts one.
//!
//! The negotiator decides and remembers; the caller sends the frames it
//! hands out and brings back what the probe answered.

use crate::error::ErrorKind;
use crate::frame::{Frame, FrameView};
use crate::hex::{decode, decoded, hex_text};
use crate::version::ProtocolVersion;
use crate::wire::{ID_HANDSHAKE, ID_HELLO, RESPONSE_OK};
use vstd::prelude::*;

verus! {

/// How far a negotiation has come.
#[derive(Clone, Copy, Debug, PartialEq, Eq, Structural)]
pub enum Stage {
    /// Nothing was sent yet.
    Unconnected,
    /// The greeting is on its way.
    Hello,
    /// The version at this place of the order of preference was offered.
    Trying(usize),
    /// The probe accepted this version.
    Negotiated(ProtocolVersion),
    /// The negotiation ended without a version, for this reason.
    Failed(ErrorKind),
}

/// The greeting.
pub open spec fn hello() -> FrameView {
    FrameView { command_id: ID_HELLO, payload: Seq::empty() }
}

/// The frame that offers `version`.
pub open spec fn handshake(version: ProtocolVersion) -> FrameView {
    FrameView { command_id: ID_HANDSHAKE, payload: hex_text(seq![version.number()]) }
}

/// Whether `reply` accepts `version`: an acknowledgement that carries the
/// version's number as two digits.
pub open spec fn acknowledges(reply: FrameView, version: ProtocolVersion) -> bool {
    &&& reply.command_id == RESPONSE_OK
    &&& reply.payload.len() == 2
    &&& decoded(reply.payload, 2) == version.number()
}

/// Whether `reply` is the bare acknowledgement of older firmware.
pub open spec fn legacy_acknowledgement(reply: FrameView) -> bool {
    reply.command_id == RESPONSE_OK && reply.payload.len() == 0
}

/// A negotiation as a mathematical value: the versions to offer to older
/// firmware, in order of preference, and the stage reached.
pub struct NegotiatorView {
    pub order: Seq<ProtocolVersion>,
    pub stage: Stage,
}

impl NegotiatorView {
    /// The stage in which place `index` of the order is offered, or the
    /// failure that stands at the end of the order.
    pub open spec fn offering(self, index: int) -> Stage {
        if 0 <= index < self.order.len() && index <= usize::MAX {
            Stage::Trying(index as usize)
        } else {
            Stage::Failed(ErrorKind::NoCompatibleProtocol)
        }
    }

    /// The frame that is on its way to the probe at this stage, if any.
    pub open spec fn awaiting(self) -> Option<FrameView> {
        match self.stage {
            Stage::Hello => Some(hello()),
            Stage::Trying(index) => if index < self.order.len() {
                Some(handshake(self.order[index as int]))
            } else {
                None
            },
            _ => None,
        }
    }

    /// Whether a frame is on its way to the probe.
    pub open spec fn probing(self) -> bool {
        self.stage is Hello || self.stage is Trying
    }

    /// The negotiation once it was started. Only one that never started
    /// can be.
    pub open spec fn started(self) -> NegotiatorView {
        if self.stage is Unconnected {
            NegotiatorView { order: self.order, stage: Stage::Hello }
        } else {
            self
        }
    }

    /// The negotiation after the probe answered `reply` to the frame that
    /// was on its way.
    pub open spec fn after_reply(self, reply: FrameView) -> NegotiatorView {
        let stage = match self.stage {
            Stage::Hello => if acknowledges(reply, ProtocolVersion::V3) {
                Stage::Negotiated(ProtocolVersion::V3)
            } else if legacy_acknowledgement(reply) {
                self.offering(0)
            } else {
                Stage::Failed(ErrorKind::NoCompatibleProtocol)
            },
            Stage::Trying(index) => if index < self.order.len() && acknowledges(
                reply,
                self.order[index as int],
            ) {
                Stage::Negotiated(self.order[index as int])
            } else {
                self.offering(index + 1)
            },
            other => other,
        };
        NegotiatorView { order: self.order, stage }
    }

    /// The negotiation after the exchange in progress broke down.
    pub open spec fn after_failure(self, kind: ErrorKind) -> NegotiatorView {
        if self.probing() {
            NegotiatorView { order: self.order, stage: Stage::Failed(kind) }
        } else {
            self
        }
    }
}

/// The order in which versions are offered to older firmware unless the
/// caller gives another: the richer protocol first.
pub open spec fn default_order() -> Seq<ProtocolVersion> {
    seq![ProtocolVersion::V2, ProtocolVersion::V1, ProtocolVersion::V0]
}

/// Whether `frame` is the exec form of what `expected` describes.
pub open spec fn carries(frame: Option<Frame>, expected: Option<FrameView>) -> bool {
    match expected {
        Some(view) => frame matches Some(f) && f@ == view,
        None => frame.is_none(),
    }
}

/// Settles the protocol version of a session.
#[derive(Debug)]
pub struct Negotiator {
    order: Vec<ProtocolVersion>,
    stage: Stage,
}

impl View for Negotiator {
    type V = NegotiatorView;

    closed spec fn view(&self) -> NegotiatorView {
        NegotiatorView { order: self.order@, stage: self.stage }
    }
}

/// Whether `reply` accepts `version`.
pub fn accepts(reply: &Frame, version: ProtocolVersion) -> (yes: bool)
    ensures
        yes == acknowledges(reply@, version),
{
    let digits = reply.payload();
    reply.command_id() == RESPONSE_OK && digits.len() == 2 && decode(digits, 2)
        == version.to_number() as u64
}

/// Whether `reply` is the bare acknowledgement of older firmware.
pub fn is_legacy_acknowledgement(reply: &Frame) -> (yes: bool)
    ensures
        yes == legacy_acknowledgement(reply@),
{
    reply.command_id() == RESPONSE_OK && reply.payload().len() == 0
}

/// The greeting.
pub fn hello_frame() -> (frame: Frame)
    ensures
        frame@ == hello(),
{
    let nothing: Vec<u8> = Vec::new();
    let frame = Frame::request(ID_HELLO, nothing.as_slice());
    assert(frame@.payload =~= Seq::<u8>::empty());
    frame
}

/// The frame that offers `version`.
pub fn handshake_frame(version: ProtocolVersion) -> (frame: Frame)
    ensures
        frame@ == handshake(version),
{
    let mut number: Vec<u8> = Vec::new();
    number.push(version.to_number());
    assert(number@ =~= seq![version.number()]);
    Frame::request(ID_HANDSHAKE, number.as_slice())
}

impl Negotiator {
    /// A negotiation that offers older firmware the versions two, one and
    /// zero, in that order.
    pub fn new() -> (negotiator: Self)
        ensures
            negotiator@ == (NegotiatorView { order: default_order(), stage: Stage::Unconnected }),
    {
        let mut order: Vec<ProtocolVersion> = Vec::new();
        order.push(ProtocolVersion::V2);
        order.push(ProtocolVersion::V1);
        order.push(ProtocolVersion::V0);
        assert(order@ =~= default_order());
        Negotiator { order, stage: Stage::Unconnected }
    }

    /// A negotiation that offers older firmware the versions of `order`,
    /// first to last.
    pub fn with_order(order: Vec<ProtocolVersion>) -> (negotiator: Self)
        ensures
            negotiator@ == (NegotiatorView { order: order@, stage: Stage::Unconnected }),
    {
        Negotiator { order, stage: Stage::Unconnected }
    }

    /// The stage reached.
    pub fn stage(&self) -> (stage: Stage)
        ensures
            stage == self@.stage,
    {
        self.stage
    }

    /// The version that was negotiated, if the negotiation came that far.
    pub fn version(&self) -> (version: Option<ProtocolVersion>)
        ensures
            version == (match self@.stage {
                Stage::Negotiated(v) => Some(v),
                _ => None,
            }),
    {
        match self.stage {
            Stage::Negotiated(v) => Some(v),
            _ => None,
        }
    }

    fn offer(&self, index: usize) -> (result: (Stage, Option<Frame>))
        ensures
            result.0 == self@.offering(index as int),
            carries(result.1, (NegotiatorView { order: self@.order, stage: result.0 }).awaiting()),
    {
        if index < self.order.len() {
            (Stage::Trying(index), Some(handshake_frame(self.order[index])))
        } else {
            (Stage::Failed(ErrorKind::NoCompatibleProtocol), None)
        }
    }

    /// Starts the negotiation and returns the greeting to send. A
    /// negotiation is started once: later calls change nothing and return
    /// nothing.
    pub fn start(&mut self) -> (frame: Option<Frame>)
        ensures
            final(self)@ == old(self)@.started(),
            carries(
                frame,
                if old(self)@.stage is Unconnected {
                    Some(hello())
                } else {
                    None
                },
            ),
    {
        match self.stage {
            Stage::Unconnected => {
                self.stage = Stage::Hello;
                Some(hello_frame())
            },
            _ => None,
        }
    }

    /// Takes the probe's answer to the frame that was sent last, and
    /// returns the frame to send next; `None` once the negotiation has
    /// ended, one way or the other.
    pub fn on_reply(&mut self, reply: &Frame) -> (next: Option<Frame>)
        ensures
            final(self)@ == old(self)@.after_reply(reply@),
            carries(next, final(self)@.awaiting()),
    {
        match self.stage {
            Stage::Hello => {
                if accepts(reply, ProtocolVersion::V3) {
                    self.stage = Stage::Negotiated(ProtocolVersion::V3);
                    None
                } else if is_legacy_acknowledgement(reply) {
                    let (stage, next) = self.offer(0);
                    self.stage = stage;
                    next
                } else {
                    self.stage = Stage::Failed(ErrorKind::NoCompatibleProtocol);
                    None
                }
            },
            Stage::Trying(index) => {
                if index < self.order.len() && accepts(reply, self.order[index]) {
                    self.stage = Stage::Negotiated(self.order[index]);
                    None
                } else if index < usize::MAX {
                    let (stage, next) = self.offer(index + 1);
                    self.stage = stage;
                    next
                } else {
                    self.stage = Stage::Failed(ErrorKind::NoCompatibleProtocol);
                    None
                }
            },
            _ => None,
        }
    }

    /// Ends the negotiation because the exchange in progress broke down:
    /// a time-out, a transport error or a malformed frame, as `kind` says.
    /// A negotiation that has ended already keeps its result.
    pub fn on_failure(&mut self, kind: ErrorKind)
        ensures
            final(self)@ == old(self)@.after_failure(kind),
    {
        match self.stage {
            Stage::Hello => {
                self.stage = Stage::Failed(kind);
            },
            Stage::Trying(_) => {
                self.stage = Stage::Failed(kind);
            },
            _ => {},
        }
    }
}

/// The negotiation after up to `rounds` frames were sent to a probe that
/// answers each frame `f` with `probe(f)`.
pub open spec fn settled(
    negotiation: NegotiatorView,
    probe: spec_fn(FrameView) -> FrameView,
    rounds: nat,
) -> NegotiatorView
    decreases rounds,
{
    if rounds == 0 {
        negotiation
    } else {
        match negotiation.awaiting() {
            Some(frame) => settled(
                negotiation.after_reply(probe(frame)),
                probe,
                (rounds - 1) as nat,
            ),
            None => negotiation,
        }
    }
}

/// A probe that speaks `version` and nothing else. Firmware of the newest
/// generation answers the greeting with its number; older firmware answers
/// it with a bare acknowledgement, and accepts the offer of its own version
/// only.
pub open spec fn speaks_only(
    probe: spec_fn(FrameView) -> FrameView,
    version: ProtocolVersion,
) -> bool {
    if version == ProtocolVersion::V3 {
        acknowledges(probe(hello()), ProtocolVersion::V3)
    } else {
        &&& legacy_acknowledgement(probe(hello()))
        &&& forall|offered: ProtocolVersion|
            acknowledges(#[trigger] probe(handshake(offered)), offered) <==> offered == version
    }
}

/// From any place of the order at or before one that holds `version`, the
/// offers reach that version and stop there.
proof fn lemma_offers_reach(
    order: Seq<ProtocolVersion>,
    probe: spec_fn(FrameView) -> FrameView,
    version: ProtocolVersion,
    index: int,
    place: int,
    rounds: nat,
)
    requires
        order.len() <= usize::MAX,
        0 <= index <= place < order.len(),
        order[place] == version,
        forall|offered: ProtocolVersion|
            acknowledges(#[trigger] probe(handshake(offered)), offered) <==> offered == version,
        rounds >= place - index + 1,
    ensures
        settled(
            NegotiatorView { order, stage: Stage::Trying(index as usize) },
            probe,
            rounds,
        ).stage == Stage::Negotiated(version),
    decreases place - index,
{
    let here = NegotiatorView { order, stage: Stage::Trying(index as usize) };
    let reply = probe(handshake(order[index]));
    let next = here.after_reply(reply);
    assert(here.awaiting() == Some(handshake(order[index])));
    assert(settled(here, probe, rounds) == settled(next, probe, (rounds - 1) as nat));
    if order[index] == version {
        assert(next.stage == Stage::Negotiated(version));
        assert(next.awaiting().is_none());
    } else {
        assert(index < place);
        assert(next.stage == Stage::Trying((index + 1) as usize));
        lemma_offers_reach(order, probe, version, index + 1, place, (rounds - 1) as nat);
    }
}

/// Negotiation is determined by the probe. Against a probe that speaks one
/// version only, a negotiation settles on that version and on no other,
/// whatever the order in which the older versions are offered, provided the
/// version is offered at all. It does so with the greeting and at most one
/// offer for each place of the order.
pub proof fn lemma_negotiation_settles(
    order: Seq<ProtocolVersion>,
    probe: spec_fn(FrameView) -> FrameView,
    version: ProtocolVersion,
)
    requires
        order.len() < usize::MAX,
        speaks_only(probe, version),
        version == ProtocolVersion::V3 || order.contains(version),
    ensures
        settled(
            (NegotiatorView { order, stage: Stage::Unconnected }).started(),
            probe,
            order.len() + 1,
        ).stage == Stage::Negotiated(version),
{
    let greeting = NegotiatorView { order, stage: Stage::Hello };
    let next = greeting.after_reply(probe(hello()));
    let rounds: nat = order.len();
    assert(greeting.awaiting() == Some(hello()));
    assert(settled(greeting, probe, rounds + 1) == settled(next, probe, rounds));
    if version == ProtocolVersion::V3 {
        assert(next.stage == Stage::Negotiated(version));
        assert(next.awaiting().is_none());
    } else {
        let place = choose|i: int| 0 <= i < order.len() && order[i] == version;
        assert(next.stage == Stage::Trying(0));
        lemma_offers_reach(order, probe, version, 0, place, rounds);
    }
}

} // verus!
