//! Reception of frames from a byte stream.
//!
//! The stream is taken byte by byte. Whatever comes before a start marker
//! is noise and dropped; what follows one is collected until the end marker
//! arrives. The receiver waits for nothing and reads nothing itself: the
//! caller hands it the bytes it got, and tells it when the deadline passed.

use crate::error::{BlackMagicProbeError, ErrorKind};
use crate::frame::{
    parse_body, Frame, FrameView, FRAME_END, FRAME_START, MAX_FRAME_BODY,
};
use vstd::prelude::*;
use vstd::slice::{slice_subrange, slice_to_vec};

verus! {

/// The state of a receiver as a mathematical value: whether a start marker
/// was seen, and what was collected since.
pub struct ReceiverView {
    pub collecting: bool,
    pub body: Seq<u8>,
}

/// What a byte brought about.
pub enum Outcome {
    /// No frame is complete yet.
    Pending,
    /// The end marker closed this frame.
    Complete(FrameView),
    /// The bytes between the markers were no frame, or there were too many
    /// of them.
    Malformed,
}

/// The state in which the receiver waits for a start marker.
pub open spec fn idle() -> ReceiverView {
    ReceiverView { collecting: false, body: Seq::empty() }
}

/// The state in which the receiver has collected `body` since the start
/// marker.
pub open spec fn collecting(body: Seq<u8>) -> ReceiverView {
    ReceiverView { collecting: true, body }
}

/// The state after `byte`, from `state`.
pub open spec fn next_state(state: ReceiverView, byte: u8) -> ReceiverView {
    if !state.collecting {
        if byte == FRAME_START {
            collecting(Seq::empty())
        } else {
            state
        }
    } else if byte == FRAME_END || state.body.len() >= MAX_FRAME_BODY {
        idle()
    } else {
        collecting(state.body.push(byte))
    }
}

/// What `byte` brings about in `state`.
pub open spec fn outcome_of(state: ReceiverView, byte: u8) -> Outcome {
    if !state.collecting {
        Outcome::Pending
    } else if byte == FRAME_END {
        match parse_body(state.body) {
            Some(frame) => Outcome::Complete(frame),
            None => Outcome::Malformed,
        }
    } else if state.body.len() >= MAX_FRAME_BODY {
        Outcome::Malformed
    } else {
        Outcome::Pending
    }
}

/// Where a receiver stands after it was given a run of bytes: its state,
/// how many of the bytes it took, and what the last of them brought about.
pub struct Reception {
    pub state: ReceiverView,
    pub consumed: nat,
    pub outcome: Outcome,
}

impl Reception {
    /// The same reception, seen from `count` bytes further back.
    pub open spec fn after(self, count: nat) -> Reception {
        Reception { state: self.state, consumed: self.consumed + count, outcome: self.outcome }
    }
}

/// Feeding `bytes` to a receiver in `state`: bytes are taken from the left
/// until one completes a frame or spoils one, or until none is left.
pub open spec fn reception(state: ReceiverView, bytes: Seq<u8>) -> Reception
    decreases bytes.len(),
{
    if bytes.len() == 0 {
        Reception { state, consumed: 0, outcome: Outcome::Pending }
    } else if outcome_of(state, bytes[0]) is Pending {
        reception(next_state(state, bytes[0]), bytes.drop_first()).after(1)
    } else {
        Reception {
            state: next_state(state, bytes[0]),
            consumed: 1,
            outcome: outcome_of(state, bytes[0]),
        }
    }
}

/// Whether `result` is how the receiver reports `outcome`.
pub open spec fn reports(
    result: Option<Result<Frame, BlackMagicProbeError>>,
    outcome: Outcome,
) -> bool {
    match outcome {
        Outcome::Pending => result.is_none(),
        Outcome::Complete(frame) => result matches Some(Ok(got)) && got@ == frame,
        Outcome::Malformed => result matches Some(Err(error)) && error.plain(
            ErrorKind::MalformedFrame,
        ),
    }
}

/// Collects frames out of a byte stream.
#[derive(Debug)]
pub struct FrameReceiver {
    collecting: bool,
    body: Vec<u8>,
}

impl View for FrameReceiver {
    type V = ReceiverView;

    closed spec fn view(&self) -> ReceiverView {
        ReceiverView { collecting: self.collecting, body: self.body@ }
    }
}

impl FrameReceiver {
    /// A receiver that waits for a start marker.
    pub fn new() -> (receiver: Self)
        ensures
            receiver@ == idle(),
    {
        FrameReceiver { collecting: false, body: Vec::new() }
    }

    /// Whether the receiver waits for a start marker, with no frame in
    /// progress.
    pub fn is_idle(&self) -> (idle: bool)
        ensures
            idle == !self@.collecting,
    {
        !self.collecting
    }

    /// Takes one byte from the stream.
    ///
    /// Returns the frame that the byte completed, or the error for a frame
    /// that it spoiled; `None` while there is neither.
    pub fn push(&mut self, byte: u8) -> (result: Option<Result<Frame, BlackMagicProbeError>>)
        ensures
            final(self)@ == next_state(old(self)@, byte),
            reports(result, outcome_of(old(self)@, byte)),
    {
        if !self.collecting {
            if byte == FRAME_START {
                self.body.clear();
                self.collecting = true;
            }
            None
        } else if byte == FRAME_END {
            let result = if self.body.len() == 0 {
                Err(BlackMagicProbeError::new(ErrorKind::MalformedFrame))
            } else {
                let held = self.body.as_slice();
                let digits = slice_to_vec(slice_subrange(held, 1, held.len()));
                assert(digits@ =~= self.body@.skip(1));
                Frame::from_digits(held[0], digits)
            };
            self.body.clear();
            self.collecting = false;
            Some(result)
        } else if self.body.len() >= MAX_FRAME_BODY {
            self.body.clear();
            self.collecting = false;
            Some(Err(BlackMagicProbeError::new(ErrorKind::MalformedFrame)))
        } else {
            self.body.push(byte);
            None
        }
    }

    /// Takes bytes from the stream until one of them completes or spoils a
    /// frame, or until `bytes` is used up.
    ///
    /// Returns how many bytes were taken, and what `push` returned for the
    /// last of them. Bytes that were not taken belong to what follows, and
    /// are for the next call.
    pub fn receive_frame(&mut self, bytes: &[u8]) -> (result: (
        usize,
        Option<Result<Frame, BlackMagicProbeError>>,
    ))
        ensures
            final(self)@ == reception(old(self)@, bytes@).state,
            result.0 == reception(old(self)@, bytes@).consumed,
            reports(result.1, reception(old(self)@, bytes@).outcome),
    {
        let mut i: usize = 0;
        assert(bytes@.skip(0) =~= bytes@);
        while i < bytes.len()
            invariant
                i <= bytes.len(),
                reception(old(self)@, bytes@) == reception(self@, bytes@.skip(i as int)).after(
                    i as nat,
                ),
            decreases bytes.len() - i,
        {
            let ghost before = self@;
            let result = self.push(bytes[i]);
            proof {
                let rest = bytes@.skip(i as int);
                assert(rest[0] == bytes@[i as int]);
                assert(rest.drop_first() =~= bytes@.skip(i + 1));
            }
            i += 1;
            if result.is_some() {
                return (i, result);
            }
        }
        (i, None)
    }

    /// Gives up on the frame in progress because the deadline passed.
    ///
    /// What was collected is dropped and the receiver waits for a start
    /// marker again, so that the tail of a late response cannot run into
    /// the next one. Returns the error to report.
    pub fn timed_out(&mut self) -> (error: BlackMagicProbeError)
        ensures
            final(self)@ == idle(),
            error.plain(ErrorKind::Timeout),
    {
        self.body.clear();
        self.collecting = false;
        BlackMagicProbeError::new(ErrorKind::Timeout)
    }
}

/// A receiver never holds more than a frame may hold: whatever byte
/// arrives, what is collected stays within the longest body.
pub proof fn lemma_body_stays_bounded(state: ReceiverView, byte: u8)
    requires
        state.body.len() <= MAX_FRAME_BODY,
    ensures
        next_state(state, byte).body.len() <= MAX_FRAME_BODY,
{
}

/// While no frame is open, bytes other than the start marker are dropped:
/// the reception goes on with what follows them.
pub proof fn lemma_noise_is_dropped(state: ReceiverView, noise: Seq<u8>, rest: Seq<u8>)
    requires
        !state.collecting,
        forall|i: int| 0 <= i < noise.len() ==> #[trigger] noise[i] != FRAME_START,
    ensures
        reception(state, noise + rest) == reception(state, rest).after(noise.len()),
    decreases noise.len(),
{
    if noise.len() == 0 {
        assert(noise + rest =~= rest);
    } else {
        let all = noise + rest;
        assert(all[0] == noise[0]);
        assert(all.drop_first() =~= noise.drop_first() + rest);
        let later = noise.drop_first();
        assert forall|i: int| 0 <= i < later.len() implies #[trigger] later[i] != FRAME_START by {
            assert(later[i] == noise[i + 1]);
        }
        lemma_noise_is_dropped(state, noise.drop_first(), rest);
    }
}

/// While a frame is open, bytes other than the end marker are collected,
/// as long as the frame has room for them.
pub proof fn lemma_body_is_collected(body: Seq<u8>, more: Seq<u8>, rest: Seq<u8>)
    requires
        body.len() + more.len() <= MAX_FRAME_BODY,
        forall|i: int| 0 <= i < more.len() ==> #[trigger] more[i] != FRAME_END,
    ensures
        reception(collecting(body), more + rest) == reception(collecting(body + more), rest).after(
            more.len(),
        ),
    decreases more.len(),
{
    if more.len() == 0 {
        assert(more + rest =~= rest);
        assert(body + more =~= body);
    } else {
        let all = more + rest;
        assert(all[0] == more[0]);
        assert(all.drop_first() =~= more.drop_first() + rest);
        let later = more.drop_first();
        assert forall|i: int| 0 <= i < later.len() implies #[trigger] later[i] != FRAME_END by {
            assert(later[i] == more[i + 1]);
        }
        lemma_body_is_collected(body.push(more[0]), more.drop_first(), rest);
        assert(body.push(more[0]) + more.drop_first() =~= body + more);
    }
}

/// A receiver that waits for a start marker reads the wire form of a valid
/// frame as that frame, takes exactly its bytes, and then waits again.
pub proof fn lemma_receives_frame(frame: FrameView, rest: Seq<u8>)
    requires
        frame.valid(),
    ensures
        reception(idle(), frame.wire() + rest) == (Reception {
            state: idle(),
            consumed: frame.wire().len(),
            outcome: Outcome::Complete(frame),
        }),
{
    let body = frame.body();
    let wire = frame.wire() + rest;
    let tail = seq![FRAME_END] + rest;
    assert(wire[0] == FRAME_START);
    assert(wire.drop_first() =~= body + tail);
    assert forall|i: int| 0 <= i < body.len() implies #[trigger] body[i] != FRAME_END by {
        if i > 0 {
            assert(body[i] == frame.payload[i - 1]);
        }
    }
    lemma_body_is_collected(Seq::empty(), body, tail);
    assert(Seq::<u8>::empty() + body =~= body);
    assert(tail[0] == FRAME_END);
    assert(body.skip(1) =~= frame.payload);
    assert(parse_body(body) == Some(frame));
}

/// Time-out isolation: once the receiver has given up on a response, what
/// still trickles in of it does not spoil the next one. Whatever bytes
/// arrive before the next start marker, the valid frame that follows them
/// is read as itself, and the receiver takes the bytes up to its end marker
/// and no more.
pub proof fn lemma_resynchronizes(noise: Seq<u8>, frame: FrameView, rest: Seq<u8>)
    requires
        forall|i: int| 0 <= i < noise.len() ==> #[trigger] noise[i] != FRAME_START,
        frame.valid(),
    ensures
        reception(idle(), noise + frame.wire() + rest) == (Reception {
            state: idle(),
            consumed: noise.len() + frame.wire().len(),
            outcome: Outcome::Complete(frame),
        }),
{
    assert(noise + frame.wire() + rest =~= noise + (frame.wire() + rest));
    lemma_noise_is_dropped(idle(), noise, frame.wire() + rest);
    lemma_receives_frame(frame, rest);
}

} // verus!
