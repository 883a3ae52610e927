use blackmagic_remote::command::Command;
use blackmagic_remote::error::{BlackMagicProbeError, ErrorKind};
use blackmagic_remote::exchange::{Exchange, Progress, DEFAULT_RETRY_BOUND, FAULT_NOT_ACCEPTED};
use blackmagic_remote::frame::{confirm_write, Frame};
use blackmagic_remote::hex::{decode, encode};
use blackmagic_remote::negotiate::{
    accepts, handshake_frame, hello_frame, is_legacy_acknowledgement, Negotiator, Stage,
};
use blackmagic_remote::probe::BlackMagicProbe;
use blackmagic_remote::receiver::FrameReceiver;
use blackmagic_remote::response::{JtagDevice, Value};
use blackmagic_remote::text::text_from_bytes;
use blackmagic_remote::version::ProtocolVersion;
use blackmagic_remote::version::ProtocolVersion::{V0, V1, V2, V3};

/// A probe that exists in memory only. It reads request frames from what is
/// written to it and queues the response frames of its firmware version.
struct SimProbe {
    version: ProtocolVersion,
    present: bool,
    nacks: u32,
    silent: u32,
    short_write: bool,
    garbage_before_reply: &'static [u8],
    power: bool,
    reset: bool,
    frequency: u32,
    dp_value: u32,
    voltage: &'static [u8],
    written: Vec<u8>,
    requests: Vec<Frame>,
    inbox: FrameReceiver,
    outbox: Vec<u8>,
    held_back: Vec<u8>,
    closed: bool,
}

impl SimProbe {
    fn new(version: ProtocolVersion) -> Self {
        SimProbe {
            version,
            present: true,
            nacks: 0,
            silent: 0,
            short_write: false,
            garbage_before_reply: b"",
            power: true,
            reset: false,
            frequency: 4_000_000,
            dp_value: 0x2ba0_1477,
            voltage: b"1.8V",
            written: Vec::new(),
            requests: Vec::new(),
            inbox: FrameReceiver::new(),
            outbox: Vec::new(),
            held_back: Vec::new(),
            closed: false,
        }
    }

    fn number(&self) -> u8 {
        self.version.to_number()
    }

    fn ok(payload: &[u8]) -> Vec<u8> {
        Frame::new(b'K', payload).unwrap().to_wire()
    }

    fn fault(code: u8, words: &[u8]) -> Vec<u8> {
        let mut payload = vec![code];
        payload.extend_from_slice(words);
        Frame::new(b'E', &payload).unwrap().to_wire()
    }

    fn answer(&mut self, request: &Frame) -> Vec<u8> {
        let digits = request.payload();
        match request.command_id() {
            b'S' => {
                if self.number() == 3 {
                    Self::ok(&[3])
                } else {
                    Self::ok(&[])
                }
            }
            b'H' => {
                if digits.len() == 2 && decode(digits, 2) == self.number() as u64 {
                    Self::ok(&[self.number()])
                } else {
                    Self::fault(1, b"unknown version")
                }
            }
            _ if self.nacks > 0 && self.number() >= 2 => {
                self.nacks -= 1;
                Frame::new(b'N', &[]).unwrap().to_wire()
            }
            b'P' => {
                self.power = decode(digits, 2) == 1;
                Self::ok(&[])
            }
            b'p' => Self::ok(&[self.power as u8]),
            b'Z' => {
                self.reset = decode(digits, 2) == 1;
                Self::ok(&[])
            }
            b'z' => Self::ok(&[self.reset as u8]),
            b'F' => {
                self.frequency = decode(digits, 8) as u32;
                Self::ok(&[])
            }
            b'f' => Self::ok(&self.frequency.to_be_bytes()),
            b'V' => Self::ok(self.voltage),
            b'r' => {
                let expected = if self.number() == 0 { 2 } else { 4 };
                if digits.len() == expected {
                    Self::ok(&self.dp_value.to_be_bytes())
                } else {
                    Self::fault(3, b"bad length")
                }
            }
            b'w' => Self::ok(&[]),
            b'q' => Self::ok(&0x0123_4567_89ab_cdefu64.to_be_bytes()),
            b'J' => Self::ok(&[0x4b, 0xa0, 0x04, 0x77, 4, 0x06, 0x41, 0x30, 0x41, 5]),
            _ => Self::fault(2, b"unknown command"),
        }
    }

    fn write(&mut self, bytes: &[u8]) -> Option<usize> {
        if !self.present {
            return None;
        }
        if self.short_write {
            self.written.extend_from_slice(&bytes[..bytes.len() - 1]);
            return Some(bytes.len() - 1);
        }
        self.written.extend_from_slice(bytes);
        let mut rest = bytes;
        while !rest.is_empty() {
            let (taken, outcome) = self.inbox.receive_frame(rest);
            rest = &rest[taken..];
            if let Some(Ok(request)) = outcome {
                let reply = self.answer(&request);
                self.requests.push(request);
                if self.silent > 0 {
                    self.silent -= 1;
                    self.held_back.extend_from_slice(&reply);
                } else {
                    self.outbox.extend_from_slice(self.garbage_before_reply);
                    self.outbox.extend_from_slice(&reply);
                }
            }
        }
        Some(bytes.len())
    }

    /// Up to `limit` bytes that have arrived; none means that the deadline
    /// passed.
    fn read(&mut self, limit: usize) -> Vec<u8> {
        let count = limit.min(self.outbox.len());
        self.outbox.drain(..count).collect()
    }

    /// What was held back arrives after all, cut short by `missing` bytes at
    /// its front.
    fn release_late(&mut self, missing: usize) {
        let late: Vec<u8> = self.held_back.drain(..).collect();
        let mut all = late[missing.min(late.len())..].to_vec();
        all.extend_from_slice(&self.outbox);
        self.outbox = all;
    }

    fn close(&mut self) {
        self.closed = true;
    }
}

/// The caller's side of the link: the loop that moves bytes.
struct Link {
    sim: SimProbe,
    receiver: FrameReceiver,
    unread: Vec<u8>,
    chunk: usize,
}

impl Link {
    fn new(sim: SimProbe) -> Self {
        Link { sim, receiver: FrameReceiver::new(), unread: Vec::new(), chunk: 5 }
    }

    fn send(&mut self, bytes: &[u8]) -> Result<(), BlackMagicProbeError> {
        let written = self.sim.write(bytes);
        confirm_write(bytes.len(), written)
    }

    fn receive(&mut self) -> Result<Frame, BlackMagicProbeError> {
        loop {
            if self.unread.is_empty() {
                self.unread = self.sim.read(self.chunk);
                if self.unread.is_empty() {
                    return Err(self.receiver.timed_out());
                }
            }
            let (taken, outcome) = self.receiver.receive_frame(&self.unread);
            self.unread.drain(..taken);
            if let Some(result) = outcome {
                return result;
            }
        }
    }

    fn negotiate(&mut self, mut negotiator: Negotiator) -> (Negotiator, usize) {
        let mut sent = 0;
        let mut next = negotiator.start();
        while let Some(frame) = next {
            sent += 1;
            assert!(sent <= 100);
            if let Err(error) = self.send(&frame.to_wire()) {
                negotiator.on_failure(error.kind);
                break;
            }
            match self.receive() {
                Ok(reply) => next = negotiator.on_reply(&reply),
                Err(error) => {
                    negotiator.on_failure(error.kind);
                    break;
                }
            }
        }
        (negotiator, sent)
    }

    fn open(&mut self, serial: &str) -> Result<BlackMagicProbe, BlackMagicProbeError> {
        if !self.sim.present {
            return BlackMagicProbe::open_by_serial(serial, false, &Negotiator::new());
        }
        let (negotiator, _) = self.negotiate(Negotiator::new());
        BlackMagicProbe::open_by_serial(serial, true, &negotiator)
    }

    fn run(&mut self, exchange: &mut Exchange) -> Result<Value, BlackMagicProbeError> {
        loop {
            let bytes = exchange.request_bytes().to_vec();
            self.send(&bytes)?;
            let reply = self.receive()?;
            match exchange.on_reply(&reply) {
                Progress::Resend => continue,
                Progress::Finished(result) => return result,
            }
        }
    }

    fn round_trip(
        &mut self,
        probe: &BlackMagicProbe,
        command: Command,
    ) -> Result<Value, BlackMagicProbeError> {
        let mut exchange = probe.submit(&command)?;
        self.run(&mut exchange)
    }

    fn set_power(&mut self, probe: &mut BlackMagicProbe, enable: bool) -> Result<bool, BlackMagicProbeError> {
        let value = self.round_trip(probe, Command::SetPower { enable })?;
        probe.set_power(enable, &value)
    }

    fn max_speed_get(&mut self, probe: &mut BlackMagicProbe) -> Result<u32, BlackMagicProbeError> {
        let value = self.round_trip(probe, Command::GetFrequency)?;
        probe.max_speed_get(&value)
    }

    fn max_speed_set(&mut self, probe: &mut BlackMagicProbe, speed: u32) -> Result<(), BlackMagicProbeError> {
        let value = self.round_trip(probe, Command::SetFrequency { hertz: speed })?;
        probe.max_speed_set(speed, &value)
    }

    fn target_voltage(&mut self, probe: &BlackMagicProbe) -> Result<String, BlackMagicProbeError> {
        let value = self.round_trip(probe, Command::ReadVoltage)?;
        probe.target_voltage(&value)
    }

    fn dp_read(&mut self, probe: &BlackMagicProbe, address: u8) -> Result<u32, BlackMagicProbeError> {
        let value = self.round_trip(probe, Command::DpRead { device: 0, address })?;
        probe.dp_read(&value)
    }
}

fn opened(version: ProtocolVersion) -> (Link, BlackMagicProbe) {
    let mut link = Link::new(SimProbe::new(version));
    let probe = link.open("98B72495").unwrap();
    (link, probe)
}

const VERSIONS: [ProtocolVersion; 4] =
    [ProtocolVersion::V0, ProtocolVersion::V1, ProtocolVersion::V2, ProtocolVersion::V3];

#[test]
fn test_bmp_hil() {
    let serial = "98B72495";
    let target_voltage = "1.8V";

    let mut link = Link::new(SimProbe::new(ProtocolVersion::V3));
    let mut bmp = link.open(serial).unwrap();
    assert_eq!(link.set_power(&mut bmp, true), Ok(true));

    // Target voltage should be ON after initializing
    assert_eq!(link.target_voltage(&bmp).unwrap(), target_voltage);

    // We should be able to set the speed to a lower value of the max
    let speed1 = link.max_speed_get(&mut bmp).unwrap();
    assert!(speed1 > 0);
    link.max_speed_set(&mut bmp, speed1 / 2).unwrap();
    let speed2 = link.max_speed_get(&mut bmp).unwrap();
    assert!(speed2 < speed1);
}

#[test]
fn negotiation_frames_on_the_wire() {
    assert_eq!(hello_frame().to_wire(), b"!S#".to_vec());
    assert_eq!(handshake_frame(ProtocolVersion::V0).to_wire(), b"!H00#".to_vec());
    assert_eq!(handshake_frame(ProtocolVersion::V2).to_wire(), b"!H02#".to_vec());
    let ack = Frame::from_digits(b'K', b"02".to_vec()).unwrap();
    assert!(accepts(&ack, ProtocolVersion::V2));
    assert!(!accepts(&ack, ProtocolVersion::V1));
    assert!(!accepts(&Frame::from_digits(b'K', b"2".to_vec()).unwrap(), ProtocolVersion::V2));
    assert!(!accepts(&Frame::from_digits(b'K', b"002".to_vec()).unwrap(), ProtocolVersion::V2));
    assert!(!accepts(&Frame::from_digits(b'E', b"02".to_vec()).unwrap(), ProtocolVersion::V2));
    assert!(is_legacy_acknowledgement(&Frame::from_digits(b'K', Vec::new()).unwrap()));
    assert!(!is_legacy_acknowledgement(&ack));
    assert!(!is_legacy_acknowledgement(&Frame::from_digits(b'E', Vec::new()).unwrap()));
}

#[test]
fn negotiation_settles_on_the_version_of_the_firmware() {
    for version in VERSIONS {
        let mut link = Link::new(SimProbe::new(version));
        let (negotiator, sent) = link.negotiate(Negotiator::new());
        assert_eq!(negotiator.stage(), Stage::Negotiated(version));
        assert_eq!(negotiator.version(), Some(version));
        let expected = match version {
            ProtocolVersion::V3 => 1,
            ProtocolVersion::V2 => 2,
            ProtocolVersion::V1 => 3,
            ProtocolVersion::V0 => 4,
        };
        assert_eq!(sent, expected);
        assert_eq!(link.sim.requests.len(), expected);
    }
}

#[test]
fn negotiation_offers_versions_in_descending_order() {
    let mut link = Link::new(SimProbe::new(ProtocolVersion::V0));
    let (negotiator, _) = link.negotiate(Negotiator::new());
    assert_eq!(negotiator.version(), Some(ProtocolVersion::V0));
    assert_eq!(link.sim.written, b"!S#!H02#!H01#!H00#".to_vec());
}

#[test]
fn negotiation_against_v1_firmware_settles_on_v1_in_every_order() {
    let orders: [&[ProtocolVersion]; 10] = [
        &[V2, V1, V0],
        &[V2, V0, V1],
        &[V1, V2, V0],
        &[V1, V0, V2],
        &[V0, V1, V2],
        &[V0, V2, V1],
        &[V1],
        &[V3, V2, V1, V0],
        &[V0, V0, V3, V1, V1],
        &[V2, V1],
    ];
    for order in orders {
        let mut link = Link::new(SimProbe::new(V1));
        let (negotiator, sent) = link.negotiate(Negotiator::with_order(order.to_vec()));
        assert_eq!(negotiator.stage(), Stage::Negotiated(V1));
        assert!(sent <= order.len() + 1);
        let place = order.iter().position(|v| *v == V1).unwrap();
        assert_eq!(sent, place + 2);
    }
}

#[test]
fn negotiation_fails_when_no_offer_is_accepted() {
    let mut link = Link::new(SimProbe::new(V1));
    let (negotiator, sent) = link.negotiate(Negotiator::with_order(vec![V2, V0]));
    assert_eq!(negotiator.stage(), Stage::Failed(ErrorKind::NoCompatibleProtocol));
    assert_eq!(negotiator.version(), None);
    assert_eq!(sent, 3);
    let error = BlackMagicProbe::open_by_serial("98B72495", true, &negotiator).unwrap_err();
    assert_eq!(error.kind, ErrorKind::NoCompatibleProtocol);
    assert_eq!(error.to_text(), "Could not initialize device");

    let mut link = Link::new(SimProbe::new(V1));
    let (negotiator, sent) = link.negotiate(Negotiator::with_order(Vec::new()));
    assert_eq!(negotiator.stage(), Stage::Failed(ErrorKind::NoCompatibleProtocol));
    assert_eq!(sent, 1);
}

#[test]
fn negotiation_fails_on_an_unknown_answer_to_the_greeting() {
    for text in [&b"E01"[..], b"K04", b"K0003", b"N", b"X"] {
        let mut negotiator = Negotiator::new();
        assert_eq!(negotiator.start(), Some(hello_frame()));
        assert_eq!(negotiator.stage(), Stage::Hello);
        let reply = Frame::from_digits(text[0], text[1..].to_vec()).unwrap();
        assert_eq!(negotiator.on_reply(&reply), None);
        assert_eq!(negotiator.stage(), Stage::Failed(ErrorKind::NoCompatibleProtocol));
    }
}

#[test]
fn negotiation_is_one_shot() {
    let mut negotiator = Negotiator::new();
    assert_eq!(negotiator.stage(), Stage::Unconnected);
    let ack = Frame::from_digits(b'K', b"03".to_vec()).unwrap();
    assert_eq!(negotiator.on_reply(&ack), None);
    assert_eq!(negotiator.stage(), Stage::Unconnected);
    assert!(negotiator.start().is_some());
    assert_eq!(negotiator.start(), None);
    assert_eq!(negotiator.on_reply(&ack), None);
    assert_eq!(negotiator.stage(), Stage::Negotiated(ProtocolVersion::V3));
    assert_eq!(negotiator.start(), None);
    let legacy = Frame::from_digits(b'K', Vec::new()).unwrap();
    assert_eq!(negotiator.on_reply(&legacy), None);
    negotiator.on_failure(ErrorKind::Timeout);
    assert_eq!(negotiator.stage(), Stage::Negotiated(ProtocolVersion::V3));
}

#[test]
fn negotiation_reports_what_broke_it() {
    let mut sim = SimProbe::new(ProtocolVersion::V2);
    sim.silent = 1;
    let mut link = Link::new(sim);
    let error = link.open("98B72495").unwrap_err();
    assert_eq!(error.kind, ErrorKind::Timeout);

    let mut sim = SimProbe::new(ProtocolVersion::V2);
    sim.short_write = true;
    let mut link = Link::new(sim);
    let error = link.open("98B72495").unwrap_err();
    assert_eq!(error.kind, ErrorKind::Transport);

    let mut negotiator = Negotiator::new();
    negotiator.start();
    negotiator.on_reply(&Frame::from_digits(b'K', Vec::new()).unwrap());
    assert_eq!(negotiator.stage(), Stage::Trying(0));
    negotiator.on_failure(ErrorKind::MalformedFrame);
    assert_eq!(negotiator.stage(), Stage::Failed(ErrorKind::MalformedFrame));
    negotiator.on_failure(ErrorKind::Timeout);
    assert_eq!(negotiator.stage(), Stage::Failed(ErrorKind::MalformedFrame));
}

#[test]
fn open_needs_a_transport_and_a_finished_negotiation() {
    let mut sim = SimProbe::new(ProtocolVersion::V3);
    sim.present = false;
    let mut link = Link::new(sim);
    let error = link.open("98B72495").unwrap_err();
    assert_eq!(error.kind, ErrorKind::Open);
    assert_eq!(error.to_text(), "Could not open serial device");
    assert!(link.sim.written.is_empty());

    let unfinished = Negotiator::new();
    let error = BlackMagicProbe::open_by_serial("98B72495", true, &unfinished).unwrap_err();
    assert_eq!(error.kind, ErrorKind::NoCompatibleProtocol);
    let mut greeting = Negotiator::new();
    greeting.start();
    let error = BlackMagicProbe::open_by_serial("98B72495", true, &greeting).unwrap_err();
    assert_eq!(error.kind, ErrorKind::NoCompatibleProtocol);
}

#[test]
fn a_fresh_session_knows_nothing_of_the_target() {
    for version in VERSIONS {
        let (_, probe) = opened(version);
        assert_eq!(probe.serial(), "98B72495");
        assert_eq!(probe.version(), version);
        assert_eq!(probe.retry_bound(), DEFAULT_RETRY_BOUND);
        assert_eq!(probe.cached_power(), None);
        assert_eq!(probe.cached_reset(), None);
        assert_eq!(probe.cached_frequency(), None);
    }
}

#[test]
fn wide_register_command_against_v0_writes_nothing() {
    let (mut link, probe) = opened(ProtocolVersion::V0);
    let before = link.sim.written.len();
    for command in [
        Command::WideRead { device: 0, ap: 0, address: 0x10 },
        Command::WideWrite { device: 0, ap: 0, address: 0x10, value: 1 },
    ] {
        let error = link.round_trip(&probe, command).unwrap_err();
        assert_eq!(error.kind, ErrorKind::UnsupportedOperation);
        assert!(probe.submit(&command).is_err());
    }
    assert_eq!(link.sim.written.len(), before);
}

#[test]
fn invalid_parameters_write_nothing() {
    for version in VERSIONS {
        let (mut link, mut probe) = opened(version);
        let before = link.sim.written.len();
        for command in [
            Command::SetFrequency { hertz: 0 },
            Command::SetFrequency { hertz: 4_000_001 },
            Command::DpRead { device: 0, address: 0x1 },
            Command::SwdIn { bits: 0 },
            Command::WideRead { device: 0, ap: 0, address: 0x3 },
        ] {
            let error = link.round_trip(&probe, command).unwrap_err();
            assert_eq!(error.kind, ErrorKind::InvalidParameter);
            assert_eq!(error.to_text(), "Invalid parameter");
        }
        assert!(link.max_speed_set(&mut probe, 0).is_err());
        assert_eq!(probe.cached_frequency(), None);
        assert_eq!(link.sim.written.len(), before);
    }
}

#[test]
fn timeout_leaves_the_session_usable() {
    let (mut link, mut probe) = opened(ProtocolVersion::V2);
    link.sim.silent = 1;
    let error = link.max_speed_get(&mut probe).unwrap_err();
    assert_eq!(error.kind, ErrorKind::Timeout);
    assert_eq!(probe.version(), ProtocolVersion::V2);
    assert_eq!(probe.cached_frequency(), None);
    assert!(link.receiver.is_idle());
    // The tail of the late response trickles in before the next one.
    link.sim.release_late(3);
    assert_eq!(link.dp_read(&probe, 0x0), Ok(0x2ba0_1477));
}

#[test]
fn timeout_in_the_middle_of_a_frame_does_not_spoil_the_next() {
    let (mut link, probe) = opened(ProtocolVersion::V1);
    link.sim.outbox.extend_from_slice(b"!K0000");
    link.sim.silent = 1;
    let error = link.dp_read(&probe, 0x4).unwrap_err();
    assert_eq!(error.kind, ErrorKind::Timeout);
    link.sim.held_back.clear();
    link.sim.outbox.extend_from_slice(b"0000#");
    assert_eq!(link.target_voltage(&probe).unwrap(), "1.8V");
}

#[test]
fn noise_before_a_reply_is_skipped() {
    let (mut link, probe) = opened(ProtocolVersion::V3);
    link.sim.garbage_before_reply = b"\r\n 00#";
    assert_eq!(link.dp_read(&probe, 0x0), Ok(0x2ba0_1477));
    assert_eq!(link.target_voltage(&probe).unwrap(), "1.8V");
}

#[test]
fn nacks_are_retried_up_to_the_bound() {
    for version in [ProtocolVersion::V2, ProtocolVersion::V3] {
        for bound in 1..=4u32 {
            for nacks in 0..=6u32 {
                let (mut link, mut probe) = opened(version);
                probe.set_retry_bound(bound).unwrap();
                assert_eq!(probe.retry_bound(), bound);
                link.sim.nacks = nacks;
                let before = link.sim.requests.len();
                let result = link.dp_read(&probe, 0x0);
                let sent = (link.sim.requests.len() - before) as u32;
                if nacks < bound {
                    assert_eq!(result, Ok(0x2ba0_1477));
                    assert_eq!(sent, nacks + 1);
                } else {
                    let error = result.unwrap_err();
                    assert_eq!(error.kind, ErrorKind::RemoteFault(FAULT_NOT_ACCEPTED));
                    assert_eq!(error.to_text(), "Probe reported a fault");
                    assert_eq!(sent, bound);
                }
            }
        }
    }
}

#[test]
fn three_transmissions_by_default() {
    assert_eq!(DEFAULT_RETRY_BOUND, 3);
    let (mut link, probe) = opened(ProtocolVersion::V2);
    link.sim.nacks = 2;
    assert_eq!(link.dp_read(&probe, 0x0), Ok(0x2ba0_1477));
    link.sim.nacks = 3;
    assert_eq!(
        link.dp_read(&probe, 0x0).unwrap_err().kind,
        ErrorKind::RemoteFault(FAULT_NOT_ACCEPTED)
    );
}

#[test]
fn retransmission_repeats_the_same_bytes() {
    let (mut link, probe) = opened(ProtocolVersion::V2);
    link.sim.nacks = 2;
    link.sim.written.clear();
    let mut exchange = probe.submit(&Command::DpWrite { device: 1, address: 8, value: 5 }).unwrap();
    assert_eq!(exchange.attempts(), 1);
    assert_eq!(exchange.command(), Command::DpWrite { device: 1, address: 8, value: 5 });
    assert_eq!(exchange.request_bytes(), b"!w010800000005#");
    assert_eq!(link.run(&mut exchange), Ok(Value::Done));
    assert_eq!(exchange.attempts(), 3);
    assert_eq!(link.sim.written, b"!w010800000005#!w010800000005#!w010800000005#".to_vec());
}

#[test]
fn a_nack_under_an_old_version_is_malformed() {
    for version in [ProtocolVersion::V0, ProtocolVersion::V1] {
        let mut exchange = Exchange::begin(version, &Command::GetFrequency, 3).unwrap();
        let nack = Frame::from_digits(b'N', Vec::new()).unwrap();
        match exchange.on_reply(&nack) {
            Progress::Finished(Err(error)) => assert_eq!(error.kind, ErrorKind::MalformedFrame),
            other => panic!("{:?}", other),
        }
        assert_eq!(exchange.attempts(), 1);
    }
}

#[test]
fn a_retry_bound_of_zero_is_refused() {
    let (_, mut probe) = opened(ProtocolVersion::V2);
    let error = probe.set_retry_bound(0).unwrap_err();
    assert_eq!(error.kind, ErrorKind::InvalidParameter);
    assert_eq!(probe.retry_bound(), DEFAULT_RETRY_BOUND);
    assert!(probe.set_retry_bound(u32::MAX).is_ok());
    assert_eq!(probe.retry_bound(), u32::MAX);
}

#[test]
fn faults_are_surfaced_and_not_retried() {
    let (mut link, probe) = opened(ProtocolVersion::V3);
    let before = link.sim.requests.len();
    let error =
        link.round_trip(&probe, Command::ApRead { device: 0, ap: 0, address: 0 }).unwrap_err();
    assert_eq!(error.kind, ErrorKind::RemoteFault(2));
    assert_eq!(error.to_text(), "unknown command");
    assert_eq!(link.sim.requests.len(), before + 1);
}

#[test]
fn a_fault_with_unreadable_words_has_no_text() {
    let mut exchange = Exchange::begin(ProtocolVersion::V1, &Command::GetPower, 3).unwrap();
    let fault = Frame::new(b'E', &[7, 0xff, 0xfe]).unwrap();
    assert_eq!(
        exchange.on_reply(&fault),
        Progress::Finished(Err(BlackMagicProbeError::with_message(
            ErrorKind::RemoteFault(7),
            String::new()
        )))
    );
    let fault = Frame::new(b'E', &[9]).unwrap();
    match exchange.on_reply(&fault) {
        Progress::Finished(Err(error)) => {
            assert_eq!(error.kind, ErrorKind::RemoteFault(9));
            assert_eq!(error.to_text(), "");
        }
        other => panic!("{:?}", other),
    }
}

#[test]
fn a_malformed_reply_ends_the_exchange() {
    let (mut link, probe) = opened(ProtocolVersion::V2);
    link.sim.garbage_before_reply = b"!K12G#";
    let before = link.sim.requests.len();
    let error = link.dp_read(&probe, 0).unwrap_err();
    assert_eq!(error.kind, ErrorKind::MalformedFrame);
    assert_eq!(link.sim.requests.len(), before + 1);
}

#[test]
fn a_write_that_fails_is_a_transport_error() {
    let (mut link, mut probe) = opened(ProtocolVersion::V2);
    link.sim.short_write = true;
    let error = link.set_power(&mut probe, true).unwrap_err();
    assert_eq!(error.kind, ErrorKind::Transport);
    assert_eq!(probe.cached_power(), None);
    link.sim.short_write = false;
    link.sim.present = false;
    let error = link.set_power(&mut probe, true).unwrap_err();
    assert_eq!(error.kind, ErrorKind::Transport);
}

#[test]
fn successful_settings_are_remembered() {
    for version in VERSIONS {
        let (mut link, mut probe) = opened(version);
        assert_eq!(link.set_power(&mut probe, false), Ok(false));
        assert_eq!(probe.cached_power(), Some(false));
        assert!(!link.sim.power);
        let value = link.round_trip(&probe, Command::SetReset { asserted: true }).unwrap();
        assert_eq!(probe.nrst_set(true, &value), Ok(true));
        assert_eq!(probe.cached_reset(), Some(true));
        let value = link.round_trip(&probe, Command::SetReset { asserted: false }).unwrap();
        assert_eq!(probe.nrst_set(false, &value), Ok(true));
        assert_eq!(probe.cached_reset(), Some(false));
        link.max_speed_set(&mut probe, 2_000_000).unwrap();
        assert_eq!(probe.cached_frequency(), Some(2_000_000));
        assert_eq!(link.sim.frequency, 2_000_000);
        assert_eq!(probe.cached_power(), Some(false));
        let value = link.round_trip(&probe, Command::GetPower).unwrap();
        assert_eq!(probe.get_power(&value), Ok(false));
        link.sim.reset = true;
        let value = link.round_trip(&probe, Command::GetReset).unwrap();
        assert_eq!(probe.nrst_get(&value), Ok(true));
        assert_eq!(probe.cached_reset(), Some(true));
        link.sim.frequency = 123;
        assert_eq!(link.max_speed_get(&mut probe), Ok(123));
        assert_eq!(probe.cached_frequency(), Some(123));
    }
}

#[test]
fn the_same_request_is_sent_every_time() {
    let (mut link, mut probe) = opened(ProtocolVersion::V3);
    link.sim.written.clear();
    assert_eq!(link.set_power(&mut probe, true), Ok(true));
    assert_eq!(link.set_power(&mut probe, true), Ok(true));
    assert_eq!(link.sim.written, b"!P01#!P01#".to_vec());
}

#[test]
fn a_result_of_another_operation_changes_nothing() {
    let (_, mut probe) = opened(ProtocolVersion::V3);
    let wrong = [
        Value::Flag(true),
        Value::Number(1),
        Value::Text(b"1.8V".to_vec()),
        Value::Devices(Vec::new()),
    ];
    for value in &wrong {
        assert_eq!(probe.set_power(true, value).unwrap_err().kind, ErrorKind::MalformedFrame);
        assert_eq!(probe.nrst_set(true, value).unwrap_err().kind, ErrorKind::MalformedFrame);
        assert_eq!(probe.max_speed_set(1, value).unwrap_err().kind, ErrorKind::MalformedFrame);
        assert_eq!(probe.dp_write(value).unwrap_err().kind, ErrorKind::MalformedFrame);
    }
    assert_eq!(probe.max_speed_get(&Value::Done).unwrap_err().kind, ErrorKind::MalformedFrame);
    assert_eq!(
        probe.max_speed_get(&Value::Number(0x1_0000_0000)).unwrap_err().kind,
        ErrorKind::MalformedFrame
    );
    assert_eq!(probe.max_speed_get(&Value::Number(0xffff_ffff)), Ok(0xffff_ffff));
    assert_eq!(probe.cached_frequency(), Some(0xffff_ffff));
    assert_eq!(probe.dp_read(&Value::Done).unwrap_err().kind, ErrorKind::MalformedFrame);
    assert_eq!(probe.dp_read(&Value::Number(u64::MAX)).unwrap_err().kind, ErrorKind::MalformedFrame);
    assert_eq!(probe.wide_read(&Value::Number(u64::MAX)), Ok(u64::MAX));
    assert_eq!(probe.wide_read(&Value::Flag(false)).unwrap_err().kind, ErrorKind::MalformedFrame);
    assert_eq!(probe.get_power(&Value::Done).unwrap_err().kind, ErrorKind::MalformedFrame);
    assert_eq!(probe.nrst_get(&Value::Number(1)).unwrap_err().kind, ErrorKind::MalformedFrame);
    assert_eq!(probe.target_voltage(&Value::Done).unwrap_err().kind, ErrorKind::MalformedFrame);
    assert_eq!(probe.jtag_scan(&Value::Done).unwrap_err().kind, ErrorKind::MalformedFrame);
    assert_eq!(probe.dp_write(&Value::Done), Ok(()));
    assert_eq!(probe.cached_power(), None);
    assert_eq!(probe.cached_reset(), None);
}

#[test]
fn voltage_is_read_as_text() {
    let (mut link, probe) = opened(ProtocolVersion::V0);
    assert_eq!(link.target_voltage(&probe).unwrap(), "1.8V");
    link.sim.voltage = b"3.3V";
    assert_eq!(link.target_voltage(&probe).unwrap(), "3.3V");
    link.sim.voltage = b"";
    assert_eq!(link.target_voltage(&probe).unwrap(), "");
    link.sim.voltage = &[0x31, 0xff, 0x56];
    assert_eq!(link.target_voltage(&probe).unwrap(), "");
    assert_eq!(text_from_bytes("5 µV".as_bytes()), "5 µV");
    assert_eq!(text_from_bytes(&[0xc3]), "");
    assert_eq!(text_from_bytes(b"Absent"), "Absent");
}

#[test]
fn scan_lists_the_devices_in_chain_order() {
    let (mut link, probe) = opened(ProtocolVersion::V3);
    let value = link.round_trip(&probe, Command::JtagScan).unwrap();
    assert_eq!(
        probe.jtag_scan(&value).unwrap(),
        vec![
            JtagDevice { idcode: 0x4ba0_0477, ir_length: 4 },
            JtagDevice { idcode: 0x0641_3041, ir_length: 5 },
        ]
    );
}

#[test]
fn wide_read_under_v3() {
    let (mut link, probe) = opened(ProtocolVersion::V3);
    let value =
        link.round_trip(&probe, Command::WideRead { device: 0, ap: 1, address: 0x10 }).unwrap();
    assert_eq!(probe.wide_read(&value), Ok(0x0123_4567_89ab_cdef));
}

#[test]
fn end_to_end_against_v3_firmware() {
    let mut link = Link::new(SimProbe::new(ProtocolVersion::V3));
    link.sim.dp_value = 0x6ba0_2477;
    let mut probe = link.open("98B72495").unwrap();
    assert_eq!(probe.version(), ProtocolVersion::V3);

    assert_eq!(link.max_speed_set(&mut probe, 1_000_000), Ok(()));
    assert_eq!(probe.cached_frequency(), Some(1_000_000));
    assert_eq!(link.sim.frequency, 1_000_000);

    assert_eq!(link.dp_read(&probe, 0x0), Ok(0x6ba0_2477));

    assert!(link.receiver.is_idle());
    assert!(link.unread.is_empty());
    assert!(link.sim.outbox.is_empty());
    drop(probe);
    link.sim.close();
    assert!(link.sim.closed);
    assert_eq!(link.sim.written, [&b"!S#!F000F4240#!r0000#"[..]].concat());
    assert_eq!(encode(b"1.8V"), b"312E3856".to_vec());
}

#[test]
fn every_error_kind_has_its_text() {
    let texts = [
        (ErrorKind::Open, "Could not open serial device"),
        (ErrorKind::NoCompatibleProtocol, "Could not initialize device"),
        (ErrorKind::Timeout, "Timed out waiting for the probe"),
        (ErrorKind::MalformedFrame, "Malformed frame"),
        (ErrorKind::Transport, "Could not write to the probe"),
        (ErrorKind::UnsupportedOperation, "Operation not supported by the probe's protocol"),
        (ErrorKind::InvalidParameter, "Invalid parameter"),
        (ErrorKind::RemoteFault(3), "Probe reported a fault"),
    ];
    for (kind, text) in texts {
        let error = BlackMagicProbeError::new(kind);
        assert_eq!(error.kind, kind);
        assert_eq!(error.message, text);
        assert_eq!(error.to_text(), text);
    }
    let error =
        BlackMagicProbeError::with_message(ErrorKind::Transport, "Could not set target power".to_string());
    assert_eq!(error.to_text(), "Could not set target power");
    assert_eq!(error.clone(), error);
}
