use blackmagic_remote::error::{BlackMagicProbeError, ErrorKind};
use blackmagic_remote::frame::{
    command_id_ok, confirm_write, digits_ok, send_frame, Frame, FRAME_END, FRAME_START,
    MAX_FRAME_BODY, MAX_PAYLOAD_DIGITS,
};
use blackmagic_remote::receiver::FrameReceiver;

fn feed(receiver: &mut FrameReceiver, bytes: &[u8]) -> Vec<Result<Frame, BlackMagicProbeError>> {
    let mut seen = Vec::new();
    let mut rest = bytes;
    while !rest.is_empty() {
        let (taken, outcome) = receiver.receive_frame(rest);
        assert!(taken >= 1 && taken <= rest.len());
        rest = &rest[taken..];
        if let Some(result) = outcome {
            seen.push(result);
        } else {
            assert!(rest.is_empty());
        }
    }
    seen
}

#[test]
fn markers_are_the_documented_characters() {
    assert_eq!(FRAME_START, b'!');
    assert_eq!(FRAME_END, b'#');
    assert_eq!(MAX_FRAME_BODY, MAX_PAYLOAD_DIGITS + 1);
}

#[test]
fn frame_is_start_identifier_hex_payload_end() {
    let frame = Frame::new(b'F', &[0x00, 0x0f, 0x42, 0x40]).unwrap();
    assert_eq!(frame.command_id(), b'F');
    assert_eq!(frame.payload(), b"000F4240");
    assert_eq!(frame.to_wire(), b"!F000F4240#".to_vec());
    assert_eq!(send_frame(b'F', &[0x00, 0x0f, 0x42, 0x40]).unwrap(), b"!F000F4240#".to_vec());
    assert_eq!(send_frame(b'V', &[]).unwrap(), b"!V#".to_vec());
}

#[test]
fn frame_rejects_a_bad_identifier() {
    for id in [b'!', b'#', b' ', 0x00, 0x7f, 0x80, 0xff, b'\n'] {
        let error = Frame::new(id, &[1]).unwrap_err();
        assert_eq!(error.kind, ErrorKind::MalformedFrame);
        assert_eq!(error.to_text(), "Malformed frame");
        assert!(!command_id_ok(id));
        assert_eq!(send_frame(id, &[1]).unwrap_err().kind, ErrorKind::MalformedFrame);
    }
    for id in [b'"', b'$', b'~', b'A', b'z', b'0'] {
        assert!(command_id_ok(id));
        assert!(Frame::new(id, &[1]).is_ok());
    }
}

#[test]
fn oversize_payload_is_rejected_not_truncated() {
    let fits = vec![0xabu8; MAX_PAYLOAD_DIGITS / 2];
    let frame = Frame::new(b'O', &fits).unwrap();
    assert_eq!(frame.payload().len(), 2 * fits.len());
    assert!(frame.to_wire().len() <= MAX_FRAME_BODY + 2);
    let over = vec![0xabu8; MAX_PAYLOAD_DIGITS / 2 + 1];
    assert_eq!(Frame::new(b'O', &over).unwrap_err().kind, ErrorKind::MalformedFrame);
    assert_eq!(send_frame(b'O', &over).unwrap_err().kind, ErrorKind::MalformedFrame);
}

#[test]
fn from_digits_checks_the_framing_rules() {
    let frame = Frame::from_digits(b'K', b"0aF1".to_vec()).unwrap();
    assert_eq!(frame.payload(), b"0aF1");
    assert_eq!(frame.to_wire(), b"!K0aF1#".to_vec());
    assert!(Frame::from_digits(b'K', b"123".to_vec()).is_ok());
    assert!(Frame::from_digits(b'K', vec![b'0'; MAX_PAYLOAD_DIGITS]).is_ok());
    assert_eq!(
        Frame::from_digits(b'K', vec![b'0'; MAX_PAYLOAD_DIGITS + 1]).unwrap_err().kind,
        ErrorKind::MalformedFrame
    );
    assert_eq!(Frame::from_digits(b'K', b"12G4".to_vec()).unwrap_err().kind, ErrorKind::MalformedFrame);
    assert_eq!(Frame::from_digits(b'#', b"12".to_vec()).unwrap_err().kind, ErrorKind::MalformedFrame);
    assert!(digits_ok(b"0123456789abcdefABCDEF"));
    assert!(digits_ok(b""));
    assert!(!digits_ok(b"12 4"));
}

#[test]
fn clone_of_a_frame_is_equal() {
    let frame = Frame::new(b'w', &[4, 0xde, 0xad, 0xbe, 0xef]).unwrap();
    let copy = frame.clone();
    assert_eq!(copy, frame);
    assert_eq!(copy.to_wire(), frame.to_wire());
}

#[test]
fn partial_or_failed_write_is_a_transport_error() {
    assert!(confirm_write(11, Some(11)).is_ok());
    assert!(confirm_write(0, Some(0)).is_ok());
    for written in [Some(0), Some(10), Some(12), None] {
        let error = confirm_write(11, written).unwrap_err();
        assert_eq!(error.kind, ErrorKind::Transport);
        assert_eq!(error.to_text(), "Could not write to the probe");
    }
}

#[test]
fn receiver_reads_one_frame() {
    let mut receiver = FrameReceiver::new();
    assert!(receiver.is_idle());
    let (taken, outcome) = receiver.receive_frame(b"!K000F4240#");
    assert_eq!(taken, 11);
    let frame = outcome.unwrap().unwrap();
    assert_eq!(frame.command_id(), b'K');
    assert_eq!(frame.payload(), b"000F4240");
    assert!(receiver.is_idle());
}

#[test]
fn receiver_takes_bytes_one_at_a_time() {
    let mut receiver = FrameReceiver::new();
    let wire = b"!K12#";
    for byte in &wire[..4] {
        assert_eq!(receiver.push(*byte), None);
        assert!(!receiver.is_idle());
    }
    let frame = receiver.push(wire[4]).unwrap().unwrap();
    assert_eq!(frame, Frame::from_digits(b'K', b"12".to_vec()).unwrap());
    assert!(receiver.is_idle());
}

#[test]
fn receiver_discards_noise_before_the_start_marker() {
    let mut receiver = FrameReceiver::new();
    let (taken, outcome) = receiver.receive_frame(b"\r\nnoise 1234#&K!K01#rest");
    assert_eq!(taken, 20);
    assert_eq!(outcome.unwrap().unwrap(), Frame::from_digits(b'K', b"01".to_vec()).unwrap());
}

#[test]
fn receiver_leaves_what_follows_a_frame_for_the_next_call() {
    let mut receiver = FrameReceiver::new();
    let seen = feed(&mut receiver, b"!K01#!E05#!N#");
    assert_eq!(seen.len(), 3);
    assert_eq!(seen[0].as_ref().unwrap().payload(), b"01");
    assert_eq!(seen[1].as_ref().unwrap().command_id(), b'E');
    assert_eq!(seen[2].as_ref().unwrap().command_id(), b'N');
    assert_eq!(seen[2].as_ref().unwrap().payload(), b"");
}

#[test]
fn receiver_waits_across_partial_reads() {
    let mut receiver = FrameReceiver::new();
    assert_eq!(receiver.receive_frame(b"xx!K00"), (6, None));
    assert!(!receiver.is_idle());
    assert_eq!(receiver.receive_frame(b"0F"), (2, None));
    let (taken, outcome) = receiver.receive_frame(b"4240#!");
    assert_eq!(taken, 5);
    assert_eq!(outcome.unwrap().unwrap().payload(), b"000F4240");
}

#[test]
fn receiver_reports_bad_bodies_as_malformed() {
    for wire in [&b"!#"[..], b"!K12G4#", b"!K1 2#", b"!K12!K34#", b"! 12#", b"!\x7f12#"] {
        let mut receiver = FrameReceiver::new();
        let (taken, outcome) = receiver.receive_frame(wire);
        assert_eq!(taken, wire.len());
        let error = outcome.unwrap().unwrap_err();
        assert_eq!(error.kind, ErrorKind::MalformedFrame);
        assert!(receiver.is_idle());
    }
}

#[test]
fn receiver_reports_a_frame_without_end_as_malformed() {
    let mut receiver = FrameReceiver::new();
    let mut wire = vec![b'!', b'K'];
    wire.extend(std::iter::repeat(b'0').take(MAX_PAYLOAD_DIGITS));
    assert_eq!(receiver.receive_frame(&wire), (wire.len(), None));
    let (taken, outcome) = receiver.receive_frame(b"0000#!K01#");
    assert_eq!(taken, 1);
    assert_eq!(outcome.unwrap().unwrap_err().kind, ErrorKind::MalformedFrame);
    assert!(receiver.is_idle());
    let (taken, outcome) = receiver.receive_frame(b"000#!K01#");
    assert_eq!(taken, 9);
    assert_eq!(outcome.unwrap().unwrap().payload(), b"01");
}

#[test]
fn receiver_accepts_a_frame_of_full_length() {
    let mut receiver = FrameReceiver::new();
    let mut wire = vec![b'!', b'K'];
    wire.extend(std::iter::repeat(b'7').take(MAX_PAYLOAD_DIGITS));
    wire.push(b'#');
    let (taken, outcome) = receiver.receive_frame(&wire);
    assert_eq!(taken, wire.len());
    assert_eq!(outcome.unwrap().unwrap().payload().len(), MAX_PAYLOAD_DIGITS);
}

#[test]
fn timeout_does_not_corrupt_the_next_frame() {
    let mut receiver = FrameReceiver::new();
    assert_eq!(receiver.receive_frame(b"!K0000"), (6, None));
    let error = receiver.timed_out();
    assert_eq!(error.kind, ErrorKind::Timeout);
    assert_eq!(error.to_text(), "Timed out waiting for the probe");
    assert!(receiver.is_idle());
    let (taken, outcome) = receiver.receive_frame(b"1234#!K000F4240#");
    assert_eq!(taken, 16);
    assert_eq!(outcome.unwrap().unwrap(), Frame::from_digits(b'K', b"000F4240".to_vec()).unwrap());
    assert!(receiver.is_idle());
}

#[test]
fn receiver_round_trips_every_frame_it_is_sent() {
    let mut receiver = FrameReceiver::new();
    for id in [b'K', b'E', b'N', b'P', b'z'] {
        for payload in [&[][..], &[0x00], &[0x12, 0x34], &[0xff; 40]] {
            let frame = Frame::new(id, payload).unwrap();
            let mut wire = b"late tail#".to_vec();
            wire.extend(frame.to_wire());
            let (taken, outcome) = receiver.receive_frame(&wire);
            assert_eq!(taken, wire.len());
            assert_eq!(outcome.unwrap().unwrap(), frame);
        }
    }
}
