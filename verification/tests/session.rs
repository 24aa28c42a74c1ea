use gb_rw::errors::Error;
use gb_rw::header::BANK_SIZE;
use gb_rw::header::CHECKSUM_ADDR;
use gb_rw::header::HEADER_REGION_END;
use gb_rw::header::HEADER_REGION_START;
use gb_rw::header::ROM_SIZE_ADDR;
use gb_rw::protocol::cmd_read;
use gb_rw::session::Action;
use gb_rw::session::Event;
use gb_rw::session::Mode;
use gb_rw::session::OpenKind;
use gb_rw::session::Session;
use gb_rw::session::State;
use gb_rw::session::open_kind;

fn checksum(buf: &[u8]) -> u8 {
    let mut acc: u8 = 0;
    for i in HEADER_REGION_START..HEADER_REGION_END {
        acc = acc.wrapping_sub(buf[i]).wrapping_sub(1);
    }
    acc
}

/// A bank-0 response: `fill` everywhere outside the header, the given
/// ROM-size byte, and a correct declared checksum.
fn bank0(rom_size: u8, fill: u8) -> Vec<u8> {
    let mut buf = vec![fill; BANK_SIZE];
    for i in HEADER_REGION_START..HEADER_REGION_END {
        buf[i] = 0;
    }
    buf[ROM_SIZE_ADDR] = rom_size;
    buf[CHECKSUM_ADDR] = checksum(&buf);
    buf
}

fn line(s: &str) -> Event {
    Event::Line(s.as_bytes().to_vec())
}

#[test]
fn end_to_end_two_bank_dump() {
    // Mock device: a boot banner line, the token line, then one bank
    // per read request.
    let bank_zero = bank0(0x00, 0xaa);  // declares 2 banks
    let bank_one = vec![0xbbu8; BANK_SIZE];

    let (mut s, a) = Session::new(Mode::ReadRom);
    assert!(matches!(a, Action::OpenSink));

    let a = s.step(Event::SinkReady);
    assert!(matches!(a, Action::ReadLine));

    let a = s.step(line("BOOT\n"));
    assert!(matches!(a, Action::ReadLine));

    let a = s.step(line("HELLO\n"));
    match a {
        Action::SendFrame { frame, expect } => {
            assert_eq!(frame, cmd_read(0x0000, 0x4000));
            assert_eq!(expect, BANK_SIZE);
        }
        other => panic!("expected the bank-0 read, got {:?}", action_name(&other)),
    }

    let a = s.step(Event::Data(bank_zero.clone()));
    match a {
        Action::SendFrame { frame, expect } => {
            assert_eq!(frame, cmd_read(0x4000, 0x8000));
            assert_eq!(expect, BANK_SIZE);
        }
        other => panic!("expected the bank-1 read, got {:?}", action_name(&other)),
    }

    let a = s.step(Event::Data(bank_one.clone()));
    assert!(matches!(a, Action::WriteSink));

    // The assembled image: both responses, in request order.
    let buf = s.buffer();
    assert_eq!(buf.len(), 0x8000);
    assert_eq!(&buf[..BANK_SIZE], bank_zero.as_slice());
    assert_eq!(&buf[BANK_SIZE..], bank_one.as_slice());

    let a = s.step(Event::SinkWritten);
    assert!(matches!(a, Action::Finish));
    assert_eq!(s.state(), State::Done);
}

#[test]
fn every_switchable_bank_requests_the_same_window() {
    // Four declared banks: three reads of the switchable window follow
    // bank 0. No bank-select command exists in the protocol, so all
    // three requests carry the identical window.
    let bank_zero = bank0(0x01, 0x11);  // declares 4 banks
    let (mut s, _) = Session::new(Mode::ReadRom);
    s.step(Event::SinkReady);
    s.step(line("HELLO\n"));

    let mut frames: Vec<Vec<u8>> = Vec::new();
    let a = s.step(Event::Data(bank_zero));
    let mut pending = a;
    for i in 1..4u8 {
        match pending {
            Action::SendFrame { frame, expect } => {
                assert_eq!(expect, BANK_SIZE);
                frames.push(frame);
                pending = s.step(Event::Data(vec![i; BANK_SIZE]));
            }
            _ => panic!("expected a bank read request"),
        }
    }
    assert!(matches!(pending, Action::WriteSink));
    assert_eq!(frames.len(), 3);
    assert_eq!(frames[0], cmd_read(0x4000, 0x8000));
    assert_eq!(frames[0], frames[1]);
    assert_eq!(frames[1], frames[2]);
    assert_eq!(s.buffer().len(), 4 * BANK_SIZE);
}

#[test]
fn largest_declared_layout_dumps_all_banks() {
    // ROM-size byte 0x08 declares 512 banks, the largest layout.
    let bank_zero = bank0(0x08, 0x00);
    let (mut s, _) = Session::new(Mode::ReadRom);
    s.step(Event::SinkReady);
    let mut pending = s.step(line("HELLO\n"));
    pending = match pending {
        Action::SendFrame { .. } => s.step(Event::Data(bank_zero)),
        _ => panic!("expected the bank-0 read"),
    };
    let mut banks_read: usize = 1;
    loop {
        match pending {
            Action::SendFrame { frame, .. } => {
                assert_eq!(frame, cmd_read(0x4000, 0x8000));
                banks_read += 1;
                pending = s.step(Event::Data(vec![(banks_read % 256) as u8; BANK_SIZE]));
            }
            Action::WriteSink => break,
            _ => panic!("expected a bank read or the final write"),
        }
    }
    assert_eq!(banks_read, 512);
    assert_eq!(s.buffer().len(), 512 * BANK_SIZE);
    let a = s.step(Event::SinkWritten);
    assert!(matches!(a, Action::Finish));
    assert_eq!(s.state(), State::Done);
}

#[test]
fn checksum_mismatch_aborts_with_both_values() {
    let mut bank_zero = bank0(0x00, 0x00);
    let good = bank_zero[CHECKSUM_ADDR];
    bank_zero[CHECKSUM_ADDR] = good.wrapping_add(7);

    let (mut s, _) = Session::new(Mode::ReadRom);
    s.step(Event::SinkReady);
    s.step(line("HELLO\n"));
    let a = s.step(Event::Data(bank_zero));
    match a {
        Action::Abort(Error::ChecksumMismatch { expected, computed }) => {
            assert_eq!(expected, good.wrapping_add(7));
            assert_eq!(computed, good);
        }
        _ => panic!("expected a checksum-mismatch abort"),
    }
    // Terminal: the engine issues no further transport read.
    assert_eq!(s.state(), State::Failed);
}

#[test]
fn header_parse_failure_aborts() {
    let mut bank_zero = vec![0u8; BANK_SIZE];
    bank_zero[ROM_SIZE_ADDR] = 0x09;  // no such layout
    bank_zero[CHECKSUM_ADDR] = checksum(&bank_zero);

    let (mut s, _) = Session::new(Mode::ReadRom);
    s.step(Event::SinkReady);
    s.step(line("HELLO\n"));
    let a = s.step(Event::Data(bank_zero));
    assert!(matches!(a, Action::Abort(Error::HeaderParseFailure)));
    assert_eq!(s.state(), State::Failed);
}

#[test]
fn sink_failure_precedes_any_transport_use() {
    // A read-mode run against an existing path: the sink cannot be
    // opened, and the session fails before any transport action.
    let (mut s, a) = Session::new(Mode::ReadRom);
    assert!(matches!(a, Action::OpenSink));
    let a = s.step(Event::SinkUnavailable);
    assert!(matches!(a, Action::Abort(Error::SinkFailure)));
    assert_eq!(s.state(), State::Failed);

    // A write-mode run against a missing path fails the same way,
    // before any handshake attempt.
    let (mut s, a) = Session::new(Mode::WriteRom);
    assert!(matches!(a, Action::OpenSink));
    let a = s.step(Event::SinkUnavailable);
    assert!(matches!(a, Action::Abort(Error::SinkFailure)));
    assert_eq!(s.state(), State::Failed);
}

#[test]
fn handshake_skips_noise_and_needs_exact_token() {
    let (mut s, _) = Session::new(Mode::ReadRom);
    s.step(Event::SinkReady);
    for noise in ["", "boot rom v2\n", "HELLO", "HELLO\n\n", "hello\n", "XHELLO\n"] {
        let a = s.step(line(noise));
        assert!(matches!(a, Action::ReadLine));
        assert_eq!(s.state(), State::AwaitHandshake);
    }
    let a = s.step(line("HELLO\n"));
    assert!(matches!(a, Action::SendFrame { .. }));
    assert_eq!(s.state(), State::ReadBank0);
}

#[test]
fn non_read_rom_modes_are_unimplemented_after_handshake() {
    for mode in [Mode::ReadRam, Mode::WriteRom, Mode::WriteRam] {
        let (mut s, _) = Session::new(mode);
        let a = s.step(Event::SinkReady);
        assert!(matches!(a, Action::ReadLine));
        let a = s.step(line("HELLO\n"));
        assert!(matches!(a, Action::Abort(Error::UnimplementedOperation)));
        assert_eq!(s.state(), State::Failed);
    }
}

#[test]
fn transport_failure_is_fatal() {
    let (mut s, _) = Session::new(Mode::ReadRom);
    s.step(Event::SinkReady);
    s.step(line("HELLO\n"));
    let a = s.step(Event::IoFailed(Error::PortTimeout));
    assert!(matches!(a, Action::Abort(Error::PortTimeout)));
    assert_eq!(s.state(), State::Failed);
}

#[test]
fn open_kind_per_mode() {
    assert_eq!(open_kind(&Mode::ReadRom), OpenKind::CreateNew);
    assert_eq!(open_kind(&Mode::ReadRam), OpenKind::CreateNew);
    assert_eq!(open_kind(&Mode::WriteRom), OpenKind::MustExist);
    assert_eq!(open_kind(&Mode::WriteRam), OpenKind::MustExist);
}

fn action_name(a: &Action) -> &'static str {
    match a {
        Action::OpenSink => "OpenSink",
        Action::ReadLine => "ReadLine",
        Action::SendFrame { .. } => "SendFrame",
        Action::WriteSink => "WriteSink",
        Action::Finish => "Finish",
        Action::Abort(_) => "Abort",
    }
}
