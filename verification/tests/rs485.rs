use std::collections::VecDeque;
use uart_stack::error::{Error, ErrorKind};
use uart_stack::frame::{decode, encode};
use uart_stack::rs485::lifecycle::{Lifecycle, LifecycleReply, LifecycleStep, EWOULDBLOCK};
use uart_stack::rs485::line::{
    speed, Attributes, Flags, Loopback, OpenReply, OpenStep, RawSettings, Serial, Speeds,
    TIOCM_LOOP,
};
use uart_stack::rs485::options::{options, parse_number, Command, Options};
use uart_stack::rs485::regression::{EAGAIN, EFAULT, EPOLLIN, ESPIPE};
use uart_stack::rs485::session::{
    named, payload, require, same_bytes, settling, turnaround, PeerSession, SessionReply,
    SessionStep, UartSession,
};
use uart_stack::rs485::transfer::{read_deadline, read_frame, write_deadline, Reply, Step};
use uart_stack::rs485::wait::{
    deadline, poll_ready, wait_ready, Polled, POLLERR, POLLHUP, POLLIN, POLLNVAL, POLLOUT,
};

const SECOND: u64 = 1_000_000_000;

/// One direction of a line, and the clock of its end.
struct Wire {
    bytes: VecDeque<u8>,
    /// Most bytes that one call transfers.
    chunk: usize,
    closed: bool,
    now: u64,
}

fn wire(chunk: usize) -> Wire {
    Wire { bytes: VecDeque::new(), chunk, closed: false, now: 0 }
}

impl Wire {
    fn send(&mut self, data: &[u8], end: u64) -> Result<(), Error> {
        let mut transfer = write_deadline(data.len(), end);
        loop {
            let reply = match transfer.step {
                Step::Clock => Reply::Now(self.now),
                Step::Poll { events, .. } => {
                    assert_eq!(events, POLLOUT);
                    Reply::Polled(Polled::Events(POLLOUT))
                }
                Step::Write { offset } => {
                    let count = self.chunk.min(data.len() - offset);
                    self.bytes.extend(&data[offset..offset + count]);
                    Reply::Written(count)
                }
                _ => return Ok(()),
            };
            transfer.resume(reply)?;
        }
    }

    fn receive(&mut self, end: u64) -> Result<Vec<u8>, Error> {
        let mut reader = read_frame(end);
        loop {
            let reply = match reader.read.step {
                Step::Clock => Reply::Now(self.now),
                Step::Poll { events, millis } => {
                    assert_eq!(events, POLLIN);
                    if !self.bytes.is_empty() {
                        Reply::Polled(Polled::Events(POLLIN))
                    } else if self.closed {
                        Reply::Polled(Polled::Events(POLLHUP))
                    } else {
                        self.now += millis as u64 * 1_000_000;
                        Reply::Polled(Polled::Nothing)
                    }
                }
                Step::Read { room } => {
                    let count = self.chunk.min(room).min(self.bytes.len());
                    Reply::Data(self.bytes.drain(..count).collect())
                }
                _ => return Ok(reader.into_frame()),
            };
            reader.resume(reply)?;
        }
    }
}

#[test]
fn fragmented_frames_and_echo_over_a_simulated_line() {
    let (mut there, mut back) = (wire(7), wire(5));
    for sequence in 0..32 {
        let frame = encode(sequence, &vec![sequence as u8; sequence as usize * 31]).unwrap();
        there.send(&frame, deadline(there.now, 3 * SECOND).unwrap()).unwrap();
        let request = there.receive(deadline(there.now, 3 * SECOND).unwrap()).unwrap();
        assert_eq!(decode(&request).unwrap().0, sequence);
        // Exercise headers/CRC split across arbitrary reads, not just payload.
        for chunk in request.chunks(3) {
            back.send(chunk, deadline(back.now, 3 * SECOND).unwrap()).unwrap();
        }
        assert_eq!(
            back.receive(deadline(back.now, 3 * SECOND).unwrap()).unwrap(),
            frame
        );
    }
}

#[test]
fn no_response_expires_and_closed_peer_is_reported() {
    let mut host = wire(64);
    let start = host.now;
    let err = host.receive(deadline(start, 30_000_000).unwrap()).unwrap_err();
    assert_eq!(err.kind, ErrorKind::TimedOut);
    assert!(host.now - start < SECOND);
    host.closed = true;
    assert!(host.receive(deadline(host.now, SECOND).unwrap()).is_err());
}

#[test]
fn deadlines_do_not_overflow() {
    assert_eq!(deadline(5, 7).unwrap(), 12);
    let error = deadline(u64::MAX, 1).unwrap_err();
    assert_eq!((error.kind, error.message.as_str()), (
        ErrorKind::InvalidInput,
        "timeout is too large",
    ));
}

#[test]
fn polls_end_just_after_the_deadline() {
    assert_eq!(wait_ready(10, 10).unwrap(), 1);
    assert_eq!(wait_ready(0, 999_999).unwrap(), 1);
    assert_eq!(wait_ready(0, 1_000_000).unwrap(), 2);
    assert_eq!(wait_ready(0, u64::MAX).unwrap(), i32::MAX);
    let error = wait_ready(11, 10).unwrap_err();
    assert_eq!((error.kind, error.message.as_str()), (
        ErrorKind::TimedOut,
        "I/O deadline expired",
    ));
}

#[test]
fn polls_are_judged_by_their_events() {
    assert!(poll_ready(Polled::Events(POLLIN | POLLHUP), POLLIN).unwrap());
    assert!(!poll_ready(Polled::Events(POLLOUT), POLLIN).unwrap());
    assert!(!poll_ready(Polled::Nothing, POLLIN).unwrap());
    assert!(!poll_ready(Polled::Interrupted, POLLIN).unwrap());
    let error = poll_ready(Polled::Events(POLLERR), POLLIN).unwrap_err();
    assert_eq!(error.message, "device disconnected");
    assert_eq!(error.kind, ErrorKind::BrokenPipe);
    let error = poll_ready(Polled::Events(POLLNVAL | POLLIN), POLLIN).unwrap_err();
    assert_eq!(error.message, "invalid descriptor");
    let failure = Error::new(ErrorKind::Os(5), "I/O error");
    let error = poll_ready(Polled::Failed(failure), POLLIN).unwrap_err();
    assert_eq!(error.kind, ErrorKind::Os(5));
}

#[test]
fn transfers_end_with_the_error_of_their_call() {
    let mut transfer = write_deadline(3, 100);
    transfer.resume(Reply::Now(0)).unwrap();
    assert_eq!(transfer.step, Step::Poll { events: POLLOUT, millis: 1 });
    transfer.resume(Reply::Polled(Polled::Interrupted)).unwrap();
    assert_eq!(transfer.step, Step::Clock);
    transfer.resume(Reply::Now(100)).unwrap();
    transfer.resume(Reply::Polled(Polled::Events(POLLOUT))).unwrap();
    transfer.resume(Reply::Again).unwrap();
    transfer.resume(Reply::Now(100)).unwrap();
    transfer.resume(Reply::Polled(Polled::Events(POLLOUT))).unwrap();
    let error = transfer.resume(Reply::Written(0)).unwrap_err();
    assert_eq!((error.kind, error.message.as_str()), (ErrorKind::WriteZero, "write zero"));
    assert_eq!(transfer.step, Step::Failed);

    let mut transfer = read_deadline(2, 100);
    transfer.resume(Reply::Now(0)).unwrap();
    transfer.resume(Reply::Polled(Polled::Events(POLLIN))).unwrap();
    assert_eq!(transfer.step, Step::Read { room: 2 });
    transfer.resume(Reply::Data(vec![1])).unwrap();
    transfer.resume(Reply::Now(0)).unwrap();
    transfer.resume(Reply::Polled(Polled::Events(POLLIN))).unwrap();
    let error = transfer.resume(Reply::Data(Vec::new())).unwrap_err();
    assert_eq!(error.kind, ErrorKind::UnexpectedEof);
    assert_eq!(error.message, "unexpected end of file");

    assert_eq!(write_deadline(0, 0).step, Step::Done);
    assert_eq!(read_deadline(0, 0).step, Step::Done);
    let mut transfer = read_deadline(1, 10);
    assert_eq!(transfer.resume(Reply::Now(11)).unwrap_err().kind, ErrorKind::TimedOut);
}

#[test]
fn bad_headers_and_frames_are_refused() {
    let read = |bytes: &[u8]| {
        let mut line = wire(64);
        line.bytes.extend(bytes);
        line.receive(SECOND).unwrap_err()
    };
    let error = read(b"\x00\xffA8\0\0\0\0\0\0");
    assert_eq!(error.message, "lost frame synchronization: [00, ff, 41, 38]");
    assert_eq!(error.kind, ErrorKind::InvalidInput);
    let error = read(b"RU48\0\0\0\0\x01\x04");
    assert_eq!(error.message, "received oversized frame");
    let mut frame = encode(3, b"abc").unwrap();
    frame[12] ^= 1;
    assert_eq!(read(&frame).message, "CRC mismatch");
}

#[test]
fn bytes_behind_a_frame_are_left_for_the_next_one() {
    let mut line = wire(64);
    let first = encode(1, b"one").unwrap();
    let second = encode(2, b"second").unwrap();
    line.bytes.extend(&first);
    line.bytes.extend(&second);
    assert_eq!(line.receive(SECOND).unwrap(), first);
    assert_eq!(line.receive(SECOND).unwrap(), second);
}

fn parse(args: &[&str]) -> Result<Option<Options>, Error> {
    options(&args.iter().map(|arg| arg.to_string()).collect())
}

#[test]
fn options_have_defaults() {
    let uart = parse(&["uart", "--device", "/dev/ttyRU0"]).unwrap().unwrap();
    assert_eq!(uart.command, Command::Uart);
    assert_eq!(uart.device, "/dev/ttyRU0");
    assert_eq!((uart.baud, uart.count, uart.size, uart.timeout), (115200, 100, 256, 3000));
    let peer = parse(&["peer", "--device", "x"]).unwrap().unwrap();
    assert_eq!((peer.command, peer.timeout), (Command::Peer, 30000));
    let chardev = parse(&["chardev"]).unwrap().unwrap();
    assert_eq!(chardev.command, Command::Chardev);
    assert_eq!(chardev.device, "/dev/rust-chardev");
    for args in [&[][..], &["--help"], &["-h", "uart"]] {
        assert!(parse(args).unwrap().is_none());
    }
}

#[test]
fn options_are_taken_in_any_order() {
    let args = [
        "loopback", "--size", "1024", "--timeout-ms", "600000", "--count", "+1000000", "--baud",
        "9600", "--device", "d",
    ];
    let all = parse(&args).unwrap().unwrap();
    assert_eq!(all.command, Command::Loopback);
    assert_eq!((all.baud, all.count, all.size, all.timeout), (9600, 1000000, 1024, 600000));
}

#[test]
fn bad_options_are_explained() {
    let message = |args: &[&str]| {
        let error = parse(args).err().unwrap();
        assert_eq!(error.kind, ErrorKind::InvalidInput);
        error.message
    };
    assert_eq!(message(&["run"]), "unknown command; use --help");
    assert_eq!(message(&["uart"]), "--device is required");
    assert_eq!(message(&["chardev", "--device", ""]), "--device is required");
    assert_eq!(message(&["uart", "--device"]), "option requires a value");
    assert_eq!(message(&["uart", "--size", "1", "--size"]), "duplicate option");
    assert_eq!(message(&["uart", "--fast", "1"]), "unknown option; use --help");
    assert_eq!(message(&["uart", "--baud", "4294967296"]), "invalid baud");
    assert_eq!(message(&["uart", "--count", "-1"]), "invalid count");
    assert_eq!(message(&["uart", "--size", ""]), "invalid size");
    assert_eq!(message(&["uart", "--timeout-ms", "1 "]), "invalid timeout");
    assert_eq!(message(&["uart", "--timeout-ms", "0"]), "timeout must be 1..600000 ms");
    let device = ["uart", "--device", "d", "--count", "0"];
    assert_eq!(message(&device), "count must be 1..1000000");
    let device = ["uart", "--device", "d", "--size", "1025"];
    assert_eq!(message(&device), "size must be 0..1024");
}

#[test]
fn numbers_are_read_like_unsigned_integers() {
    assert_eq!(parse_number("0", 0), Some(0));
    assert_eq!(parse_number("+007", 9), Some(7));
    assert_eq!(parse_number("18446744073709551615", u64::MAX), Some(u64::MAX));
    for text in ["", "+", "-1", "++1", "1a", "18446744073709551616", "٣"] {
        assert_eq!(parse_number(text, u64::MAX), None);
    }
    assert_eq!(parse_number("10", 9), None);
    assert_eq!(parse_number("9", 5), None);
}

fn speeds() -> Speeds {
    Speeds {
        b9600: libc::B9600,
        b19200: libc::B19200,
        b38400: libc::B38400,
        b57600: libc::B57600,
        b115200: libc::B115200,
        b230400: libc::B230400,
        b460800: libc::B460800,
        b921600: libc::B921600,
        b1500000: libc::B1500000,
    }
}

fn flags() -> Flags {
    Flags {
        ixon: libc::IXON,
        ixoff: libc::IXOFF,
        ixany: libc::IXANY,
        csize: libc::CSIZE,
        cstopb: libc::CSTOPB,
        parenb: libc::PARENB,
        cmspar: libc::CMSPAR,
        crtscts: libc::CRTSCTS,
        cs8: libc::CS8,
        cread: libc::CREAD,
        clocal: libc::CLOCAL,
    }
}

fn open(baud: u32) -> Result<Serial, Error> {
    Serial::open(baud, &speeds(), flags())
}

#[test]
fn only_known_rates_have_a_speed() {
    for (baud, code) in [
        (9600, libc::B9600),
        (19200, libc::B19200),
        (38400, libc::B38400),
        (57600, libc::B57600),
        (115200, libc::B115200),
        (230400, libc::B230400),
        (460800, libc::B460800),
        (921600, libc::B921600),
        (1500000, libc::B1500000),
    ] {
        assert_eq!(speed(baud, &speeds()).unwrap(), code);
    }
    let error = speed(0, &speeds()).unwrap_err();
    assert_eq!(error.message, "unsupported baud rate");
    assert_eq!(open(115201).err().unwrap().message, "unsupported baud rate");
}

#[test]
fn the_flags_of_this_platform_are_sound() {
    let f = flags();
    assert_eq!(f.cs8 & f.csize, f.cs8);
    assert_eq!(f.cs8 & (f.cstopb | f.parenb | f.cmspar | f.crtscts), 0);
    let cleared = f.csize | f.cstopb | f.parenb | f.cmspar | f.crtscts;
    assert_eq!((f.cread | f.clocal) & cleared, 0);
}

#[test]
fn other_numbers_are_those_of_the_platform() {
    assert_eq!(POLLIN, libc::POLLIN);
    assert_eq!(POLLOUT, libc::POLLOUT);
    assert_eq!(POLLERR, libc::POLLERR);
    assert_eq!(POLLHUP, libc::POLLHUP);
    assert_eq!(POLLNVAL, libc::POLLNVAL);
    assert_eq!(EAGAIN, libc::EAGAIN);
    assert_eq!(EFAULT, libc::EFAULT);
    assert_eq!(ESPIPE, libc::ESPIPE);
    assert_eq!(EPOLLIN, libc::EPOLLIN as u32);
    assert_eq!(EWOULDBLOCK, libc::EWOULDBLOCK);
    assert_eq!(TIOCM_LOOP, 0x8000);
}

#[test]
fn serial_line_is_made_raw_and_verified() {
    let mut serial = open(115200).unwrap();
    assert_eq!(serial.step, OpenStep::OpenDevice);
    serial.resume(OpenReply::Finished(Ok(()))).unwrap();
    let raw = Attributes {
        c_iflag: libc::IXON | libc::IXOFF | libc::IXANY | libc::IGNPAR,
        c_cflag: libc::CS7 | libc::CSTOPB | libc::PARENB | libc::PARODD | libc::CRTSCTS,
        speed: libc::B9600,
    };
    serial.resume(OpenReply::Settings(Ok(raw))).unwrap();
    let settings = RawSettings {
        c_iflag: libc::IGNPAR,
        c_cflag: libc::CS8 | libc::CREAD | libc::CLOCAL | libc::PARODD,
        vmin: 1,
        vtime: 0,
        speed: libc::B115200,
    };
    assert_eq!(serial.step, OpenStep::Apply(settings));
    assert!(serial.restores);
    serial.resume(OpenReply::Finished(Ok(()))).unwrap();
    let applied = Attributes { c_iflag: 0, c_cflag: libc::CS8, speed: libc::B115200 };
    serial.resume(OpenReply::Settings(Ok(applied))).unwrap();
    assert_eq!(serial.step, OpenStep::FlushInput);
    serial.resume(OpenReply::Finished(Ok(()))).unwrap();
    assert_eq!(serial.step, OpenStep::Open);
}

#[test]
fn line_that_differs_is_refused_and_restored() {
    for applied in [
        Attributes { c_iflag: 0, c_cflag: libc::CS8, speed: libc::B9600 },
        Attributes { c_iflag: 0, c_cflag: libc::CS8 | libc::CSTOPB, speed: libc::B115200 },
        Attributes { c_iflag: 0, c_cflag: libc::CS7, speed: libc::B115200 },
    ] {
        let mut serial = Serial {
            flags: flags(),
            speed: libc::B115200,
            restores: true,
            step: OpenStep::ReadApplied,
        };
        let error = serial.resume(OpenReply::Settings(Ok(applied))).unwrap_err();
        assert_eq!(
            error.message,
            "driver did not accept the requested baud rate and 8N1 framing"
        );
        assert!(serial.restores);
        assert_eq!(serial.step, OpenStep::Failed);
    }
    let mut serial = open(9600).unwrap();
    let missing = Error::new(ErrorKind::Os(2), "no such file");
    let error = serial.resume(OpenReply::Finished(Err(missing))).unwrap_err();
    assert_eq!(error.kind, ErrorKind::Os(2));
    assert!(!serial.restores);
}

#[test]
fn flags_of_another_platform_are_used_as_they_are() {
    // Those of powerpc.
    let other = Flags {
        ixon: 0x200,
        ixoff: 0x400,
        ixany: 0x800,
        csize: 0x300,
        cstopb: 0x400,
        parenb: 0x1000,
        cmspar: 0o10000000000,
        crtscts: 0o20000000000,
        cs8: 0x300,
        cread: 0x800,
        clocal: 0x8000,
    };
    let codes = Speeds { b57600: 0o20, ..speeds() };
    let mut serial = Serial::open(57600, &codes, other).unwrap();
    assert_eq!(serial.speed, 0o20);
    serial.resume(OpenReply::Finished(Ok(()))).unwrap();
    let raw = Attributes { c_iflag: 0xe04, c_cflag: 0x1500, speed: 1 };
    serial.resume(OpenReply::Settings(Ok(raw))).unwrap();
    let settings =
        RawSettings { c_iflag: 0x004, c_cflag: 0x8b00, vmin: 1, vtime: 0, speed: 0o20 };
    assert_eq!(serial.step, OpenStep::Apply(settings));
}

#[test]
fn loopback_is_left_as_it_was() {
    assert!(Loopback::enable(0x8000).was_enabled);
    assert!(!Loopback::enable(0x8006).disables());
    assert!(Loopback::enable(0x7fff).disables());
}

#[test]
fn pauses_in_microseconds() {
    assert_eq!(turnaround(9600), 4167);
    assert_eq!(turnaround(20000), 2000);
    assert_eq!(turnaround(1500000), 2000);
    assert_eq!(settling(0, 9600), 4146);
    assert_eq!(settling(270, 115200), 26320);
}

#[test]
fn payloads_differ_from_frame_to_frame() {
    assert_eq!(payload(0, 4), vec![0, 1, 2, 3]);
    assert_eq!(payload(5, 3), vec![5, 4, 7]);
    let long = payload(0x1ff, 258);
    assert_eq!((long[0], long[256], long[257]), (0xff, 0xfe, 0xff));
    assert!(same_bytes(&payload(1, 9), &payload(1, 9)));
    assert!(!same_bytes(&payload(1, 9), &payload(2, 9)));
    assert!(!same_bytes(&payload(1, 9), &payload(1, 8)));
}

fn test_options(command: Command, count: u32) -> Options {
    Options { command, device: "d".to_string(), baud: 115200, count, size: 10, timeout: 100 }
}

#[test]
fn the_two_ends_agree_over_a_faithful_line() {
    let mut uart = UartSession::new(&test_options(Command::Uart, 3)).unwrap();
    let mut peer = PeerSession::new(&test_options(Command::Peer, 3));
    for sequence in 0..3 {
        assert_eq!(uart.step, SessionStep::Pause { micros: 2000 });
        uart.resume(SessionReply::Paused).unwrap();
        assert_eq!(uart.step, SessionStep::Send);
        assert_eq!(decode(&uart.frame).unwrap(), (sequence, payload(sequence, 10).as_slice()));
        uart.resume(SessionReply::Sent(Ok(()))).unwrap();
        assert_eq!(peer.step, SessionStep::Receive);
        peer.resume(SessionReply::Received(Ok(uart.frame.clone()))).unwrap();
        assert_eq!(peer.step, SessionStep::Pause { micros: 2000 });
        peer.resume(SessionReply::Paused).unwrap();
        assert_eq!(peer.step, SessionStep::Send);
        let echo = peer.frame.clone();
        peer.resume(SessionReply::Sent(Ok(()))).unwrap();
        uart.resume(SessionReply::Received(Ok(echo))).unwrap();
    }
    assert_eq!(uart.step, SessionStep::Done);
    assert_eq!(peer.step, SessionStep::Drain);
    peer.resume(SessionReply::Drained(Ok(()))).unwrap();
    assert_eq!(peer.step, SessionStep::Pause { micros: settling(24, 115200) });
    peer.resume(SessionReply::Paused).unwrap();
    assert_eq!(peer.step, SessionStep::Done);
}

#[test]
fn an_echo_shares_the_deadline_of_its_request() {
    let mut uart = UartSession::new(&test_options(Command::Uart, 1)).unwrap();
    assert!(!uart.begins_deadline());
    uart.resume(SessionReply::Paused).unwrap();
    assert!(uart.begins_deadline());
    uart.resume(SessionReply::Sent(Ok(()))).unwrap();
    assert_eq!(uart.step, SessionStep::Receive);
    assert!(!uart.begins_deadline());

    let mut peer = PeerSession::new(&test_options(Command::Peer, 1));
    assert!(peer.begins_deadline());
    peer.resume(SessionReply::Received(Ok(uart.frame.clone()))).unwrap();
    assert!(!peer.begins_deadline());
    peer.resume(SessionReply::Paused).unwrap();
    assert!(peer.begins_deadline());
    peer.resume(SessionReply::Sent(Ok(()))).unwrap();
    assert_eq!(peer.step, SessionStep::Drain);
    assert!(!peer.begins_deadline());
}

#[test]
fn loopback_sends_without_a_pause() {
    let uart = UartSession::new(&test_options(Command::Loopback, 1)).unwrap();
    assert_eq!(uart.step, SessionStep::Send);
    let done = UartSession::new(&test_options(Command::Loopback, 0)).unwrap();
    assert_eq!(done.step, SessionStep::Done);
    let large = Options { size: 1025, ..test_options(Command::Uart, 1) };
    let error = UartSession::new(&large).unwrap_err();
    assert_eq!(error.message, "payload exceeds 1024 bytes");
}

#[test]
fn wrong_echoes_and_requests_end_the_test() {
    let mut uart = UartSession::new(&test_options(Command::Loopback, 20)).unwrap();
    for _ in 0..12 {
        uart.resume(SessionReply::Sent(Ok(()))).unwrap();
        let echo = uart.frame.clone();
        uart.resume(SessionReply::Received(Ok(echo))).unwrap();
    }
    uart.resume(SessionReply::Sent(Ok(()))).unwrap();
    let other = encode(12, b"other").unwrap();
    let error = uart.resume(SessionReply::Received(Ok(other))).unwrap_err();
    assert_eq!(error.message, "echo mismatch at sequence 12");

    let mut uart = UartSession::new(&test_options(Command::Loopback, 1)).unwrap();
    uart.resume(SessionReply::Sent(Ok(()))).unwrap();
    let late = Error::new(ErrorKind::TimedOut, "I/O deadline expired");
    let error = uart.resume(SessionReply::Received(Err(late))).unwrap_err();
    assert_eq!(error.message, "sequence 0: I/O deadline expired");
    assert_eq!(error.kind, ErrorKind::TimedOut);
    let error = named("/dev/ttyRU0", error);
    assert_eq!(error.message, "/dev/ttyRU0: sequence 0: I/O deadline expired");

    let mut peer = PeerSession::new(&test_options(Command::Peer, 3));
    let reordered = encode(1, b"").unwrap();
    let error = peer.resume(SessionReply::Received(Ok(reordered))).unwrap_err();
    assert_eq!(error.message, "missing, duplicated, or reordered request");
    let mut peer = PeerSession::new(&test_options(Command::Peer, 3));
    let error = peer.resume(SessionReply::Received(Ok(b"noise".to_vec()))).unwrap_err();
    assert_eq!(error.message, "invalid frame header");
}

#[test]
fn requirements_are_errors_of_their_own() {
    assert!(require(true, "never").is_ok());
    let error = require(false, "always").unwrap_err();
    assert_eq!((error.kind, error.message.as_str()), (ErrorKind::Other, "always"));
}

fn os(number: i32) -> Error {
    Error::new(ErrorKind::Os(number), "os error")
}

fn unloaded(result: Result<(), Error>) -> LifecycleReply {
    LifecycleReply::Unloaded { result, shown: "what came of it".to_string() }
}

#[test]
fn modules_are_loaded_used_and_unloaded() {
    let mut lifecycle = Lifecycle::new();
    for _ in 0..3 {
        lifecycle.resume(LifecycleReply::Finished(Ok(()))).unwrap();
    }
    for cycle in 0..3 {
        assert_eq!((lifecycle.cycle, lifecycle.step), (cycle, LifecycleStep::Load));
        lifecycle.resume(LifecycleReply::Finished(Ok(()))).unwrap();
        lifecycle.resume(LifecycleReply::Finished(Ok(()))).unwrap();
        assert_eq!(lifecycle.step, LifecycleStep::UnloadOpen);
        lifecycle.resume(unloaded(Err(os(EWOULDBLOCK)))).unwrap();
        lifecycle.resume(LifecycleReply::Ran(Ok(true))).unwrap();
        assert_eq!(lifecycle.step, LifecycleStep::Unload);
        lifecycle.resume(LifecycleReply::Finished(Ok(()))).unwrap();
    }
    assert_eq!(lifecycle.step, LifecycleStep::LoadUart);
    lifecycle.resume(LifecycleReply::Finished(Ok(()))).unwrap();
    lifecycle.resume(LifecycleReply::Finished(Ok(()))).unwrap();
    assert_eq!(lifecycle.step, LifecycleStep::Done);
}

#[test]
fn lifecycle_failures_are_named() {
    let open = Lifecycle { cycle: 1, step: LifecycleStep::UnloadOpen };
    for result in [Ok(()), Err(os(2)), Err(Error::new(ErrorKind::Other, "x"))] {
        let mut wrong = open;
        let error = wrong.resume(unloaded(result)).unwrap_err();
        assert_eq!(error.message, "unload while open: what came of it");
        assert_eq!(error.kind, ErrorKind::Other);
        assert_eq!(wrong.step, LifecycleStep::Failed);
    }
    let mut failed = Lifecycle { cycle: 1, step: LifecycleStep::Regression };
    let error = failed.resume(LifecycleReply::Ran(Ok(false))).unwrap_err();
    assert_eq!(error.message, "character-device regression failed");
    assert_eq!(failed.step, LifecycleStep::Failed);
    assert_eq!(open.step, LifecycleStep::UnloadOpen);
}
