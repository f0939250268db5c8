use std::sync::atomic::{AtomicBool, Ordering};
use std::sync::Mutex;
use uart_stack::errno::Errno;
use uart_stack::serial::driver::{Driver, DriverInfo, DriverState, Line, Registration};
use uart_stack::serial::locked_port::{Effect, LockedPort, Reception, TtyFlag};
use uart_stack::serial::port::{
    interrupt_code, startup_outcome, CorePort, Hardware, Port, Startup, TermiosOutcome,
};
use uart_stack::serial::receive;
use uart_stack::serial::termios::{
    line_config, rate_limits, requested_rate, LineConfig, Termios, BRKINT, CMSPAR, CREAD, CRTSCTS,
    CS7, CSTOPB, IGNBRK, IGNPAR, INPCK, PARENB, PARODD,
};

fn info(lines: u32) -> DriverInfo {
    DriverInfo { driver_name: "test", dev_name: "ttyT", lines }
}

fn registered(lines: u32) -> Registration {
    let mut driver = Driver::new(info(lines));
    let core = driver.register().unwrap();
    assert_eq!(core.nr, lines as i32);
    driver.registered(Ok(())).ok().unwrap()
}

#[test]
fn drivers_need_a_sensible_number_of_lines() {
    for lines in [0, 65, u32::MAX] {
        let mut driver = Driver::new(info(lines));
        assert_eq!(driver.register().err(), Some(Errno::EINVAL));
        assert_eq!(driver.state(), DriverState::Unregistered);
    }
}

#[test]
fn a_driver_is_registered_once_and_may_fail_to() {
    let mut driver = Driver::new(info(2));
    assert!(driver.register().is_ok());
    assert_eq!(driver.register().err(), Some(Errno::EBUSY));
    let (mut driver, error) = driver.registered(Err(Errno::Other(-12))).err().unwrap();
    assert_eq!(error, Errno::Other(-12));
    assert_eq!(driver.state(), DriverState::Unregistered);
    assert!(driver.register().is_ok());
}

#[test]
fn lines_are_given_lowest_first_and_come_back() {
    let mut registration = registered(2);
    let driver = registration.driver_mut();
    let first = Line::allocate(driver).unwrap();
    let second = Line::allocate(driver).unwrap();
    assert_eq!((first.index(), second.index()), (0, 1));
    assert_eq!(Line::allocate(driver).err(), Some(Errno::EBUSY));
    first.release(driver);
    assert_eq!(driver.lines(), 0b10);
    let again = Line::allocate(driver).unwrap();
    assert_eq!(again.index(), 0);
    let mut registration = registration.unregister().err().unwrap();
    let driver = registration.driver_mut();
    again.release(driver);
    second.release(driver);
    let driver = registration.unregister().ok().unwrap();
    assert_eq!(driver.state(), DriverState::Unregistered);
    assert_eq!(driver.info().dev_name, "ttyT");
}

#[test]
fn sixty_four_lines_can_be_taken() {
    assert_eq!(Line::pick(u64::MAX, 64).err(), Some(Errno::EBUSY));
    assert_eq!(Line::pick(u64::MAX >> 1, 64).unwrap(), (63, u64::MAX));
    assert_eq!(Line::free(u64::MAX, 63), u64::MAX >> 1);
}

#[test]
fn flow_control_bytes_go_first() {
    let mut port = LockedPort::new(24_000_000);
    port.xmit.extend(b"ab");
    port.x_char = 0x13;
    port.tx_stopped = true;
    assert_eq!(port.next_tx(), Some(0x13));
    assert_eq!(port.next_tx(), None);
    port.tx_stopped = false;
    assert_eq!(port.next_tx(), Some(b'a'));
    assert_eq!(port.next_tx(), Some(b'b'));
    assert_eq!(port.next_tx(), None);
    assert_eq!(port.icount.tx, 1);
}

#[test]
fn writers_are_woken_when_the_queue_runs_low() {
    let mut port = LockedPort::new(24_000_000);
    port.xmit.extend(vec![0u8; 256]);
    port.wake_writers();
    assert!(port.effects.is_empty());
    port.advance_tx(1);
    port.wake_writers();
    assert_eq!(port.effects, vec![Effect::WriteWakeup]);
}

#[test]
fn received_errors_are_counted_and_flagged() {
    let mut port = LockedPort::new(24_000_000);
    port.read_status_mask = 0x1f;
    port.icount.rx = u32::MAX;
    assert_eq!(port.receive(b'x', receive::PARITY | receive::FRAME), Reception::Settled);
    assert_eq!(port.icount.rx, 0);
    assert_eq!((port.icount.parity, port.icount.frame), (1, 0));
    assert_eq!(port.receive(b'y', receive::OVERRUN), Reception::Settled);
    assert_eq!(port.icount.overrun, 1);
    assert_eq!(
        port.effects,
        vec![
            Effect::InsertChar { status: 0x16, overrun: 1, byte: b'x', flag: TtyFlag::Parity },
            Effect::InsertChar { status: 0x11, overrun: 1, byte: b'y', flag: TtyFlag::Normal },
        ]
    );
}

#[test]
fn breaks_are_offered_to_serial_core() {
    let mut port = LockedPort::new(24_000_000);
    port.read_status_mask = 0x1f;
    let status = receive::BREAK | receive::PARITY | receive::FRAME;
    assert_eq!(port.receive(0, status), Reception::AskBreak);
    port.receive_break(0, status, true);
    assert!(port.effects.is_empty());
    assert_eq!(port.receive(0, status), Reception::AskBreak);
    port.receive_break(0, status, false);
    assert_eq!(
        port.effects,
        vec![Effect::InsertChar { status: 0x18, overrun: 1, byte: 0, flag: TtyFlag::Break }]
    );
    assert_eq!((port.icount.brk, port.icount.parity, port.icount.frame), (2, 0, 0));
}

#[test]
fn masked_errors_look_normal() {
    let mut port = LockedPort::new(24_000_000);
    port.read_status_mask = receive::DATA | receive::OVERRUN;
    port.receive(b'x', receive::FRAME);
    assert_eq!(
        port.effects,
        vec![Effect::InsertChar { status: 0x10, overrun: 1, byte: b'x', flag: TtyFlag::Normal }]
    );
    assert_eq!(port.icount.frame, 1);
}

/// A controller with a clock of its own, which records what it is told.
struct Board {
    clock: u32,
    refuses: AtomicBool,
    starts: Result<(), Errno>,
    log: Mutex<Vec<String>>,
    configured: Mutex<Vec<LineConfig>>,
}

fn board() -> Board {
    Board {
        clock: 48_000_000,
        refuses: AtomicBool::new(false),
        starts: Ok(()),
        log: Mutex::new(Vec::new()),
        configured: Mutex::new(Vec::new()),
    }
}

impl Board {
    fn note(&self, text: &str) {
        self.log.lock().unwrap().push(text.to_string());
    }
}

impl Hardware for Board {
    fn tx_empty(&self) -> bool {
        true
    }
    fn set_loopback(&self, enable: bool) {
        self.note(if enable { "loop on" } else { "loop off" });
    }
    fn startup(&self) -> Result<(), Errno> {
        self.starts
    }
    fn shutdown(&self) {
        self.note("shutdown");
    }
    fn start_tx(&self, port: &mut LockedPort) {
        let _ = port.next_tx();
    }
    fn stop_tx(&self) {
        self.note("stop tx");
    }
    fn flush_tx(&self) {
        self.note("flush tx");
    }
    fn stop_rx(&self) {
        self.note("stop rx");
    }
    fn set_break(&self, enable: bool) {
        self.note(if enable { "break on" } else { "break off" });
    }
    fn prepare_clock(&self, baud: u32, _clock: u32) -> u32 {
        if baud == 31_250 {
            500_000
        } else {
            self.clock
        }
    }
    fn configure(&self, config: LineConfig) -> Result<u32, Errno> {
        self.configured.lock().unwrap().push(config);
        if self.refuses.load(Ordering::SeqCst) {
            Err(Errno::EBUSY)
        } else {
            Ok(config.baud + 1)
        }
    }
    fn interrupt(&self, port: &mut LockedPort) -> bool {
        port.push_rx();
        true
    }
}

fn board_port(registration: &mut Registration, board: Board) -> Port<Board> {
    let driver = registration.driver_mut();
    let (port, core) = Port::new(driver, 363, board, 0xfeb4_0000, 24_000_000, 64).unwrap();
    assert_eq!(
        core,
        CorePort {
            irq: 363,
            line: port.line(),
            mapbase: 0xfeb4_0000,
            uartclk: 24_000_000,
            fifosize: 64,
            regshift: 2,
        }
    );
    assert!(!port.added);
    assert_eq!((port.raw.uartclk, port.raw.x_char, port.raw.tx_pending()), (24_000_000, 0, 0));
    assert!(port.raw.effects.is_empty() && !port.raw.tx_stopped);
    port.core_answered(driver, Ok(())).unwrap()
}

#[test]
fn ports_need_a_registered_driver_and_a_free_line() {
    let mut driver = Driver::new(info(1));
    let refused = Port::new(&mut driver, 1, board(), 0, 1, 1).err();
    assert_eq!(refused, Some(Errno::ENODEV));
    let mut registration = registered(1);
    let port = board_port(&mut registration, board());
    let refused = Port::new(registration.driver_mut(), 1, board(), 0, 1, 1).err();
    assert_eq!(refused, Some(Errno::EBUSY));
    assert_eq!(port.line(), 0);
    let _ = port.remove(registration.driver_mut());
    assert_eq!(registration.driver().lines(), 0);
}

#[test]
fn refused_ports_give_their_line_back() {
    let mut registration = registered(1);
    let driver = registration.driver_mut();
    let (port, _) = Port::new(driver, 1, board(), 0, 1, 1).unwrap();
    assert_eq!(driver.lines(), 1);
    assert_eq!(port.core_answered(driver, Err(Errno::EINVAL)).err(), Some(Errno::EINVAL));
    assert_eq!(driver.lines(), 0);
}

#[test]
fn callbacks_reach_the_controller() {
    let mut registration = registered(1);
    let mut port = board_port(&mut registration, board());
    assert_eq!(port.tx_empty(), 1);
    assert!(port.set_mctrl(0x8006));
    assert!(!port.set_mctrl(0x0006));
    assert_eq!(Port::<Board>::get_mctrl(), 0x160);
    assert!(port.break_ctl(-1));
    assert!(!port.break_ctl(0));
    port.stop_tx();
    port.flush_buffer();
    port.stop_rx();
    port.shutdown();
    port.raw.xmit.extend(b"q");
    port.start_tx();
    assert_eq!(port.raw.tx_pending(), 0);
    assert_eq!(port.interrupt(), 1);
    assert_eq!(port.raw.effects, vec![Effect::PushFlipBuffer]);
    assert_eq!(Port::<Board>::port_type(), "Rust DesignWare UART");
    assert_eq!(Port::<Board>::verify_port(), -22);
    let log = port.hardware.log.lock().unwrap().join(", ");
    assert_eq!(
        log,
        "loop on, loop off, break on, break off, stop tx, flush tx, stop rx, shutdown"
    );
    assert_eq!((interrupt_code(true), interrupt_code(false)), (1, 0));
}

#[test]
fn failed_startup_gives_the_interrupt_back() {
    let mut registration = registered(2);
    let good = board_port(&mut registration, board());
    assert_eq!(good.startup(-16), Startup { code: -16, free_irq: false });
    assert_eq!(good.startup(0), Startup { code: 0, free_irq: false });
    let bad = board_port(&mut registration, Board { starts: Err(Errno::ENODEV), ..board() });
    assert_eq!(bad.startup(0), Startup { code: -19, free_irq: true });
    assert_eq!(startup_outcome(Ok(())), Startup { code: 0, free_irq: false });
}

fn settings(c_iflag: u32, c_cflag: u32, rate: u32) -> Termios {
    Termios { c_iflag, c_cflag, c_ospeed: rate, rate }
}

#[test]
fn accepted_settings_take_effect() {
    let mut registration = registered(1);
    let mut port = board_port(&mut registration, board());
    let mut new = settings(INPCK | IGNPAR, CS7 | PARENB | CREAD | CRTSCTS | CMSPAR, 115_200);
    let query = port.set_termios(&mut new);
    assert_eq!(new.c_cflag, CS7 | PARENB | CREAD);
    assert_eq!((query.requested, query.clock), (115_200, 48_000_000));
    assert_eq!((query.min, query.max), (50, 3_000_000));
    let outcome = port.set_rate(query, 115_200, &mut new, None);
    assert_eq!(outcome, TermiosOutcome::Applied { actual: 115_201, encode: true });
    assert_eq!(
        port.hardware.configured.lock().unwrap().as_slice(),
        &[LineConfig {
            baud: 115_200,
            clock: 48_000_000,
            data_bits: 7,
            two_stop_bits: false,
            parity: true,
            odd_parity: false,
        }]
    );
    assert_eq!(port.raw.uartclk, 48_000_000);
    assert_eq!(port.raw.read_status_mask, 1 | 16 | 2 | 4);
    assert_eq!(port.raw.ignore_status_mask, 2 | 4);
}

#[test]
fn refused_settings_are_replaced_by_the_previous_ones() {
    let mut registration = registered(1);
    let mut port = board_port(&mut registration, board());
    port.hardware.refuses.store(true, Ordering::SeqCst);
    let previous = settings(0, CREAD, 9600);
    let mut new = settings(IGNBRK, CSTOPB, 0);
    let query = port.set_termios(&mut new);
    assert_eq!(query.requested, 9600);
    // Serial core chose another rate, so the clock is prepared again.
    let outcome = port.set_rate(query, 31_250, &mut new, Some(previous));
    assert_eq!(port.hardware.configured.lock().unwrap()[0].clock, 500_000);
    assert_eq!(outcome, TermiosOutcome::Restored { clock_restored: false });
    assert_eq!(new, previous);
    assert_eq!(port.raw.uartclk, 24_000_000);
    let mut first = settings(0, 0, 9600);
    let outcome = port.set_rate(query, 9600, &mut first, None);
    assert_eq!(outcome, TermiosOutcome::Kept);
    assert_eq!(first, settings(0, 0, 9600));
}

#[test]
fn the_steps_of_a_change_can_be_taken_one_by_one() {
    let mut registration = registered(1);
    let mut port = board_port(&mut registration, board());
    let mut new = settings(0, CREAD, 57_600);
    let query = port.set_termios(&mut new);
    assert_eq!(port.rate_clock(query, 57_600), 48_000_000);
    let clock = port.rate_clock(query, 31_250);
    assert_eq!(clock, 500_000);
    let outcome = port.apply_rate(31_250, clock, &new);
    assert_eq!(outcome, Some(TermiosOutcome::Applied { actual: 31_251, encode: true }));
    let hung_up = Termios { c_ospeed: 0, ..new };
    let outcome = port.apply_rate(31_250, clock, &hung_up);
    assert_eq!(outcome, Some(TermiosOutcome::Applied { actual: 31_251, encode: false }));
    assert_eq!(port.raw.uartclk, 500_000);
    port.hardware.refuses.store(true, Ordering::SeqCst);
    assert_eq!(port.apply_rate(57_600, 48_000_000, &new), None);
    assert_eq!(port.raw.uartclk, 500_000);
    let previous = settings(0, CREAD, 31_250);
    let outcome = port.refuse_rate(48_000_000, &mut new, Some(previous));
    assert_eq!(outcome, TermiosOutcome::Restored { clock_restored: true });
    assert_eq!(new, previous);
    assert_eq!(port.refuse_rate(1, &mut new, None), TermiosOutcome::Kept);
}

#[test]
fn a_disabled_receiver_drops_every_character() {
    let mut port = LockedPort::new(1);
    port.apply_termios(1, INPCK, 0);
    let ignored = port.ignore_status_mask;
    for status in 0..16 {
        port.receive(b'x', status & !receive::BREAK);
    }
    assert_eq!(port.effects.len(), 16);
    for effect in &port.effects {
        match effect {
            Effect::InsertChar { status, .. } => assert!(status & ignored != 0),
            other => panic!("{:?}", other),
        }
    }
    port.effects.clear();
    port.apply_termios(1, IGNBRK | IGNPAR, CREAD);
    port.receive(b'x', 0);
    match port.effects[0] {
        Effect::InsertChar { status, .. } => assert_eq!(status & port.ignore_status_mask, 0),
        other => panic!("{:?}", other),
    }
}

#[test]
fn status_masks_follow_the_settings() {
    let mut port = LockedPort::new(1);
    port.apply_termios(2, 0, CREAD);
    assert_eq!((port.uartclk, port.read_status_mask, port.ignore_status_mask), (2, 17, 0));
    port.apply_termios(2, BRKINT, 0);
    assert_eq!((port.read_status_mask, port.ignore_status_mask), (17 | 8, 16));
    port.apply_termios(2, IGNBRK, CREAD);
    assert_eq!(port.ignore_status_mask, 8);
    port.apply_termios(2, IGNBRK | IGNPAR, CREAD);
    assert_eq!(port.ignore_status_mask, 8 | 6 | 1);
}

#[test]
fn rates_and_framing_are_read_from_the_settings() {
    assert_eq!((requested_rate(0), requested_rate(300)), (9600, 300));
    assert_eq!(rate_limits(24_000_000), (50, 1_500_000));
    assert_eq!(rate_limits(200_000_000), (190, 12_500_000));
    let config = line_config(1, 2, CSTOPB | PARENB | PARODD | 0o20);
    assert_eq!(
        config,
        LineConfig {
            baud: 1,
            clock: 2,
            data_bits: 6,
            two_stop_bits: true,
            parity: true,
            odd_parity: true,
        }
    );
    assert_eq!(line_config(1, 2, 0).data_bits, 5);
    assert_eq!(line_config(1, 2, 0o60).data_bits, 8);
}

/// A controller that keeps every default.
struct Plain;

impl Hardware for Plain {
    fn tx_empty(&self) -> bool {
        false
    }
    fn set_loopback(&self, _enable: bool) {}
    fn startup(&self) -> Result<(), Errno> {
        Ok(())
    }
    fn shutdown(&self) {}
    fn start_tx(&self, _port: &mut LockedPort) {}
    fn stop_tx(&self) {}
    fn flush_tx(&self) {}
    fn stop_rx(&self) {}
    fn set_break(&self, _enable: bool) {}
    fn configure(&self, _config: LineConfig) -> Result<u32, Errno> {
        Ok(0)
    }
    fn interrupt(&self, _port: &mut LockedPort) -> bool {
        false
    }
}

#[test]
fn defaults_keep_the_clock_and_use_no_dma() {
    assert_eq!(Plain.prepare_clock(9600, 7), 7);
    assert!(Plain.dma_config().is_none());
    let mut registration = registered(1);
    let driver = registration.driver_mut();
    let (mut port, _) = Port::new(driver, 1, Plain, 0, 24_000_000, 16).unwrap();
    assert_eq!(port.tx_empty(), 0);
    assert_eq!(port.interrupt(), 0);
    // A rate of zero counts as a refusal.
    let mut new = settings(0, 0, 9600);
    let query = port.set_termios(&mut new);
    assert_eq!(port.set_rate(query, 9600, &mut new, None), TermiosOutcome::Kept);
    let previous = settings(1, 2, 3);
    let outcome = port.set_rate(query, 9600, &mut new, Some(previous));
    assert_eq!(outcome, TermiosOutcome::Restored { clock_restored: true });
}
