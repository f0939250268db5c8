use std::collections::VecDeque;
use uart_stack::dw_uart::config::divisor;
use uart_stack::dw_uart::configure::{Configure, ConfigureStage};
use uart_stack::dw_uart::control::Change;
use uart_stack::dw_uart::lcr::{LcrStage, LcrWrite, ATTEMPTS};
use uart_stack::dw_uart::probe::{
    check_rate, dma_config, fifo_depth, fraction_width, hertz, Probe, ProbeAnswer, ProbeRequest,
    ProbeStage,
};
use uart_stack::dw_uart::{
    tty_driver, DwUart, Request, DATA, DLF, FCR, FCR_ENABLE, FCR_RESET_ALL, FCR_RESET_TX, IER,
    IRQ_BUDGET, LCR, LSR, MCR, MSR, USR,
};
use uart_stack::errno::Errno;
use uart_stack::serial::dma::Config;
use uart_stack::serial::locked_port::{Effect, LockedPort, TtyFlag};
use uart_stack::serial::termios::LineConfig;

fn uart() -> DwUart {
    DwUart { dma: None, dlf_bits: 4, fifo_size: 4, saved_lsr: 0 }
}

/// A device that keeps what is written to it, and may be busy for a while.
struct Device {
    lcr: u32,
    ier: u32,
    low: u32,
    high: u32,
    fraction: u32,
    /// Line control writes that are rejected once `calm` more were taken.
    calm: u32,
    busy: u32,
    /// Pending interrupts.
    interrupts: VecDeque<u32>,
    /// Received bytes with their line status.
    input: VecDeque<(u32, u32)>,
    /// Room in the transmit FIFO.
    room: u32,
    sent: Vec<u8>,
    log: Vec<Request>,
    break_taken: u32,
    dma: u32,
}

fn device() -> Device {
    Device {
        lcr: 0x03,
        ier: 0x05,
        low: 13,
        high: 0,
        fraction: 0,
        calm: 0,
        busy: 0,
        interrupts: VecDeque::new(),
        input: VecDeque::new(),
        room: 64,
        sent: Vec::new(),
        log: Vec::new(),
        break_taken: 0,
        dma: 0,
    }
}

impl Device {
    fn access(&mut self, request: Request) -> u32 {
        self.log.push(request);
        let latched = self.lcr & 0x80 != 0;
        match request {
            Request::Write { value, offset } => {
                match offset {
                    DATA if latched => self.low = value,
                    DATA => {
                        self.room -= 1;
                        self.sent.push(value as u8);
                    }
                    IER if latched => self.high = value,
                    IER => self.ier = value,
                    DLF => self.fraction = value & 0x0f,
                    LCR => {
                        if self.calm > 0 {
                            self.calm -= 1;
                            self.lcr = value;
                        } else if self.busy > 0 {
                            self.busy -= 1;
                        } else {
                            self.lcr = value;
                        }
                    }
                    _ => {}
                }
                0
            }
            Request::Read { offset } => match offset {
                DATA if latched => self.low,
                DATA => self.input.pop_front().map_or(0, |(byte, _)| byte),
                IER if latched => self.high,
                IER => self.ier,
                FCR => self.interrupts.pop_front().unwrap_or(1) | 0xc0,
                LCR => self.lcr,
                LSR => self.input.front().map_or(0x60, |&(_, lsr)| lsr),
                USR => if self.room > 0 { 2 } else { 0 },
                DLF => self.fraction,
                0xf4 => 0x0010_0000,
                _ => 0,
            },
            Request::HandleBreak => {
                // A break without data is gone once its status was read.
                if self.input.front().is_some_and(|&(_, lsr)| lsr & 1 == 0) {
                    self.input.pop_front();
                }
                self.break_taken
            }
            _ => self.dma,
        }
    }

    fn run_lcr(&mut self, mut write: LcrWrite) -> bool {
        while let Some(request) = write.request() {
            let reply = self.access(request);
            write.resume(reply);
        }
        write.outcome().unwrap()
    }

    fn run_configure(&mut self, mut configure: Configure) -> Result<u32, Errno> {
        while let Some(request) = configure.request() {
            let reply = self.access(request);
            configure.resume(reply);
        }
        configure.outcome().unwrap()
    }

    fn registers(&self) -> (u32, u32, u32, u32, u32) {
        (self.lcr, self.ier, self.low, self.high, self.fraction)
    }

    fn run_interrupt(&mut self, uart: &mut DwUart, port: &mut LockedPort) -> bool {
        let mut interrupt = DwUart::interrupt();
        while let Some(request) = interrupt.request(uart) {
            let reply = self.access(request);
            interrupt.resume(uart, port, reply);
        }
        interrupt.handled
    }
}

fn line(baud: u32) -> LineConfig {
    LineConfig {
        baud,
        clock: 24_000_000,
        data_bits: 7,
        two_stop_bits: false,
        parity: true,
        odd_parity: false,
    }
}

#[test]
fn the_tty_driver_has_ten_lines() {
    let driver = tty_driver();
    assert_eq!(driver.info().driver_name, "rust_dw_uart");
    assert_eq!(driver.info().dev_name, "ttyRU");
    assert_eq!(driver.info().lines, 10);
}

#[test]
fn line_control_write_retries_while_the_device_is_busy() {
    let mut device = Device { busy: 2, ..device() };
    assert!(device.run_lcr(LcrWrite::new(0x83)));
    assert_eq!(device.lcr, 0x83);
    assert_eq!(device.log.len(), 12);
    assert_eq!(
        device.log[..5],
        [
            Request::Write { value: 0x83, offset: LCR },
            Request::Read { offset: LCR },
            Request::Read { offset: USR },
            Request::Write { value: FCR_RESET_ALL, offset: FCR },
            Request::Read { offset: DATA },
        ]
    );
}

#[test]
fn line_control_write_gives_up_after_a_thousand_attempts() {
    let mut device = Device { busy: u32::MAX, ..device() };
    assert!(!device.run_lcr(LcrWrite::new(0x83)));
    assert_eq!(device.log.len(), 5 * ATTEMPTS as usize);
    assert_eq!(device.lcr, 0x03);
    let mut done = LcrWrite::new(0);
    done.stage = LcrStage::Done(true);
    done.resume(7);
    assert_eq!(done.outcome(), Some(true));
}

#[test]
fn configuration_sets_framing_divisor_and_fifos() {
    let mut device = device();
    let expected = divisor(24_000_000, 921_600, 4).unwrap();
    let configure = uart().configure(line(921_600)).unwrap();
    assert_eq!(device.run_configure(configure), Ok(expected.actual_baud));
    let low = u32::from(expected.integer) & 0xff;
    assert_eq!(device.registers(), (0x1a, 0x05, low, 0, expected.fraction));
    let count = device.log.len();
    assert_eq!(device.log[count - 2], Request::Write { value: FCR_ENABLE, offset: FCR });
    assert_eq!(device.log[count - 1], Request::Write { value: 0x05, offset: IER });
}

#[test]
fn rates_that_do_not_divide_are_refused_untouched() {
    assert_eq!(uart().configure(line(7_000_000)).err(), Some(Errno::EINVAL));
    assert_eq!(uart().configure(line(0)).err(), Some(Errno::EINVAL));
}

#[test]
fn busy_device_keeps_its_configuration() {
    // The device rejects the framing with the divisor latch hidden, and calms
    // down once that write has been given up.
    let mut second = Device { calm: 1, busy: ATTEMPTS, ..device() };
    let before = second.registers();
    let configure = uart().configure(line(9600)).unwrap();
    assert_eq!(second.run_configure(configure), Err(Errno::EBUSY));
    assert_eq!(second.registers(), before);
    // A few more rejections do not keep the previous configuration away.
    let mut third = Device { calm: 1, busy: ATTEMPTS + 7, ..device() };
    let configure = uart().configure(line(9600)).unwrap();
    assert_eq!(third.run_configure(configure), Err(Errno::EBUSY));
    assert_eq!(third.registers(), before);
    // The same when the divisor latch cannot even be selected.
    let mut first = Device { busy: ATTEMPTS, ..device() };
    let configure = uart().configure(line(9600)).unwrap();
    assert_eq!(configure.stage, ConfigureStage::ReadLcr);
    assert_eq!(first.run_configure(configure), Err(Errno::EBUSY));
    assert_eq!(first.registers(), before);
}

#[test]
fn device_that_stays_busy_still_gets_its_interrupts_back() {
    let mut device = Device { busy: u32::MAX, ..device() };
    let configure = uart().configure(line(9600)).unwrap();
    assert_eq!(device.run_configure(configure), Err(Errno::EBUSY));
    assert_eq!(device.ier, 0x05);
    assert_eq!(*device.log.last().unwrap(), Request::Write { value: 0x05, offset: IER });
}

#[test]
fn fixed_courses_of_accesses() {
    let mut uart = DwUart { saved_lsr: 0x1e, ..uart() };
    let accesses = uart.startup();
    assert_eq!(
        accesses,
        [
            Request::Write { value: 0, offset: IER },
            Request::Write { value: 0x4f, offset: FCR },
            Request::Read { offset: LSR },
            Request::Read { offset: DATA },
            Request::Read { offset: FCR },
            Request::Read { offset: MSR },
            Request::Write { value: 5, offset: IER },
        ]
    );
    assert_eq!(uart.saved_lsr, 0);
    assert_eq!(DwUart::set_loopback(true), Request::Write { value: 0x18, offset: MCR });
    assert_eq!(DwUart::set_loopback(false), Request::Write { value: 0x08, offset: MCR });
    assert!(uart.tx_empty(0x62));
    assert_eq!(uart.saved_lsr, 0x02);
    assert!(!uart.tx_empty(0x38));
    assert_eq!(uart.saved_lsr, 0x1a);
    assert_eq!(Change::Raise(2).apply(5), 7);
    assert_eq!(Change::Lower(3).apply(7), 4);
}

#[test]
fn interrupts_are_changed_bit_by_bit() {
    let mut device = Device { ier: 0x0f, ..device() };
    for mut update in [DwUart::stop_tx(), DwUart::stop_rx()] {
        while let Some(request) = update.request() {
            let reply = device.access(request);
            update.resume(reply);
        }
    }
    assert_eq!(device.ier, 0x08);
    let mut flush = DwUart::flush_tx();
    device.ier = 0x07;
    while let Some(request) = flush.request() {
        let reply = device.access(request);
        flush.resume(reply);
    }
    assert_eq!(device.ier, 0x05);
    assert_eq!(
        *device.log.last().unwrap(),
        Request::Write { value: FCR_RESET_TX, offset: FCR }
    );
}

#[test]
fn breaks_are_set_and_cancelled_at_shutdown() {
    let mut device = device();
    let mut set = DwUart::set_break(true);
    while let Some(request) = set.request() {
        let reply = device.access(request);
        set.resume(reply);
    }
    assert_eq!(device.lcr, 0x43);
    let mut shutdown = DwUart::shutdown();
    while let Some(request) = shutdown.request() {
        let reply = device.access(request);
        shutdown.resume(reply);
    }
    assert_eq!((device.lcr, device.ier), (0x03, 0));
    assert_eq!(
        *device.log.last().unwrap(),
        Request::Write { value: FCR_RESET_ALL, offset: FCR }
    );
}

#[test]
fn transmission_fills_the_fifo_in_order() {
    let uart = uart();
    let mut device = device();
    let mut port = LockedPort::new(24_000_000);
    port.xmit.extend(b"abcdef");
    port.x_char = b'!';
    let mut start = uart.start_tx();
    while let Some(request) = start.request() {
        let reply = device.access(request);
        start.resume(&mut port, reply);
    }
    assert_eq!(device.sent, b"!abc");
    assert_eq!(device.ier, 0x07);
    assert_eq!(port.xmit, VecDeque::from(b"def".to_vec()));
    assert_eq!(port.effects, vec![Effect::WriteWakeup]);
}

#[test]
fn transmission_stops_at_a_full_fifo_or_an_empty_queue() {
    let uart = uart();
    let mut device = Device { room: 2, ..device() };
    let mut port = LockedPort::new(24_000_000);
    port.xmit.extend(b"abc");
    let mut transmit = uart.transmit(&mut port);
    while let Some(request) = transmit.request() {
        let reply = device.access(request);
        transmit.resume(&mut port, reply);
    }
    assert_eq!(device.sent, b"ab");
    device.room = 64;
    device.ier = 0x07;
    let mut transmit = uart.transmit(&mut port);
    while let Some(request) = transmit.request() {
        let reply = device.access(request);
        transmit.resume(&mut port, reply);
    }
    assert_eq!(device.sent, b"abc");
    assert_eq!(device.ier, 0x05);
    let mut none = DwUart { fifo_size: 0, ..uart };
    none.saved_lsr = 0;
    assert_eq!(none.transmit(&mut port).request(), None);
}

#[test]
fn dma_takes_the_transmission_over() {
    let mut device = Device { dma: 1, ier: 0x07, ..device() };
    let mut port = LockedPort::new(24_000_000);
    port.xmit.extend(b"abc");
    let mut start = uart().start_tx();
    while let Some(request) = start.request() {
        let reply = device.access(request);
        start.resume(&mut port, reply);
    }
    assert_eq!(device.ier, 0x05);
    assert!(device.sent.is_empty());
    assert_eq!(port.tx_pending(), 3);
}

#[test]
fn parked_errors_belong_to_the_next_byte() {
    let mut uart = DwUart { saved_lsr: 0x04, ..uart() };
    let mut device = device();
    device.input.push_back((b'a' as u32, 0x61));
    device.input.push_back((b'b' as u32, 0x61));
    let mut port = LockedPort::new(24_000_000);
    port.read_status_mask = 0x1f;
    let mut drain = DwUart::drain_rx();
    while let Some(request) = drain.request() {
        let reply = device.access(request);
        drain.resume(&mut uart, &mut port, reply);
    }
    assert_eq!(
        port.effects,
        vec![
            Effect::InsertChar { status: 0x12, overrun: 1, byte: b'a', flag: TtyFlag::Parity },
            Effect::InsertChar { status: 0x10, overrun: 1, byte: b'b', flag: TtyFlag::Normal },
            Effect::PushFlipBuffer,
        ]
    );
    assert_eq!(uart.saved_lsr, 0);
    assert_eq!(port.icount.rx, 2);
}

#[test]
fn breaks_without_data_are_zero_bytes() {
    for taken in [0, 1] {
        let mut uart = uart();
        let mut device = Device { break_taken: taken, ..device() };
        device.input.push_back((0, 0x70));
        let mut port = LockedPort::new(24_000_000);
        port.read_status_mask = 0x1f;
        let mut receive = DwUart::receive(8);
        while let Some(request) = receive.request() {
            let reply = device.access(request);
            receive.resume(&mut uart, &mut port, reply);
        }
        assert!(receive.received);
        assert_eq!(receive.budget, 7);
        assert_eq!(port.icount.brk, 1);
        assert_eq!(port.effects.len(), 1 - taken as usize);
    }
}

#[test]
fn interrupt_of_another_device_is_left_alone() {
    let mut device = device();
    let mut port = LockedPort::new(24_000_000);
    assert!(!device.run_interrupt(&mut uart(), &mut port));
    assert_eq!(device.log, vec![Request::Read { offset: FCR }]);
    assert!(port.effects.is_empty());
}

#[test]
fn received_data_is_pushed_once() {
    let mut device = device();
    device.interrupts.extend([4, 6, 2, 12, 7, 0]);
    device.input.push_back((b'a' as u32, 0x61));
    device.input.push_back((b'b' as u32, 0x63));
    device.dma = 0;
    let mut port = LockedPort::new(24_000_000);
    port.read_status_mask = 0x1f;
    // Nothing takes the line error over, so the service ends with it.
    assert!(device.run_interrupt(&mut uart(), &mut port));
    assert_eq!(port.icount.rx, 2);
    assert_eq!(*port.effects.last().unwrap(), Effect::PushFlipBuffer);
    assert_eq!(port.effects.len(), 3);
    assert_eq!(device.interrupts.len(), 4);
}

#[test]
fn spurious_timeout_discards_one_byte() {
    let mut device = Device { dma: 1, ..device() };
    device.interrupts.push_back(12);
    let mut port = LockedPort::new(24_000_000);
    assert!(device.run_interrupt(&mut uart(), &mut port));
    assert_eq!(
        device.log,
        vec![
            Request::Read { offset: FCR },
            Request::DmaRxFlush,
            Request::Read { offset: LSR },
            Request::Read { offset: DATA },
            Request::Read { offset: FCR },
        ]
    );
    assert!(port.effects.is_empty());
}

#[test]
fn busy_and_modem_interrupts_are_cleared_and_unknown_ones_end_the_service() {
    let mut device = device();
    device.interrupts.extend([7, 0, 3, 4]);
    let mut port = LockedPort::new(24_000_000);
    assert!(device.run_interrupt(&mut uart(), &mut port));
    assert_eq!(
        device.log,
        vec![
            Request::Read { offset: FCR },
            Request::Read { offset: USR },
            Request::Read { offset: FCR },
            Request::Read { offset: MSR },
            Request::Read { offset: FCR },
        ]
    );
    assert_eq!(device.interrupts.len(), 1);
}

#[test]
fn flood_of_input_exhausts_the_budget() {
    let mut device = device();
    device.interrupts.extend(vec![4; 1000]);
    device.input.extend(vec![(0x55, 0x61); 1000]);
    let mut port = LockedPort::new(24_000_000);
    port.read_status_mask = 0x1f;
    assert!(device.run_interrupt(&mut uart(), &mut port));
    assert_eq!(port.icount.rx as usize, IRQ_BUDGET - 1);
    assert_eq!(*port.effects.last().unwrap(), Effect::PushFlipBuffer);
}

#[test]
fn spent_budget_leaves_the_fifo_and_its_errors_alone() {
    // The identification of a timeout takes the last of the budget.
    let mut device = Device { dma: 1, ..device() };
    device.interrupts.extend(vec![7; IRQ_BUDGET - 1]);
    device.interrupts.push_back(12);
    device.input.push_back((b'a' as u32, 0x61));
    let mut uart = DwUart { saved_lsr: 0x04, ..uart() };
    let mut port = LockedPort::new(24_000_000);
    port.read_status_mask = 0x1f;
    assert!(device.run_interrupt(&mut uart, &mut port));
    assert_eq!(*device.log.last().unwrap(), Request::DmaRxFlush);
    assert!(!device.log.contains(&Request::Read { offset: LSR }));
    assert!(!device.log.contains(&Request::Read { offset: DATA }));
    assert_eq!((uart.saved_lsr, port.icount.rx, device.input.len()), (0x04, 0, 1));
    // The interrupt fires again, and the byte arrives with its error.
    device.interrupts.push_back(12);
    assert!(device.run_interrupt(&mut uart, &mut port));
    assert_eq!((uart.saved_lsr, port.icount.rx, port.icount.parity), (0, 1, 1));
}

#[test]
fn drain_stops_before_the_status_of_a_byte_it_cannot_take() {
    let mut uart = DwUart { saved_lsr: 0x02, ..uart() };
    let mut device = device();
    device.input.extend([(1, 0x61), (2, 0x61), (3, 0x65)]);
    let mut port = LockedPort::new(24_000_000);
    port.read_status_mask = 0x1f;
    assert_eq!(DwUart::receive(0).request(), None);
    let mut receive = DwUart::receive(2);
    while let Some(request) = receive.request() {
        let reply = device.access(request);
        receive.resume(&mut uart, &mut port, reply);
    }
    assert_eq!((port.icount.rx, port.icount.overrun), (2, 1));
    let status = Request::Read { offset: LSR };
    assert_eq!(device.log.iter().filter(|&&access| access == status).count(), 2);
}

#[test]
fn identifications_and_bytes_share_one_budget() {
    let mut device = device();
    device.interrupts.extend(vec![7; 100]);
    device.interrupts.extend(vec![4; 1000]);
    device.input.extend(vec![(0x55, 0x61); 1000]);
    let mut port = LockedPort::new(24_000_000);
    port.read_status_mask = 0x1f;
    assert!(device.run_interrupt(&mut uart(), &mut port));
    let identify = Request::Read { offset: FCR };
    let identified = device.log.iter().filter(|&&access| access == identify).count();
    assert_eq!((identified, port.icount.rx), (101, 155));
    let pushes = port.effects.iter().filter(|&&effect| effect == Effect::PushFlipBuffer).count();
    assert_eq!(pushes, 1);
}

#[test]
fn clocks_are_kept_or_synthesized() {
    let plain = DwUart { dlf_bits: 0, ..uart() };
    assert_eq!(plain.prepare_clock(115_200, 24_000_000), None);
    assert_eq!(plain.prepare_clock(115_200, 3_686_400), Some(24_000_000));
    assert_eq!(plain.prepare_clock(230_400, 24_000_000), Some(3_686_400));
    assert_eq!(DwUart::prepared_clock(3_686_400, 1), 3_686_400);
    assert_eq!(DwUart::prepared_clock(1 << 32, 1), 1);
    assert_eq!(hertz(u32::MAX), 0xffff_ffff);
}

#[test]
fn capabilities_are_read_from_the_registers() {
    assert_eq!(fraction_width(0), Some(0));
    assert_eq!(fraction_width(0x0f), Some(4));
    assert_eq!(fraction_width(0xffff), Some(16));
    assert_eq!(fraction_width(0x1_ffff), None);
    assert_eq!(fraction_width(0x0e), None);
    assert_eq!(fraction_width(u32::MAX), None);
    assert_eq!(fifo_depth(0x0010_0000), 256);
    assert_eq!(fifo_depth(0xff00_ffff), 64);
    assert_eq!(dma_config(0, 1, 64), None);
    assert_eq!(dma_config(1, 9, 64), Some(Config { fifo: 9, burst: 16 }));
    assert_eq!(dma_config(2, 9, 3), Some(Config { fifo: 9, burst: 1 }));
    assert_eq!(dma_config(1, 9, 32).unwrap().burst, 8);
    assert_eq!(check_rate(1_843_200), Ok(1_843_200));
    assert_eq!(check_rate(1_843_199), Err(Errno::EINVAL));
    assert_eq!(check_rate(1 << 32), Err(Errno::EINVAL));
}

fn answer(device: &mut Device, request: ProbeRequest) -> ProbeAnswer {
    match request {
        ProbeRequest::FindNode | ProbeRequest::RequestRegion => ProbeAnswer::Found(true),
        ProbeRequest::FindResource => ProbeAnswer::Resource(Some(0xfeb4_0000)),
        ProbeRequest::ReadBaudClock => ProbeAnswer::Rate(24_000_000),
        ProbeRequest::Access(request) => ProbeAnswer::Value(device.access(request)),
        ProbeRequest::FindInterrupt => ProbeAnswer::Interrupt(Ok(363)),
        ProbeRequest::EnableBaudClock(rate) => {
            assert_eq!(rate, 24_000_000);
            ProbeAnswer::Checked(Ok(()))
        }
        _ => ProbeAnswer::Checked(Ok(())),
    }
}

#[test]
fn probing_discovers_the_device_and_leaves_its_divisor() {
    let mut device = Device { lcr: 0x83, fraction: 0x09, ..device() };
    let mut probe = Probe::new(1);
    while let Some(request) = probe.request() {
        let reply = answer(&mut device, request);
        probe.resume(reply);
    }
    assert_eq!(probe.stage, ProbeStage::Ready);
    assert_eq!(device.registers(), (0x03, 0, 13, 0, 0x09));
    assert_eq!((probe.mapbase, probe.rate, probe.irq), (0xfeb4_0000, 24_000_000, 363));
    assert_eq!(
        probe.uart,
        DwUart {
            dma: Some(Config { fifo: 0xfeb4_0000, burst: 16 }),
            dlf_bits: 4,
            fifo_size: 256,
            saved_lsr: 0,
        }
    );
    assert_eq!(probe.uart.dma_config().unwrap().burst, 16);
}

#[test]
fn each_missing_resource_has_its_error() {
    let fail = |wanted: ProbeRequest, reply: ProbeAnswer| {
        let mut device = device();
        let mut probe = Probe::new(0);
        while let Some(request) = probe.request() {
            let ordinary = answer(&mut device, request);
            probe.resume(if request == wanted { reply } else { ordinary });
        }
        probe.stage
    };
    let nothing = ProbeStage::Failed(Errno::ENODEV);
    assert_eq!(fail(ProbeRequest::FindNode, ProbeAnswer::Found(false)), nothing);
    assert_eq!(fail(ProbeRequest::FindResource, ProbeAnswer::Resource(None)), nothing);
    assert_eq!(fail(ProbeRequest::RequestRegion, ProbeAnswer::Found(false)), nothing);
    for request in [
        ProbeRequest::MatchCompatible,
        ProbeRequest::MapRegion,
        ProbeRequest::GetBusClock,
        ProbeRequest::EnableBusClock,
        ProbeRequest::GetBaudClock,
        ProbeRequest::EnableBaudClock(24_000_000),
    ] {
        let error = ProbeAnswer::Checked(Err(Errno::Other(-5)));
        assert_eq!(fail(request, error), ProbeStage::Failed(Errno::Other(-5)));
    }
    assert_eq!(
        fail(ProbeRequest::ReadBaudClock, ProbeAnswer::Rate(1_000_000)),
        ProbeStage::Failed(Errno::EINVAL)
    );
    assert_eq!(
        fail(ProbeRequest::FindInterrupt, ProbeAnswer::Interrupt(Err(Errno::EPROBE_DEFER))),
        ProbeStage::Failed(Errno::EPROBE_DEFER)
    );
    // A register that reads back with a hole is no divisor fraction.
    let hole = ProbeRequest::Access(Request::Read { offset: DLF });
    assert_eq!(fail(hole, ProbeAnswer::Value(0x0e)), nothing);
    let mut busy = Device { lcr: 0x83, busy: u32::MAX, ..device() };
    let mut probe = Probe::new(0);
    while let Some(request) = probe.request() {
        let reply = answer(&mut busy, request);
        probe.resume(reply);
    }
    assert_eq!(probe.stage, ProbeStage::Failed(Errno::EBUSY));
}
