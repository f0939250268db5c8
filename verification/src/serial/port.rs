//! One TTY line: the callbacks of serial core, and the controller under them.

use vstd::prelude::*;
use crate::bits::lemma_constants;
use crate::errno::Errno;
use crate::serial::dma::Config;
use crate::serial::driver::{
    all_taken, line_taken, lowest_free, only_line_changed, Driver, DriverState, Line, MAX_LINES,
};
use crate::serial::locked_port::{LockedPort, PortState};
use crate::serial::termios::{
    line_config, line_config_of, rate_limits, requested_rate, requested_rate_of, slowest_rate,
    LineConfig, Termios, CMSPAR, CRTSCTS,
};

verus! {

/// The transmitter is physically empty.
pub const TIOCSER_TEMT: u32 = 1;

/// Clear to send.
pub const TIOCM_CTS: u32 = 0x20;

/// Carrier detect.
pub const TIOCM_CAR: u32 = 0x40;

/// Data set ready.
pub const TIOCM_DSR: u32 = 0x100;

/// Internal loopback.
pub const TIOCM_LOOP: u32 = 0x8000;

/// The interrupt was not ours.
pub const IRQ_NONE: u32 = 0;

/// The interrupt was handled.
pub const IRQ_HANDLED: u32 = 1;

/// Controller operations, called with the UART spinlock held unless noted.
///
/// Methods must not sleep. IRQ service must have a bounded work budget.
pub trait Hardware: Send + Sync {
    /// True only after both FIFO and shift register have drained.
    fn tx_empty(&self) -> bool;

    /// Sets outputs; only internal loopback is exposed.
    fn set_loopback(&self, enable: bool);

    /// Initializes the UART and enables receive interrupts.
    fn startup(&self) -> Result<(), Errno>;

    /// Disables all interrupt sources and cancels break.
    fn shutdown(&self);

    /// Begins or continues draining serial core's transmit queue.
    fn start_tx(&self, port: &mut LockedPort);

    /// Disables the transmit-empty interrupt.
    fn stop_tx(&self);

    /// Discards queued hardware transmit bytes when TTY requests an output flush.
    fn flush_tx(&self);

    /// Stops reception during close.
    fn stop_rx(&self);

    /// Sets or clears break.
    fn set_break(&self, enable: bool);

    /// Prepares the input clock for `baud` and returns the rate it then runs at.
    ///
    /// Unlike the other methods this is called in process context without the
    /// port lock and may sleep. `clock` is the rate currently recorded for the
    /// port; controllers with a fixed clock return it unchanged.
    fn prepare_clock(&self, baud: u32, clock: u32) -> (rate: u32)
        default_ensures
            rate == clock,
    {
        clock
    }

    /// Configures framing and divisor, or leaves the previous configuration intact.
    fn configure(&self, config: LineConfig) -> Result<u32, Errno>;

    /// Services a UART interrupt and reports whether this UART caused it.
    fn interrupt(&self, port: &mut LockedPort) -> bool;

    /// The DMA settings of the port, if it is to use DMA.
    fn dma_config(&self) -> (config: Option<Config>)
        default_ensures
            config is None,
    {
        None
    }

    /// Drains the receive FIFO into the port.
    fn drain_rx(&self, port: &mut LockedPort)
        default_ensures
            *final(port) == *old(port),
    {
    }
}

/// What serial core is given when a port is added. The port is a fixed
/// 16550A, with 32-bit registers four bytes apart.
#[derive(Clone, Copy, Debug, PartialEq, Eq, Structural)]
pub struct CorePort {
    pub irq: u32,
    pub line: u32,
    pub mapbase: u64,
    pub uartclk: u32,
    pub fifosize: u32,
    pub regshift: u8,
}

/// The rates that serial core may choose from.
#[derive(Clone, Copy, Debug, PartialEq, Eq, Structural)]
pub struct RateQuery {
    /// The rate that was asked for.
    pub requested: u32,
    /// The input clock prepared for it.
    pub clock: u32,
    /// Least rate.
    pub min: u32,
    /// Greatest rate.
    pub max: u32,
}

/// How a change of line settings ended.
#[derive(Clone, Copy, Debug, PartialEq, Eq, Structural)]
pub enum TermiosOutcome {
    /// The line runs at `actual`: serial core updates its timeout, and with
    /// `encode` the rate is written into the settings.
    Applied { actual: u32, encode: bool },
    /// Refused, and there are no previous settings to report.
    Kept,
    /// Refused; the previous settings are reported, and the flag tells whether
    /// the input clock went back to them.
    Restored { clock_restored: bool },
}

/// What the start of a port needs from the interrupt controller.
#[derive(Clone, Copy, Debug, PartialEq, Eq, Structural)]
pub struct Startup {
    /// What serial core is told: zero, or a negative error number.
    pub code: i32,
    /// The interrupt that was requested is given back.
    pub free_irq: bool,
}

/// The hardware accepted a configuration, and runs at some rate.
pub open spec fn accepted(configured: Result<u32, Errno>) -> bool {
    configured is Ok && configured->Ok_0 != 0
}

/// How a change of settings ends, given what the hardware made of it.
pub open spec fn termios_outcome(
    port: PortState,
    new: Termios,
    previous: Option<Termios>,
    configured: Result<u32, Errno>,
    back: u32,
) -> TermiosOutcome {
    if accepted(configured) {
        TermiosOutcome::Applied { actual: configured->Ok_0, encode: new.c_ospeed != 0 }
    } else if previous is None {
        TermiosOutcome::Kept
    } else {
        TermiosOutcome::Restored { clock_restored: back == port.uartclk }
    }
}

/// One TTY line of a registered driver.
pub struct Port<T: Hardware> {
    pub hardware: T,
    /// The line that the port owns.
    pub line: Line,
    /// The port as serial core holds it.
    pub raw: LockedPort,
    /// Serial core knows the port, which has to be removed from it before
    /// [`Port::remove`].
    pub added: bool,
}

impl<T: Hardware> Port<T> {
    /// The line is one that a driver can have.
    pub open spec fn wf(self) -> bool {
        self.line.number() < MAX_LINES
    }

    /// Prepares a port on the lowest free line of `driver`, which must be
    /// registered. The caller adds it to serial core and reports the answer to
    /// [`Port::core_answered`].
    pub fn new(
        driver: &mut Driver,
        irq: u32,
        hardware: T,
        mapbase: u64,
        clock: u32,
        fifo_size: u32,
    ) -> (result: Result<(Self, CorePort), Errno>)
        requires
            old(driver).wf(),
        ensures
            final(driver).wf(),
            final(driver).description() == old(driver).description(),
            final(driver).progress() == old(driver).progress(),
            match result {
                Ok((port, core)) => {
                    &&& old(driver).progress() == DriverState::Registered
                    &&& lowest_free(
                        old(driver).line_map(),
                        old(driver).description().lines,
                        port.line.number(),
                    )
                    &&& only_line_changed(
                        old(driver).line_map(),
                        final(driver).line_map(),
                        port.line.number(),
                        true,
                    )
                    &&& port.wf()
                    &&& !port.added
                    &&& port.hardware == hardware
                    &&& port.raw@ == PortState::fresh(clock)
                    &&& core == (CorePort {
                        irq,
                        line: port.line.number(),
                        mapbase,
                        uartclk: clock,
                        fifosize: fifo_size,
                        regshift: 2,
                    })
                },
                Err(error) => {
                    &&& *final(driver) == *old(driver)
                    &&& if old(driver).progress() != DriverState::Registered {
                        error == Errno::ENODEV
                    } else {
                        error == Errno::EBUSY && all_taken(
                            old(driver).line_map(),
                            old(driver).description().lines,
                        )
                    }
                },
            },
    {
        if driver.state() != DriverState::Registered {
            return Err(Errno::ENODEV);
        }
        let line = match Line::allocate(driver) {
            Ok(line) => line,
            Err(error) => {
                return Err(error);
            },
        };
        let core = CorePort {
            irq,
            line: line.index(),
            mapbase,
            uartclk: clock,
            fifosize: fifo_size,
            regshift: 2,
        };
        Ok((Port { hardware, line, raw: LockedPort::new(clock), added: false }, core))
    }

    /// Takes serial core's answer to a new port. A refused port gives its line
    /// back.
    pub fn core_answered(self, driver: &mut Driver, answer: Result<(), Errno>) -> (result: Result<
        Self,
        Errno,
    >)
        requires
            self.wf(),
            old(driver).wf(),
        ensures
            final(driver).wf(),
            final(driver).description() == old(driver).description(),
            final(driver).progress() == old(driver).progress(),
            match result {
                Ok(port) => {
                    &&& answer is Ok
                    &&& *final(driver) == *old(driver)
                    &&& port.wf()
                    &&& port.added
                    &&& port.line == self.line
                    &&& port.hardware == self.hardware
                    &&& port.raw == self.raw
                },
                Err(error) => {
                    &&& answer == Err::<(), Errno>(error)
                    &&& only_line_changed(
                        old(driver).line_map(),
                        final(driver).line_map(),
                        self.line.number(),
                        false,
                    )
                },
            },
    {
        match answer {
            Ok(()) => {
                Ok(Port { hardware: self.hardware, line: self.line, raw: self.raw, added: true })
            },
            Err(error) => {
                self.line.release(driver);
                Err(error)
            },
        }
    }

    /// Ends the port, once serial core no longer knows it: its line is free
    /// again, and the controller is handed back.
    pub fn remove(self, driver: &mut Driver) -> (hardware: T)
        requires
            self.wf(),
            old(driver).wf(),
        ensures
            hardware == self.hardware,
            final(driver).wf(),
            final(driver).description() == old(driver).description(),
            final(driver).progress() == old(driver).progress(),
            only_line_changed(
                old(driver).line_map(),
                final(driver).line_map(),
                self.line.number(),
                false,
            ),
    {
        self.line.release(driver);
        self.hardware
    }

    /// The line index; the device node is `/dev/<dev_name><line>`.
    pub fn line(&self) -> (line: u32)
        ensures
            line == self.line.number(),
    {
        self.line.index()
    }

    /// Reports whether everything has been transmitted.
    pub fn tx_empty(&self) -> (status: u32)
        ensures
            exists|empty: bool|
                call_ensures(T::tx_empty, (&self.hardware,), empty) && status == (if empty {
                    TIOCSER_TEMT
                } else {
                    0
                }),
    {
        let empty = self.hardware.tx_empty();
        if empty {
            TIOCSER_TEMT
        } else {
            0
        }
    }

    /// Sets the modem control lines. Only internal loopback exists.
    pub fn set_mctrl(&self, ctrl: u32) -> (loopback: bool)
        ensures
            loopback == (ctrl & TIOCM_LOOP != 0),
            call_ensures(T::set_loopback, (&self.hardware, loopback), ()),
    {
        let loopback = ctrl & TIOCM_LOOP != 0;
        self.hardware.set_loopback(loopback);
        loopback
    }

    /// Reads the modem status lines. The board has no modem input pins on its
    /// RS485 connection, so they read as connected.
    pub fn get_mctrl() -> (status: u32)
        ensures
            status == TIOCM_CAR | TIOCM_CTS | TIOCM_DSR,
            status == 0x160,
    {
        proof {
            lemma_constants();
        }
        TIOCM_CAR | TIOCM_CTS | TIOCM_DSR
    }

    /// Begins or continues transmission.
    pub fn start_tx(&mut self)
        ensures
            exists|port: &mut LockedPort|
                {
                    &&& #[trigger] call_ensures(T::start_tx, (&old(self).hardware, port), ())
                    &&& *port == old(self).raw
                    &&& *final(port) == final(self).raw
                },
            final(self).hardware == old(self).hardware,
            final(self).line == old(self).line,
            final(self).added == old(self).added,
    {
        self.hardware.start_tx(&mut self.raw);
    }

    /// Stops transmission.
    pub fn stop_tx(&self)
        ensures
            call_ensures(T::stop_tx, (&self.hardware,), ()),
    {
        self.hardware.stop_tx();
    }

    /// Discards output that the controller holds.
    pub fn flush_buffer(&self)
        ensures
            call_ensures(T::flush_tx, (&self.hardware,), ()),
    {
        self.hardware.flush_tx();
    }

    /// Stops reception.
    pub fn stop_rx(&self)
        ensures
            call_ensures(T::stop_rx, (&self.hardware,), ()),
    {
        self.hardware.stop_rx();
    }

    /// Stops the port. Its interrupt is given back afterwards, once no source
    /// can raise it any more.
    pub fn shutdown(&self)
        ensures
            call_ensures(T::shutdown, (&self.hardware,), ()),
    {
        self.hardware.shutdown();
    }

    /// Sets or clears a break; `enabled` is nonzero to set it.
    pub fn break_ctl(&self, enabled: i32) -> (set: bool)
        ensures
            set == (enabled != 0),
            call_ensures(T::set_break, (&self.hardware, set), ()),
    {
        self.hardware.set_break(enabled != 0);
        enabled != 0
    }

    /// Starts the port, once its interrupt has been requested with `result`: a
    /// negative error number, or success. A controller that does not start
    /// costs the port its interrupt again.
    pub fn startup(&self, result: i32) -> (startup: Startup)
        ensures
            result < 0 ==> startup == (Startup { code: result, free_irq: false }),
            result >= 0 ==> exists|started: Result<(), Errno>|
                call_ensures(T::startup, (&self.hardware,), started) && startup == startup_of(
                    started,
                ),
    {
        if result < 0 {
            return Startup { code: result, free_irq: false };
        }
        let started = self.hardware.startup();
        startup_outcome(started)
    }

    /// Services an interrupt.
    pub fn interrupt(&mut self) -> (code: u32)
        ensures
            exists|port: &mut LockedPort, handled: bool|
                {
                    &&& #[trigger] call_ensures(
                        T::interrupt,
                        (&old(self).hardware, port),
                        handled,
                    )
                    &&& *port == old(self).raw
                    &&& *final(port) == final(self).raw
                    &&& code == interrupt_code_of(handled)
                },
            final(self).hardware == old(self).hardware,
            final(self).line == old(self).line,
            final(self).added == old(self).added,
    {
        interrupt_code(self.hardware.interrupt(&mut self.raw))
    }

    /// Begins a change of line settings: hardware flow control and mark/space
    /// parity are cleared, and the controller picks an input clock for the
    /// requested rate. Serial core then chooses a rate between the limits.
    pub fn set_termios(&self, new: &mut Termios) -> (query: RateQuery)
        ensures
            *final(new) == (Termios {
                c_cflag: old(new).c_cflag & !(CRTSCTS | CMSPAR),
                ..*old(new)
            }),
            query.requested == requested_rate_of(old(new).rate),
            call_ensures(
                T::prepare_clock,
                (&self.hardware, query.requested, self.raw@.uartclk),
                query.clock,
            ),
            query.min == slowest_rate(query.clock),
            query.max == query.clock / 16,
    {
        new.c_cflag = new.c_cflag & !(CRTSCTS | CMSPAR);
        let requested = requested_rate(new.rate);
        let clock = self.hardware.prepare_clock(requested, self.raw.uartclk);
        let (min, max) = rate_limits(clock);
        RateQuery { requested, clock, min, max }
    }

    /// The input clock for the rate that serial core chose, which is prepared
    /// anew where that is not the rate that was asked for. Called without the
    /// port lock.
    pub fn rate_clock(&self, query: RateQuery, baud: u32) -> (clock: u32)
        ensures
            if baud == query.requested {
                clock == query.clock
            } else {
                call_ensures(T::prepare_clock, (&self.hardware, baud, query.clock), clock)
            },
    {
        if baud != query.requested {
            self.hardware.prepare_clock(baud, query.clock)
        } else {
            query.clock
        }
    }

    /// Configures the controller for settings at `baud`, divided from `clock`,
    /// and puts them into effect if it accepts them. `None`: it has refused
    /// them. Called with the port lock held.
    pub fn apply_rate(&mut self, baud: u32, clock: u32, new: &Termios) -> (outcome: Option<
        TermiosOutcome,
    >)
        ensures
            final(self).hardware == old(self).hardware,
            final(self).line == old(self).line,
            final(self).added == old(self).added,
            exists|configured: Result<u32, Errno>|
                {
                    &&& #[trigger] call_ensures(
                        T::configure,
                        (&old(self).hardware, line_config_of(baud, clock, new.c_cflag)),
                        configured,
                    )
                    &&& if accepted(configured) {
                        &&& outcome == Some(
                            TermiosOutcome::Applied {
                                actual: configured->Ok_0,
                                encode: new.c_ospeed != 0,
                            },
                        )
                        &&& final(self).raw@ == old(self).raw@.configured(
                            clock,
                            new.c_iflag,
                            new.c_cflag,
                        )
                    } else {
                        outcome is None && final(self).raw@ == old(self).raw@
                    }
                },
    {
        let configured = self.hardware.configure(line_config(baud, clock, new.c_cflag));
        if let Ok(actual) = configured {
            if actual != 0 {
                self.raw.apply_termios(clock, new.c_iflag, new.c_cflag);
                return Some(TermiosOutcome::Applied { actual, encode: new.c_ospeed != 0 });
            }
        }
        None
    }

    /// Ends a change of line settings that the controller has refused: the
    /// previous settings are reported, and the input clock is moved back to
    /// them. Called without the port lock.
    pub fn refuse_rate(&self, clock: u32, new: &mut Termios, previous: Option<Termios>) -> (outcome:
        TermiosOutcome)
        ensures
            match previous {
                None => outcome == TermiosOutcome::Kept && *final(new) == *old(new),
                Some(earlier) => {
                    &&& *final(new) == earlier
                    &&& exists|back: u32|
                        {
                            &&& #[trigger] call_ensures(
                                T::prepare_clock,
                                (&self.hardware, requested_rate_of(earlier.rate), clock),
                                back,
                            )
                            &&& outcome == (TermiosOutcome::Restored {
                                clock_restored: back == self.raw@.uartclk,
                            })
                        }
                },
            },
    {
        match previous {
            None => TermiosOutcome::Kept,
            Some(earlier) => {
                *new = earlier;
                let back: u32 = self.hardware.prepare_clock(requested_rate(earlier.rate), clock);
                TermiosOutcome::Restored { clock_restored: back == self.raw.uartclk }
            },
        }
    }

    /// Ends a change of line settings with the rate that serial core chose, on
    /// a port that nothing else has a hold of. Settings that the controller
    /// refuses are replaced by the previous ones, and the input clock is moved
    /// back to those.
    pub fn set_rate(
        &mut self,
        query: RateQuery,
        baud: u32,
        new: &mut Termios,
        previous: Option<Termios>,
    ) -> (outcome: TermiosOutcome)
        ensures
            final(self).hardware == old(self).hardware,
            final(self).line == old(self).line,
            final(self).added == old(self).added,
            exists|clock: u32, configured: Result<u32, Errno>, back: u32|
                {
                    &&& if baud == query.requested {
                        clock == query.clock
                    } else {
                        call_ensures(
                            T::prepare_clock,
                            (&old(self).hardware, baud, query.clock),
                            clock,
                        )
                    }
                    &&& #[trigger] call_ensures(
                        T::configure,
                        (&old(self).hardware, line_config_of(baud, clock, old(new).c_cflag)),
                        configured,
                    )
                    &&& outcome == #[trigger] termios_outcome(
                        old(self).raw@,
                        *old(new),
                        previous,
                        configured,
                        back,
                    )
                    &&& final(self).raw@ == if accepted(configured) {
                        old(self).raw@.configured(clock, old(new).c_iflag, old(new).c_cflag)
                    } else {
                        old(self).raw@
                    }
                    &&& *final(new) == if accepted(configured) || previous is None {
                        *old(new)
                    } else {
                        previous->0
                    }
                    &&& outcome is Restored ==> call_ensures(
                        T::prepare_clock,
                        (&old(self).hardware, requested_rate_of(previous->0.rate), clock),
                        back,
                    )
                },
    {
        let clock: u32 = self.rate_clock(query, baud);
        let ghost before = *self;
        let applied = self.apply_rate(baud, clock, new);
        let ghost configured = choose|configured: Result<u32, Errno>|
            {
                &&& #[trigger] call_ensures(
                    T::configure,
                    (&before.hardware, line_config_of(baud, clock, new.c_cflag)),
                    configured,
                )
                &&& if accepted(configured) {
                    &&& applied == Some(
                        TermiosOutcome::Applied {
                            actual: configured->Ok_0,
                            encode: new.c_ospeed != 0,
                        },
                    )
                    &&& self.raw@ == before.raw@.configured(clock, new.c_iflag, new.c_cflag)
                } else {
                    applied is None && self.raw@ == before.raw@
                }
            };
        match applied {
            Some(outcome) => {
                let ghost shown = termios_outcome(before.raw@, *new, previous, configured, 0);
                outcome
            },
            None => {
                let outcome = self.refuse_rate(clock, new, previous);
                let ghost back = match previous {
                    Some(earlier) => choose|back: u32|
                        {
                            &&& #[trigger] call_ensures(
                                T::prepare_clock,
                                (&self.hardware, requested_rate_of(earlier.rate), clock),
                                back,
                            )
                            &&& outcome == (TermiosOutcome::Restored {
                                clock_restored: back == self.raw@.uartclk,
                            })
                        },
                    None => 0,
                };
                let ghost shown = termios_outcome(
                    before.raw@,
                    *old(new),
                    previous,
                    configured,
                    back,
                );
                outcome
            },
        }
    }

    /// The kind of port, for people.
    pub fn port_type() -> (text: &'static str)
        ensures
            text@ == "Rust DesignWare UART"@,
    {
        "Rust DesignWare UART"
    }

    /// A port cannot be changed from user space.
    pub fn verify_port() -> (code: i32)
        ensures
            code == Errno::EINVAL.number(),
    {
        Errno::EINVAL.to_errno()
    }
}

/// What serial core is told once the controller has tried to start.
pub open spec fn startup_of(started: Result<(), Errno>) -> Startup {
    match started {
        Ok(()) => Startup { code: 0, free_irq: false },
        Err(error) => Startup { code: error.number() as i32, free_irq: true },
    }
}

/// What serial core is told once the controller has tried to start.
pub fn startup_outcome(started: Result<(), Errno>) -> (startup: Startup)
    ensures
        startup == startup_of(started),
{
    match started {
        Ok(()) => Startup { code: 0, free_irq: false },
        Err(error) => Startup { code: error.to_errno(), free_irq: true },
    }
}

/// What the kernel is told of an interrupt.
pub open spec fn interrupt_code_of(handled: bool) -> u32 {
    if handled {
        IRQ_HANDLED
    } else {
        IRQ_NONE
    }
}

/// What the kernel is told of an interrupt.
pub fn interrupt_code(handled: bool) -> (code: u32)
    ensures
        code == interrupt_code_of(handled),
{
    if handled {
        IRQ_HANDLED
    } else {
        IRQ_NONE
    }
}

// ---------------------------------------------------------------------------
// Laws
// ---------------------------------------------------------------------------

/// What serial core is told of a port: bit 0 for an empty transmitter, carrier,
/// clear-to-send and data-set-ready as connected, and error number 22 for any
/// change from user space.
pub proof fn law_port_status<T: Hardware>(
    port: &Port<T>,
    status: u32,
    modem: u32,
    code: i32,
    line: u32,
)
    requires
        call_ensures(Port::<T>::tx_empty, (port,), status),
        call_ensures(Port::<T>::get_mctrl, (), modem),
        call_ensures(Port::<T>::verify_port, (), code),
        call_ensures(Port::<T>::line, (port,), line),
    ensures
        status == 0 || status == 1,
        exists|empty: bool|
            call_ensures(T::tx_empty, (&port.hardware,), empty) && (status == 1 <==> empty),
        modem == 0x160,
        code == -22,
        line == port.line.number(),
{
    let empty = choose|empty: bool|
        call_ensures(T::tx_empty, (&port.hardware,), empty) && status == (if empty {
            TIOCSER_TEMT
        } else {
            0
        });
    assert(call_ensures(T::tx_empty, (&port.hardware,), empty));
}

/// What is handed to the controller: loopback by bit 15 of the modem control
/// lines, and a break by any nonzero request.
pub proof fn law_controls_are_handed_on<T: Hardware>(
    port: &Port<T>,
    ctrl: u32,
    loopback: bool,
    enabled: i32,
    set: bool,
)
    requires
        call_ensures(Port::<T>::set_mctrl, (port, ctrl), loopback),
        call_ensures(Port::<T>::break_ctl, (port, enabled), set),
    ensures
        loopback <==> ctrl & 0x8000 != 0,
        call_ensures(T::set_loopback, (&port.hardware, loopback), ()),
        set <==> enabled != 0,
        call_ensures(T::set_break, (&port.hardware, set), ()),
{
}

/// How a port starts: a refused interrupt is reported as it is; a controller
/// that does not start gives the interrupt back and reports its own error; and
/// otherwise the start is a success. An interrupt counts as handled exactly if
/// the controller says so.
pub proof fn law_start_and_service_are_reported(
    started: Result<(), Errno>,
    startup: Startup,
    handled: bool,
    code: u32,
)
    requires
        call_ensures(startup_outcome, (started,), startup),
        call_ensures(interrupt_code, (handled,), code),
    ensures
        started is Ok ==> startup.code == 0 && !startup.free_irq,
        started is Err ==> startup.code == started->Err_0.number() && startup.free_irq,
        code == 0 || code == 1,
        code == 1 <==> handled,
{
}

/// The same on a port.
pub proof fn law_port_starts<T: Hardware>(port: &Port<T>, result: i32, startup: Startup)
    requires
        call_ensures(Port::<T>::startup, (port, result), startup),
    ensures
        result < 0 ==> startup.code == result && !startup.free_irq,
        result >= 0 ==> exists|started: Result<(), Errno>|
            {
                &&& #[trigger] call_ensures(T::startup, (&port.hardware,), started)
                &&& started is Ok ==> startup.code == 0 && !startup.free_irq
                &&& started is Err ==> startup.code == started->Err_0.number()
                    && startup.free_irq
            },
{
    if result >= 0 {
        let started = choose|started: Result<(), Errno>|
            call_ensures(T::startup, (&port.hardware,), started) && startup == startup_of(started);
        assert(call_ensures(T::startup, (&port.hardware,), started));
    }
}

/// A change of settings begins by clearing the two top control flags, hardware
/// flow control and mark/space parity, and nothing else of the settings. The
/// rates that are then offered go from what a divisor of 65535 gives, but at
/// least 50, to a sixteenth of the clock that was prepared for the rate that
/// was asked for, which is 9600 for a hang-up.
pub proof fn law_change_of_settings_begins<T: Hardware>(
    port: &Port<T>,
    new: &mut Termios,
    query: RateQuery,
)
    requires
        call_ensures(Port::<T>::set_termios, (port, new), query),
    ensures
        final(new).c_cflag == old(new).c_cflag & 0x3fff_ffff,
        *final(new) == (Termios { c_cflag: final(new).c_cflag, ..*old(new) }),
        query.requested == if old(new).rate == 0 {
            9600
        } else {
            old(new).rate
        },
        call_ensures(
            T::prepare_clock,
            (&port.hardware, query.requested, port.raw.uartclk),
            query.clock,
        ),
        query.min >= 50,
        query.min > 50 ==> query.min * 65535 * 16 <= query.clock < (query.min + 1) * 65535 * 16,
        query.min == 50 ==> query.clock < 51 * 65535 * 16,
        16 * query.max <= query.clock < 16 * query.max + 16,
{
    lemma_constants();
}

/// The clock is prepared again exactly where serial core chose another rate
/// than the one that was asked for.
pub proof fn law_clock_follows_the_rate<T: Hardware>(
    port: &Port<T>,
    query: RateQuery,
    baud: u32,
    clock: u32,
)
    requires
        call_ensures(Port::<T>::rate_clock, (port, query, baud), clock),
    ensures
        baud == query.requested ==> clock == query.clock,
        baud != query.requested ==> call_ensures(
            T::prepare_clock,
            (&port.hardware, baud, query.clock),
            clock,
        ),
{
}

/// Settings take effect exactly if the controller accepts them and runs at some
/// rate. The framing that it is given is that of the control flags, at the rate
/// and the clock that were chosen; the port then goes by the new clock, and the
/// rate is reported, to be encoded unless the line hangs up. Otherwise nothing
/// of the port changes.
pub proof fn law_accepted_settings_take_effect<T: Hardware>(
    port: &mut Port<T>,
    baud: u32,
    clock: u32,
    new: &Termios,
    outcome: Option<TermiosOutcome>,
    config: LineConfig,
    alone: &mut LockedPort,
)
    requires
        call_ensures(Port::<T>::apply_rate, (port, baud, clock, new), outcome),
        call_ensures(line_config, (baud, clock, new.c_cflag), config),
        old(alone)@ == old(port).raw@,
        call_ensures(LockedPort::apply_termios, (alone, clock, new.c_iflag, new.c_cflag), ()),
    ensures
        exists|configured: Result<u32, Errno>|
            {
                &&& #[trigger] call_ensures(T::configure, (&old(port).hardware, config), configured)
                &&& outcome is Some <==> configured is Ok && configured->Ok_0 != 0
                &&& outcome is Some ==> outcome->0 == (TermiosOutcome::Applied {
                    actual: configured->Ok_0,
                    encode: new.c_ospeed != 0,
                })
            },
        outcome is Some ==> final(port).raw@ == final(alone)@ && final(port).raw@.uartclk == clock,
        outcome is None ==> final(port).raw@ == old(port).raw@,
        final(port).hardware == old(port).hardware,
        final(port).line == old(port).line,
        final(port).added == old(port).added,
{
    let configured = choose|configured: Result<u32, Errno>|
        {
            &&& #[trigger] call_ensures(
                T::configure,
                (&old(port).hardware, line_config_of(baud, clock, new.c_cflag)),
                configured,
            )
            &&& if accepted(configured) {
                &&& outcome == Some(
                    TermiosOutcome::Applied {
                        actual: configured->Ok_0,
                        encode: new.c_ospeed != 0,
                    },
                )
                &&& final(port).raw@ == old(port).raw@.configured(clock, new.c_iflag, new.c_cflag)
            } else {
                outcome is None && final(port).raw@ == old(port).raw@
            }
        };
    assert(call_ensures(T::configure, (&old(port).hardware, config), configured));
}

/// Refused settings are replaced by the previous ones, if there are any, and the
/// clock is prepared for those; whether it went back is whether it runs at the
/// rate that the port still has on record.
pub proof fn law_refused_settings_are_taken_back<T: Hardware>(
    port: &Port<T>,
    clock: u32,
    new: &mut Termios,
    previous: Option<Termios>,
    outcome: TermiosOutcome,
)
    requires
        call_ensures(Port::<T>::refuse_rate, (port, clock, new, previous), outcome),
    ensures
        previous is None ==> outcome == TermiosOutcome::Kept && *final(new) == *old(new),
        previous is Some ==> *final(new) == previous->0,
        previous is Some && previous->0.rate == 0 ==> exists|back: u32|
            #[trigger] call_ensures(T::prepare_clock, (&port.hardware, 9600u32, clock), back)
                && outcome == (TermiosOutcome::Restored {
                clock_restored: back == port.raw@.uartclk,
            }),
        previous is Some && previous->0.rate != 0 ==> exists|back: u32|
            #[trigger] call_ensures(
                T::prepare_clock,
                (&port.hardware, previous->0.rate, clock),
                back,
            ) && outcome == (TermiosOutcome::Restored {
                clock_restored: back == port.raw@.uartclk,
            }),
{
}

/// A new port needs a registered driver and a free line. It gets the lowest
/// line that is free, and serial core is told where its registers are, which
/// are four bytes apart.
pub proof fn law_new_port_gets_the_lowest_line<T: Hardware>(
    driver: &mut Driver,
    irq: u32,
    hardware: T,
    mapbase: u64,
    clock: u32,
    fifo_size: u32,
    result: Result<(Port<T>, CorePort), Errno>,
)
    requires
        call_ensures(
            Port::<T>::new,
            (driver, irq, hardware, mapbase, clock, fifo_size),
            result,
        ),
        old(driver).wf(),
    ensures
        result is Err && old(driver).progress() != DriverState::Registered ==> result->Err_0
            == Errno::ENODEV,
        result is Err && old(driver).progress() == DriverState::Registered ==> result->Err_0
            == Errno::EBUSY && forall|n: u64|
            n < old(driver).description().lines ==> (#[trigger] (old(driver).line_map() >> n)) & 1
                == 1,
        result is Err ==> *final(driver) == *old(driver),
        result is Ok ==> {
            let (port, core) = result->Ok_0;
            let line = port.line.number() as u64;
            &&& old(driver).progress() == DriverState::Registered
            &&& line < old(driver).description().lines
            &&& (old(driver).line_map() >> line) & 1 != 1
            &&& (final(driver).line_map() >> line) & 1 == 1
            &&& forall|n: u64|
                n < 64 && n != line ==> ((#[trigger] (final(driver).line_map() >> n)) & 1 == 1
                    <==> (old(driver).line_map() >> n) & 1 == 1)
            &&& final(driver).progress() == DriverState::Registered
            &&& final(driver).description() == old(driver).description()
            &&& forall|n: u64|
                n < line ==> (#[trigger] (old(driver).line_map() >> n)) & 1 == 1
            &&& core.irq == irq && core.line == line && core.mapbase == mapbase
            &&& core.uartclk == clock && core.fifosize == fifo_size && core.regshift == 2
            &&& !port.added
            &&& port.hardware == hardware
            &&& port.raw@.uartclk == clock
            &&& port.raw@.xmit.len() == 0 && port.raw@.effects.len() == 0
        },
{
    if result is Ok {
        let line = result->Ok_0.0.line.number() as u64;
        let map = old(driver).line_map();
        assert(!line_taken(map, line));
        assert(line_taken(final(driver).line_map(), line));
        assert forall|n: u64| n < 64 && n != line implies ((#[trigger] (final(driver).line_map()
            >> n)) & 1 == 1 <==> (map >> n) & 1 == 1) by {
            assert(line_taken(final(driver).line_map(), n) == line_taken(map, n));
        }
        assert forall|n: u64| n < line implies (#[trigger] (map >> n)) & 1 == 1 by {
            assert(line_taken(map, n));
        }
    } else if old(driver).progress() == DriverState::Registered {
        let map = old(driver).line_map();
        assert forall|n: u64| n < old(driver).description().lines implies (#[trigger] (map >> n))
            & 1 == 1 by {
            assert(line_taken(map, n));
        }
    }
}

/// A new port that serial core takes is added and keeps its line; one that is
/// refused, and one that is removed, frees its line and no other. A port that is
/// removed hands its controller back.
pub proof fn law_line_is_given_back<T: Hardware>(
    port: Port<T>,
    driver: &mut Driver,
    answer: Result<(), Errno>,
    result: Result<Port<T>, Errno>,
    owner: &mut Driver,
    hardware: T,
    n: u64,
)
    requires
        port.wf(),
        old(driver).wf(),
        call_ensures(Port::<T>::core_answered, (port, driver, answer), result),
        *old(owner) == *old(driver),
        call_ensures(Port::<T>::remove, (port, owner), hardware),
        n < 64,
    ensures
        result is Ok <==> answer is Ok,
        result is Ok ==> result->Ok_0.added && result->Ok_0.line == port.line
            && result->Ok_0.hardware == port.hardware && result->Ok_0.raw == port.raw
                && *final(driver) == *old(driver),
        result is Err ==> answer == Err::<(), Errno>(result->Err_0),
        result is Err && n == port.line.number() ==> (final(driver).line_map() >> n) & 1 != 1,
        result is Err && n != port.line.number() ==> ((final(driver).line_map() >> n) & 1 == 1
            <==> (old(driver).line_map() >> n) & 1 == 1),
        hardware == port.hardware,
        n == port.line.number() ==> (final(owner).line_map() >> n) & 1 != 1,
        n != port.line.number() ==> ((final(owner).line_map() >> n) & 1 == 1
            <==> (old(owner).line_map() >> n) & 1 == 1),
        final(driver).progress() == old(driver).progress(),
        final(owner).progress() == old(owner).progress(),
{
    assert(line_taken(final(owner).line_map(), n) == (if n == port.line.number() {
        false
    } else {
        line_taken(old(owner).line_map(), n)
    }));
    if result is Err {
        assert(line_taken(final(driver).line_map(), n) == (if n == port.line.number() {
            false
        } else {
            line_taken(old(driver).line_map(), n)
        }));
    }
}

/// What serial core asks of a port is asked of its controller, on the port's own
/// state; an interrupt is reported as handled exactly if the controller says so.
pub proof fn law_requests_reach_the_controller<T: Hardware>(
    starting: &mut Port<T>,
    serving: &mut Port<T>,
    code: u32,
    port: &Port<T>,
    text: &'static str,
)
    requires
        call_ensures(Port::<T>::start_tx, (starting,), ()),
        call_ensures(Port::<T>::interrupt, (serving,), code),
        call_ensures(Port::<T>::stop_tx, (port,), ()),
        call_ensures(Port::<T>::flush_buffer, (port,), ()),
        call_ensures(Port::<T>::stop_rx, (port,), ()),
        call_ensures(Port::<T>::shutdown, (port,), ()),
        call_ensures(Port::<T>::port_type, (), text),
    ensures
        exists|raw: &mut LockedPort| #[trigger]
            call_ensures(T::start_tx, (&old(starting).hardware, raw), ())
                && *raw == old(starting).raw && *final(raw) == final(starting).raw,
        exists|raw: &mut LockedPort, handled: bool| #[trigger]
            call_ensures(T::interrupt, (&old(serving).hardware, raw), handled)
                && *raw == old(serving).raw && *final(raw) == final(serving).raw && (code == 0
                || code == 1) && (code == 1
                <==> handled),
        call_ensures(T::stop_tx, (&port.hardware,), ()),
        call_ensures(T::flush_tx, (&port.hardware,), ()),
        call_ensures(T::stop_rx, (&port.hardware,), ()),
        call_ensures(T::shutdown, (&port.hardware,), ()),
        text@ == "Rust DesignWare UART"@,
{
}

/// How a change of settings ends: it is applied if the controller configures the
/// line and runs at some rate, which is reported. If not, the settings are the
/// previous ones, whose clock is prepared, or stay where there are none; and the
/// port goes by its old clock.
pub proof fn law_change_of_settings_ends<T: Hardware>(
    port: &mut Port<T>,
    query: RateQuery,
    baud: u32,
    new: &mut Termios,
    previous: Option<Termios>,
    outcome: TermiosOutcome,
    config: LineConfig,
    alone: &mut LockedPort,
)
    requires
        call_ensures(Port::<T>::set_rate, (port, query, baud, new, previous), outcome),
        call_ensures(line_config, (baud, final(port).raw@.uartclk, old(new).c_cflag), config),
        old(alone)@ == old(port).raw@,
        call_ensures(
            LockedPort::apply_termios,
            (alone, final(port).raw@.uartclk, old(new).c_iflag, old(new).c_cflag),
            (),
        ),
    ensures
        final(port).hardware == old(port).hardware,
        final(port).line == old(port).line,
        final(port).added == old(port).added,
        match outcome {
            TermiosOutcome::Applied { actual, encode } => {
                &&& actual != 0
                &&& call_ensures(
                    T::configure,
                    (&old(port).hardware, config),
                    Ok::<u32, Errno>(actual),
                )
                &&& final(port).raw@ == final(alone)@
                &&& encode <==> old(new).c_ospeed != 0
                &&& *final(new) == *old(new)
                &&& baud == query.requested ==> final(port).raw@.uartclk == query.clock
                &&& baud != query.requested ==> call_ensures(
                    T::prepare_clock,
                    (&old(port).hardware, baud, query.clock),
                    final(port).raw@.uartclk,
                )
            },
            TermiosOutcome::Restored { clock_restored } => {
                &&& previous is Some && *final(new) == previous->0
                &&& final(port).raw@ == old(port).raw@
                &&& previous->0.rate != 0 ==> exists|clock: u32, back: u32| #[trigger]
                    call_ensures(
                        T::prepare_clock,
                        (&old(port).hardware, previous->0.rate, clock),
                        back,
                    ) && (clock_restored <==> back == old(port).raw@.uartclk) && (baud
                        == query.requested ==> clock == query.clock)
                &&& previous->0.rate == 0 ==> exists|clock: u32, back: u32| #[trigger]
                    call_ensures(
                        T::prepare_clock,
                        (&old(port).hardware, 9600u32, clock),
                        back,
                    ) && (clock_restored <==> back == old(port).raw@.uartclk) && (baud
                        == query.requested ==> clock == query.clock)
            },
            TermiosOutcome::Kept => previous is None && *final(new) == *old(new)
                && final(port).raw@ == old(port).raw@,
        },
{
}

} // verus!
