//! UART DMA state machine. Every state transition holds the UART port lock.
//!
//! A cancelled buffer is not reused until a worker has synchronized its DMA
//! callback. Close cancels that worker, synchronizes both channels, and only
//! then lets serial core retire its port state.
//!
//! The DMA engine itself is the caller's. An operation that needs it returns
//! what is to be done, and a second operation takes the answer.

pub mod state;

use vstd::prelude::*;
use vstd::string::*;
use crate::errno::Errno;
use crate::ring::min;
use crate::serial::dma::state::{Phase, State};
use crate::serial::locked_port::{Effect, LockedPort, PortState};
use crate::text::{decimal_of, push_decimal};

verus! {

/// Bytes of one transmit block. It bounds how long a stop takes to act: a
/// block that was issued completes, but no further one is chained to it.
pub const TX_SIZE: usize = 256;

/// Bytes of one receive block.
pub const RX_SIZE: usize = 512;

/// Delay in milliseconds after which a running receive block is looked at,
/// for short messages that raise no receive-timeout interrupt.
pub const RX_POLL_MS: u32 = 20;

/// Firmware channel settings for an 8-bit UART FIFO.
#[derive(Clone, Copy, Debug, PartialEq, Eq, Structural)]
pub struct Config {
    /// DMA address of the receive and transmit holding registers.
    pub fifo: u64,
    /// Maximum DMA burst in bytes, matching the UART's receive trigger.
    pub burst: u32,
}

/// One channel to ask the DMA engine for.
#[derive(Clone, Copy, Debug, PartialEq, Eq, Structural)]
pub struct ChannelRequest {
    /// From device to memory.
    pub receive: bool,
    /// DMA address of the device's FIFO.
    pub fifo: u64,
    /// Bytes of the bounce buffer.
    pub size: usize,
    /// Maximum burst in bytes.
    pub burst: u32,
}

/// Driver-wide counters, independent of any particular open file or buffer.
/// They wrap around.
#[derive(Clone, Copy, Debug, PartialEq, Eq, Structural)]
pub struct Stats {
    /// Ports that own DMA channels.
    pub channels: u64,
    /// Ports that fell back to the processor.
    pub fallback: u64,
    /// Bytes sent by DMA.
    pub tx_bytes: u64,
    /// Bytes received by DMA.
    pub rx_bytes: u64,
    /// Transmit blocks started.
    pub tx_blocks: u64,
    /// Receive blocks started.
    pub rx_blocks: u64,
    /// Receive blocks cut short.
    pub rx_flushes: u64,
    /// Transmit blocks cancelled.
    pub tx_flushes: u64,
    /// Failed DMA operations.
    pub errors: u64,
}

/// A counter after `n` more events.
pub open spec fn added(count: u64, n: int) -> u64 {
    if count + n > u64::MAX {
        (count + n - 0x1_0000_0000_0000_0000) as u64
    } else {
        (count + n) as u64
    }
}

/// A counter after `n` more events.
fn add_to(count: u64, n: u64) -> (sum: u64)
    ensures
        sum == added(count, n as int),
{
    count.wrapping_add(n)
}

impl Stats {
    /// All counters at zero.
    pub fn new() -> (stats: Self)
        ensures
            stats == Stats::zero(),
    {
        Stats {
            channels: 0,
            fallback: 0,
            tx_bytes: 0,
            rx_bytes: 0,
            tx_blocks: 0,
            rx_blocks: 0,
            rx_flushes: 0,
            tx_flushes: 0,
            errors: 0,
        }
    }

    /// All counters at zero.
    pub open spec fn zero() -> Stats {
        Stats {
            channels: 0,
            fallback: 0,
            tx_bytes: 0,
            rx_bytes: 0,
            tx_blocks: 0,
            rx_blocks: 0,
            rx_flushes: 0,
            tx_flushes: 0,
            errors: 0,
        }
    }

    /// The text of a snapshot: one counter to a line, with its name.
    pub open spec fn text(self) -> Seq<char> {
        "dma_ports "@ + decimal_of(self.channels as int)
            + "\npio_fallbacks "@ + decimal_of(self.fallback as int)
            + "\ntx_dma_bytes "@ + decimal_of(self.tx_bytes as int)
            + "\nrx_dma_bytes "@ + decimal_of(self.rx_bytes as int)
            + "\ntx_dma_blocks "@ + decimal_of(self.tx_blocks as int)
            + "\nrx_dma_blocks "@ + decimal_of(self.rx_blocks as int)
            + "\nrx_dma_flushes "@ + decimal_of(self.rx_flushes as int)
            + "\ntx_dma_flushes "@ + decimal_of(self.tx_flushes as int)
            + "\ndma_errors "@ + decimal_of(self.errors as int)
            + "\n"@
    }

    /// Formats a read-only diagnostic snapshot.
    pub fn write(&self) -> (text: String)
        ensures
            text@ == self.text(),
    {
        let mut out = String::new();
        out.append("dma_ports ");
        push_decimal(&mut out, self.channels);
        out.append("\npio_fallbacks ");
        push_decimal(&mut out, self.fallback);
        out.append("\ntx_dma_bytes ");
        push_decimal(&mut out, self.tx_bytes);
        out.append("\nrx_dma_bytes ");
        push_decimal(&mut out, self.rx_bytes);
        out.append("\ntx_dma_blocks ");
        push_decimal(&mut out, self.tx_blocks);
        out.append("\nrx_dma_blocks ");
        push_decimal(&mut out, self.rx_blocks);
        out.append("\nrx_dma_flushes ");
        push_decimal(&mut out, self.rx_flushes);
        out.append("\ntx_dma_flushes ");
        push_decimal(&mut out, self.tx_flushes);
        out.append("\ndma_errors ");
        push_decimal(&mut out, self.errors);
        out.append("\n");
        assert(out@ =~= self.text());
        out
    }
}

// ---------------------------------------------------------------------------
// The state machine
// ---------------------------------------------------------------------------

/// The channels that a port with these settings asks for: transmit, receive.
pub fn channel_requests(config: Config) -> (requests: (ChannelRequest, ChannelRequest))
    ensures
        requests.0 == (ChannelRequest {
            receive: false,
            fifo: config.fifo,
            size: TX_SIZE,
            burst: config.burst,
        }),
        requests.1 == (ChannelRequest {
            receive: true,
            fifo: config.fifo,
            size: RX_SIZE,
            burst: config.burst,
        }),
{
    (
        ChannelRequest { receive: false, fifo: config.fifo, size: TX_SIZE, burst: config.burst },
        ChannelRequest { receive: true, fifo: config.fifo, size: RX_SIZE, burst: config.burst },
    )
}

/// Who transmits.
#[derive(Clone, Copy, Debug, PartialEq, Eq, Structural)]
pub enum TxStart {
    /// The processor may fill the transmit FIFO.
    Cpu,
    /// DMA is transmitting, or will.
    Dma,
    /// So many bytes are in the transmit block and are submitted;
    /// [`StateMachine::tx_submitted`] takes the answer.
    Submit(usize),
}

/// Who receives.
#[derive(Clone, Copy, Debug, PartialEq, Eq, Structural)]
pub enum RxStart {
    /// The processor may drain the receive FIFO.
    Cpu,
    /// DMA owns the receive FIFO.
    Dma,
    /// A block of [`RX_SIZE`] bytes is submitted;
    /// [`StateMachine::rx_submitted`] takes the answer.
    Submit,
}

/// What it takes to end a running receive block.
#[derive(Clone, Copy, Debug, PartialEq, Eq, Structural)]
pub enum RxFlush {
    /// Nothing; the flag tells whether the processor may drain the FIFO.
    Settled(bool),
    /// The receive channel is paused, and when that worked, asked for the
    /// residue of this cookie; [`StateMachine::rx_paused`] takes the answer.
    Pause { cookie: i32 },
}

/// The end of a receive flush. The receive channel is then stopped without
/// waiting for it.
#[derive(Clone, Copy, Debug, PartialEq, Eq, Structural)]
pub struct Flushed {
    /// The processor may drain the receive FIFO.
    pub cpu_safe: bool,
    /// The worker is scheduled at once.
    pub schedule: bool,
}

/// Something that changes the state machine.
pub ghost enum Event {
    /// The port was opened.
    Activate,
    /// The port is being closed.
    Deactivate,
    /// The engine answered to a transmit block.
    TxSubmitted { count: usize, answer: Result<i32, Errno> },
    /// A transmit completion callback.
    TxComplete,
    /// Serial core cleared its transmit queue.
    TxFlush,
    /// The engine answered to a receive block.
    RxSubmitted { answer: Result<i32, Errno> },
    /// A receive completion callback.
    RxComplete,
    /// A receive block is cut short.
    RxFlush,
    /// The engine answered to a pause.
    RxPaused { residue: Option<usize> },
    /// Reception ends.
    StopReceive,
    /// The worker has synchronized these directions.
    WorkFinish { tx: bool, rx: bool },
    /// Line settings begin to change.
    ConfigureBegin,
    /// Line settings have changed.
    ConfigureEnd { synchronized: bool },
    /// A line-status error.
    RxError,
}

/// The DMA side of a port.
#[derive(Clone, Copy, Debug, PartialEq, Eq, Structural)]
pub struct StateMachine {
    /// Both channels were acquired.
    pub channels: bool,
    pub state: State,
}

impl StateMachine {
    /// The decision of [`StateMachine::tx_start`]: a block is submitted.
    pub open spec fn tx_submits(self, port: PortState) -> bool {
        &&& self.channels && self.state.active && !self.state.configuring
        &&& self.state.tx == Phase::Idle && !self.state.tx_failed
        &&& port.x_char == 0 && !port.tx_stopped && port.xmit.len() > 0
    }

    /// The decision of [`StateMachine::tx_start`]: DMA has the transmitter, or
    /// is about to have it again.
    pub open spec fn tx_held(self) -> bool {
        &&& self.channels && self.state.active
        &&& self.state.configuring || self.state.tx != Phase::Idle
    }

    /// The decision of [`StateMachine::rx_start`].
    pub open spec fn rx_choice(self) -> RxStart {
        if !self.channels || !self.state.active || !self.state.receive {
            RxStart::Cpu
        } else if self.state.rx == Phase::Stopping {
            if self.state.rx_cpu_safe {
                RxStart::Cpu
            } else {
                RxStart::Dma
            }
        } else if self.state.rx == Phase::Running {
            RxStart::Dma
        } else if self.state.configuring || self.state.rx_failed {
            RxStart::Cpu
        } else {
            RxStart::Submit
        }
    }

    /// A receive flush has a block to end.
    pub open spec fn rx_pauses(self) -> bool {
        self.channels && self.state.rx == Phase::Running
    }

    /// What a receive flush takes.
    pub open spec fn rx_flush_choice(self) -> RxFlush {
        if self.rx_pauses() {
            RxFlush::Pause { cookie: self.state.rx_cookie }
        } else {
            RxFlush::Settled(
                !self.channels || self.state.rx == Phase::Idle || self.state.rx_cpu_safe,
            )
        }
    }

    /// The machine once a receive flush has begun.
    pub open spec fn rx_flushing(self) -> StateMachine {
        if self.rx_pauses() {
            StateMachine { state: State { rx: Phase::Stopping, ..self.state }, ..self }
        } else {
            self
        }
    }

    /// The event can happen now.
    pub open spec fn allows(self, event: Event) -> bool {
        match event {
            Event::TxSubmitted { .. } => self.state.tx == Phase::Idle,
            Event::RxSubmitted { .. } => self.state.rx == Phase::Idle,
            Event::RxPaused { .. } => self.state.rx == Phase::Stopping,
            _ => true,
        }
    }

    /// The machine after an event.
    pub open spec fn after(self, event: Event) -> StateMachine {
        let s = self.state;
        let next = match event {
            Event::Activate => State { active: true, receive: true, ..State::closed_port() },
            Event::Deactivate => State { active: false, receive: false, ..s },
            Event::TxSubmitted { count, answer } => match answer {
                Ok(cookie) => State {
                    tx: Phase::Running,
                    tx_cookie: cookie,
                    tx_len: count,
                    ..s
                },
                Err(_) => State { tx_failed: true, ..s },
            },
            Event::TxComplete => s.tx_completed(),
            Event::TxFlush => if self.channels {
                s.tx_cancelled()
            } else {
                s
            },
            Event::RxSubmitted { answer } => match answer {
                Ok(cookie) => State {
                    rx: Phase::Running,
                    rx_cookie: cookie,
                    rx_cpu_safe: false,
                    ..s
                },
                Err(_) => State { rx_failed: true, ..s },
            },
            Event::RxComplete => if self.channels {
                s.rx_completed()
            } else {
                s
            },
            Event::RxFlush => self.rx_flushing().state,
            Event::RxPaused { residue } => if StateMachine::residue_valid(residue) {
                State { rx_cpu_safe: true, ..s }
            } else {
                State { rx_failed: true, ..s }
            },
            Event::StopReceive => State { receive: false, ..self.rx_flushing().state },
            Event::WorkFinish { tx, rx } => self.synchronized(tx, rx).state,
            Event::ConfigureBegin => State { configuring: true, ..self.rx_flushing().state },
            Event::ConfigureEnd { synchronized } => State {
                configuring: false,
                ..self.synchronized(synchronized, synchronized).state
            },
            Event::RxError => State { rx_failed: true, ..self.rx_flushing().state },
        };
        StateMachine { state: next, ..self }
    }

    /// The residue tells how much of the receive block was written.
    pub open spec fn residue_valid(residue: Option<usize>) -> bool {
        residue is Some && residue->0 <= RX_SIZE
    }

    /// Acquires the state machine of a port. `attempt` is the outcome of
    /// asking for both channels, or `None` when the port has no DMA settings.
    /// Only a deferral is an error; otherwise the processor does the work.
    pub fn new(attempt: Option<Result<(), Errno>>, stats: &mut Stats) -> (result: Result<
        Self,
        Errno,
    >)
        ensures
            match attempt {
                None => result == Ok::<Self, Errno>(
                    StateMachine { channels: false, state: State::closed_port() },
                ) && *final(stats) == *old(stats),
                Some(Ok(())) => result == Ok::<Self, Errno>(
                    StateMachine { channels: true, state: State::closed_port() },
                ) && *final(stats)
                    == (Stats { channels: added(old(stats).channels, 1), ..*old(stats) }),
                Some(Err(error)) => if error == Errno::EPROBE_DEFER {
                    result == Err::<Self, Errno>(error) && *final(stats) == *old(stats)
                } else {
                    result == Ok::<Self, Errno>(
                        StateMachine { channels: false, state: State::closed_port() },
                    ) && *final(stats)
                        == (Stats { fallback: added(old(stats).fallback, 1), ..*old(stats) })
                },
            },
    {
        let channels = match attempt {
            None => false,
            Some(Ok(())) => {
                stats.channels = add_to(stats.channels, 1);
                true
            },
            Some(Err(error)) => {
                if error == Errno::EPROBE_DEFER {
                    return Err(error);
                }
                stats.fallback = add_to(stats.fallback, 1);
                false
            },
        };
        Ok(StateMachine { channels, state: State::new() })
    }

    /// The port has DMA channels.
    pub fn available(&self) -> (available: bool)
        ensures
            available == self.channels,
    {
        self.channels
    }

    /// The port is opened, after the previous close.
    pub fn activate(&mut self)
        ensures
            *final(self) == old(self).after(Event::Activate),
    {
        let mut state = State::new();
        state.active = true;
        state.receive = true;
        self.state = state;
    }

    /// The port is being closed. No new DMA or work is issued afterwards.
    pub fn deactivate(&mut self)
        ensures
            *final(self) == old(self).after(Event::Deactivate),
    {
        self.state.active = false;
        self.state.receive = false;
    }

    /// Closes the port once it is deactivated: the worker is cancelled, and
    /// with true both channels are then stopped and waited for, transmit first.
    pub fn close(&self) -> (stop_channels: bool)
        ensures
            stop_channels == self.channels,
    {
        self.channels
    }

    /// Gives the channels up, when the port goes away after [`StateMachine::close`].
    pub fn release(self, stats: &mut Stats)
        ensures
            *final(stats) == if self.channels {
                Stats { channels: added(old(stats).channels, u64::MAX as int), ..*old(stats) }
            } else {
                *old(stats)
            },
    {
        if self.channels {
            stats.channels = add_to(stats.channels, u64::MAX);
        }
    }

    /// Work may be scheduled: the port is open.
    pub fn schedule(&self) -> (allowed: bool)
        ensures
            allowed == self.state.active,
    {
        self.state.active
    }

    /// Decides who transmits. The bytes of a block are copied into `block` and
    /// leave the queue when the block completes.
    pub fn tx_start(&self, port: &LockedPort, block: &mut Vec<u8>) -> (choice: TxStart)
        ensures
            match choice {
                TxStart::Submit(count) => {
                    &&& self.tx_submits(port@)
                    &&& count == min(TX_SIZE as int, port@.xmit.len() as int)
                    &&& final(block)@ == port@.xmit.take(count as int)
                },
                TxStart::Dma => self.tx_held() && *final(block) == *old(block),
                TxStart::Cpu => {
                    &&& !self.tx_submits(port@)
                    &&& !self.tx_held()
                    &&& *final(block) == *old(block)
                },
            },
    {
        if !self.channels || !self.state.active {
            return TxStart::Cpu;
        }
        if self.state.configuring || self.state.tx != Phase::Idle {
            return TxStart::Dma;
        }
        if self.state.tx_failed || port.tx_priority() {
            return TxStart::Cpu;
        }
        if port.tx_stopped || port.tx_pending() == 0 {
            return TxStart::Cpu;
        }
        TxStart::Submit(port.peek_tx(TX_SIZE, block))
    }

    /// Takes the engine's answer to a transmit block of `count` bytes: its
    /// cookie, or an error. With true, the caller issues the block; with false
    /// the bytes are still queued and the processor sends them.
    pub fn tx_submitted(
        &mut self,
        count: usize,
        answer: Result<i32, Errno>,
        stats: &mut Stats,
    ) -> (issue: bool)
        requires
            old(self).state.tx == Phase::Idle,
        ensures
            issue == (answer is Ok),
            *final(self) == old(self).after(Event::TxSubmitted { count, answer }),
            *final(stats) == if issue {
                Stats { tx_blocks: added(old(stats).tx_blocks, 1), ..*old(stats) }
            } else {
                Stats { errors: added(old(stats).errors, 1), ..*old(stats) }
            },
    {
        match answer {
            Ok(cookie) => {
                self.state.tx_cookie = cookie;
                self.state.tx_len = count;
                self.state.tx = Phase::Running;
                stats.tx_blocks = add_to(stats.tx_blocks, 1);
                true
            },
            Err(_) => {
                self.state.tx_failed = true;
                stats.errors = add_to(stats.errors, 1);
                false
            },
        }
    }

    /// Takes a transmit completion. With true, the block's bytes have left the
    /// queue and another block may be started; a stale completion changes
    /// nothing.
    pub fn tx_complete(&mut self, port: &mut LockedPort, stats: &mut Stats) -> (completed: bool)
        ensures
            completed == old(self).state.tx_completes(),
            *final(self) == old(self).after(Event::TxComplete),
            completed ==> {
                &&& final(port)@ == old(port)@.advanced(
                    old(self).state.tx_len as int,
                ).writers_woken()
                &&& *final(stats) == (Stats {
                    tx_bytes: added(old(stats).tx_bytes, old(self).state.tx_len as int),
                    ..*old(stats)
                })
            },
            !completed ==> final(port)@ == old(port)@ && *final(stats) == *old(stats),
    {
        match self.state.complete_tx() {
            None => false,
            Some(count) => {
                port.advance_tx(count);
                stats.tx_bytes = add_to(stats.tx_bytes, count as u64);
                port.wake_writers();
                true
            },
        }
    }

    /// Discards the transmit block, once serial core has cleared its queue.
    /// With true, the caller stops the transmit channel without waiting for it
    /// and schedules the worker at once.
    pub fn tx_flush(&mut self, stats: &mut Stats) -> (stop: bool)
        ensures
            stop == (old(self).channels && old(self).state.tx_cancels()),
            *final(self) == old(self).after(Event::TxFlush),
            *final(stats) == if stop {
                Stats { tx_flushes: added(old(stats).tx_flushes, 1), ..*old(stats) }
            } else {
                *old(stats)
            },
    {
        if !self.channels {
            return false;
        }
        if !self.state.cancel_tx() {
            return false;
        }
        stats.tx_flushes = add_to(stats.tx_flushes, 1);
        true
    }

    /// DMA still has transmit data, so the transmitter is not empty.
    pub fn tx_busy(&self) -> (busy: bool)
        ensures
            busy == (self.state.active && self.state.tx != Phase::Idle),
    {
        self.state.active && self.state.tx != Phase::Idle
    }

    /// A transmit block is running; it is awaited, not cancelled, before line
    /// settings change.
    pub fn tx_running(&self) -> (running: bool)
        ensures
            running == (self.state.tx == Phase::Running),
    {
        self.state.tx == Phase::Running
    }

    /// Decides who receives.
    pub fn rx_start(&self) -> (choice: RxStart)
        ensures
            choice == self.rx_choice(),
    {
        if !self.channels {
            return RxStart::Cpu;
        }
        if !self.state.active || !self.state.receive {
            return RxStart::Cpu;
        }
        if self.state.rx == Phase::Stopping {
            return if self.state.rx_cpu_safe {
                RxStart::Cpu
            } else {
                RxStart::Dma
            };
        }
        if self.state.rx == Phase::Running {
            return RxStart::Dma;
        }
        if self.state.configuring {
            return RxStart::Cpu;
        }
        if self.state.rx_failed {
            return RxStart::Cpu;
        }
        RxStart::Submit
    }

    /// Takes the engine's answer to a receive block: its cookie, or an error.
    /// With true, DMA owns the receive FIFO: the caller issues the block and
    /// schedules the worker in [`RX_POLL_MS`].
    pub fn rx_submitted(&mut self, answer: Result<i32, Errno>, stats: &mut Stats) -> (issue: bool)
        requires
            old(self).state.rx == Phase::Idle,
        ensures
            issue == (answer is Ok),
            *final(self) == old(self).after(Event::RxSubmitted { answer }),
            *final(stats) == if issue {
                Stats { rx_blocks: added(old(stats).rx_blocks, 1), ..*old(stats) }
            } else {
                Stats { errors: added(old(stats).errors, 1), ..*old(stats) }
            },
    {
        match answer {
            Ok(cookie) => {
                self.state.rx = Phase::Running;
                self.state.rx_cookie = cookie;
                self.state.rx_cpu_safe = false;
                stats.rx_blocks = add_to(stats.rx_blocks, 1);
                true
            },
            Err(_) => {
                self.state.rx_failed = true;
                stats.errors = add_to(stats.errors, 1);
                false
            },
        }
    }

    /// Takes a receive completion: the whole receive buffer is delivered. A
    /// stale completion changes nothing.
    pub fn rx_complete(&mut self, port: &mut LockedPort, stats: &mut Stats) -> (completed: bool)
        ensures
            completed == (old(self).channels && old(self).state.rx_completes()),
            *final(self) == old(self).after(Event::RxComplete),
            completed ==> {
                &&& final(port)@ == old(port)@.asked(Effect::ReceiveDma { count: RX_SIZE })
                &&& *final(stats) == (Stats {
                    rx_bytes: added(old(stats).rx_bytes, RX_SIZE as int),
                    ..*old(stats)
                })
            },
            !completed ==> final(port)@ == old(port)@ && *final(stats) == *old(stats),
    {
        if !self.channels {
            return false;
        }
        if !self.state.complete_rx() {
            return false;
        }
        port.receive_dma(RX_SIZE);
        stats.rx_bytes = add_to(stats.rx_bytes, RX_SIZE as u64);
        true
    }

    /// Begins to end a running receive block, so that the processor can drain
    /// what is left in the FIFO.
    pub fn rx_flush(&mut self) -> (step: RxFlush)
        ensures
            step == old(self).rx_flush_choice(),
            *final(self) == old(self).after(Event::RxFlush),
    {
        if !self.channels {
            return RxFlush::Settled(true);
        }
        if self.state.rx == Phase::Idle {
            return RxFlush::Settled(true);
        }
        if self.state.rx == Phase::Stopping {
            return RxFlush::Settled(self.state.rx_cpu_safe);
        }
        self.state.rx = Phase::Stopping;
        RxFlush::Pause { cookie: self.state.rx_cookie }
    }

    /// Takes the residue of the paused block, or `None` when it could not be
    /// paused. The written part of the buffer is delivered; without a sensible
    /// residue nothing is, and the processor keeps off the FIFO until the
    /// channel has been stopped. `schedule` asks for the worker.
    pub fn rx_paused(
        &mut self,
        residue: Option<usize>,
        schedule: bool,
        port: &mut LockedPort,
        stats: &mut Stats,
    ) -> (flushed: Flushed)
        requires
            old(self).state.rx == Phase::Stopping,
        ensures
            flushed.schedule == (schedule && old(self).state.active),
            flushed.cpu_safe == final(self).state.rx_cpu_safe,
            *final(self) == old(self).after(Event::RxPaused { residue }),
            if StateMachine::residue_valid(residue) {
                let count = (RX_SIZE - residue->0) as usize;
                &&& final(port)@ == old(port)@.asked(Effect::ReceiveDma { count })
                &&& *final(stats) == (Stats {
                    rx_bytes: added(old(stats).rx_bytes, count as int),
                    rx_flushes: added(old(stats).rx_flushes, 1),
                    ..*old(stats)
                })
            } else {
                &&& final(port)@ == old(port)@
                &&& *final(stats) == (Stats {
                    errors: added(old(stats).errors, 1),
                    rx_flushes: added(old(stats).rx_flushes, 1),
                    ..*old(stats)
                })
            },
    {
        let written: Option<usize> = match residue {
            Some(left) => if left <= RX_SIZE {
                Some(RX_SIZE - left)
            } else {
                None
            },
            None => None,
        };
        if let Some(count) = written {
            port.receive_dma(count);
            stats.rx_bytes = add_to(stats.rx_bytes, count as u64);
            self.state.rx_cpu_safe = true;
        } else {
            self.state.rx_failed = true;
            stats.errors = add_to(stats.errors, 1);
        }
        stats.rx_flushes = add_to(stats.rx_flushes, 1);
        Flushed { cpu_safe: self.state.rx_cpu_safe, schedule: schedule && self.state.active }
    }

    /// Ends reception, before the final shutdown or on request. The flush that
    /// it begins asks for the worker.
    pub fn stop_receive(&mut self) -> (step: RxFlush)
        ensures
            step == old(self).rx_flush_choice(),
            *final(self) == old(self).after(Event::StopReceive),
    {
        self.state.receive = false;
        self.rx_flush()
    }

    /// Begins the worker's round. `None`: the port is closed and there is
    /// nothing to do. Otherwise even a short message that raised no interrupt
    /// is flushed; that flush does not ask for the worker.
    pub fn work_prepare(&mut self) -> (step: Option<RxFlush>)
        ensures
            old(self).state.active ==> step == Some(old(self).rx_flush_choice()) && *final(self)
                == old(self).after(Event::RxFlush),
            !old(self).state.active ==> step is None && *final(self) == *old(self),
    {
        if !self.state.active {
            return None;
        }
        Some(self.rx_flush())
    }

    /// The directions that the worker has to stop and wait for: transmit, receive.
    pub fn stopping(&self) -> (directions: (bool, bool))
        ensures
            directions.0 == (self.state.tx == Phase::Stopping),
            directions.1 == (self.state.rx == Phase::Stopping),
    {
        (self.state.tx == Phase::Stopping, self.state.rx == Phase::Stopping)
    }

    /// Of these directions, the channels that are stopped and waited for,
    /// without the port lock: transmit, receive.
    pub fn synchronize(&self, tx: bool, rx: bool) -> (channels: (bool, bool))
        ensures
            channels == (tx && self.channels, rx && self.channels),
    {
        (tx && self.channels, rx && self.channels)
    }

    /// Ends the worker's round, once exactly these directions have been
    /// synchronized. With true, transfers may be started again.
    pub fn work_finish(&mut self, tx: bool, rx: bool) -> (restart: bool)
        ensures
            restart == (old(self).state.active && !old(self).state.configuring),
            *final(self) == old(self).after(Event::WorkFinish { tx, rx }),
    {
        if tx {
            self.state.tx = Phase::Idle;
        }
        if rx {
            self.state.rx = Phase::Idle;
            self.state.rx_cpu_safe = true;
        }
        self.state.active && !self.state.configuring
    }

    /// The machine once the channels of these directions are quiescent.
    pub open spec fn synchronized(self, tx: bool, rx: bool) -> StateMachine {
        StateMachine {
            state: State {
                tx: if tx {
                    Phase::Idle
                } else {
                    self.state.tx
                },
                rx: if rx {
                    Phase::Idle
                } else {
                    self.state.rx
                },
                rx_cpu_safe: rx || self.state.rx_cpu_safe,
                ..self.state
            },
            ..self
        }
    }

    /// Begins a change of line settings: no new block is submitted until it
    /// ends. The flush that it begins asks for the worker.
    pub fn configure_begin(&mut self) -> (step: RxFlush)
        ensures
            step == old(self).rx_flush_choice(),
            *final(self) == old(self).after(Event::ConfigureBegin),
    {
        self.state.configuring = true;
        self.rx_flush()
    }

    /// Quiesces the port for a change of line settings, after the last transmit
    /// block: the worker is cancelled, and then these channels are stopped and
    /// waited for: transmit, receive.
    pub fn configure_sync(&self) -> (channels: (bool, bool))
        ensures
            channels == (self.channels, self.channels),
    {
        self.synchronize(true, true)
    }

    /// Ends a change of line settings. `synchronized` tells that both channels
    /// are quiescent. With true, transfers may be started again.
    pub fn configure_end(&mut self, synchronized: bool) -> (restart: bool)
        ensures
            restart == old(self).state.active,
            *final(self) == old(self).after(Event::ConfigureEnd { synchronized }),
    {
        if synchronized {
            self.state.tx = Phase::Idle;
            self.state.rx = Phase::Idle;
            self.state.rx_cpu_safe = true;
        }
        self.state.configuring = false;
        self.state.active
    }

    /// Takes a line-status error. DMA gives no error flags byte by byte, so the
    /// processor receives for the rest of this open. The flush that it begins
    /// asks for the worker.
    pub fn rx_error(&mut self, stats: &mut Stats) -> (step: RxFlush)
        ensures
            step == old(self).rx_flush_choice(),
            *final(self) == old(self).after(Event::RxError),
            *final(stats) == if old(self).channels {
                Stats { errors: added(old(stats).errors, 1), ..*old(stats) }
            } else {
                *old(stats)
            },
    {
        self.state.rx_failed = true;
        if self.channels {
            stats.errors = add_to(stats.errors, 1);
        }
        self.rx_flush()
    }
}

// ---------------------------------------------------------------------------
// Laws
// ---------------------------------------------------------------------------

/// A cancelled transmit buffer is not reused until its channel has been
/// synchronized: until then it stays cancelled, and no block is submitted.
pub proof fn law_cancelled_transmit_buffer_is_not_reused(
    machine: StateMachine,
    port: PortState,
    event: Event,
)
    requires
        machine.state.tx == Phase::Stopping,
        machine.allows(event),
        event != Event::Activate,
        event != (Event::ConfigureEnd { synchronized: true }),
        !(event is WorkFinish && event->WorkFinish_tx),
    ensures
        !machine.tx_submits(port),
        machine.after(event).state.tx == Phase::Stopping,
{
}

/// A cancelled receive buffer is not reused until its channel has been
/// synchronized.
pub proof fn law_cancelled_receive_buffer_is_not_reused(machine: StateMachine, event: Event)
    requires
        machine.state.rx == Phase::Stopping,
        machine.allows(event),
        event != Event::Activate,
        event != (Event::ConfigureEnd { synchronized: true }),
        !(event is WorkFinish && event->WorkFinish_rx),
    ensures
        machine.rx_choice() != RxStart::Submit,
        machine.after(event).state.rx == Phase::Stopping,
{
}

/// A block is only submitted for a buffer that the processor owns.
pub proof fn law_only_idle_buffers_are_submitted(machine: StateMachine, port: PortState)
    ensures
        machine.tx_submits(port) ==> machine.state.tx == Phase::Idle,
        machine.rx_choice() == RxStart::Submit ==> machine.state.rx == Phase::Idle,
{
}

/// Once a port is being closed it stays closed until it is opened again:
/// nothing is submitted, nothing is scheduled, and no completion counts.
pub proof fn law_closed_port_stays_quiet(machine: StateMachine, port: PortState, event: Event)
    requires
        !machine.state.active,
        event != Event::Activate,
    ensures
        !machine.after(event).state.active,
        !machine.tx_submits(port),
        machine.rx_choice() == RxStart::Cpu,
        !machine.state.tx_completes(),
        !machine.state.rx_completes(),
{
}

/// While line settings change, no block is submitted in either direction.
pub proof fn law_no_submission_while_configuring(machine: StateMachine, port: PortState)
    requires
        machine.state.configuring,
    ensures
        !machine.tx_submits(port),
        machine.rx_choice() != RxStart::Submit,
{
}

/// A direction that failed stays with the processor for the rest of the open.
pub proof fn law_failures_last_until_reopen(
    machine: StateMachine,
    port: PortState,
    event: Event,
)
    requires
        event != Event::Activate,
    ensures
        machine.state.tx_failed ==> machine.after(event).state.tx_failed && !machine.tx_submits(
            port,
        ),
        machine.state.rx_failed ==> machine.after(event).state.rx_failed && machine.rx_choice()
            != RxStart::Submit,
{
}

/// A timeout and a full buffer cannot both deliver a receive block: once a
/// flush has begun, the completion is stale, and once the completion has been
/// taken, a flush finds nothing to pause.
pub proof fn law_timeout_and_completion_exclude_each_other(machine: StateMachine)
    ensures
        machine.rx_pauses() ==> !machine.after(Event::RxFlush).state.rx_completes(),
        machine.channels && machine.state.rx_completes() ==> !machine.after(
            Event::RxComplete,
        ).rx_pauses(),
{
}

/// The processor is kept off the receive FIFO exactly while DMA may still
/// write: from the submission of a block until it completes, is paused with a
/// sensible residue, or has been synchronized.
pub proof fn law_processor_keeps_off_a_running_fifo(machine: StateMachine, cookie: i32)
    requires
        machine.allows(Event::RxSubmitted { answer: Ok(cookie) }),
        machine.channels,
    ensures
        ({
            let running = machine.after(Event::RxSubmitted { answer: Ok(cookie) });
            let flushing = running.after(Event::RxFlush);
            &&& !running.state.rx_cpu_safe
            &&& !flushing.state.rx_cpu_safe
            &&& flushing.rx_flush_choice() == RxFlush::Settled(false)
            &&& flushing.after(Event::WorkFinish { tx: false, rx: true }).state.rx_cpu_safe
        }),
{
}

/// The driver-wide count of DMA ports goes back to where it was when the last
/// port that was counted goes away.
pub proof fn law_release_undoes_acquisition(count: u64)
    ensures
        added(added(count, 1), u64::MAX as int) == count,
{
}

/// Who transmits. Without channels, or while the port is closed, it is the
/// processor; while a block is on its way or line settings change, it is DMA;
/// and otherwise DMA takes ordinary output that nothing holds back: a block of
/// the oldest bytes, at most 256 of them.
pub proof fn law_transmitter_is_chosen(
    machine: &StateMachine,
    port: &LockedPort,
    block: &mut Vec<u8>,
    choice: TxStart,
)
    requires
        call_ensures(StateMachine::tx_start, (machine, port, block), choice),
    ensures
        !machine.channels || !machine.state.active ==> choice == TxStart::Cpu,
        machine.channels && machine.state.active ==> {
            &&& machine.state.configuring || machine.state.tx != Phase::Idle ==> choice
                == TxStart::Dma
            &&& !machine.state.configuring && machine.state.tx == Phase::Idle ==> {
                if machine.state.tx_failed || port.x_char != 0 || port.tx_stopped
                    || port.xmit@.len() == 0 {
                    choice == TxStart::Cpu
                } else {
                    &&& choice is Submit
                    &&& choice->0 == if port.xmit@.len() < 256 {
                        port.xmit@.len() as int
                    } else {
                        256
                    }
                    &&& final(block)@ == port.xmit@.take(choice->0 as int)
                }
            }
        },
        !(choice is Submit) ==> final(block)@ == old(block)@,
{
}

/// No byte is lost or repeated by a transmit block: when it completes, exactly
/// the bytes that were copied into it leave the queue, and whatever was queued
/// meanwhile stays. They are counted once.
pub proof fn law_completed_block_leaves_the_queue(
    idle: &StateMachine,
    queue: &LockedPort,
    block: &mut Vec<u8>,
    submitting: &mut StateMachine,
    count: usize,
    cookie: i32,
    submit_stats: &mut Stats,
    issue: bool,
    appended: Seq<u8>,
    completing: &mut StateMachine,
    port: &mut LockedPort,
    stats: &mut Stats,
    completed: bool,
)
    requires
        call_ensures(StateMachine::tx_start, (idle, queue, block), TxStart::Submit(count)),
        *old(submitting) == *idle,
        call_ensures(
            StateMachine::tx_submitted,
            (submitting, count, Ok::<i32, Errno>(cookie), submit_stats),
            issue,
        ),
        old(completing).state.active,
        old(completing).state.tx == final(submitting).state.tx,
        old(completing).state.tx_len == final(submitting).state.tx_len,
        old(port).xmit@ == queue.xmit@ + appended,
        call_ensures(StateMachine::tx_complete, (completing, port, stats), completed),
    ensures
        issue,
        completed,
        final(submitting).state.tx_cookie == cookie,
        0 < count <= 256,
        final(block)@ == queue.xmit@.take(count as int),
        final(port).xmit@ == queue.xmit@.skip(count as int) + appended,
        final(block)@ + final(port).xmit@ == old(port).xmit@,
        old(stats).tx_bytes + count <= u64::MAX ==> final(stats).tx_bytes == old(stats).tx_bytes
            + count,
        *final(stats) == (Stats { tx_bytes: final(stats).tx_bytes, ..*old(stats) }),
        old(submit_stats).tx_blocks < u64::MAX
            ==> final(submit_stats).tx_blocks == old(submit_stats).tx_blocks + 1,
        *final(submit_stats) == (Stats {
            tx_blocks: final(submit_stats).tx_blocks,
            ..*old(submit_stats)
        }),
        final(completing).state.tx == Phase::Idle,
        final(port).x_char == old(port).x_char,
        final(port).tx_stopped == old(port).tx_stopped,
        final(port).icount == old(port).icount,
        final(port).read_status_mask == old(port).read_status_mask,
        final(port).ignore_status_mask == old(port).ignore_status_mask,
        final(port).uartclk == old(port).uartclk,
        final(port).effects@ == if final(port).xmit@.len() < 256 {
            old(port).effects@.push(Effect::WriteWakeup)
        } else {
            old(port).effects@
        },
{
    let n = count as int;
    assert(final(port)@.xmit == final(port).xmit@);
    assert(final(port)@.effects == final(port).effects@);
    assert((queue.xmit@ + appended).skip(n) =~= queue.xmit@.skip(n) + appended);
    assert(queue.xmit@.take(n) + (queue.xmit@.skip(n) + appended) =~= queue.xmit@ + appended);
}

/// A block that the engine refuses changes nothing but the choice: its bytes
/// were only copied, and the processor sends them.
pub proof fn law_refused_block_goes_to_the_processor(
    submitting: &mut StateMachine,
    count: usize,
    error: Errno,
    stats: &mut Stats,
    issue: bool,
    port: &LockedPort,
    block: &mut Vec<u8>,
    choice: TxStart,
)
    requires
        old(submitting).state.tx == Phase::Idle,
        !old(submitting).state.configuring,
        call_ensures(
            StateMachine::tx_submitted,
            (submitting, count, Err::<i32, Errno>(error), stats),
            issue,
        ),
        call_ensures(StateMachine::tx_start, (&*final(submitting), port, block), choice),
    ensures
        !issue,
        choice == TxStart::Cpu,
        *final(submitting) == (StateMachine {
            state: State { tx_failed: true, ..old(submitting).state },
            ..*old(submitting)
        }),
        old(stats).errors < u64::MAX ==> final(stats).errors == old(stats).errors + 1,
        *final(stats) == (Stats { errors: final(stats).errors, ..*old(stats) }),
{
}

/// A block that is flushed never takes bytes off the queue: its completion,
/// however late, changes neither the queue nor the counters.
pub proof fn law_flushed_block_takes_nothing(
    flushing: &mut StateMachine,
    flush_stats: &mut Stats,
    stop: bool,
    completing: &mut StateMachine,
    port: &mut LockedPort,
    stats: &mut Stats,
    completed: bool,
)
    requires
        call_ensures(StateMachine::tx_flush, (flushing, flush_stats), stop),
        *old(completing) == *final(flushing),
        old(flushing).channels,
        call_ensures(StateMachine::tx_complete, (completing, port, stats), completed),
    ensures
        stop == (old(flushing).state.active && old(flushing).state.tx != Phase::Idle),
        stop ==> final(flushing).state.tx == Phase::Stopping,
        !stop ==> *final(flushing) == *old(flushing),
        *final(flush_stats) == (Stats {
            tx_flushes: final(flush_stats).tx_flushes,
            ..*old(flush_stats)
        }),
        old(flush_stats).tx_flushes < u64::MAX
            ==> final(flush_stats).tx_flushes == old(flush_stats).tx_flushes + if stop {
            1int
        } else {
            0
        },
        !completed,
        final(port)@ == old(port)@,
        *final(stats) == *old(stats),
        *final(completing) == *old(completing),
{
}

/// A second completion of the same block is stale.
pub proof fn law_second_completion_is_stale(
    first: &mut StateMachine,
    first_port: &mut LockedPort,
    first_stats: &mut Stats,
    done: bool,
    second: &mut StateMachine,
    port: &mut LockedPort,
    stats: &mut Stats,
    again: bool,
)
    requires
        call_ensures(StateMachine::tx_complete, (first, first_port, first_stats), done),
        *old(second) == *final(first),
        call_ensures(StateMachine::tx_complete, (second, port, stats), again),
    ensures
        done == (old(first).state.active && old(first).state.tx == Phase::Running),
        !again,
        final(port)@ == old(port)@,
        *final(stats) == *old(stats),
        *final(second) == *old(second),
{
}

/// Who receives. DMA owns the FIFO while a block runs, and while one is being
/// stopped that may still be written; a new block needs an idle buffer, an open
/// port that receives, and neither a failure nor a change of settings.
pub proof fn law_receiver_is_chosen(machine: &StateMachine, choice: RxStart)
    requires
        call_ensures(StateMachine::rx_start, (machine,), choice),
    ensures
        ({
            let wanted = machine.channels && machine.state.active && machine.state.receive;
            &&& choice == RxStart::Dma <==> wanted && (machine.state.rx == Phase::Running || (
            machine.state.rx == Phase::Stopping && !machine.state.rx_cpu_safe))
            &&& choice == RxStart::Submit <==> wanted && machine.state.rx == Phase::Idle
                && !machine.state.configuring && !machine.state.rx_failed
        }),
{
}

/// A receive block that fills is delivered as a whole, once: 512 bytes, which
/// are counted, and a second completion gives nothing.
pub proof fn law_full_receive_block_is_delivered_once(
    submitting: &mut StateMachine,
    cookie: i32,
    submit_stats: &mut Stats,
    issue: bool,
    completing: &mut StateMachine,
    port: &mut LockedPort,
    stats: &mut Stats,
    completed: bool,
    late: &mut StateMachine,
    late_port: &mut LockedPort,
    late_stats: &mut Stats,
    again: bool,
)
    requires
        old(submitting).state.rx == Phase::Idle,
        old(submitting).state.active,
        old(submitting).channels,
        call_ensures(
            StateMachine::rx_submitted,
            (submitting, Ok::<i32, Errno>(cookie), submit_stats),
            issue,
        ),
        *old(completing) == *final(submitting),
        call_ensures(StateMachine::rx_complete, (completing, port, stats), completed),
        *old(late) == *final(completing),
        call_ensures(StateMachine::rx_complete, (late, late_port, late_stats), again),
    ensures
        issue,
        *final(submitting) == (StateMachine {
            state: State {
                rx: Phase::Running,
                rx_cookie: cookie,
                rx_cpu_safe: false,
                ..old(submitting).state
            },
            ..*old(submitting)
        }),
        old(submit_stats).rx_blocks < u64::MAX ==> *final(submit_stats) == (Stats {
            rx_blocks: (old(submit_stats).rx_blocks + 1) as u64,
            ..*old(submit_stats)
        }),
        completed,
        final(port)@.effects == old(port)@.effects.push(Effect::ReceiveDma { count: 512 }),
        final(port)@ == (PortState { effects: final(port)@.effects, ..old(port)@ }),
        old(stats).rx_bytes + 512 <= u64::MAX ==> *final(stats) == (Stats {
            rx_bytes: (old(stats).rx_bytes + 512) as u64,
            ..*old(stats)
        }),
        final(completing).state.rx == Phase::Idle,
        final(completing).state.rx_cpu_safe,
        !again,
        final(late_port)@ == old(late_port)@,
        *final(late_stats) == *old(late_stats),
{
}

/// A receive block that is cut short delivers what was written of it, once:
/// all of its 512 bytes but the residue of the very block that was running.
/// Without a residue that makes sense nothing is delivered, and the processor
/// keeps off the FIFO.
pub proof fn law_short_receive_block_is_delivered_once(
    flushing: &mut StateMachine,
    step: RxFlush,
    pausing: &mut StateMachine,
    residue: Option<usize>,
    schedule: bool,
    port: &mut LockedPort,
    stats: &mut Stats,
    flushed: Flushed,
    late: &mut StateMachine,
    late_port: &mut LockedPort,
    late_stats: &mut Stats,
    again: bool,
)
    requires
        old(flushing).channels,
        old(flushing).state.rx == Phase::Running,
        !old(flushing).state.rx_cpu_safe,
        call_ensures(StateMachine::rx_flush, (flushing,), step),
        *old(pausing) == *final(flushing),
        call_ensures(
            StateMachine::rx_paused,
            (pausing, residue, schedule, port, stats),
            flushed,
        ),
        *old(late) == *final(pausing),
        call_ensures(StateMachine::rx_complete, (late, late_port, late_stats), again),
    ensures
        step == (RxFlush::Pause { cookie: old(flushing).state.rx_cookie }),
        final(flushing).state.rx == Phase::Stopping,
        final(pausing).state.rx == Phase::Stopping,
        flushed.schedule == (schedule && old(flushing).state.active),
        flushed.cpu_safe == final(pausing).state.rx_cpu_safe,
        flushed.cpu_safe == (residue is Some && residue->0 <= 512),
        final(pausing).state.rx_failed == (old(flushing).state.rx_failed || !flushed.cpu_safe),
        flushed.cpu_safe ==> {
            &&& exists|count: usize|
                count + residue->0 == 512 && final(port)@.effects == old(port)@.effects.push(
                    #[trigger] dma_input(count),
                )
            &&& old(stats).rx_bytes + 512 <= u64::MAX ==> final(stats).rx_bytes + residue->0
                == old(stats).rx_bytes + 512
            &&& final(stats).errors == old(stats).errors
        },
        !flushed.cpu_safe ==> {
            &&& final(port)@.effects == old(port)@.effects
            &&& final(stats).rx_bytes == old(stats).rx_bytes
            &&& old(stats).errors < u64::MAX ==> final(stats).errors == old(stats).errors + 1
        },
        final(port)@ == (PortState { effects: final(port)@.effects, ..old(port)@ }),
        old(stats).rx_flushes < u64::MAX ==> final(stats).rx_flushes == old(stats).rx_flushes + 1,
        !again,
        final(late_port)@ == old(late_port)@,
        *final(late_stats) == *old(late_stats),
{
    if residue is Some && residue->0 <= 512 {
        let count = (512 - residue->0) as usize;
        assert(final(port)@.effects == old(port)@.effects.push(dma_input(count)));
    }
}

/// Input that DMA has received.
pub open spec fn dma_input(count: usize) -> Effect {
    Effect::ReceiveDma { count }
}

/// Ending reception, changing line settings and a line error each end the block
/// that is running, like any flush, and each then keep DMA from receiving: the
/// first until the port is opened again, the second until the change ends, and
/// the third for the rest of the open.
pub proof fn law_ended_reception_stays_ended(
    before: StateMachine,
    stopping: &mut StateMachine,
    stop_step: RxFlush,
    changing: &mut StateMachine,
    change_step: RxFlush,
    failing: &mut StateMachine,
    stats: &mut Stats,
    fail_step: RxFlush,
    flushing: &mut StateMachine,
    flush_step: RxFlush,
    next: StateMachine,
    choice: RxStart,
)
    requires
        *old(stopping) == before,
        *old(changing) == before,
        *old(failing) == before,
        *old(flushing) == before,
        call_ensures(StateMachine::stop_receive, (stopping,), stop_step),
        call_ensures(StateMachine::configure_begin, (changing,), change_step),
        call_ensures(StateMachine::rx_error, (failing, stats), fail_step),
        call_ensures(StateMachine::rx_flush, (flushing,), flush_step),
        next == *final(stopping) || next == *final(changing) || next == *final(failing),
        call_ensures(StateMachine::rx_start, (&next,), choice),
    ensures
        stop_step == flush_step && change_step == flush_step && fail_step == flush_step,
        *final(stopping) == (StateMachine {
            state: State { receive: false, ..final(flushing).state },
            ..before
        }),
        *final(changing) == (StateMachine {
            state: State { configuring: true, ..final(flushing).state },
            ..before
        }),
        *final(failing) == (StateMachine {
            state: State { rx_failed: true, ..final(flushing).state },
            ..before
        }),
        choice != RxStart::Submit,
        flush_step is Settled ==> *final(flushing) == before && flush_step->0 == (!before.channels
            || before.state.rx == Phase::Idle || before.state.rx_cpu_safe),
        flush_step is Settled <==> !before.channels || before.state.rx != Phase::Running,
        old(stats).errors < u64::MAX
            ==> final(stats).errors == old(stats).errors + if before.channels {
            1int
        } else {
            0
        },
        *final(stats) == (Stats { errors: final(stats).errors, ..*old(stats) }),
{
}

/// The worker makes exactly the buffers idle that it has waited for, and work
/// only goes on in an open port whose settings are not being changed.
pub proof fn law_worker_frees_what_it_waited_for(
    finishing: &mut StateMachine,
    tx: bool,
    rx: bool,
    restart: bool,
    ending: &mut StateMachine,
    synchronized: bool,
    resumed: bool,
)
    requires
        call_ensures(StateMachine::work_finish, (finishing, tx, rx), restart),
        call_ensures(StateMachine::configure_end, (ending, synchronized), resumed),
    ensures
        restart == (old(finishing).state.active && !old(finishing).state.configuring),
        tx ==> final(finishing).state.tx == Phase::Idle,
        !tx ==> final(finishing).state.tx == old(finishing).state.tx,
        rx ==> final(finishing).state.rx == Phase::Idle && final(finishing).state.rx_cpu_safe,
        !rx ==> final(finishing).state.rx == old(finishing).state.rx
            && final(finishing).state.rx_cpu_safe == old(finishing).state.rx_cpu_safe,
        final(finishing).channels == old(finishing).channels,
        final(finishing).state == (State {
            tx: final(finishing).state.tx,
            rx: final(finishing).state.rx,
            rx_cpu_safe: final(finishing).state.rx_cpu_safe,
            ..old(finishing).state
        }),
        resumed == old(ending).state.active,
        !final(ending).state.configuring,
        synchronized ==> final(ending).state.tx == Phase::Idle && final(ending).state.rx
            == Phase::Idle && final(ending).state.rx_cpu_safe,
        !synchronized ==> *final(ending) == (StateMachine {
            state: State { configuring: false, ..old(ending).state },
            ..*old(ending)
        }),
        synchronized ==> *final(ending) == (StateMachine {
            state: State {
                configuring: false,
                tx: Phase::Idle,
                rx: Phase::Idle,
                rx_cpu_safe: true,
                ..old(ending).state
            },
            ..*old(ending)
        }),
{
}

/// A port that is opened starts afresh: it is open, it receives, nothing is on
/// its way and nothing has failed. A port that is closed neither works nor
/// receives, and what is on its way stays as it was.
pub proof fn law_open_and_close(opening: &mut StateMachine, closing: &mut StateMachine)
    requires
        call_ensures(StateMachine::activate, (opening,), ()),
        call_ensures(StateMachine::deactivate, (closing,), ()),
    ensures
        final(opening).channels == old(opening).channels,
        final(opening).state.active && final(opening).state.receive,
        !final(opening).state.configuring,
        final(opening).state.tx == Phase::Idle && final(opening).state.rx == Phase::Idle,
        final(opening).state.tx_len == 0,
        final(opening).state.rx_cpu_safe,
        !final(opening).state.rx_failed && !final(opening).state.tx_failed,
        *final(closing) == (StateMachine {
            state: State { active: false, receive: false, ..old(closing).state },
            ..*old(closing)
        }),
{
}

/// A port has DMA exactly when both channels were to be had. Only a provider
/// that is not there yet, error number 517, defers the port; any other failure
/// falls back to the processor, and is counted.
pub proof fn law_channels_are_optional(
    attempt: Option<Result<(), Errno>>,
    stats: &mut Stats,
    result: Result<StateMachine, Errno>,
)
    requires
        call_ensures(StateMachine::new, (attempt, stats), result),
    ensures
        result is Err <==> attempt is Some && attempt->0 is Err && attempt->0->Err_0
            == Errno::EPROBE_DEFER,
        Errno::EPROBE_DEFER.number() == -517,
        result is Err ==> result->Err_0 == Errno::EPROBE_DEFER && *final(stats) == *old(stats),
        result is Ok ==> {
            &&& result->Ok_0.channels == (attempt is Some && attempt->0 is Ok)
            &&& !result->Ok_0.state.active && !result->Ok_0.state.receive
            &&& result->Ok_0.state.tx == Phase::Idle && result->Ok_0.state.rx == Phase::Idle
            &&& old(stats).channels < u64::MAX && old(stats).fallback < u64::MAX
                ==> *final(stats) == (Stats {
                channels: (old(stats).channels + if result->Ok_0.channels {
                    1int
                } else {
                    0
                }) as u64,
                fallback: (old(stats).fallback + if attempt is Some && attempt->0 is Err {
                    1int
                } else {
                    0
                }) as u64,
                ..*old(stats)
            })
        },
{
}

/// A transmit channel has room for a block of 256 bytes and a receive channel
/// for one of 512; both move bytes through the FIFO that the settings name.
pub proof fn law_channels_fit_the_blocks(config: Config, requests: (ChannelRequest, ChannelRequest))
    requires
        call_ensures(channel_requests, (config,), requests),
    ensures
        !requests.0.receive && requests.0.size == 256,
        requests.1.receive && requests.1.size == 512,
        requests.0.fifo == config.fifo && requests.1.fifo == config.fifo,
        requests.0.burst == config.burst && requests.1.burst == config.burst,
{
}

/// A port that goes away takes itself off the count of DMA ports, if it was on
/// it, and touches no other counter.
pub proof fn law_release_uncounts_the_port(machine: StateMachine, stats: &mut Stats)
    requires
        call_ensures(StateMachine::release, (machine, stats), ()),
        old(stats).channels > 0,
    ensures
        *final(stats) == (Stats {
            channels: (old(stats).channels - if machine.channels {
                1int
            } else {
                0
            }) as u64,
            ..*old(stats)
        }),
{
}

/// The transmitter is not empty while an open port has a block on its way, be
/// it cancelled or not; and only channels that exist are waited for.
pub proof fn law_quiescence_is_told(
    machine: &StateMachine,
    busy: bool,
    running: bool,
    allowed: bool,
    closing: bool,
    directions: (bool, bool),
    tx: bool,
    rx: bool,
    waited: (bool, bool),
    both: (bool, bool),
)
    requires
        call_ensures(StateMachine::tx_busy, (machine,), busy),
        call_ensures(StateMachine::tx_running, (machine,), running),
        call_ensures(StateMachine::schedule, (machine,), allowed),
        call_ensures(StateMachine::close, (machine,), closing),
        call_ensures(StateMachine::stopping, (machine,), directions),
        call_ensures(StateMachine::synchronize, (machine, tx, rx), waited),
        call_ensures(StateMachine::configure_sync, (machine,), both),
    ensures
        busy == (machine.state.active && (machine.state.tx == Phase::Running || machine.state.tx
            == Phase::Stopping)),
        running ==> machine.state.tx == Phase::Running,
        !running ==> machine.state.tx == Phase::Idle || machine.state.tx == Phase::Stopping,
        allowed == machine.state.active,
        closing == machine.channels,
        directions.0 == (machine.state.tx == Phase::Stopping),
        directions.1 == (machine.state.rx == Phase::Stopping),
        waited.0 == (tx && machine.channels),
        waited.1 == (rx && machine.channels),
        both.0 == machine.channels && both.1 == machine.channels,
{
}

/// The worker looks at an open port by flushing its receive block, and leaves a
/// closed one alone.
pub proof fn law_worker_flushes_open_ports(
    working: &mut StateMachine,
    step: Option<RxFlush>,
    flushing: &mut StateMachine,
    flush_step: RxFlush,
)
    requires
        *old(flushing) == *old(working),
        call_ensures(StateMachine::work_prepare, (working,), step),
        call_ensures(StateMachine::rx_flush, (flushing,), flush_step),
    ensures
        old(working).state.active
            ==> step == Some(flush_step) && *final(working) == *final(flushing),
        !old(working).state.active ==> step is None && *final(working) == *old(working),
{
}

/// The counters begin at zero, and a snapshot of them is nine lines, each a name
/// and the number of its counter. A line more is what the next counter adds.
pub proof fn law_snapshot_lines(
    fresh: Stats,
    stats: &Stats,
    text: String,
    ports: &mut String,
    fallbacks: &mut String,
    tx_bytes: &mut String,
    rx_bytes: &mut String,
    tx_blocks: &mut String,
    rx_blocks: &mut String,
    rx_flushes: &mut String,
    tx_flushes: &mut String,
    errors: &mut String,
    machine: &StateMachine,
    available: bool,
)
    requires
        call_ensures(Stats::new, (), fresh),
        call_ensures(Stats::write, (stats,), text),
        old(ports)@ == "dma_ports "@,
        call_ensures(push_decimal, (ports, stats.channels), ()),
        old(fallbacks)@ == final(ports)@ + "\npio_fallbacks "@,
        call_ensures(push_decimal, (fallbacks, stats.fallback), ()),
        old(tx_bytes)@ == final(fallbacks)@ + "\ntx_dma_bytes "@,
        call_ensures(push_decimal, (tx_bytes, stats.tx_bytes), ()),
        old(rx_bytes)@ == final(tx_bytes)@ + "\nrx_dma_bytes "@,
        call_ensures(push_decimal, (rx_bytes, stats.rx_bytes), ()),
        old(tx_blocks)@ == final(rx_bytes)@ + "\ntx_dma_blocks "@,
        call_ensures(push_decimal, (tx_blocks, stats.tx_blocks), ()),
        old(rx_blocks)@ == final(tx_blocks)@ + "\nrx_dma_blocks "@,
        call_ensures(push_decimal, (rx_blocks, stats.rx_blocks), ()),
        old(rx_flushes)@ == final(rx_blocks)@ + "\nrx_dma_flushes "@,
        call_ensures(push_decimal, (rx_flushes, stats.rx_flushes), ()),
        old(tx_flushes)@ == final(rx_flushes)@ + "\ntx_dma_flushes "@,
        call_ensures(push_decimal, (tx_flushes, stats.tx_flushes), ()),
        old(errors)@ == final(tx_flushes)@ + "\ndma_errors "@,
        call_ensures(push_decimal, (errors, stats.errors), ()),
        call_ensures(StateMachine::available, (machine,), available),
    ensures
        fresh.channels == 0 && fresh.fallback == 0 && fresh.tx_bytes == 0 && fresh.rx_bytes == 0
            && fresh.tx_blocks == 0 && fresh.rx_blocks == 0 && fresh.rx_flushes == 0
            && fresh.tx_flushes == 0 && fresh.errors == 0,
        text@ == final(errors)@ + "\n"@,
        available == machine.channels,
{
    assert(text@ =~= final(errors)@ + "\n"@);
}

/// What the transmit side does to the state and to the counters, whatever they
/// were: an accepted block is running with its cookie and its length, a refused
/// one keeps DMA away; a completion frees the buffer; a flush waits for the
/// callback. Every counter goes around after its greatest value.
pub proof fn law_transmit_transitions(
    submitting: &mut StateMachine,
    count: usize,
    answer: Result<i32, Errno>,
    submit_stats: &mut Stats,
    issue: bool,
    completing: &mut StateMachine,
    port: &mut LockedPort,
    stats: &mut Stats,
    completed: bool,
    flushing: &mut StateMachine,
    flush_stats: &mut Stats,
    stop: bool,
)
    requires
        old(submitting).state.tx == Phase::Idle,
        call_ensures(
            StateMachine::tx_submitted,
            (submitting, count, answer, submit_stats),
            issue,
        ),
        call_ensures(StateMachine::tx_complete, (completing, port, stats), completed),
        call_ensures(StateMachine::tx_flush, (flushing, flush_stats), stop),
    ensures
        issue <==> answer is Ok,
        answer is Ok ==> *final(submitting) == (StateMachine {
            state: State {
                tx: Phase::Running,
                tx_cookie: answer->Ok_0,
                tx_len: count,
                ..old(submitting).state
            },
            ..*old(submitting)
        }),
        answer is Err ==> *final(submitting) == (StateMachine {
            state: State { tx_failed: true, ..old(submitting).state },
            ..*old(submitting)
        }),
        answer is Ok ==> *final(submit_stats) == (Stats {
            tx_blocks: ((old(submit_stats).tx_blocks + 1) % 0x1_0000_0000_0000_0000) as u64,
            ..*old(submit_stats)
        }),
        answer is Err ==> *final(submit_stats) == (Stats {
            errors: ((old(submit_stats).errors + 1) % 0x1_0000_0000_0000_0000) as u64,
            ..*old(submit_stats)
        }),
        completed <==> old(completing).state.active && old(completing).state.tx == Phase::Running,
        completed ==> *final(completing) == (StateMachine {
            state: State { tx: Phase::Idle, tx_len: 0, ..old(completing).state },
            ..*old(completing)
        }),
        completed ==> *final(stats) == (Stats {
            tx_bytes: ((old(stats).tx_bytes + old(completing).state.tx_len)
                % 0x1_0000_0000_0000_0000) as u64,
            ..*old(stats)
        }),
        completed ==> ({
            let len = old(completing).state.tx_len;
            &&& len <= old(port).xmit@.len() ==> final(port).xmit@ == old(port).xmit@.skip(
                len as int,
            )
            &&& len > old(port).xmit@.len() ==> final(port).xmit@.len() == 0
        }),
        !completed ==> *final(completing) == *old(completing) && final(port)@ == old(port)@
            && *final(stats) == *old(stats),
        stop <==> old(flushing).channels && old(flushing).state.active && old(flushing).state.tx
            != Phase::Idle,
        stop ==> *final(flushing) == (StateMachine {
            state: State { tx: Phase::Stopping, tx_len: 0, ..old(flushing).state },
            ..*old(flushing)
        }),
        stop ==> *final(flush_stats) == (Stats {
            tx_flushes: ((old(flush_stats).tx_flushes + 1) % 0x1_0000_0000_0000_0000) as u64,
            ..*old(flush_stats)
        }),
        !stop ==> *final(flushing) == *old(flushing) && *final(flush_stats) == *old(flush_stats),
{
    assert(final(port)@.xmit == final(port).xmit@);
}

/// What the receive side does to the state and to the counters, whatever they
/// were.
pub proof fn law_receive_transitions(
    submitting: &mut StateMachine,
    answer: Result<i32, Errno>,
    submit_stats: &mut Stats,
    issue: bool,
    completing: &mut StateMachine,
    port: &mut LockedPort,
    stats: &mut Stats,
    completed: bool,
    flushing: &mut StateMachine,
    step: RxFlush,
    pausing: &mut StateMachine,
    residue: Option<usize>,
    schedule: bool,
    pause_port: &mut LockedPort,
    pause_stats: &mut Stats,
    flushed: Flushed,
)
    requires
        old(submitting).state.rx == Phase::Idle,
        call_ensures(StateMachine::rx_submitted, (submitting, answer, submit_stats), issue),
        call_ensures(StateMachine::rx_complete, (completing, port, stats), completed),
        call_ensures(StateMachine::rx_flush, (flushing,), step),
        old(pausing).state.rx == Phase::Stopping,
        call_ensures(
            StateMachine::rx_paused,
            (pausing, residue, schedule, pause_port, pause_stats),
            flushed,
        ),
    ensures
        issue <==> answer is Ok,
        answer is Ok ==> *final(submitting) == (StateMachine {
            state: State {
                rx: Phase::Running,
                rx_cookie: answer->Ok_0,
                rx_cpu_safe: false,
                ..old(submitting).state
            },
            ..*old(submitting)
        }),
        answer is Err ==> *final(submitting) == (StateMachine {
            state: State { rx_failed: true, ..old(submitting).state },
            ..*old(submitting)
        }),
        answer is Ok ==> *final(submit_stats) == (Stats {
            rx_blocks: ((old(submit_stats).rx_blocks + 1) % 0x1_0000_0000_0000_0000) as u64,
            ..*old(submit_stats)
        }),
        answer is Err ==> *final(submit_stats) == (Stats {
            errors: ((old(submit_stats).errors + 1) % 0x1_0000_0000_0000_0000) as u64,
            ..*old(submit_stats)
        }),
        completed <==> old(completing).channels && old(completing).state.active
            && old(completing).state.rx == Phase::Running,
        completed ==> *final(completing) == (StateMachine {
            state: State { rx: Phase::Idle, rx_cpu_safe: true, ..old(completing).state },
            ..*old(completing)
        }),
        completed ==> *final(stats) == (Stats {
            rx_bytes: ((old(stats).rx_bytes + 512) % 0x1_0000_0000_0000_0000) as u64,
            ..*old(stats)
        }),
        completed ==> final(port)@ == (PortState {
            effects: old(port)@.effects.push(dma_input(512)),
            ..old(port)@
        }),
        !completed ==> *final(completing) == *old(completing) && final(port)@ == old(port)@
            && *final(stats) == *old(stats),
        step is Pause <==> old(flushing).channels && old(flushing).state.rx == Phase::Running,
        step is Pause ==> step->cookie == old(flushing).state.rx_cookie && *final(flushing) == (
        StateMachine {
            state: State { rx: Phase::Stopping, ..old(flushing).state },
            ..*old(flushing)
        }),
        step is Settled ==> *final(flushing) == *old(flushing),
        step is Settled && !old(flushing).channels ==> step->Settled_0,
        step is Settled && old(flushing).channels && old(flushing).state.rx == Phase::Idle
            ==> step->Settled_0,
        step is Settled && old(flushing).channels && old(flushing).state.rx == Phase::Stopping
            ==> step->Settled_0 == old(flushing).state.rx_cpu_safe,
        flushed.schedule <==> schedule && old(pausing).state.active,
        flushed.cpu_safe == final(pausing).state.rx_cpu_safe,
        residue is Some && residue->0 <= 512 ==> {
            let count = (512 - residue->0) as usize;
            &&& *final(pausing) == (StateMachine {
                state: State { rx_cpu_safe: true, ..old(pausing).state },
                ..*old(pausing)
            })
            &&& final(pause_port)@ == (PortState {
                effects: old(pause_port)@.effects.push(dma_input(count)),
                ..old(pause_port)@
            })
            &&& *final(pause_stats) == (Stats {
                rx_bytes: ((old(pause_stats).rx_bytes + count) % 0x1_0000_0000_0000_0000) as u64,
                rx_flushes: ((old(pause_stats).rx_flushes + 1)
                    % 0x1_0000_0000_0000_0000) as u64,
                ..*old(pause_stats)
            })
        },
        residue is None || residue->0 > 512 ==> {
            &&& *final(pausing) == (StateMachine {
                state: State { rx_failed: true, ..old(pausing).state },
                ..*old(pausing)
            })
            &&& final(pause_port)@ == old(pause_port)@
            &&& *final(pause_stats) == (Stats {
                errors: ((old(pause_stats).errors + 1) % 0x1_0000_0000_0000_0000) as u64,
                rx_flushes: ((old(pause_stats).rx_flushes + 1)
                    % 0x1_0000_0000_0000_0000) as u64,
                ..*old(pause_stats)
            })
        },
{
}

/// A port starts without cookies, blocks or failures, when it is acquired as when
/// it is opened; acquiring, failing and releasing move one counter each, which
/// goes around at its ends; and the worker looks at a running block every twenty
/// milliseconds.
pub proof fn law_port_transitions(
    opening: &mut StateMachine,
    attempt: Option<Result<(), Errno>>,
    stats: &mut Stats,
    result: Result<StateMachine, Errno>,
    failing: &mut StateMachine,
    error_stats: &mut Stats,
    step: RxFlush,
    machine: StateMachine,
    release_stats: &mut Stats,
)
    requires
        call_ensures(StateMachine::activate, (opening,), ()),
        call_ensures(StateMachine::new, (attempt, stats), result),
        call_ensures(StateMachine::rx_error, (failing, error_stats), step),
        call_ensures(StateMachine::release, (machine, release_stats), ()),
    ensures
        final(opening).state.tx_cookie == 0 && final(opening).state.rx_cookie == 0,
        result is Ok ==> result->Ok_0.state == (State {
            active: false,
            configuring: false,
            receive: false,
            tx: Phase::Idle,
            rx: Phase::Idle,
            tx_cookie: 0,
            rx_cookie: 0,
            tx_len: 0,
            rx_cpu_safe: true,
            rx_failed: false,
            tx_failed: false,
        }),
        attempt is None ==> *final(stats) == *old(stats),
        attempt is Some && attempt->0 is Ok ==> *final(stats) == (Stats {
            channels: ((old(stats).channels + 1) % 0x1_0000_0000_0000_0000) as u64,
            ..*old(stats)
        }),
        attempt is Some && attempt->0 is Err && result is Ok ==> *final(stats) == (Stats {
            fallback: ((old(stats).fallback + 1) % 0x1_0000_0000_0000_0000) as u64,
            ..*old(stats)
        }),
        old(failing).channels ==> *final(error_stats) == (Stats {
            errors: ((old(error_stats).errors + 1) % 0x1_0000_0000_0000_0000) as u64,
            ..*old(error_stats)
        }),
        !old(failing).channels ==> *final(error_stats) == *old(error_stats),
        machine.channels ==> *final(release_stats) == (Stats {
            channels: ((old(release_stats).channels - 1) % 0x1_0000_0000_0000_0000) as u64,
            ..*old(release_stats)
        }),
        !machine.channels ==> *final(release_stats) == *old(release_stats),
        RX_POLL_MS == 20,
{
}

} // verus!
