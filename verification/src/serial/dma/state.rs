//! Cancellation and completion bookkeeping of the two DMA directions.

use vstd::prelude::*;

verus! {

/// What one direction is doing.
#[derive(Clone, Copy, Debug, PartialEq, Eq, Structural)]
pub enum Phase {
    /// The processor owns the buffer.
    Idle,
    /// The DMA engine owns the buffer.
    Running,
    /// The transfer was cancelled; its callback may still be on its way.
    Stopping,
}

/// The state of a DMA port, protected by the port lock.
#[derive(Clone, Copy, Debug, PartialEq, Eq, Structural)]
pub struct State {
    /// The port is open.
    pub active: bool,
    /// Line settings are being changed.
    pub configuring: bool,
    /// Reception is wanted.
    pub receive: bool,
    pub tx: Phase,
    pub rx: Phase,
    pub tx_cookie: i32,
    pub rx_cookie: i32,
    /// Bytes of the running transmit block.
    pub tx_len: usize,
    /// The processor may read the receive FIFO.
    pub rx_cpu_safe: bool,
    /// Reception falls back to the processor until the next open.
    pub rx_failed: bool,
    /// Transmission falls back to the processor until the next open.
    pub tx_failed: bool,
}

impl State {
    /// The state of a closed port.
    pub open spec fn closed_port() -> State {
        State {
            active: false,
            configuring: false,
            receive: false,
            tx: Phase::Idle,
            rx: Phase::Idle,
            tx_cookie: 0,
            rx_cookie: 0,
            tx_len: 0,
            rx_cpu_safe: true,
            rx_failed: false,
            tx_failed: false,
        }
    }

    /// A transmit completion counts: the port is open and a block is running.
    pub open spec fn tx_completes(self) -> bool {
        self.active && self.tx == Phase::Running
    }

    /// There is a transmit block to cancel.
    pub open spec fn tx_cancels(self) -> bool {
        self.active && self.tx != Phase::Idle
    }

    /// A receive completion counts: the port is open and a block is running.
    pub open spec fn rx_completes(self) -> bool {
        self.active && self.rx == Phase::Running
    }

    /// The state after a transmit completion callback.
    pub open spec fn tx_completed(self) -> State {
        if self.tx_completes() {
            State { tx_len: 0, tx: Phase::Idle, ..self }
        } else {
            self
        }
    }

    /// The state after a transmit cancellation.
    pub open spec fn tx_cancelled(self) -> State {
        if self.tx_cancels() {
            State { tx_len: 0, tx: Phase::Stopping, ..self }
        } else {
            self
        }
    }

    /// The state after a receive completion callback.
    pub open spec fn rx_completed(self) -> State {
        if self.rx_completes() {
            State { rx: Phase::Idle, rx_cpu_safe: true, ..self }
        } else {
            self
        }
    }

    /// The state of a closed port.
    pub fn new() -> (state: Self)
        ensures
            state == State::closed_port(),
    {
        State {
            active: false,
            configuring: false,
            receive: false,
            tx: Phase::Idle,
            rx: Phase::Idle,
            tx_cookie: 0,
            rx_cookie: 0,
            tx_len: 0,
            rx_cpu_safe: true,
            rx_failed: false,
            tx_failed: false,
        }
    }

    /// Takes a transmit completion: the number of bytes that went out, or
    /// `None` when the completion is stale.
    pub fn complete_tx(&mut self) -> (count: Option<usize>)
        ensures
            count == if old(self).tx_completes() {
                Some(old(self).tx_len)
            } else {
                None
            },
            *final(self) == old(self).tx_completed(),
    {
        if !self.active || self.tx != Phase::Running {
            return None;
        }
        let count = self.tx_len;
        self.tx_len = 0;
        self.tx = Phase::Idle;
        Some(count)
    }

    /// Cancels the transmit block, if there is one.
    pub fn cancel_tx(&mut self) -> (cancelled: bool)
        ensures
            cancelled == old(self).tx_cancels(),
            *final(self) == old(self).tx_cancelled(),
    {
        if !self.active || self.tx == Phase::Idle {
            return false;
        }
        self.tx_len = 0;
        self.tx = Phase::Stopping;
        true
    }

    /// Takes a receive completion; false when it is stale.
    pub fn complete_rx(&mut self) -> (completed: bool)
        ensures
            completed == old(self).rx_completes(),
            *final(self) == old(self).rx_completed(),
    {
        if !self.active || self.rx != Phase::Running {
            return false;
        }
        self.rx = Phase::Idle;
        self.rx_cpu_safe = true;
        true
    }
}

// ---------------------------------------------------------------------------
// Laws
// ---------------------------------------------------------------------------

/// A transmit block advances the queue at most once: a second completion, with
/// nothing submitted in between, is stale.
pub proof fn law_completion_advances_once(state: State)
    ensures
        !state.tx_completed().tx_completes(),
        state.tx_completed().tx_len == if state.tx_completes() {
            0
        } else {
            state.tx_len
        },
{
}

/// A flushed block never advances the queue: its completion is stale, and
/// there is nothing left to advance by.
pub proof fn law_flush_does_not_advance(state: State)
    requires
        state.tx_cancels(),
    ensures
        !state.tx_cancelled().tx_completes(),
        state.tx_cancelled().tx_len == 0,
        state.tx_cancelled().tx == Phase::Stopping,
{
}

/// After close, completions of either direction are stale and change nothing.
pub proof fn law_late_completion_is_ignored(state: State)
    requires
        !state.active,
    ensures
        !state.tx_completes(),
        !state.rx_completes(),
        state.tx_completed() == state,
        state.rx_completed() == state,
{
}

/// A receive buffer is delivered once: neither a block that a timeout is
/// stopping nor one that has completed completes again.
pub proof fn law_receive_delivers_once(state: State)
    ensures
        state.rx == Phase::Stopping ==> !state.rx_completes(),
        !state.rx_completed().rx_completes(),
        state.rx_completes() ==> state.rx_completed().rx_cpu_safe,
{
}

/// What the three callbacks do. A completion counts only on an open port with a
/// block under way; it then gives the length of the block once, and the buffer
/// belongs to the processor again. A cancellation needs a block that was given
/// away, and waits for its callback. Otherwise nothing changes.
pub proof fn law_callbacks(
    sending: &mut State,
    count: Option<usize>,
    stopping: &mut State,
    cancelled: bool,
    receiving: &mut State,
    completed: bool,
    fresh: State,
)
    requires
        call_ensures(State::complete_tx, (sending,), count),
        call_ensures(State::cancel_tx, (stopping,), cancelled),
        call_ensures(State::complete_rx, (receiving,), completed),
        call_ensures(State::new, (), fresh),
    ensures
        count is Some <==> old(sending).active && old(sending).tx == Phase::Running,
        count is Some ==> count->0 == old(sending).tx_len && *final(sending) == (State {
            tx: Phase::Idle,
            tx_len: 0,
            ..*old(sending)
        }),
        count is None ==> *final(sending) == *old(sending),
        cancelled <==> old(stopping).active && old(stopping).tx != Phase::Idle,
        cancelled ==> *final(stopping) == (State {
            tx: Phase::Stopping,
            tx_len: 0,
            ..*old(stopping)
        }),
        !cancelled ==> *final(stopping) == *old(stopping),
        completed <==> old(receiving).active && old(receiving).rx == Phase::Running,
        completed ==> *final(receiving) == (State {
            rx: Phase::Idle,
            rx_cpu_safe: true,
            ..*old(receiving)
        }),
        !completed ==> *final(receiving) == *old(receiving),
        !fresh.active && !fresh.configuring && !fresh.receive,
        fresh.tx == Phase::Idle && fresh.rx == Phase::Idle,
        fresh.tx_cookie == 0 && fresh.rx_cookie == 0 && fresh.tx_len == 0,
        fresh.rx_cpu_safe && !fresh.rx_failed && !fresh.tx_failed,
{
}

} // verus!
