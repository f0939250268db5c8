//! Servicing an interrupt.

use vstd::prelude::*;
use crate::bits::lemma_line_status;
use crate::dw_uart::receive::{Receive, ReceiveStage};
use crate::dw_uart::transmit::{
    law_transmission_fills_the_fifo, portion, transmitted, widened, StartTx, StartTxStage,
    Transmitter,
};
use crate::dw_uart::{DwUart, Request, DATA, FCR, IRQ_BUDGET, LSR, LSR_DATA, MSR, USR};
use crate::serial::locked_port::{Effect, LockedPort, PortState};

verus! {

/// No interrupt is pending.
pub const IIR_NONE: u32 = 1;

/// The transmit FIFO has room.
pub const IIR_TRANSMIT: u32 = 2;

/// Data has been received.
pub const IIR_RECEIVE: u32 = 4;

/// A line error has occurred.
pub const IIR_LINE: u32 = 6;

/// The device was busy when its line control register was written.
pub const IIR_BUSY: u32 = 7;

/// Received data has waited.
pub const IIR_TIMEOUT: u32 = 12;

/// The modem status has changed.
pub const IIR_MODEM: u32 = 0;

/// Where servicing an interrupt stands.
#[derive(Clone, Copy, Debug, PartialEq, Eq, Structural)]
pub enum InterruptStage {
    /// Read which interrupt is pending.
    Identify,
    /// Continue transmission.
    Transmit(StartTx),
    /// DMA may take received data.
    OfferDma,
    /// DMA reception ends on a line error.
    EndDma,
    /// DMA reception ends on a timeout.
    FlushDma,
    /// Drain the receive FIFO, after a timeout if the flag is set.
    Drain(Receive, bool),
    /// A timeout without data: a discarded byte clears it.
    Discard,
    /// Clear a busy-detect interrupt.
    ClearBusy,
    /// Clear a modem status interrupt.
    ClearModem,
    Done,
}

/// Servicing an interrupt. One budget bounds identifications and received
/// bytes together, so that a flood of input cannot keep the handler busy; the
/// level-triggered interrupt fires again for whatever is left.
#[derive(Clone, Copy, Debug, PartialEq, Eq, Structural)]
pub struct Interrupt {
    pub budget: usize,
    /// This device caused the interrupt.
    pub handled: bool,
    /// Something was received.
    pub received: bool,
    pub stage: InterruptStage,
}

impl Interrupt {
    /// What the service needs next; `None` once it is done.
    pub open spec fn pending(self) -> Option<Request> {
        match self.stage {
            InterruptStage::Identify => Some(Request::Read { offset: FCR }),
            InterruptStage::Transmit(start) => start.pending(),
            InterruptStage::OfferDma => Some(Request::DmaRx),
            InterruptStage::EndDma => Some(Request::DmaRxError),
            InterruptStage::FlushDma => Some(Request::DmaRxFlush),
            InterruptStage::Drain(receive, _) => receive.pending(),
            InterruptStage::Discard => Some(Request::Read { offset: DATA }),
            InterruptStage::ClearBusy => Some(Request::Read { offset: USR }),
            InterruptStage::ClearModem => Some(Request::Read { offset: MSR }),
            InterruptStage::Done => None,
        }
    }

    /// The beginning of a service: the budget covers its first identification.
    pub open spec fn begun() -> Interrupt {
        Interrupt {
            budget: (IRQ_BUDGET - 1) as usize,
            handled: false,
            received: false,
            stage: InterruptStage::Identify,
        }
    }

    /// The service and the port once nothing more is to be done.
    pub open spec fn finished(self, port: PortState) -> (Interrupt, PortState) {
        (
            Interrupt { stage: InterruptStage::Done, ..self },
            if self.received {
                port.asked(Effect::PushFlipBuffer)
            } else {
                port
            },
        )
    }

    /// The service and the port before another interrupt is identified.
    pub open spec fn again(self, port: PortState) -> (Interrupt, PortState) {
        if self.budget == 0 {
            self.finished(port)
        } else {
            (
                Interrupt {
                    budget: (self.budget - 1) as usize,
                    stage: InterruptStage::Identify,
                    ..self
                },
                port,
            )
        }
    }

    /// The service at a later stage.
    pub open spec fn at(self, stage: InterruptStage) -> Interrupt {
        Interrupt { stage, ..self }
    }

    /// The service and the port once the FIFO is to be drained. With the budget
    /// spent it is left alone, and the interrupt fires again for it.
    pub open spec fn draining(self, timeout: bool, port: PortState) -> (Interrupt, PortState) {
        if self.budget == 0 {
            self.finished(port)
        } else {
            (self.at(InterruptStage::Drain(Receive::begun(self.budget), timeout)), port)
        }
    }

    /// The service and the port once an interrupt is identified.
    pub open spec fn identified(self, fifo_size: u32, port: PortState, id: u32) -> (
        Interrupt,
        PortState,
    ) {
        let mine = Interrupt { handled: true, ..self };
        if id == IIR_NONE {
            self.finished(port)
        } else if id == IIR_TRANSMIT {
            (
                mine.at(
                    InterruptStage::Transmit(
                        StartTx { fifo_size, stage: StartTxStage::AskDma },
                    ),
                ),
                port,
            )
        } else if id == IIR_RECEIVE {
            (mine.at(InterruptStage::OfferDma), port)
        } else if id == IIR_LINE {
            (mine.at(InterruptStage::EndDma), port)
        } else if id == IIR_TIMEOUT {
            (mine.at(InterruptStage::FlushDma), port)
        } else if id == IIR_BUSY {
            (mine.at(InterruptStage::ClearBusy), port)
        } else if id == IIR_MODEM {
            (mine.at(InterruptStage::ClearModem), port)
        } else {
            mine.finished(port)
        }
    }

    /// The service and the port once draining has moved on.
    pub open spec fn drained(self, receive: Receive, timeout: bool, port: PortState) -> (
        Interrupt,
        PortState,
    ) {
        if !(receive.stage is Done) {
            (self.at(InterruptStage::Drain(receive, timeout)), port)
        } else {
            let paid = Interrupt { budget: receive.budget, ..self };
            if receive.received {
                Interrupt { received: true, ..paid }.again(port)
            } else if timeout {
                (paid.at(InterruptStage::Discard), port)
            } else {
                paid.again(port)
            }
        }
    }

    /// The service and the port after a reply.
    pub open spec fn next(self, uart: DwUart, port: PortState, reply: u32) -> (
        Interrupt,
        PortState,
    ) {
        match self.stage {
            InterruptStage::Identify => self.identified(uart.fifo_size, port, reply & 0x0f),
            InterruptStage::Transmit(start) => {
                let (next, after) = start.next(port, reply);
                if next.stage is Done {
                    self.again(after)
                } else {
                    (self.at(InterruptStage::Transmit(next)), after)
                }
            },
            InterruptStage::OfferDma => if reply != 0 {
                self.finished(port)
            } else {
                self.draining(false, port)
            },
            InterruptStage::EndDma => if reply == 0 {
                self.finished(port)
            } else {
                self.draining(false, port)
            },
            InterruptStage::FlushDma => if reply == 0 {
                self.finished(port)
            } else {
                self.draining(true, port)
            },
            InterruptStage::Drain(receive, timeout) => {
                let (next, after) = receive.next(uart.saved_lsr, port, reply);
                self.drained(next, timeout, after)
            },
            InterruptStage::Discard => self.again(port),
            InterruptStage::ClearBusy => self.again(port),
            InterruptStage::ClearModem => self.again(port),
            InterruptStage::Done => (self, port),
        }
    }

    /// The parked line errors after a reply.
    pub open spec fn next_saved(self, saved_lsr: u32) -> u32 {
        match self.stage {
            InterruptStage::Drain(receive, _) => receive.next_saved(saved_lsr),
            _ => saved_lsr,
        }
    }

    /// What is on its way is not done, and stays within the budget.
    pub open spec fn wf(self, fifo_size: u32) -> bool {
        match self.stage {
            InterruptStage::Transmit(start) => {
                &&& start.wf()
                &&& !(start.stage is Done)
                &&& start.fifo_size == fifo_size
            },
            InterruptStage::Drain(receive, _) => {
                &&& receive.wf()
                &&& !(receive.stage is Done)
                &&& receive.budget <= self.budget
            },
            _ => true,
        }
    }

    /// Most requests that one identified interrupt leads to, other than for
    /// received bytes.
    pub open spec fn round(fifo_size: u32) -> nat {
        2 * fifo_size as nat + 10
    }

    /// Number of requests that are at most still to come.
    pub open spec fn left(self, fifo_size: u32) -> nat {
        let rounds = Interrupt::round(fifo_size) * self.budget as nat;
        match self.stage {
            InterruptStage::Identify => rounds + Interrupt::round(fifo_size),
            InterruptStage::Transmit(start) => rounds + 1 + start.left(),
            InterruptStage::OfferDma => rounds + 5,
            InterruptStage::EndDma => rounds + 5,
            InterruptStage::FlushDma => rounds + 5,
            InterruptStage::Drain(receive, _) => Interrupt::round(fifo_size)
                * receive.budget as nat + 2 + match receive.stage {
                ReceiveStage::ReadByte(_) => 3nat,
                ReceiveStage::OfferBreak { .. } => 2nat,
                _ => 1nat,
            },
            InterruptStage::Discard => rounds + 1,
            InterruptStage::ClearBusy => rounds + 1,
            InterruptStage::ClearModem => rounds + 1,
            InterruptStage::Done => 0,
        }
    }

    /// What the service needs next; `None` once it is done.
    pub fn request(&self, uart: &DwUart) -> (request: Option<Request>)
        requires
            self.wf(uart.fifo_size),
        ensures
            request == self.pending(),
            request is None <==> self.stage is Done,
    {
        match self.stage {
            InterruptStage::Identify => Some(Request::Read { offset: FCR }),
            InterruptStage::Transmit(start) => start.request(),
            InterruptStage::OfferDma => Some(Request::DmaRx),
            InterruptStage::EndDma => Some(Request::DmaRxError),
            InterruptStage::FlushDma => Some(Request::DmaRxFlush),
            InterruptStage::Drain(receive, _) => receive.request(),
            InterruptStage::Discard => Some(Request::Read { offset: DATA }),
            InterruptStage::ClearBusy => Some(Request::Read { offset: USR }),
            InterruptStage::ClearModem => Some(Request::Read { offset: MSR }),
            InterruptStage::Done => None,
        }
    }

    /// Nothing more is to be done.
    fn finish(&mut self, port: &mut LockedPort)
        ensures
            (*final(self), final(port)@) == old(self).finished(old(port)@),
    {
        if self.received {
            port.push_rx();
        }
        self.stage = InterruptStage::Done;
    }

    /// Another interrupt may be identified.
    fn repeat(&mut self, port: &mut LockedPort)
        ensures
            (*final(self), final(port)@) == old(self).again(old(port)@),
    {
        if self.budget == 0 {
            self.finish(port);
        } else {
            self.budget = self.budget - 1;
            self.stage = InterruptStage::Identify;
        }
    }

    /// The FIFO is to be drained.
    fn drain(&mut self, timeout: bool, port: &mut LockedPort)
        ensures
            (*final(self), final(port)@) == old(self).draining(timeout, old(port)@),
    {
        if self.budget == 0 {
            self.finish(port);
        } else {
            self.stage = InterruptStage::Drain(DwUart::receive(self.budget), timeout);
        }
    }

    /// Takes the reply to the current request.
    pub fn resume(&mut self, uart: &mut DwUart, port: &mut LockedPort, reply: u32)
        requires
            old(self).wf(old(uart).fifo_size),
        ensures
            (*final(self), final(port)@) == old(self).next(*old(uart), old(port)@, reply),
            *final(uart) == (DwUart {
                saved_lsr: old(self).next_saved(old(uart).saved_lsr),
                ..*old(uart)
            }),
            final(self).wf(old(uart).fifo_size),
            !(old(self).stage is Done) ==> final(self).left(old(uart).fifo_size) < old(self).left(
                old(uart).fifo_size,
            ),
    {
        proof {
            if !(self.stage is Done) {
                lemma_next_is_smaller(*self, *uart, port@, reply);
            }
        }
        match self.stage {
            InterruptStage::Identify => {
                let id: u32 = reply & 0x0f;
                if id == IIR_NONE {
                    self.finish(port);
                    return ;
                }
                self.handled = true;
                if id == IIR_TRANSMIT {
                    self.stage = InterruptStage::Transmit(uart.start_tx());
                } else if id == IIR_RECEIVE {
                    self.stage = InterruptStage::OfferDma;
                } else if id == IIR_LINE {
                    self.stage = InterruptStage::EndDma;
                } else if id == IIR_TIMEOUT {
                    self.stage = InterruptStage::FlushDma;
                } else if id == IIR_BUSY {
                    self.stage = InterruptStage::ClearBusy;
                } else if id == IIR_MODEM {
                    self.stage = InterruptStage::ClearModem;
                } else {
                    self.finish(port);
                }
            },
            InterruptStage::Transmit(current) => {
                let mut start = current;
                start.resume(port, reply);
                match start.stage {
                    StartTxStage::Done => self.repeat(port),
                    _ => {
                        self.stage = InterruptStage::Transmit(start);
                    },
                }
            },
            InterruptStage::OfferDma => {
                if reply != 0 {
                    self.finish(port);
                } else {
                    self.drain(false, port);
                }
            },
            InterruptStage::EndDma => {
                if reply == 0 {
                    self.finish(port);
                } else {
                    self.drain(false, port);
                }
            },
            InterruptStage::FlushDma => {
                if reply == 0 {
                    self.finish(port);
                } else {
                    self.drain(true, port);
                }
            },
            InterruptStage::Drain(current, timeout) => {
                let mut receive = current;
                receive.resume(uart, port, reply);
                match receive.stage {
                    ReceiveStage::Done => {
                        self.budget = receive.budget;
                        if receive.received {
                            self.received = true;
                            self.repeat(port);
                        } else if timeout {
                            self.stage = InterruptStage::Discard;
                        } else {
                            self.repeat(port);
                        }
                    },
                    _ => {
                        self.stage = InterruptStage::Drain(receive, timeout);
                    },
                }
            },
            InterruptStage::Discard | InterruptStage::ClearBusy | InterruptStage::ClearModem => {
                self.repeat(port);
            },
            InterruptStage::Done => {},
        }
    }
}

impl DwUart {
    /// Begins to service an interrupt.
    pub fn interrupt() -> (interrupt: Interrupt)
        ensures
            interrupt == Interrupt::begun(),
            forall|fifo_size: u32| interrupt.wf(fifo_size),
    {
        Interrupt {
            budget: IRQ_BUDGET - 1,
            handled: false,
            received: false,
            stage: InterruptStage::Identify,
        }
    }
}

/// Every reply brings the end of the service closer.
proof fn lemma_next_is_smaller(interrupt: Interrupt, uart: DwUart, port: PortState, reply: u32)
    requires
        interrupt.wf(uart.fifo_size),
        !(interrupt.stage is Done),
    ensures
        ({
            let next = interrupt.next(uart, port, reply).0;
            &&& next.wf(uart.fifo_size)
            &&& next.left(uart.fifo_size) < interrupt.left(uart.fifo_size)
        }),
{
    let round = Interrupt::round(uart.fifo_size);
    lemma_one_round_less(round, interrupt.budget);
    match interrupt.stage {
        InterruptStage::Transmit(start) => {
            lemma_start_is_smaller(start, port, reply);
        },
        InterruptStage::Drain(receive, _) => {
            lemma_one_round_less(round, receive.budget);
        },
        _ => {},
    }
}

/// Spending one of the budget takes off one round.
proof fn lemma_one_round_less(round: nat, budget: usize)
    ensures
        budget > 0 ==> round * (budget - 1) + round == round * budget,
        round * budget >= 0,
{
    assert(round * (budget - 1) + round == round * budget) by (nonlinear_arith);
    assert(round * budget >= 0) by (nonlinear_arith);
}

/// Every reply brings the end of starting transmission closer.
proof fn lemma_start_is_smaller(start: StartTx, port: PortState, reply: u32)
    requires
        start.wf(),
        !(start.stage is Done),
    ensures
        ({
            let next = start.next(port, reply).0;
            &&& next.wf()
            &&& next.fifo_size == start.fifo_size
            &&& next.left() < start.left()
        }),
{
}

impl Interrupt {
    /// Input has arrived that is still to be pushed.
    pub open spec fn seen(self) -> bool {
        self.received || match self.stage {
            InterruptStage::Drain(receive, _) => receive.received,
            _ => false,
        }
    }

    /// The service, the controller and the port after a series of replies.
    pub open spec fn after(self, uart: DwUart, port: PortState, replies: Seq<u32>) -> (
        Interrupt,
        DwUart,
        PortState,
    )
        decreases replies.len(),
    {
        if replies.len() == 0 {
            (self, uart, port)
        } else {
            let (next, next_port) = self.next(uart, port, replies[0]);
            let next_uart = DwUart { saved_lsr: self.next_saved(uart.saved_lsr), ..uart };
            next.after(next_uart, next_port, replies.skip(1))
        }
    }
}

// ---------------------------------------------------------------------------
// Laws
// ---------------------------------------------------------------------------

/// Whatever the device does, an interrupt is serviced within a number of
/// requests that the budget and the depth of the FIFO bound.
pub proof fn law_interrupt_is_bounded(
    interrupt: Interrupt,
    uart: DwUart,
    port: PortState,
    replies: Seq<u32>,
)
    requires
        interrupt.wf(uart.fifo_size),
        replies.len() >= interrupt.left(uart.fifo_size),
    ensures
        interrupt.after(uart, port, replies).0.stage is Done,
    decreases replies.len(),
{
    if replies.len() > 0 {
        if !(interrupt.stage is Done) {
            lemma_next_is_smaller(interrupt, uart, port, replies[0]);
        }
        let (next, next_port) = interrupt.next(uart, port, replies[0]);
        let next_uart = DwUart { saved_lsr: interrupt.next_saved(uart.saved_lsr), ..uart };
        law_interrupt_is_bounded(next, next_uart, next_port, replies.skip(1));
    } else {
        lemma_one_round_less(Interrupt::round(uart.fifo_size), interrupt.budget);
        match interrupt.stage {
            InterruptStage::Drain(receive, _) => {
                lemma_one_round_less(Interrupt::round(uart.fifo_size), receive.budget);
            },
            _ => {},
        }
    }
}

/// The device is held responsible exactly when it first identified an
/// interrupt of its own.
pub proof fn law_handled_by_first_identification(
    interrupt: Interrupt,
    uart: DwUart,
    port: PortState,
    replies: Seq<u32>,
)
    requires
        interrupt.stage is Identify,
        replies.len() > 0,
    ensures
        interrupt.after(uart, port, replies).0.handled == (interrupt.handled || replies[0] & 0x0f
            != IIR_NONE),
{
    let (next, next_port) = interrupt.next(uart, port, replies[0]);
    lemma_handled_is_settled(next, uart, next_port, replies.skip(1));
}

/// Once an interrupt was handled, or the service is over, nothing changes that.
proof fn lemma_handled_is_settled(
    interrupt: Interrupt,
    uart: DwUart,
    port: PortState,
    replies: Seq<u32>,
)
    requires
        interrupt.handled || interrupt.stage is Done,
    ensures
        interrupt.after(uart, port, replies).0.handled == interrupt.handled,
    decreases replies.len(),
{
    if replies.len() > 0 {
        let (next, next_port) = interrupt.next(uart, port, replies[0]);
        let next_uart = DwUart { saved_lsr: interrupt.next_saved(uart.saved_lsr), ..uart };
        lemma_handled_is_settled(next, next_uart, next_port, replies.skip(1));
    }
}

/// Input that arrives is never forgotten: a counted byte is noted, what is
/// noted stays noted, and the service ends by pushing it, once.
pub proof fn law_received_input_is_pushed(
    interrupt: Interrupt,
    uart: DwUart,
    port: PortState,
    reply: u32,
)
    requires
        interrupt.wf(uart.fifo_size),
        !(interrupt.stage is Done),
    ensures
        ({
            let (next, after) = interrupt.next(uart, port, reply);
            &&& after.icount.rx != port.icount.rx ==> next.seen()
            &&& interrupt.seen() ==> next.seen()
            &&& next.stage is Done && next.seen() ==> after.effects.len() > 0
                && after.effects.last() == Effect::PushFlipBuffer
            &&& !(next.stage is Done) || !next.seen() ==> after.effects.len() == port.effects.len()
                || after.effects.last() != Effect::PushFlipBuffer
        }),
{
}

impl Interrupt {
    /// The budget that is left, counting what has been set aside for the
    /// identification or the byte under way.
    pub open spec fn allowance(self) -> nat {
        match self.stage {
            InterruptStage::Identify => self.budget as nat + 1,
            InterruptStage::Drain(receive, _) => receive.budget as nat + if receive.stage
                is ReadByte {
                1nat
            } else {
                0nat
            },
            _ => self.budget as nat,
        }
    }

    /// How many interrupts are identified and how many bytes are received, over
    /// a series of replies.
    pub open spec fn tally(self, uart: DwUart, port: PortState, replies: Seq<u32>) -> (nat, nat)
        decreases replies.len(),
    {
        if replies.len() == 0 {
            (0, 0)
        } else {
            let (next, next_port) = self.next(uart, port, replies[0]);
            let next_uart = DwUart { saved_lsr: self.next_saved(uart.saved_lsr), ..uart };
            let (identified, received) = next.tally(next_uart, next_port, replies.skip(1));
            (
                identified + if self.stage is Identify {
                    1nat
                } else {
                    0nat
                },
                received + if next_port.icount.rx != port.icount.rx {
                    1nat
                } else {
                    0nat
                },
            )
        }
    }
}

/// How often serial core is asked to push received input.
pub open spec fn pushes(effects: Seq<Effect>) -> nat
    decreases effects.len(),
{
    if effects.len() == 0 {
        0
    } else {
        pushes(effects.drop_last()) + if effects.last() == Effect::PushFlipBuffer {
            1nat
        } else {
            0nat
        }
    }
}

/// What one more effect adds.
proof fn lemma_pushes_of_one_more(effects: Seq<Effect>, effect: Effect)
    ensures
        pushes(effects.push(effect)) == pushes(effects) + if effect == Effect::PushFlipBuffer {
            1nat
        } else {
            0nat
        },
{
    assert(effects.push(effect).drop_last() =~= effects);
}

/// One reply spends what it identifies and receives, and pushes exactly where
/// the service ends with input.
proof fn lemma_step_is_paid(interrupt: Interrupt, uart: DwUart, port: PortState, reply: u32)
    requires
        interrupt.wf(uart.fifo_size),
        !(interrupt.stage is Done),
    ensures
        ({
            let (next, after) = interrupt.next(uart, port, reply);
            let identified = if interrupt.stage is Identify {
                1nat
            } else {
                0nat
            };
            let received = if after.icount.rx != port.icount.rx {
                1nat
            } else {
                0nat
            };
            &&& next.allowance() + identified + received <= interrupt.allowance()
            &&& next.seen() == (interrupt.seen() || received == 1)
            &&& pushes(after.effects) == pushes(port.effects) + if next.stage is Done
                && next.seen() {
                1nat
            } else {
                0nat
            }
            &&& next.stage is Done && next.seen() ==> after.effects.len() > 0
                && after.effects.last() == Effect::PushFlipBuffer
        }),
{
    assert forall|effects: Seq<Effect>, effect: Effect| #[trigger]
        pushes(effects.push(effect)) == pushes(effects) + (if effect == Effect::PushFlipBuffer {
            1nat
        } else {
            0nat
        }) by {
        lemma_pushes_of_one_more(effects, effect);
    }
}

/// One budget covers identifications and received bytes together: whatever the
/// device does, they are no more than it in all.
pub proof fn law_budget_covers_identifications_and_bytes(
    uart: DwUart,
    port: PortState,
    replies: Seq<u32>,
)
    ensures
        ({
            let (identified, received) = Interrupt::begun().tally(uart, port, replies);
            identified + received <= IRQ_BUDGET
        }),
{
    lemma_run_is_paid(Interrupt::begun(), uart, port, replies);
}

/// A service stays within its allowance to the end.
proof fn lemma_run_is_paid(
    interrupt: Interrupt,
    uart: DwUart,
    port: PortState,
    replies: Seq<u32>,
)
    requires
        interrupt.wf(uart.fifo_size),
    ensures
        ({
            let (identified, received) = interrupt.tally(uart, port, replies);
            identified + received <= interrupt.allowance()
        }),
    decreases replies.len(),
{
    if replies.len() > 0 {
        if !(interrupt.stage is Done) {
            lemma_step_is_paid(interrupt, uart, port, replies[0]);
            lemma_next_is_smaller(interrupt, uart, port, replies[0]);
        }
        let (next, next_port) = interrupt.next(uart, port, replies[0]);
        let next_uart = DwUart { saved_lsr: interrupt.next_saved(uart.saved_lsr), ..uart };
        lemma_run_is_paid(next, next_uart, next_port, replies.skip(1));
    }
}

/// A service that ends has pushed exactly once if it received anything, after
/// everything that it received, and not at all otherwise.
pub proof fn law_one_push_after_any_reception(
    interrupt: Interrupt,
    uart: DwUart,
    port: PortState,
    replies: Seq<u32>,
)
    requires
        interrupt.wf(uart.fifo_size),
        !(interrupt.stage is Done),
        interrupt.after(uart, port, replies).0.stage is Done,
    ensures
        ({
            let (_, _, after) = interrupt.after(uart, port, replies);
            let received = interrupt.seen() || interrupt.tally(uart, port, replies).1 > 0;
            &&& pushes(after.effects) == pushes(port.effects) + if received {
                1nat
            } else {
                0nat
            }
            &&& received ==> after.effects.len() > 0 && after.effects.last()
                == Effect::PushFlipBuffer
        }),
    decreases replies.len(),
{
    lemma_step_is_paid(interrupt, uart, port, replies[0]);
    lemma_next_is_smaller(interrupt, uart, port, replies[0]);
    let (next, next_port) = interrupt.next(uart, port, replies[0]);
    let next_uart = DwUart { saved_lsr: interrupt.next_saved(uart.saved_lsr), ..uart };
    if next.stage is Done {
        lemma_nothing_after_the_end(next, next_uart, next_port, replies.skip(1));
    } else {
        law_one_push_after_any_reception(next, next_uart, next_port, replies.skip(1));
    }
}

/// Once the service is over, nothing more happens.
proof fn lemma_nothing_after_the_end(
    interrupt: Interrupt,
    uart: DwUart,
    port: PortState,
    replies: Seq<u32>,
)
    requires
        interrupt.stage is Done,
    ensures
        interrupt.after(uart, port, replies).2 == port,
        interrupt.tally(uart, port, replies) == (0nat, 0nat),
    decreases replies.len(),
{
    if replies.len() > 0 {
        let next_uart = DwUart { saved_lsr: interrupt.next_saved(uart.saved_lsr), ..uart };
        lemma_nothing_after_the_end(interrupt, next_uart, port, replies.skip(1));
    }
}

/// No received byte is ever thrown away: the discarding read only follows a
/// line status without data, and once the budget is spent neither the status
/// nor the parked errors are touched.
pub proof fn law_no_byte_is_discarded(
    interrupt: Interrupt,
    uart: DwUart,
    port: PortState,
    reply: u32,
)
    requires
        interrupt.wf(uart.fifo_size),
    ensures
        ({
            let (next, _) = interrupt.next(uart, port, reply);
            &&& next.stage is Discard && !(interrupt.stage is Discard) ==> {
                &&& interrupt.pending() == Some(Request::Read { offset: LSR })
                &&& reply & LSR_DATA == 0
            }
            &&& interrupt.allowance() == 0 ==> {
                &&& interrupt.next_saved(uart.saved_lsr) == uart.saved_lsr
                &&& interrupt.pending() != Some(Request::Read { offset: LSR })
            }
        }),
{
    if interrupt.stage is Drain {
        let saved = uart.saved_lsr;
        lemma_line_status(reply, saved);
    }
}

/// The service goes by what it asks for and what it is told.
pub proof fn law_service_is_a_machine(
    interrupt: &mut Interrupt,
    uart: &mut DwUart,
    port: &mut LockedPort,
    reply: u32,
    asking: &Interrupt,
    controller: &DwUart,
    request: Option<Request>,
    begun: Interrupt,
)
    requires
        call_ensures(Interrupt::resume, (interrupt, uart, port, reply), ()),
        call_ensures(Interrupt::request, (asking, controller), request),
        call_ensures(DwUart::interrupt, (), begun),
    ensures
        request == asking.pending(),
        (*final(interrupt), final(port)@) == old(interrupt).next(*old(uart), old(port)@, reply),
        *final(uart) == (DwUart {
            saved_lsr: old(interrupt).next_saved(old(uart).saved_lsr),
            ..*old(uart)
        }),
        begun.pending() == Some(Request::Read { offset: 0x08 }),
        begun.budget == 255 && !begun.handled && !begun.received,
{
}

/// Each interrupt leads to the request that clears its cause: room in the
/// transmit FIFO to the offer of transmission to DMA, received data to the
/// offer of reception, a line error and a timeout to the end of DMA reception,
/// a busy device to a read of its status, and a change of the modem lines to a
/// read of theirs. Without an interrupt the service is over, and so it is after
/// one that is not known. The four low bits of the identification tell.
pub proof fn law_each_interrupt_is_answered(
    interrupt: &mut Interrupt,
    uart: &mut DwUart,
    port: &mut LockedPort,
    iir: u32,
    controller: &DwUart,
    request: Option<Request>,
)
    requires
        old(interrupt).pending() == Some(Request::Read { offset: 0x08 }),
        call_ensures(Interrupt::resume, (interrupt, uart, port, iir), ()),
        call_ensures(Interrupt::request, (&*final(interrupt), controller), request),
    ensures
        ({
            let id = iir & 0x0f;
            &&& request == if id == 2 {
                Some(Request::DmaTx)
            } else if id == 4 {
                Some(Request::DmaRx)
            } else if id == 6 {
                Some(Request::DmaRxError)
            } else if id == 12 {
                Some(Request::DmaRxFlush)
            } else if id == 7 {
                Some(Request::Read { offset: 0x7c })
            } else if id == 0 {
                Some(Request::Read { offset: 0x18 })
            } else {
                None
            }
            &&& final(interrupt).handled == (old(interrupt).handled || id != 1)
            &&& final(interrupt).budget == old(interrupt).budget
            &&& final(interrupt).received == old(interrupt).received
            &&& request is Some ==> final(port)@ == old(port)@
            &&& request is None ==> final(port)@ == if old(interrupt).received {
                PortState {
                    effects: old(port)@.effects.push(Effect::PushFlipBuffer),
                    ..old(port)@
                }
            } else {
                old(port)@
            }
        }),
        *final(uart) == *old(uart),
{
}

/// What DMA answers decides who drains the FIFO: DMA that takes the reception,
/// or that cannot be ended, ends the service; otherwise the line status is read
/// next, as long as the budget lasts.
pub proof fn law_fifo_is_drained_without_dma(
    interrupt: &mut Interrupt,
    uart: &mut DwUart,
    port: &mut LockedPort,
    reply: u32,
    controller: &DwUart,
    request: Option<Request>,
)
    requires
        ({
            let asked = old(interrupt).pending();
            asked == Some(Request::DmaRx) || asked == Some(Request::DmaRxError) || asked == Some(
                Request::DmaRxFlush,
            )
        }),
        old(interrupt).wf(old(uart).fifo_size),
        call_ensures(Interrupt::resume, (interrupt, uart, port, reply), ()),
        call_ensures(Interrupt::request, (&*final(interrupt), controller), request),
    ensures
        ({
            let drains = (old(interrupt).pending() == Some(Request::DmaRx)) == (reply == 0);
            &&& request == if drains && old(interrupt).budget > 0 {
                Some(Request::Read { offset: 0x14 })
            } else {
                None
            }
            &&& request is Some ==> final(interrupt).stage == InterruptStage::Drain(
                Receive {
                    budget: old(interrupt).budget,
                    received: false,
                    stage: ReceiveStage::ReadFirst,
                },
                old(interrupt).pending() == Some(Request::DmaRxFlush),
            ) && final(port)@ == old(port)@
            &&& *final(uart) == *old(uart)
            &&& final(interrupt).handled == old(interrupt).handled
        }),
{
}

/// While the FIFO is drained the service asks and does what a reception does.
/// At its end the budget is what the reception left; a timeout that had no data
/// is cleared by a read of the data register; and otherwise the next interrupt
/// is identified, while the budget lasts.
pub proof fn law_service_drains_like_a_reception(
    interrupt: &mut Interrupt,
    uart: &mut DwUart,
    port: &mut LockedPort,
    receive: &mut Receive,
    other: &mut DwUart,
    alone: &mut LockedPort,
    timeout: bool,
    reply: u32,
    controller: &DwUart,
    request: Option<Request>,
)
    requires
        old(interrupt).stage == InterruptStage::Drain(*old(receive), timeout),
        *old(other) == *old(uart),
        old(alone)@ == old(port)@,
        call_ensures(Interrupt::resume, (interrupt, uart, port, reply), ()),
        call_ensures(Receive::resume, (receive, other, alone, reply), ()),
        call_ensures(Interrupt::request, (&*final(interrupt), controller), request),
    ensures
        old(interrupt).pending() == old(receive).pending(),
        *final(uart) == *final(other),
        final(receive).pending() is Some ==> {
            &&& request == final(receive).pending()
            &&& final(interrupt).stage == InterruptStage::Drain(*final(receive), timeout)
            &&& final(port)@ == final(alone)@
            &&& final(interrupt).received == old(interrupt).received
        },
        final(receive).pending() is None ==> {
            let received = old(interrupt).received || final(receive).received;
            &&& final(interrupt).received == received
            &&& request == if timeout && !final(receive).received {
                Some(Request::Read { offset: 0x00 })
            } else if final(receive).budget > 0 {
                Some(Request::Read { offset: 0x08 })
            } else {
                None
            }
            &&& final(port)@.effects == if request is None && received {
                final(alone)@.effects.push(Effect::PushFlipBuffer)
            } else {
                final(alone)@.effects
            }
            &&& request == Some(Request::Read { offset: 0x00 }) ==> final(interrupt).budget
                == final(receive).budget
            &&& request == Some(Request::Read { offset: 0x08 }) ==> final(interrupt).budget
                == final(receive).budget - 1
        },
{
}

/// Once a cause is cleared, the next interrupt is identified, at the cost of one
/// of the budget; with the budget spent the service is over.
pub proof fn law_service_goes_on_within_its_budget(
    interrupt: &mut Interrupt,
    uart: &mut DwUart,
    port: &mut LockedPort,
    reply: u32,
    controller: &DwUart,
    request: Option<Request>,
)
    requires
        old(interrupt).stage is Discard || old(interrupt).stage is ClearBusy
            || old(interrupt).stage is ClearModem,
        call_ensures(Interrupt::resume, (interrupt, uart, port, reply), ()),
        call_ensures(Interrupt::request, (&*final(interrupt), controller), request),
    ensures
        old(interrupt).budget > 0
            ==> request == Some(Request::Read { offset: 0x08 })
            && final(interrupt).budget == old(interrupt).budget - 1 && final(port)@ == old(port)@,
        old(interrupt).budget == 0
            ==> request is None && final(port)@.effects == if old(interrupt).received {
            old(port)@.effects.push(Effect::PushFlipBuffer)
        } else {
            old(port)@.effects
        },
        final(interrupt).handled == old(interrupt).handled,
        final(interrupt).received == old(interrupt).received,
{
}

/// A service on a device that transmits, until another interrupt is to be
/// identified or the service is over, for at most `steps` requests.
pub open spec fn sending(
    interrupt: Interrupt,
    uart: DwUart,
    port: PortState,
    device: Transmitter,
    steps: nat,
) -> (Interrupt, PortState, Transmitter)
    decreases steps,
{
    match interrupt.pending() {
        Some(request) if steps > 0 && request != (Request::Read { offset: 0x08 }) => {
            let (next, after) = interrupt.next(uart, port, device.reply(request));
            sending(next, uart, after, device.accessed(request), (steps - 1) as nat)
        },
        _ => (interrupt, port, device),
    }
}

/// A transmit interrupt continues transmission: before another interrupt is
/// identified, as many of the oldest outgoing bytes as fit have been put into
/// the FIFO, unchanged and in order, unless DMA takes them.
pub proof fn law_transmit_interrupt_sends(
    interrupt: Interrupt,
    uart: DwUart,
    start: StartTx,
    port: PortState,
    iir: u32,
    device: Transmitter,
)
    requires
        interrupt.pending() == Some(Request::Read { offset: 0x08 }),
        iir & 0x0f == 2,
        call_ensures(DwUart::start_tx, (&uart,), start),
    ensures
        ({
            let (next, same) = interrupt.next(uart, port, iir);
            let (end, after, done) = sending(next, uart, port, device, start.left());
            let outgoing = port.outgoing();
            let n = portion(uart.fifo_size as int, device.free, outgoing.len()) as int;
            &&& same == port
            &&& next.pending() == Some(Request::DmaTx)
            &&& end.pending() == if interrupt.budget > 0 {
                Some(Request::Read { offset: 0x08 })
            } else {
                None
            }
            &&& device.dma ==> done.sent == device.sent && after.xmit == port.xmit
            &&& !device.dma ==> {
                &&& done.sent == device.sent + widened(outgoing.take(n))
                &&& after.outgoing() == outgoing.skip(n)
            }
        }),
{
    let (next, _) = interrupt.next(uart, port, iir);
    law_transmission_fills_the_fifo(&uart, start, port, device);
    lemma_sends_like_a_start(next, start, uart, port, device, start.left());
}

/// A service that transmits does what starting transmission does.
proof fn lemma_sends_like_a_start(
    interrupt: Interrupt,
    start: StartTx,
    uart: DwUart,
    port: PortState,
    device: Transmitter,
    steps: nat,
)
    requires
        interrupt.stage == InterruptStage::Transmit(start),
        start.wf(),
        !(start.stage is Done),
        transmitted(start, port, device, steps).0.stage is Done,
    ensures
        ({
            let (end, after, done) = sending(interrupt, uart, port, device, steps);
            let (_, alone, sent) = transmitted(start, port, device, steps);
            &&& end.pending() == if interrupt.budget > 0 {
                Some(Request::Read { offset: 0x08 })
            } else {
                None
            }
            &&& done == sent
            &&& after.xmit == alone.xmit
            &&& after.outgoing() == alone.outgoing()
        }),
    decreases steps,
{
    if steps > 0 {
        let request = start.pending()->0;
        assert(request != (Request::Read { offset: 0x08 }));
        let (next, after) = start.next(port, device.reply(request));
        lemma_start_is_smaller(start, port, device.reply(request));
        let (moved, moved_port) = interrupt.next(uart, port, device.reply(request));
        if next.stage is Done {
            reveal_with_fuel(transmitted, 2);
            reveal_with_fuel(sending, 2);
        } else {
            lemma_sends_like_a_start(
                moved,
                next,
                uart,
                after,
                device.accessed(request),
                (steps - 1) as nat,
            );
        }
    }
}

/// A service is over: what was received, if anything, is pushed once.
pub open spec fn is_over(after: Interrupt, port: PortState, from: PortState) -> bool {
    &&& after.stage is Done
    &&& port == if after.received {
        PortState { effects: from.effects.push(Effect::PushFlipBuffer), ..from }
    } else {
        from
    }
}

/// A service with this budget left identifies the next interrupt, or is over.
pub open spec fn goes_round(
    after: Interrupt,
    port: PortState,
    budget: usize,
    from: PortState,
) -> bool {
    if budget == 0 {
        is_over(after, port, from) && after.budget == 0
    } else {
        after.stage is Identify && after.budget == budget - 1 && port == from
    }
}

/// The steps of a service, in terms of what it consists of: a start of
/// transmission, a reception, and the clearing of causes. What these do to the
/// port and to the parked errors, the service does, and nothing else but the
/// final push.
pub proof fn law_service_steps(
    interrupt: &mut Interrupt,
    uart: &mut DwUart,
    port: &mut LockedPort,
    reply: u32,
    fresh: StartTx,
    start: &mut StartTx,
    start_port: &mut LockedPort,
    receive: &mut Receive,
    other: &mut DwUart,
    alone: &mut LockedPort,
)
    requires
        old(interrupt).wf(old(uart).fifo_size),
        call_ensures(Interrupt::resume, (interrupt, uart, port, reply), ()),
        call_ensures(DwUart::start_tx, (&*old(uart),), fresh),
        old(interrupt).stage is Transmit ==> *old(start) == old(interrupt).stage->Transmit_0,
        old(start_port)@ == old(port)@,
        call_ensures(StartTx::resume, (start, start_port, reply), ()),
        old(interrupt).stage is Drain ==> *old(receive) == old(interrupt).stage->Drain_0,
        *old(other) == *old(uart),
        old(alone)@ == old(port)@,
        call_ensures(Receive::resume, (receive, other, alone, reply), ()),
    ensures
        *final(uart) == if old(interrupt).stage is Drain {
            *final(other)
        } else {
            *old(uart)
        },
        old(interrupt).stage !is Identify ==> final(interrupt).handled == old(interrupt).handled,
        old(interrupt).stage !is Drain ==> final(interrupt).received == old(interrupt).received,
        match old(interrupt).stage {
            InterruptStage::Identify => {
                &&& final(interrupt).budget == old(interrupt).budget
                &&& reply & 0x0f == 2 ==> final(interrupt).stage == InterruptStage::Transmit(fresh)
                    && final(port)@ == old(port)@
            },
            InterruptStage::Transmit(_) => if final(start).stage is Done {
                goes_round(
                    *final(interrupt),
                    final(port)@,
                    old(interrupt).budget,
                    final(start_port)@,
                )
            } else {
                &&& final(interrupt).stage == InterruptStage::Transmit(*final(start))
                &&& final(interrupt).budget == old(interrupt).budget
                &&& final(port)@ == final(start_port)@
            },
            InterruptStage::OfferDma | InterruptStage::EndDma | InterruptStage::FlushDma => {
                &&& final(interrupt).budget == old(interrupt).budget
                &&& !(final(interrupt).stage is Drain) ==> is_over(
                    *final(interrupt),
                    final(port)@,
                    old(port)@,
                )
                &&& final(interrupt).stage is Drain ==> final(port)@ == old(port)@
            },
            InterruptStage::Drain(_, timeout) => {
                if !(final(receive).stage is Done) {
                    &&& final(interrupt).stage == InterruptStage::Drain(*final(receive), timeout)
                    &&& final(interrupt).budget == old(interrupt).budget
                    &&& final(interrupt).received == old(interrupt).received
                    &&& final(port)@ == final(alone)@
                } else {
                    &&& final(interrupt).received == (old(interrupt).received
                        || final(receive).received)
                    &&& timeout && !final(receive).received ==> final(interrupt).stage is Discard
                        && final(interrupt).budget == final(receive).budget && final(port)@
                        == final(alone)@
                    &&& !timeout || final(receive).received ==> goes_round(
                        *final(interrupt),
                        final(port)@,
                        final(receive).budget,
                        final(alone)@,
                    )
                }
            },
            InterruptStage::Discard | InterruptStage::ClearBusy | InterruptStage::ClearModem =>
                goes_round(
                *final(interrupt),
                final(port)@,
                old(interrupt).budget,
                old(port)@,
            ),
            InterruptStage::Done => *final(interrupt) == *old(interrupt)
                && final(port)@ == old(port)@,
        },
{
}

} // verus!
