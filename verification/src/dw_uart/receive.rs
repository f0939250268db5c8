//! Draining the receive FIFO.

use vstd::prelude::*;
use crate::bits::{lemma_constants, lemma_fields, lemma_line_status};
use crate::dw_uart::config::{lemma_flag_bits, receive_flags, receive_status};
use crate::dw_uart::{DwUart, Request, DATA, IRQ_BUDGET, LSR, LSR_DATA};
use crate::serial::locked_port::{
    flagged, moved, Effect, LockedPort, PortState, Reception, TtyFlag,
};
use crate::serial::receive::BREAK;

verus! {

/// Data ready, in the line status register.
pub const LSR_READY: u32 = 0x01;

/// Where draining the FIFO stands.
#[derive(Clone, Copy, Debug, PartialEq, Eq, Structural)]
pub enum ReceiveStage {
    /// Read the line status, to which the parked errors are added.
    ReadFirst,
    /// Read the byte that this line status describes.
    ReadByte(u32),
    /// Offer the break that this byte came with to serial core.
    OfferBreak { byte: u8, status: u32 },
    /// Read the line status of the next byte.
    ReadNext,
    Done,
}

/// Draining the receive FIFO within a budget. Reading the line status clears
/// the errors of the byte that it describes, so it is only read while the
/// budget still covers that byte: no error is lost.
#[derive(Clone, Copy, Debug, PartialEq, Eq, Structural)]
pub struct Receive {
    /// Bytes that may still be read.
    pub budget: usize,
    /// Something was received.
    pub received: bool,
    pub stage: ReceiveStage,
}

impl Receive {
    /// What the reception needs next; `None` once it is done.
    pub open spec fn pending(self) -> Option<Request> {
        match self.stage {
            ReceiveStage::ReadFirst => Some(Request::Read { offset: LSR }),
            ReceiveStage::ReadByte(_) => Some(Request::Read { offset: DATA }),
            ReceiveStage::OfferBreak { .. } => Some(Request::HandleBreak),
            ReceiveStage::ReadNext => Some(Request::Read { offset: LSR }),
            ReceiveStage::Done => None,
        }
    }

    /// Begins to drain the FIFO within `budget`.
    pub open spec fn begun(budget: usize) -> Receive {
        Receive {
            budget,
            received: false,
            stage: if budget == 0 {
                ReceiveStage::Done
            } else {
                ReceiveStage::ReadFirst
            },
        }
    }

    /// The stage after a byte: the next one, if the budget covers it.
    pub open spec fn going_on(self) -> ReceiveStage {
        if self.budget == 0 {
            ReceiveStage::Done
        } else {
            ReceiveStage::ReadNext
        }
    }

    /// A line status is only read while the budget covers the byte that it
    /// describes, and what follows a byte knows that it was received.
    pub open spec fn wf(self) -> bool {
        match self.stage {
            ReceiveStage::ReadFirst => self.budget > 0,
            ReceiveStage::ReadNext => self.budget > 0 && self.received,
            ReceiveStage::OfferBreak { .. } => self.received,
            _ => true,
        }
    }

    /// The reception and the port once a byte with this line status has
    /// arrived.
    pub open spec fn delivered(self, port: PortState, byte: u8, lsr: u32) -> (Receive, PortState) {
        let status = receive_flags(lsr);
        (
            Receive {
                budget: self.budget,
                received: true,
                stage: if flagged(status, BREAK) {
                    ReceiveStage::OfferBreak { byte, status }
                } else {
                    self.going_on()
                },
            },
            port.char_received(byte, status),
        )
    }

    /// The reception and the port once a line status is known. A break
    /// without data counts as a zero byte.
    pub open spec fn judged(self, port: PortState, lsr: u32) -> (Receive, PortState) {
        if lsr & LSR_DATA == 0 {
            (Receive { stage: ReceiveStage::Done, ..self }, port)
        } else {
            let spent = Receive { budget: (self.budget - 1) as usize, ..self };
            if lsr & LSR_READY != 0 {
                (Receive { stage: ReceiveStage::ReadByte(lsr), ..spent }, port)
            } else {
                spent.delivered(port, 0, lsr)
            }
        }
    }

    /// The reception and the port after a reply, given the parked errors.
    pub open spec fn next(self, saved_lsr: u32, port: PortState, reply: u32) -> (
        Receive,
        PortState,
    ) {
        match self.stage {
            ReceiveStage::ReadFirst => self.judged(port, reply | saved_lsr),
            ReceiveStage::ReadByte(lsr) => self.delivered(port, reply as u8, lsr),
            ReceiveStage::OfferBreak { byte, status } => (
                Receive { stage: self.going_on(), ..self },
                port.break_settled(byte, status, reply != 0),
            ),
            ReceiveStage::ReadNext => self.judged(port, reply),
            ReceiveStage::Done => (self, port),
        }
    }

    /// The parked errors after a reply.
    pub open spec fn next_saved(self, saved_lsr: u32) -> u32 {
        if self.stage is ReadFirst {
            0
        } else {
            saved_lsr
        }
    }

    /// Number of requests that are at most still to come.
    pub open spec fn left(self) -> nat {
        let budget = 3 * self.budget as nat;
        match self.stage {
            ReceiveStage::ReadFirst => budget + 1,
            ReceiveStage::ReadByte(_) => budget + 3,
            ReceiveStage::OfferBreak { .. } => budget + 2,
            ReceiveStage::ReadNext => budget + 1,
            ReceiveStage::Done => 0,
        }
    }

    /// What the reception needs next; `None` once it is done.
    pub fn request(&self) -> (request: Option<Request>)
        ensures
            request == self.pending(),
            request is None <==> self.stage is Done,
    {
        match self.stage {
            ReceiveStage::ReadFirst => Some(Request::Read { offset: LSR }),
            ReceiveStage::ReadByte(_) => Some(Request::Read { offset: DATA }),
            ReceiveStage::OfferBreak { .. } => Some(Request::HandleBreak),
            ReceiveStage::ReadNext => Some(Request::Read { offset: LSR }),
            ReceiveStage::Done => None,
        }
    }

    /// The stage after a byte.
    fn go_on(&self) -> (stage: ReceiveStage)
        ensures
            stage == self.going_on(),
    {
        if self.budget == 0 {
            ReceiveStage::Done
        } else {
            ReceiveStage::ReadNext
        }
    }

    /// A byte with this line status has arrived.
    fn deliver(&mut self, port: &mut LockedPort, byte: u8, lsr: u32)
        ensures
            (*final(self), final(port)@) == old(self).delivered(old(port)@, byte, lsr),
    {
        let status: u32 = receive_status(lsr);
        self.received = true;
        self.stage = match port.receive(byte, status) {
            Reception::AskBreak => ReceiveStage::OfferBreak { byte, status },
            Reception::Settled => self.go_on(),
        };
    }

    /// A line status is known.
    fn judge(&mut self, port: &mut LockedPort, lsr: u32)
        requires
            old(self).budget > 0,
        ensures
            (*final(self), final(port)@) == old(self).judged(old(port)@, lsr),
    {
        if lsr & LSR_DATA == 0 {
            self.stage = ReceiveStage::Done;
            return ;
        }
        self.budget = self.budget - 1;
        if lsr & LSR_READY != 0 {
            self.stage = ReceiveStage::ReadByte(lsr);
        } else {
            self.deliver(port, 0, lsr);
        }
    }

    /// Takes the reply to the current request.
    pub fn resume(&mut self, uart: &mut DwUart, port: &mut LockedPort, reply: u32)
        requires
            old(self).wf(),
        ensures
            final(self).wf(),
            (*final(self), final(port)@) == old(self).next(
                old(uart).saved_lsr,
                old(port)@,
                reply,
            ),
            *final(uart) == (DwUart {
                saved_lsr: old(self).next_saved(old(uart).saved_lsr),
                ..*old(uart)
            }),
            !(old(self).stage is Done) ==> final(self).left() < old(self).left(),
    {
        match self.stage {
            ReceiveStage::ReadFirst => {
                let lsr: u32 = reply | uart.saved_lsr;
                uart.saved_lsr = 0;
                self.judge(port, lsr);
            },
            ReceiveStage::ReadByte(lsr) => {
                self.deliver(port, #[verifier::truncate] (reply as u8), lsr);
            },
            ReceiveStage::OfferBreak { byte, status } => {
                port.receive_break(byte, status, reply != 0);
                self.stage = self.go_on();
            },
            ReceiveStage::ReadNext => {
                self.judge(port, reply);
            },
            ReceiveStage::Done => {},
        }
    }
}

/// Draining the receive FIFO on its own, outside an interrupt.
#[derive(Clone, Copy, Debug, PartialEq, Eq, Structural)]
pub struct DrainRx {
    pub receive: Receive,
}

impl DrainRx {
    /// The port once draining has moved on to `receive`: what was received is
    /// pushed at the end.
    pub open spec fn pushed(receive: Receive, port: PortState) -> PortState {
        if receive.stage is Done && receive.received {
            port.asked(Effect::PushFlipBuffer)
        } else {
            port
        }
    }

    /// What draining needs next; `None` once it is done.
    pub fn request(&self) -> (request: Option<Request>)
        ensures
            request == self.receive.pending(),
    {
        self.receive.request()
    }

    /// Takes the reply to the current request.
    pub fn resume(&mut self, uart: &mut DwUart, port: &mut LockedPort, reply: u32)
        requires
            old(self).receive.wf(),
            !(old(self).receive.stage is Done),
        ensures
            final(self).receive.wf(),
            ({
                let (receive, after) = old(self).receive.next(
                    old(uart).saved_lsr,
                    old(port)@,
                    reply,
                );
                &&& final(self).receive == receive
                &&& final(port)@ == DrainRx::pushed(receive, after)
            }),
            *final(uart) == (DwUart {
                saved_lsr: old(self).receive.next_saved(old(uart).saved_lsr),
                ..*old(uart)
            }),
            final(self).receive.left() < old(self).receive.left(),
    {
        self.receive.resume(uart, port, reply);
        if let ReceiveStage::Done = self.receive.stage {
            if self.receive.received {
                port.push_rx();
            }
        }
    }
}

impl DwUart {
    /// Begins to drain the receive FIFO within `budget`. Without one there is
    /// nothing to do: parked errors stay parked.
    pub fn receive(budget: usize) -> (receive: Receive)
        ensures
            receive == Receive::begun(budget),
            receive.wf(),
    {
        Receive {
            budget,
            received: false,
            stage: if budget == 0 {
                ReceiveStage::Done
            } else {
                ReceiveStage::ReadFirst
            },
        }
    }

    /// Begins to drain the receive FIFO and push what it held.
    pub fn drain_rx() -> (drain: DrainRx)
        ensures
            drain.receive == (Receive {
                budget: IRQ_BUDGET,
                received: false,
                stage: ReceiveStage::ReadFirst,
            }),
            drain.receive.wf(),
    {
        DrainRx { receive: Self::receive(IRQ_BUDGET) }
    }
}

// ---------------------------------------------------------------------------
// Laws
// ---------------------------------------------------------------------------

/// Every received byte is paid for: the budget goes down when a line status
/// announces one, and only then.
pub proof fn law_budget_pays_for_bytes(
    receive: Receive,
    saved_lsr: u32,
    port: PortState,
    reply: u32,
)
    requires
        receive.wf(),
    ensures
        ({
            let (next, _) = receive.next(saved_lsr, port, reply);
            let lsr = if receive.stage is ReadFirst {
                reply | saved_lsr
            } else {
                reply
            };
            let announced = (receive.stage is ReadFirst || receive.stage is ReadNext) && lsr
                & LSR_DATA != 0;
            &&& next.budget == if announced {
                receive.budget - 1
            } else {
                receive.budget as int
            }
            &&& receive.received ==> next.received
            &&& next.wf()
        }),
{
}

/// A line status is never read, and parked errors are never taken, without the
/// budget for the byte that they belong to.
pub proof fn law_status_is_read_within_budget(receive: Receive, saved_lsr: u32)
    requires
        receive.wf(),
        receive.budget == 0,
    ensures
        receive.pending() != Some(Request::Read { offset: LSR }),
        receive.next_saved(saved_lsr) == saved_lsr,
{
}

/// Errors that were parked outside the receive path reach the first byte that
/// is received, together with what the device then reports.
pub proof fn law_parked_errors_reach_the_next_byte(
    receive: Receive,
    saved_lsr: u32,
    port: PortState,
    lsr: u32,
)
    requires
        receive.stage is ReadFirst,
        receive.budget > 0,
        lsr & LSR_READY != 0,
    ensures
        receive.next(saved_lsr, port, lsr).0.stage == ReceiveStage::ReadByte(lsr | saved_lsr),
        receive_flags(lsr | saved_lsr) == receive_flags(lsr) | receive_flags(saved_lsr),
        receive.next_saved(saved_lsr) == 0,
{
    lemma_line_status(lsr, saved_lsr);
    lemma_line_status(lsr | saved_lsr, 0);
}

/// A reception goes by what it asks for and what it is told.
pub proof fn law_reception_is_a_machine(
    receive: &mut Receive,
    uart: &mut DwUart,
    port: &mut LockedPort,
    reply: u32,
    asking: &Receive,
    request: Option<Request>,
)
    requires
        call_ensures(Receive::resume, (receive, uart, port, reply), ()),
        call_ensures(Receive::request, (asking,), request),
    ensures
        request == asking.pending(),
        (*final(receive), final(port)@) == old(receive).next(
            old(uart).saved_lsr,
            old(port)@,
            reply,
        ),
        final(uart).saved_lsr == old(receive).next_saved(old(uart).saved_lsr),
        *final(uart) == (DwUart { saved_lsr: final(uart).saved_lsr, ..*old(uart) }),
{
}

/// What a line status leads to. Without data and without a break the FIFO is
/// empty; with data the data register is read; and a break without data is
/// offered to serial core at once. Parked errors count as part of the first
/// line status, and are then gone.
pub proof fn law_line_status_is_followed(
    receive: &mut Receive,
    uart: &mut DwUart,
    port: &mut LockedPort,
    lsr: u32,
    request: Option<Request>,
)
    requires
        old(receive).wf(),
        old(receive).pending() == Some(Request::Read { offset: 0x14 }),
        call_ensures(Receive::resume, (receive, uart, port, lsr), ()),
        call_ensures(Receive::request, (&*final(receive),), request),
    ensures
        ({
            let first = old(receive).stage is ReadFirst;
            let seen = if first {
                lsr | old(uart).saved_lsr
            } else {
                lsr
            };
            &&& final(uart).saved_lsr == if first {
                0
            } else {
                old(uart).saved_lsr
            }
            &&& seen & 0x11 == 0
                ==> request is None && final(port)@ == old(port)@
                && final(receive).budget == old(receive).budget
                && final(receive).received == old(receive).received
            &&& seen & 0x11 != 0 ==> final(receive).budget == old(receive).budget - 1
            &&& seen & 0x01 != 0
                ==> request == Some(Request::Read { offset: 0 })
                && final(receive).stage == ReceiveStage::ReadByte(seen)
                && final(port)@ == old(port)@
            &&& seen & 0x11 == 0x10 ==> {
                &&& request == Some(Request::HandleBreak)
                &&& final(receive).received
                &&& moved(old(port).icount.rx, final(port).icount.rx, true)
                &&& moved(old(port).icount.brk, final(port).icount.brk, true)
                &&& final(port)@.effects == old(port)@.effects
            }
        }),
{
    let saved = old(uart).saved_lsr;
    let seen = if old(receive).stage is ReadFirst {
        lsr | saved
    } else {
        lsr
    };
    lemma_flag_bits(seen);
    lemma_line_status(seen, 0);
    assert(final(port)@.icount == final(port).icount);
}

/// A received byte is inserted as it was read: the low eight bits of the data
/// register, with the flags of its line status and counted by them. A break is
/// offered first. The line status of the next byte is then read, while the
/// budget lasts.
pub proof fn law_received_byte_is_inserted(
    receive: &mut Receive,
    uart: &mut DwUart,
    port: &mut LockedPort,
    value: u32,
    lsr: u32,
    request: Option<Request>,
)
    requires
        old(receive).stage == ReceiveStage::ReadByte(lsr),
        call_ensures(Receive::resume, (receive, uart, port, value), ()),
        call_ensures(Receive::request, (&*final(receive),), request),
    ensures
        *final(uart) == *old(uart),
        final(receive).received,
        final(receive).budget == old(receive).budget,
        moved(old(port).icount.rx, final(port).icount.rx, true),
        moved(old(port).icount.brk, final(port).icount.brk, lsr & 0x10 != 0),
        moved(
            old(port).icount.parity,
            final(port).icount.parity,
            lsr & 0x10 == 0 && lsr & 0x04 != 0,
        ),
        moved(
            old(port).icount.frame,
            final(port).icount.frame,
            lsr & 0x10 == 0 && lsr & 0x04 == 0 && lsr & 0x08 != 0,
        ),
        lsr & 0x10 != 0 ==> request == Some(Request::HandleBreak)
            && final(port)@.effects == old(port)@.effects,
        lsr & 0x10 == 0 ==> {
            let kept = (((lsr >> 1) & 0x0f) | 16) & old(port).read_status_mask;
            &&& request == if final(receive).budget > 0 {
                Some(Request::Read { offset: 0x14 })
            } else {
                None
            }
            &&& moved(old(port).icount.overrun, final(port).icount.overrun, lsr & 0x02 != 0)
            &&& final(port)@.effects == old(port)@.effects.push(
                Effect::InsertChar {
                    status: kept,
                    overrun: 1,
                    byte: (value % 256) as u8,
                    flag: if kept & 8 != 0 {
                        TtyFlag::Break
                    } else if kept & 2 != 0 {
                        TtyFlag::Parity
                    } else if kept & 4 != 0 {
                        TtyFlag::Frame
                    } else {
                        TtyFlag::Normal
                    },
                },
            )
        },
{
    lemma_flag_bits(lsr);
    lemma_fields(value);
    assert(final(port)@.icount == final(port).icount);
}

/// A break that serial core leaves is inserted with the byte that came with it,
/// without parity and framing errors; one that it takes is not inserted. Either
/// way the reception goes on.
pub proof fn law_left_break_is_inserted(
    receive: &mut Receive,
    uart: &mut DwUart,
    port: &mut LockedPort,
    value: u32,
    lsr: u32,
    settling: &mut Receive,
    later: &mut DwUart,
    after: &mut LockedPort,
    answer: u32,
    request: Option<Request>,
)
    requires
        old(receive).stage == ReceiveStage::ReadByte(lsr),
        lsr & 0x10 != 0,
        call_ensures(Receive::resume, (receive, uart, port, value), ()),
        *old(settling) == *final(receive),
        *old(later) == *final(uart),
        old(after)@ == final(port)@,
        call_ensures(Receive::resume, (settling, later, after, answer), ()),
        call_ensures(Receive::request, (&*final(settling),), request),
    ensures
        request == if old(receive).budget > 0 {
            Some(Request::Read { offset: 0x14 })
        } else {
            None
        },
        answer != 0 ==> final(after)@ == final(port)@,
        answer == 0 ==> {
            &&& final(after)@.effects.len() == old(port)@.effects.len() + 1
            &&& final(after)@.effects.drop_last() == old(port)@.effects
            &&& final(after)@.effects.last() matches Effect::InsertChar {
                status,
                overrun,
                byte,
                flag,
            } && byte == value % 256 && overrun == 1 && flag != TtyFlag::Parity && flag
                != TtyFlag::Frame && (flag == TtyFlag::Break <==> old(port).read_status_mask & 8
                != 0) && status == ((((lsr >> 1) & 0x0f) & !6u32) | 16) & old(port).read_status_mask
        },
{
    lemma_flag_bits(lsr);
    lemma_fields(value);
    let flags = (lsr >> 1) & 0x0f;
    let mask = old(port).read_status_mask;
    let kept = ((flags & !6u32) | 16) & mask;
    assert(2u32 | 4u32 == 6u32 && kept & 2 == 0 && kept & 4 == 0 && (kept & 8 != 0 <==> mask & 8
        != 0)) by (bit_vector)
        requires
            flags & 8 != 0,
            kept == ((flags & !6u32) | 16) & mask,
    ;
    assert(final(after)@.effects.len() > old(port)@.effects.len()
        ==> final(after)@.effects.drop_last() =~= old(port)@.effects);
}

/// The bytes that were inserted, in order.
pub open spec fn inserted(effects: Seq<Effect>) -> Seq<u8>
    decreases effects.len(),
{
    if effects.len() == 0 {
        Seq::empty()
    } else {
        match effects.last() {
            Effect::InsertChar { byte, .. } => inserted(effects.drop_last()).push(byte),
            _ => inserted(effects.drop_last()),
        }
    }
}

/// What a reception got from a device over a series of replies.
pub ghost struct Drained {
    pub port: PortState,
    /// What the data register read as, in order.
    pub data: Seq<u8>,
    /// No line status showed a break.
    pub unbroken: bool,
}

impl Receive {
    /// What the reception gets over a series of replies.
    pub open spec fn drains(self, saved_lsr: u32, port: PortState, replies: Seq<u32>) -> Drained
        decreases replies.len(),
    {
        if replies.len() == 0 {
            Drained { port, data: Seq::empty(), unbroken: true }
        } else {
            let (next, after) = self.next(saved_lsr, port, replies[0]);
            let rest = next.drains(self.next_saved(saved_lsr), after, replies.skip(1));
            let asked = self.pending();
            Drained {
                port: rest.port,
                data: if asked == Some(Request::Read { offset: 0 }) {
                    seq![(replies[0] % 256) as u8] + rest.data
                } else {
                    rest.data
                },
                unbroken: rest.unbroken && (asked == Some(Request::Read { offset: 0x14 })
                    ==> replies[0] & 0x10 == 0),
            }
        }
    }
}

/// The bytes that a drain inserts are, in order, those that the data register
/// read as. (Breaks, which serial core may take, are another matter.)
pub proof fn law_drain_inserts_what_was_read(
    receive: Receive,
    saved_lsr: u32,
    port: PortState,
    replies: Seq<u32>,
)
    requires
        receive.wf(),
        saved_lsr & 0x10 == 0,
        receive.stage is ReadFirst || receive.stage is ReadNext || receive.stage is Done,
        receive.drains(saved_lsr, port, replies).unbroken,
    ensures
        ({
            let drained = receive.drains(saved_lsr, port, replies);
            inserted(drained.port.effects) == inserted(port.effects) + drained.data
        }),
{
    lemma_drain_inserts(receive, saved_lsr, port, replies);
}

/// The same, from the middle of a byte as well.
proof fn lemma_drain_inserts(
    receive: Receive,
    saved_lsr: u32,
    port: PortState,
    replies: Seq<u32>,
)
    requires
        receive.wf(),
        saved_lsr & 0x10 == 0,
        match receive.stage {
            ReceiveStage::ReadByte(lsr) => lsr & 0x10 == 0,
            ReceiveStage::OfferBreak { .. } => false,
            _ => true,
        },
        receive.drains(saved_lsr, port, replies).unbroken,
    ensures
        ({
            let drained = receive.drains(saved_lsr, port, replies);
            inserted(drained.port.effects) == inserted(port.effects) + drained.data
        }),
    decreases replies.len(),
{
    if replies.len() > 0 {
        let reply = replies[0];
        let (next, after) = receive.next(saved_lsr, port, reply);
        let rest = next.drains(receive.next_saved(saved_lsr), after, replies.skip(1));
        lemma_line_status(reply, saved_lsr);
        lemma_line_status(reply | saved_lsr, 0);
        lemma_constants();
        if let ReceiveStage::ReadByte(lsr) = receive.stage {
            lemma_flag_bits(lsr);
            lemma_fields(reply);
            assert(after.effects.drop_last() =~= port.effects);
            let byte = (reply % 256) as u8;
            assert(inserted(after.effects) == inserted(port.effects).push(byte));
            lemma_drain_inserts(next, receive.next_saved(saved_lsr), after, replies.skip(1));
            assert(inserted(port.effects).push(byte) + rest.data =~= inserted(port.effects) + (
            seq![byte] + rest.data));
        } else {
            lemma_drain_inserts(next, receive.next_saved(saved_lsr), after, replies.skip(1));
        }
    } else {
        assert(inserted(port.effects) + Seq::<u8>::empty() =~= inserted(port.effects));
    }
}

/// A drain is a reception of at most 256 bytes that begins with a line status,
/// and at its end pushes what it received, if anything.
pub proof fn law_drain_ends_with_a_push(
    begun: DrainRx,
    first: Option<Request>,
    drain: &mut DrainRx,
    uart: &mut DwUart,
    port: &mut LockedPort,
    receive: &mut Receive,
    other: &mut DwUart,
    alone: &mut LockedPort,
    reply: u32,
)
    requires
        call_ensures(DwUart::drain_rx, (), begun),
        call_ensures(DrainRx::request, (&begun,), first),
        *old(receive) == old(drain).receive,
        *old(other) == *old(uart),
        old(alone)@ == old(port)@,
        call_ensures(DrainRx::resume, (drain, uart, port, reply), ()),
        call_ensures(Receive::resume, (receive, other, alone, reply), ()),
    ensures
        first == Some(Request::Read { offset: 0x14 }),
        begun.receive.budget == 256 && !begun.receive.received,
        final(drain).receive == *final(receive),
        *final(uart) == *final(other),
        final(port)@ == if final(receive).stage is Done && final(receive).received {
            PortState {
                effects: final(alone)@.effects.push(Effect::PushFlipBuffer),
                ..final(alone)@
            }
        } else {
            final(alone)@
        },
{
}

/// A reception begins with its whole budget and a line status, or without a
/// budget not at all.
pub proof fn law_reception_begins_with_its_budget(budget: usize, receive: Receive)
    requires
        call_ensures(DwUart::receive, (budget,), receive),
    ensures
        receive.budget == budget,
        !receive.received,
        budget > 0 ==> receive.stage is ReadFirst,
        receive.pending() == if budget > 0 {
            Some(Request::Read { offset: 0x14 })
        } else {
            None
        },
{
}

/// A byte is received by the port like any other: the low eight bits of the data
/// register, or zero for a break without data, with the flags of the line status;
/// and a break is settled by the port with the byte that it came with. The port
/// changes by nothing else.
pub proof fn law_reception_hands_bytes_on(
    receive: &mut Receive,
    uart: &mut DwUart,
    port: &mut LockedPort,
    reply: u32,
    alone: &mut LockedPort,
    byte: u8,
    lsr: u32,
    status: u32,
    reception: Reception,
    settled: &mut LockedPort,
)
    requires
        old(receive).wf(),
        call_ensures(Receive::resume, (receive, uart, port, reply), ()),
        call_ensures(receive_status, (lsr,), status),
        old(alone)@ == old(port)@,
        call_ensures(LockedPort::receive, (alone, byte, status), reception),
        old(settled)@ == old(port)@,
        match old(receive).stage {
            ReceiveStage::ReadFirst => lsr == reply | old(uart).saved_lsr && byte == 0,
            ReceiveStage::ReadNext => lsr == reply && byte == 0,
            ReceiveStage::ReadByte(seen) => lsr == seen && byte == reply % 256,
            ReceiveStage::OfferBreak { byte: offered, status: flags } => call_ensures(
                LockedPort::receive_break,
                (settled, offered, flags, reply != 0),
                (),
            ),
            ReceiveStage::Done => true,
        },
    ensures
        match old(receive).stage {
            ReceiveStage::ReadFirst | ReceiveStage::ReadNext => {
                if lsr & 0x11 == 0x10 {
                    &&& final(port)@ == final(alone)@
                    &&& final(receive).stage == ReceiveStage::OfferBreak { byte: 0, status }
                    &&& final(receive).received
                } else {
                    &&& final(port)@ == old(port)@
                    &&& final(receive).received == old(receive).received
                }
            },
            ReceiveStage::ReadByte(_) => {
                &&& final(port)@ == final(alone)@
                &&& final(receive).received
                &&& final(receive).budget == old(receive).budget
                &&& reception == Reception::AskBreak ==> final(receive).stage
                    == ReceiveStage::OfferBreak { byte, status }
                &&& reception == Reception::Settled
                    ==> final(receive).stage == if old(receive).budget > 0 {
                    ReceiveStage::ReadNext
                } else {
                    ReceiveStage::Done
                }
            },
            ReceiveStage::OfferBreak { .. } => {
                &&& final(port)@ == final(settled)@
                &&& *final(receive) == (Receive {
                    stage: if old(receive).budget > 0 {
                        ReceiveStage::ReadNext
                    } else {
                        ReceiveStage::Done
                    },
                    ..*old(receive)
                })
            },
            ReceiveStage::Done => final(port)@ == old(port)@ && *final(receive) == *old(receive)
                && *final(uart) == *old(uart),
        },
        !(old(receive).stage is ReadFirst) ==> *final(uart) == *old(uart),
{
    lemma_flag_bits(lsr);
    lemma_line_status(lsr, 0);
    lemma_fields(reply);
}

} // verus!
