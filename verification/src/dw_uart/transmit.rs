//! Filling the transmit FIFO.

use vstd::prelude::*;
use crate::bits::lemma_raise_and_lower;
use crate::dw_uart::control::{Change, IerStage, IerUpdate};
use crate::dw_uart::{DwUart, Request, DATA, IER_TX, USR};
use crate::serial::locked_port::{Effect, LockedPort, PortState};

verus! {

/// Transmit FIFO not full, in the UART status register.
pub const USR_TFNF: u32 = 0x02;

/// Where filling the FIFO stands.
#[derive(Clone, Copy, Debug, PartialEq, Eq, Structural)]
pub enum TransmitStage {
    /// See whether the FIFO has room. Room is enough: the FIFO need not be empty.
    ReadUsr,
    /// Write a byte.
    WriteByte(u8),
    /// There is nothing to send: disable the transmit interrupt.
    StopTx(IerUpdate),
    Done,
}

/// Filling the FIFO with at most as many bytes as it holds.
#[derive(Clone, Copy, Debug, PartialEq, Eq, Structural)]
pub struct Transmit {
    /// Bytes that may still be written.
    pub room: u32,
    pub stage: TransmitStage,
}

impl Transmit {
    /// What the transmission needs next; `None` once it is done.
    pub open spec fn pending(self) -> Option<Request> {
        match self.stage {
            TransmitStage::ReadUsr => Some(Request::Read { offset: USR }),
            TransmitStage::WriteByte(byte) => Some(
                Request::Write { value: byte as u32, offset: DATA },
            ),
            TransmitStage::StopTx(update) => update.pending(),
            TransmitStage::Done => None,
        }
    }

    /// A transmission that may still write `room` bytes, before the next one.
    pub open spec fn with_room(room: u32, port: PortState) -> (Transmit, PortState) {
        if room == 0 {
            (Transmit { room, stage: TransmitStage::Done }, port.writers_woken())
        } else {
            (Transmit { room, stage: TransmitStage::ReadUsr }, port)
        }
    }

    /// The transmission and the port after a reply.
    pub open spec fn next(self, port: PortState, reply: u32) -> (Transmit, PortState) {
        match self.stage {
            TransmitStage::ReadUsr => if reply & USR_TFNF == 0 {
                (Transmit { stage: TransmitStage::Done, ..self }, port.writers_woken())
            } else {
                match port.next_byte() {
                    Some(byte) => (
                        Transmit { stage: TransmitStage::WriteByte(byte), ..self },
                        port.byte_taken(),
                    ),
                    None => (
                        Transmit {
                            stage: TransmitStage::StopTx(
                                IerUpdate::begun(Change::Lower(IER_TX)),
                            ),
                            ..self
                        },
                        port,
                    ),
                }
            },
            TransmitStage::WriteByte(_) => Transmit::with_room((self.room - 1) as u32, port),
            TransmitStage::StopTx(update) => if update.next(reply).stage is Done {
                (Transmit { stage: TransmitStage::Done, ..self }, port.writers_woken())
            } else {
                (Transmit { stage: TransmitStage::StopTx(update.next(reply)), ..self }, port)
            },
            TransmitStage::Done => (self, port),
        }
    }

    /// There is room while bytes may be written.
    pub open spec fn wf(self) -> bool {
        match self.stage {
            TransmitStage::ReadUsr => self.room > 0,
            TransmitStage::WriteByte(_) => self.room > 0,
            TransmitStage::StopTx(update) => !(update.stage is Done),
            TransmitStage::Done => true,
        }
    }

    /// Number of accesses that are at most still to come.
    pub open spec fn left(self) -> nat {
        match self.stage {
            TransmitStage::ReadUsr => 2 * self.room as nat + 2,
            TransmitStage::WriteByte(_) => 2 * self.room as nat + 1,
            TransmitStage::StopTx(update) => update.left(),
            TransmitStage::Done => 0,
        }
    }

    /// What the transmission needs next; `None` once it is done.
    pub fn request(&self) -> (request: Option<Request>)
        requires
            self.wf(),
        ensures
            request == self.pending(),
            request is None <==> self.stage is Done,
    {
        match self.stage {
            TransmitStage::ReadUsr => Some(Request::Read { offset: USR }),
            TransmitStage::WriteByte(byte) => Some(
                Request::Write { value: byte as u32, offset: DATA },
            ),
            TransmitStage::StopTx(update) => update.request(),
            TransmitStage::Done => None,
        }
    }

    /// Takes the reply to the current request.
    pub fn resume(&mut self, port: &mut LockedPort, reply: u32)
        requires
            old(self).wf(),
        ensures
            (*final(self), final(port)@) == old(self).next(old(port)@, reply),
            final(self).wf(),
            !(old(self).stage is Done) ==> final(self).left() < old(self).left(),
    {
        match self.stage {
            TransmitStage::ReadUsr => {
                if reply & USR_TFNF == 0 {
                    port.wake_writers();
                    self.stage = TransmitStage::Done;
                } else {
                    self.stage = match port.next_tx() {
                        Some(byte) => TransmitStage::WriteByte(byte),
                        None => TransmitStage::StopTx(DwUart::stop_tx()),
                    };
                }
            },
            TransmitStage::WriteByte(_) => {
                self.room = self.room - 1;
                if self.room == 0 {
                    port.wake_writers();
                    self.stage = TransmitStage::Done;
                } else {
                    self.stage = TransmitStage::ReadUsr;
                }
            },
            TransmitStage::StopTx(current) => {
                let mut update = current;
                update.resume(reply);
                match update.stage {
                    IerStage::Done => {
                        port.wake_writers();
                        self.stage = TransmitStage::Done;
                    },
                    _ => {
                        self.stage = TransmitStage::StopTx(update);
                    },
                }
            },
            TransmitStage::Done => {},
        }
    }

    /// Bytes taken from the port and not yet written.
    pub open spec fn held(self) -> Seq<u8> {
        match self.stage {
            TransmitStage::WriteByte(byte) => seq![byte],
            _ => Seq::empty(),
        }
    }

    /// The transmission, the port, and the bytes written to the device, after
    /// a series of replies.
    pub open spec fn after(self, port: PortState, replies: Seq<u32>) -> (
        Transmit,
        PortState,
        Seq<u8>,
    )
        decreases replies.len(),
    {
        if replies.len() == 0 {
            (self, port, Seq::empty())
        } else {
            let (next, next_port) = self.next(port, replies[0]);
            let (last, last_port, sent) = next.after(next_port, replies.skip(1));
            (last, last_port, self.held() + sent)
        }
    }
}

/// Where starting transmission stands.
#[derive(Clone, Copy, Debug, PartialEq, Eq, Structural)]
pub enum StartTxStage {
    /// DMA may take the transmission.
    AskDma,
    /// It did: the transmit interrupt is not needed.
    StopTx(IerUpdate),
    /// It did not: enable the transmit interrupt.
    EnableTx(IerUpdate),
    /// Fill the FIFO.
    Fill(Transmit),
    Done,
}

/// Beginning or continuing transmission.
#[derive(Clone, Copy, Debug, PartialEq, Eq, Structural)]
pub struct StartTx {
    /// Depth of the FIFO.
    pub fifo_size: u32,
    pub stage: StartTxStage,
}

impl StartTx {
    /// What the start needs next; `None` once it is done.
    pub open spec fn pending(self) -> Option<Request> {
        match self.stage {
            StartTxStage::AskDma => Some(Request::DmaTx),
            StartTxStage::StopTx(update) => update.pending(),
            StartTxStage::EnableTx(update) => update.pending(),
            StartTxStage::Fill(transmit) => transmit.pending(),
            StartTxStage::Done => None,
        }
    }

    /// The start once filling the FIFO has moved on.
    pub open spec fn filling(self, transmit: Transmit) -> StartTx {
        StartTx {
            stage: if transmit.stage is Done {
                StartTxStage::Done
            } else {
                StartTxStage::Fill(transmit)
            },
            ..self
        }
    }

    /// The start and the port after a reply.
    pub open spec fn next(self, port: PortState, reply: u32) -> (StartTx, PortState) {
        match self.stage {
            StartTxStage::AskDma => (
                StartTx {
                    stage: if reply != 0 {
                        StartTxStage::StopTx(IerUpdate::begun(Change::Lower(IER_TX)))
                    } else {
                        StartTxStage::EnableTx(IerUpdate::begun(Change::Raise(IER_TX)))
                    },
                    ..self
                },
                port,
            ),
            StartTxStage::StopTx(update) => (
                StartTx {
                    stage: if update.next(reply).stage is Done {
                        StartTxStage::Done
                    } else {
                        StartTxStage::StopTx(update.next(reply))
                    },
                    ..self
                },
                port,
            ),
            StartTxStage::EnableTx(update) => if update.next(reply).stage is Done {
                let (transmit, filled) = Transmit::with_room(self.fifo_size, port);
                (self.filling(transmit), filled)
            } else {
                (StartTx { stage: StartTxStage::EnableTx(update.next(reply)), ..self }, port)
            },
            StartTxStage::Fill(transmit) => {
                let (next, filled) = transmit.next(port, reply);
                (self.filling(next), filled)
            },
            StartTxStage::Done => (self, port),
        }
    }

    /// What is on its way is not done.
    pub open spec fn wf(self) -> bool {
        match self.stage {
            StartTxStage::StopTx(update) => !(update.stage is Done),
            StartTxStage::EnableTx(update) => !(update.stage is Done),
            StartTxStage::Fill(transmit) => {
                &&& transmit.wf()
                &&& !(transmit.stage is Done)
                &&& transmit.room <= self.fifo_size
            },
            _ => true,
        }
    }

    /// Number of requests that are at most still to come.
    pub open spec fn left(self) -> nat {
        match self.stage {
            StartTxStage::AskDma => 2 * self.fifo_size as nat + 5,
            StartTxStage::StopTx(update) => update.left(),
            StartTxStage::EnableTx(update) => 2 * self.fifo_size as nat + 2 + update.left(),
            StartTxStage::Fill(transmit) => transmit.left(),
            StartTxStage::Done => 0,
        }
    }

    /// What the start needs next; `None` once it is done.
    pub fn request(&self) -> (request: Option<Request>)
        requires
            self.wf(),
        ensures
            request == self.pending(),
            request is None <==> self.stage is Done,
    {
        match self.stage {
            StartTxStage::AskDma => Some(Request::DmaTx),
            StartTxStage::StopTx(update) => update.request(),
            StartTxStage::EnableTx(update) => update.request(),
            StartTxStage::Fill(transmit) => transmit.request(),
            StartTxStage::Done => None,
        }
    }

    /// Takes the reply to the current request.
    pub fn resume(&mut self, port: &mut LockedPort, reply: u32)
        requires
            old(self).wf(),
        ensures
            (*final(self), final(port)@) == old(self).next(old(port)@, reply),
            final(self).wf(),
            final(self).fifo_size == old(self).fifo_size,
            !(old(self).stage is Done) ==> final(self).left() < old(self).left(),
    {
        match self.stage {
            StartTxStage::AskDma => {
                self.stage = if reply != 0 {
                    StartTxStage::StopTx(DwUart::stop_tx())
                } else {
                    StartTxStage::EnableTx(IerUpdate::new(Change::Raise(IER_TX)))
                };
            },
            StartTxStage::StopTx(current) => {
                let mut update = current;
                update.resume(reply);
                self.stage = match update.stage {
                    IerStage::Done => StartTxStage::Done,
                    _ => StartTxStage::StopTx(update),
                };
            },
            StartTxStage::EnableTx(current) => {
                let mut update = current;
                update.resume(reply);
                match update.stage {
                    IerStage::Done => {
                        let transmit = fill(self.fifo_size, port);
                        self.stage = match transmit.stage {
                            TransmitStage::Done => StartTxStage::Done,
                            _ => StartTxStage::Fill(transmit),
                        };
                    },
                    _ => {
                        self.stage = StartTxStage::EnableTx(update);
                    },
                }
            },
            StartTxStage::Fill(current) => {
                let mut transmit = current;
                transmit.resume(port, reply);
                self.stage = match transmit.stage {
                    TransmitStage::Done => StartTxStage::Done,
                    _ => StartTxStage::Fill(transmit),
                };
            },
            StartTxStage::Done => {},
        }
    }
}

/// Begins to write at most `room` bytes.
fn fill(room: u32, port: &mut LockedPort) -> (transmit: Transmit)
    ensures
        (transmit, final(port)@) == Transmit::with_room(room, old(port)@),
        transmit.wf(),
        transmit.room == room,
{
    if room == 0 {
        port.wake_writers();
        return Transmit { room, stage: TransmitStage::Done };
    }
    Transmit { room, stage: TransmitStage::ReadUsr }
}

impl DwUart {
    /// Begins to fill the transmit FIFO.
    pub fn transmit(&self, port: &mut LockedPort) -> (transmit: Transmit)
        ensures
            (transmit, final(port)@) == Transmit::with_room(self.fifo_size, old(port)@),
            transmit.wf(),
    {
        fill(self.fifo_size, port)
    }

    /// Begins or continues transmission.
    pub fn start_tx(&self) -> (start: StartTx)
        ensures
            start == (StartTx { fifo_size: self.fifo_size, stage: StartTxStage::AskDma }),
            start.wf(),
    {
        StartTx { fifo_size: self.fifo_size, stage: StartTxStage::AskDma }
    }
}

impl PortState {
    /// The bytes that the port has to send, in order.
    pub open spec fn outgoing(self) -> Seq<u8> {
        let first = if self.x_char != 0 {
            seq![self.x_char]
        } else {
            Seq::empty()
        };
        if self.tx_stopped {
            first
        } else {
            first + self.xmit
        }
    }
}

// ---------------------------------------------------------------------------
// Laws
// ---------------------------------------------------------------------------

/// A transmission writes what the port has to send, in order, and neither
/// loses nor repeats a byte; and it writes no more than there is room for.
pub proof fn law_transmission_keeps_order(transmit: Transmit, port: PortState, replies: Seq<u32>)
    requires
        transmit.wf(),
    ensures
        ({
            let (last, last_port, sent) = transmit.after(port, replies);
            &&& transmit.held() + port.outgoing() == sent + last.held() + last_port.outgoing()
            &&& sent.len() <= transmit.room
        }),
    decreases replies.len(),
{
    if replies.len() > 0 {
        let (next, next_port) = transmit.next(port, replies[0]);
        let (last, last_port, sent) = next.after(next_port, replies.skip(1));
        law_transmission_keeps_order(next, next_port, replies.skip(1));
        assert(transmit.held() + port.outgoing() =~= if transmit.stage is WriteByte {
            transmit.held() + (next.held() + next_port.outgoing())
        } else {
            next.held() + next_port.outgoing()
        });
        assert(transmit.held() + (sent + last.held() + last_port.outgoing()) =~= (transmit.held()
            + sent) + last.held() + last_port.outgoing());
        assert(Seq::<u8>::empty() + sent =~= sent);
        if transmit.stage is StopTx || transmit.stage is Done {
            lemma_nothing_more_is_sent(next, next_port, replies.skip(1));
        }
        if transmit.stage is ReadUsr && !(next.stage is WriteByte) {
            lemma_nothing_more_is_sent(next, next_port, replies.skip(1));
        }
    } else {
        assert(transmit.held() + port.outgoing() =~= Seq::<u8>::empty() + transmit.held()
            + port.outgoing());
    }
}

/// Once the FIFO is full or nothing is left, nothing more is written.
proof fn lemma_nothing_more_is_sent(transmit: Transmit, port: PortState, replies: Seq<u32>)
    requires
        transmit.stage is StopTx || transmit.stage is Done,
    ensures
        transmit.after(port, replies).2 == Seq::<u8>::empty(),
    decreases replies.len(),
{
    if replies.len() > 0 {
        let (next, next_port) = transmit.next(port, replies[0]);
        lemma_nothing_more_is_sent(next, next_port, replies.skip(1));
        assert(Seq::<u8>::empty() + next.after(next_port, replies.skip(1)).2
            =~= Seq::<u8>::empty());
    }
}

/// The transmit interrupt is disabled as soon as the FIFO has room and the
/// port has nothing to send, and only then.
pub proof fn law_interrupt_stops_when_idle(transmit: Transmit, port: PortState, reply: u32)
    requires
        transmit.stage is ReadUsr,
    ensures
        transmit.next(port, reply).0.stage is StopTx <==> reply & USR_TFNF != 0
            && port.outgoing().len() == 0,
{
}

/// Transmission goes by what it asks for and what it is told.
pub proof fn law_transmission_is_a_machine(
    transmit: &mut Transmit,
    port: &mut LockedPort,
    start: &mut StartTx,
    start_port: &mut LockedPort,
    reply: u32,
    asking: &Transmit,
    request: Option<Request>,
    start_asking: &StartTx,
    start_request: Option<Request>,
)
    requires
        call_ensures(Transmit::resume, (transmit, port, reply), ()),
        call_ensures(StartTx::resume, (start, start_port, reply), ()),
        call_ensures(Transmit::request, (asking,), request),
        call_ensures(StartTx::request, (start_asking,), start_request),
    ensures
        request == asking.pending(),
        start_request == start_asking.pending(),
        (*final(transmit), final(port)@) == old(transmit).next(old(port)@, reply),
        (*final(start), final(start_port)@) == old(start).next(old(start_port)@, reply),
{
}

/// Bytes as the data register takes them: zero-extended.
pub open spec fn widened(bytes: Seq<u8>) -> Seq<u32> {
    Seq::new(bytes.len(), |i: int| bytes[i] as u32)
}

impl Transmit {
    /// The values that the transmission writes to the data register over a
    /// series of replies.
    pub open spec fn data_written(self, port: PortState, replies: Seq<u32>) -> Seq<u32>
        decreases replies.len(),
    {
        if replies.len() == 0 {
            Seq::empty()
        } else {
            let (next, after) = self.next(port, replies[0]);
            let rest = next.data_written(after, replies.skip(1));
            match self.pending() {
                Some(Request::Write { value, offset }) => if offset == 0 {
                    seq![value] + rest
                } else {
                    rest
                },
                _ => rest,
            }
        }
    }
}

/// The values that a transmission writes to the data register are the bytes
/// that the port has to send, in order, each zero-extended: whatever the device
/// replies, what was written and then what is still on its way or queued is
/// what was to be sent.
pub proof fn law_data_register_gets_the_outgoing_bytes(
    transmit: Transmit,
    port: PortState,
    replies: Seq<u32>,
)
    requires
        transmit.wf(),
    ensures
        ({
            let (last, last_port, _) = transmit.after(port, replies);
            widened(transmit.held() + port.outgoing()) == transmit.data_written(port, replies)
                + widened(last.held() + last_port.outgoing())
        }),
        transmit.data_written(port, replies).len() <= transmit.room,
{
    law_transmission_keeps_order(transmit, port, replies);
    lemma_written_is_sent(transmit, port, replies);
    let (last, last_port, sent) = transmit.after(port, replies);
    let rest = last.held() + last_port.outgoing();
    assert(sent + last.held() + last_port.outgoing() =~= sent + rest);
    assert(widened(sent + rest) =~= widened(sent) + widened(rest));
}

/// What is written is what is held.
proof fn lemma_written_is_sent(transmit: Transmit, port: PortState, replies: Seq<u32>)
    requires
        transmit.wf(),
    ensures
        transmit.data_written(port, replies) == widened(transmit.after(port, replies).2),
    decreases replies.len(),
{
    if replies.len() > 0 {
        let (next, after) = transmit.next(port, replies[0]);
        lemma_written_is_sent(next, after, replies.skip(1));
        let sent = next.after(after, replies.skip(1)).2;
        assert(widened(transmit.held() + sent) =~= widened(transmit.held()) + widened(sent));
        if let TransmitStage::WriteByte(byte) = transmit.stage {
            assert(widened(seq![byte]) =~= seq![byte as u32]);
        } else {
            assert(widened(Seq::<u8>::empty()) + widened(sent) =~= widened(sent));
        }
    } else {
        assert(widened(Seq::<u8>::empty()) =~= Seq::<u32>::empty());
    }
}

/// A device while it transmits.
pub ghost struct Transmitter {
    /// Free places in its FIFO.
    pub free: nat,
    /// Its enabled interrupts.
    pub ier: u32,
    /// DMA takes the transmission.
    pub dma: bool,
    /// The other bits of its status.
    pub noise: u32,
    /// What was put into the FIFO.
    pub sent: Seq<u32>,
}

impl Transmitter {
    /// The reply to a request.
    pub open spec fn reply(self, request: Request) -> u32 {
        match request {
            Request::Read { offset } => if offset == 0x7c {
                if self.free > 0 {
                    self.noise | 0x02
                } else {
                    self.noise & !0x02u32
                }
            } else if offset == 0x04 {
                self.ier
            } else {
                self.noise
            },
            Request::DmaTx => if self.dma {
                1
            } else {
                0
            },
            _ => self.noise,
        }
    }

    /// The device after a request. A byte for which there is no room is lost.
    pub open spec fn accessed(self, request: Request) -> Transmitter {
        match request {
            Request::Write { value, offset } => if offset == 0x00 && self.free > 0 {
                Transmitter {
                    free: (self.free - 1) as nat,
                    sent: self.sent.push(value),
                    ..self
                }
            } else if offset == 0x04 {
                Transmitter { ier: value, ..self }
            } else {
                self
            },
            _ => self,
        }
    }
}

/// Starting transmission on a device, for at most `steps` requests.
pub open spec fn transmitted(
    start: StartTx,
    port: PortState,
    device: Transmitter,
    steps: nat,
) -> (StartTx, PortState, Transmitter)
    decreases steps,
{
    match start.pending() {
        Some(request) if steps > 0 => {
            let (next, after) = start.next(port, device.reply(request));
            transmitted(next, after, device.accessed(request), (steps - 1) as nat)
        },
        _ => (start, port, device),
    }
}

/// How many bytes a device takes in one go: no more than its FIFO is deep, than
/// it has room for, and than there are.
pub open spec fn portion(depth: int, free: nat, queued: nat) -> nat {
    if depth <= free && depth <= queued {
        depth as nat
    } else if free <= queued {
        free
    } else {
        queued
    }
}

/// What starting transmission achieves. DMA that takes it leaves the port
/// alone, and the transmit interrupt is disabled. Otherwise as many of the
/// oldest outgoing bytes as fit are put into the FIFO, unchanged and in order;
/// the transmit interrupt is enabled, unless everything went out and there was
/// room for more; and writers are woken if the queue runs low.
pub proof fn law_transmission_fills_the_fifo(
    uart: &DwUart,
    start: StartTx,
    port: PortState,
    device: Transmitter,
)
    requires
        call_ensures(DwUart::start_tx, (uart,), start),
    ensures
        start.pending() == Some(Request::DmaTx),
        ({
            let (end, after, done) = transmitted(start, port, device, start.left());
            let outgoing = port.outgoing();
            let n = portion(uart.fifo_size as int, device.free, outgoing.len()) as int;
            &&& end.stage is Done && end.pending() is None
            &&& device.dma ==> after == port && done == (Transmitter {
                ier: device.ier & !2u32,
                ..device
            })
            &&& !device.dma ==> {
                &&& done.sent == device.sent + widened(outgoing.take(n))
                &&& after.outgoing() == outgoing.skip(n)
                &&& done.ier == if outgoing.len() < uart.fifo_size && outgoing.len()
                    < device.free {
                    device.ier & !2u32
                } else {
                    device.ier | 2
                }
                &&& after.effects == if after.xmit.len() < 256 {
                    port.effects.push(Effect::WriteWakeup)
                } else {
                    port.effects
                }
            }
        }),
{
    let ier = device.ier;
    lemma_raise_and_lower(ier, 2);
    reveal_with_fuel(transmitted, 4);
    if !device.dma {
        let enabled = Transmitter { ier: ier | 2, ..device };
        let (transmit, filled) = Transmit::with_room(uart.fifo_size, port);
        assert(transmitted(start, port, device, start.left()) == transmitted(
            start.filling(transmit),
            filled,
            enabled,
            (start.left() - 3) as nat,
        ));
        if uart.fifo_size > 0 {
            lemma_fills(
                StartTx { stage: StartTxStage::Fill(transmit), ..start },
                port,
                enabled,
                (start.left() - 3) as nat,
            );
        } else {
            assert(device.sent + widened(port.outgoing().take(0)) =~= device.sent);
            assert(port.outgoing().skip(0) =~= port.outgoing());
        }
    }
}

/// The FIFO is filled from any point before a byte.
proof fn lemma_fills(start: StartTx, port: PortState, device: Transmitter, steps: nat)
    requires
        start.stage is Fill,
        start.stage->Fill_0.stage is ReadUsr,
        start.stage->Fill_0.room > 0,
        steps >= start.left(),
    ensures
        ({
            let (end, after, done) = transmitted(start, port, device, steps);
            let outgoing = port.outgoing();
            let room = start.stage->Fill_0.room;
            let n = portion(room as int, device.free, outgoing.len()) as int;
            &&& end.stage is Done && end.pending() is None
            &&& done.sent == device.sent + widened(outgoing.take(n))
            &&& after.outgoing() == outgoing.skip(n)
            &&& done.ier == if outgoing.len() < room && outgoing.len() < device.free {
                device.ier & !2u32
            } else {
                device.ier
            }
            &&& after.effects == if after.xmit.len() < 256 {
                port.effects.push(Effect::WriteWakeup)
            } else {
                port.effects
            }
        }),
    decreases start.stage->Fill_0.room,
{
    let noise = device.noise;
    lemma_raise_and_lower(noise, 2);
    reveal_with_fuel(transmitted, 4);
    let outgoing = port.outgoing();
    let room = start.stage->Fill_0.room;
    let n = portion(room as int, device.free, outgoing.len()) as int;
    if device.free == 0 || outgoing.len() == 0 {
        assert(device.sent + widened(outgoing.take(0)) =~= device.sent);
        assert(outgoing.skip(0) =~= outgoing);
    } else {
        let byte = outgoing[0];
        let rest = port.byte_taken();
        assert(port.next_byte() == Some(byte));
        assert(rest.outgoing() =~= outgoing.skip(1));
        let device2 = Transmitter {
            free: (device.free - 1) as nat,
            sent: device.sent.push(byte as u32),
            ..device
        };
        let (transmit, filled) = Transmit::with_room((room - 1) as u32, rest);
        assert(transmitted(start, port, device, steps) == transmitted(
            start.filling(transmit),
            filled,
            device2,
            (steps - 2) as nat,
        ));
        assert(widened(outgoing.take(n)) =~= seq![byte as u32] + widened(
            outgoing.skip(1).take(n - 1),
        ));
        assert(outgoing.skip(n) =~= outgoing.skip(1).skip(n - 1));
        assert(device.sent + (seq![byte as u32] + widened(outgoing.skip(1).take(n - 1)))
            =~= device2.sent + widened(outgoing.skip(1).take(n - 1)));
        if room > 1 {
            lemma_fills(
                StartTx { stage: StartTxStage::Fill(transmit), ..start },
                rest,
                device2,
                (steps - 2) as nat,
            );
        } else {
            assert(widened(outgoing.skip(1).take(0)) =~= Seq::<u32>::empty());
            assert(outgoing.skip(1).skip(0) =~= outgoing.skip(1));
        }
    }
}

/// Filling the FIFO on its own begins as it does after DMA has declined.
pub proof fn law_filling_begins_with_the_status(
    uart: &DwUart,
    port: &mut LockedPort,
    transmit: Transmit,
)
    requires
        call_ensures(DwUart::transmit, (uart, port), transmit),
    ensures
        transmit.room == uart.fifo_size,
        uart.fifo_size > 0 ==> transmit.pending() == Some(Request::Read { offset: 0x7c })
            && final(port)@ == old(port)@,
        uart.fifo_size == 0 ==> transmit.pending() is None && final(port)@ == (PortState {
            effects: if old(port)@.xmit.len() < 256 {
                old(port)@.effects.push(Effect::WriteWakeup)
            } else {
                old(port)@.effects
            },
            ..old(port)@
        }),
{
}

/// What a port has to send: an XON/XOFF byte first, and the queue unless output
/// is stopped.
pub proof fn law_outgoing(port: PortState)
    ensures
        port.x_char == 0 && !port.tx_stopped ==> port.outgoing() == port.xmit,
        port.x_char == 0 && port.tx_stopped ==> port.outgoing().len() == 0,
        port.x_char != 0 ==> port.outgoing().len() > 0 && port.outgoing()[0] == port.x_char,
        port.x_char != 0 && !port.tx_stopped ==> port.outgoing().skip(1) == port.xmit,
        port.x_char != 0 && port.tx_stopped ==> port.outgoing().len() == 1,
{
    if port.x_char == 0 {
        assert(Seq::<u8>::empty() + port.xmit =~= port.xmit);
    } else {
        assert((seq![port.x_char] + port.xmit).skip(1) =~= port.xmit);
    }
}

/// The steps of a transmission. While the status shows room, the next byte of
/// the port is taken and written, which uses up one place; without a byte the
/// transmit interrupt is disabled. At the end the port wakes its writers, and
/// the port changes by nothing else.
pub proof fn law_transmission_steps(
    transmit: &mut Transmit,
    port: &mut LockedPort,
    reply: u32,
    taking: &mut LockedPort,
    byte: Option<u8>,
    waking: &mut LockedPort,
    update: &mut IerUpdate,
)
    requires
        old(transmit).wf(),
        call_ensures(Transmit::resume, (transmit, port, reply), ()),
        old(taking)@ == old(port)@,
        call_ensures(LockedPort::next_tx, (taking,), byte),
        old(waking)@ == old(port)@,
        call_ensures(LockedPort::wake_writers, (waking,), ()),
        old(transmit).stage is StopTx ==> *old(update) == old(transmit).stage->StopTx_0,
        call_ensures(IerUpdate::resume, (update, reply), ()),
    ensures
        final(transmit).room == old(transmit).room - (if old(transmit).stage is WriteByte {
            1int
        } else {
            0
        }),
        final(transmit).stage is Done && old(transmit).stage !is Done
            ==> final(port)@ == final(waking)@,
        match old(transmit).stage {
            TransmitStage::ReadUsr => {
                &&& reply & 2 == 0 ==> final(transmit).stage is Done
                &&& reply & 2 != 0 ==> {
                    &&& final(port)@ == final(taking)@
                    &&& byte is Some ==> final(transmit).stage == TransmitStage::WriteByte(byte->0)
                    &&& byte is None ==> final(transmit).stage == TransmitStage::StopTx(
                        IerUpdate { change: Change::Lower(2), stage: IerStage::Read },
                    )
                }
            },
            TransmitStage::WriteByte(_) => {
                &&& old(transmit).room == 1 ==> final(transmit).stage is Done
                &&& old(transmit).room > 1 ==> final(transmit).stage is ReadUsr && final(port)@
                    == old(port)@
            },
            TransmitStage::StopTx(_) => {
                &&& final(update).stage is Done ==> final(transmit).stage is Done
                &&& !(final(update).stage is Done) ==> final(transmit).stage
                    == TransmitStage::StopTx(*final(update)) && final(port)@ == old(port)@
            },
            TransmitStage::Done => final(transmit).stage is Done && final(port)@ == old(port)@,
        },
{
}

/// The steps of a start: if DMA takes the transmission, the transmit interrupt
/// is disabled, and that is all; otherwise it is enabled, and the FIFO is filled
/// like by any transmission.
pub proof fn law_start_steps(
    uart: &DwUart,
    fresh: StartTx,
    start: &mut StartTx,
    port: &mut LockedPort,
    reply: u32,
    update: &mut IerUpdate,
    deep: &DwUart,
    begun_port: &mut LockedPort,
    begun: Transmit,
    transmit: &mut Transmit,
    other: &mut LockedPort,
)
    requires
        call_ensures(DwUart::start_tx, (uart,), fresh),
        old(start).wf(),
        call_ensures(StartTx::resume, (start, port, reply), ()),
        old(start).stage is StopTx ==> *old(update) == old(start).stage->StopTx_0,
        old(start).stage is EnableTx ==> *old(update) == old(start).stage->EnableTx_0,
        call_ensures(IerUpdate::resume, (update, reply), ()),
        deep.fifo_size == old(start).fifo_size,
        old(begun_port)@ == old(port)@,
        call_ensures(DwUart::transmit, (deep, begun_port), begun),
        old(start).stage is Fill ==> *old(transmit) == old(start).stage->Fill_0,
        old(other)@ == old(port)@,
        call_ensures(Transmit::resume, (transmit, other, reply), ()),
    ensures
        fresh.fifo_size == uart.fifo_size && fresh.stage is AskDma,
        final(start).fifo_size == old(start).fifo_size,
        match old(start).stage {
            StartTxStage::AskDma => {
                &&& final(port)@ == old(port)@
                &&& reply != 0 ==> final(start).stage == StartTxStage::StopTx(
                    IerUpdate { change: Change::Lower(2), stage: IerStage::Read },
                )
                &&& reply == 0 ==> final(start).stage == StartTxStage::EnableTx(
                    IerUpdate { change: Change::Raise(2), stage: IerStage::Read },
                )
            },
            StartTxStage::StopTx(_) => {
                &&& final(port)@ == old(port)@
                &&& final(update).stage is Done ==> final(start).stage is Done
                &&& !(final(update).stage is Done) ==> final(start).stage == StartTxStage::StopTx(
                    *final(update),
                )
            },
            StartTxStage::EnableTx(_) => {
                &&& !(final(update).stage is Done) ==> final(start).stage
                    == StartTxStage::EnableTx(*final(update)) && final(port)@ == old(port)@
                &&& final(update).stage is Done ==> final(port)@ == final(begun_port)@
                &&& final(update).stage is Done && begun.stage is Done ==> final(start).stage
                    is Done
                &&& final(update).stage is Done && !(begun.stage is Done) ==> final(start).stage
                    == StartTxStage::Fill(begun)
            },
            StartTxStage::Fill(_) => {
                &&& final(port)@ == final(other)@
                &&& final(transmit).stage is Done ==> final(start).stage is Done
                &&& !(final(transmit).stage is Done) ==> final(start).stage == StartTxStage::Fill(
                    *final(transmit),
                )
            },
            StartTxStage::Done => final(start).stage is Done && final(port)@ == old(port)@,
        },
{
}

} // verus!
