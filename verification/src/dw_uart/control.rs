//! Operations that follow a fixed course of register accesses.

use vstd::prelude::*;
use crate::bits::{lemma_constants, lemma_line_status, lemma_raise_and_lower};
use crate::dw_uart::lcr::{LcrWrite, ATTEMPTS};
use crate::dw_uart::{
    DwUart, Request, DATA, FCR, FCR_RESET_ALL, FCR_RESET_TX, IER, IER_LSR, IER_RX, IER_TX, LCR,
    LCR_BREAK, LSR, LSR_ERRORS, MCR, MSR,
};

verus! {

/// A change to some bits of a register.
#[derive(Clone, Copy, Debug, PartialEq, Eq, Structural)]
pub enum Change {
    Raise(u32),
    Lower(u32),
}

impl Change {
    /// The register once it is changed.
    pub open spec fn applied_to(self, value: u32) -> u32 {
        match self {
            Change::Raise(bits) => value | bits,
            Change::Lower(bits) => value & !bits,
        }
    }

    /// Changes the value of a register.
    pub fn apply(self, value: u32) -> (changed: u32)
        ensures
            changed == self.applied_to(value),
    {
        match self {
            Change::Raise(bits) => value | bits,
            Change::Lower(bits) => value & !bits,
        }
    }
}

/// Where a change of the enabled interrupts stands.
#[derive(Clone, Copy, Debug, PartialEq, Eq, Structural)]
pub enum IerStage {
    Read,
    Write(u32),
    Done,
}

/// A change of the enabled interrupts.
#[derive(Clone, Copy, Debug, PartialEq, Eq, Structural)]
pub struct IerUpdate {
    pub change: Change,
    pub stage: IerStage,
}

impl IerUpdate {
    /// What the change needs next; `None` once it is done.
    pub open spec fn pending(self) -> Option<Request> {
        match self.stage {
            IerStage::Read => Some(Request::Read { offset: IER }),
            IerStage::Write(value) => Some(Request::Write { value, offset: IER }),
            IerStage::Done => None,
        }
    }

    /// The change after a reply.
    pub open spec fn next(self, reply: u32) -> IerUpdate {
        match self.stage {
            IerStage::Read => IerUpdate {
                stage: IerStage::Write(self.change.applied_to(reply)),
                ..self
            },
            _ => IerUpdate { stage: IerStage::Done, ..self },
        }
    }

    /// Number of accesses that are still to come.
    pub open spec fn left(self) -> nat {
        match self.stage {
            IerStage::Read => 2,
            IerStage::Write(_) => 1,
            IerStage::Done => 0,
        }
    }

    /// Begins a change.
    pub open spec fn begun(change: Change) -> IerUpdate {
        IerUpdate { change, stage: IerStage::Read }
    }

    /// Begins a change.
    pub fn new(change: Change) -> (update: IerUpdate)
        ensures
            update == IerUpdate::begun(change),
    {
        IerUpdate { change, stage: IerStage::Read }
    }

    /// What the change needs next; `None` once it is done.
    pub fn request(&self) -> (request: Option<Request>)
        ensures
            request == self.pending(),
            request is None <==> self.stage is Done,
    {
        match self.stage {
            IerStage::Read => Some(Request::Read { offset: IER }),
            IerStage::Write(value) => Some(Request::Write { value, offset: IER }),
            IerStage::Done => None,
        }
    }

    /// Takes the reply to the current request.
    pub fn resume(&mut self, reply: u32)
        ensures
            *final(self) == old(self).next(reply),
            !(old(self).stage is Done) ==> final(self).left() < old(self).left(),
    {
        self.stage = match self.stage {
            IerStage::Read => IerStage::Write(self.change.apply(reply)),
            _ => IerStage::Done,
        };
    }
}

/// Where a change of the break stands.
#[derive(Clone, Copy, Debug, PartialEq, Eq, Structural)]
pub enum BreakStage {
    Read,
    Write(LcrWrite),
    Done,
}

/// Setting or clearing a break. A device that stays busy keeps the one it has.
#[derive(Clone, Copy, Debug, PartialEq, Eq, Structural)]
pub struct BreakUpdate {
    pub change: Change,
    pub stage: BreakStage,
}

impl BreakUpdate {
    /// What the change needs next; `None` once it is done.
    pub open spec fn pending(self) -> Option<Request> {
        match self.stage {
            BreakStage::Read => Some(Request::Read { offset: LCR }),
            BreakStage::Write(write) => write.pending(),
            BreakStage::Done => None,
        }
    }

    /// The change after a reply.
    pub open spec fn next(self, reply: u32) -> BreakUpdate {
        match self.stage {
            BreakStage::Read => BreakUpdate {
                stage: BreakStage::Write(LcrWrite::begun(self.change.applied_to(reply))),
                ..self
            },
            BreakStage::Write(write) => BreakUpdate {
                stage: if write.next(reply).stage is Done {
                    BreakStage::Done
                } else {
                    BreakStage::Write(write.next(reply))
                },
                ..self
            },
            BreakStage::Done => self,
        }
    }

    /// A line control write on its way belongs to the change.
    pub open spec fn wf(self) -> bool {
        match self.stage {
            BreakStage::Write(write) => write.attempts < ATTEMPTS && !(write.stage is Done),
            _ => true,
        }
    }

    /// Number of accesses that are at most still to come.
    pub open spec fn left(self) -> nat {
        match self.stage {
            BreakStage::Read => 5 * ATTEMPTS as nat + 1,
            BreakStage::Write(write) => write.left(),
            BreakStage::Done => 0,
        }
    }

    /// Begins a change.
    pub open spec fn begun(change: Change) -> BreakUpdate {
        BreakUpdate { change, stage: BreakStage::Read }
    }

    /// What the change needs next; `None` once it is done.
    pub fn request(&self) -> (request: Option<Request>)
        requires
            self.wf(),
        ensures
            request == self.pending(),
            request is None <==> self.stage is Done,
    {
        match self.stage {
            BreakStage::Read => Some(Request::Read { offset: LCR }),
            BreakStage::Write(write) => write.request(),
            BreakStage::Done => None,
        }
    }

    /// Takes the reply to the current request.
    pub fn resume(&mut self, reply: u32)
        requires
            old(self).wf(),
        ensures
            *final(self) == old(self).next(reply),
            final(self).wf(),
            !(old(self).stage is Done) ==> final(self).left() < old(self).left(),
    {
        self.stage = match self.stage {
            BreakStage::Read => BreakStage::Write(LcrWrite::new(self.change.apply(reply))),
            BreakStage::Write(current) => {
                let mut write = current;
                write.resume(reply);
                match write.outcome() {
                    Some(_) => BreakStage::Done,
                    None => BreakStage::Write(write),
                }
            },
            BreakStage::Done => BreakStage::Done,
        };
    }
}

/// Where stopping the device stands.
#[derive(Clone, Copy, Debug, PartialEq, Eq, Structural)]
pub enum ShutdownStage {
    MaskIer,
    ClearBreak(BreakUpdate),
    ResetFifos,
    Done,
}

/// Stopping the device: its interrupts are masked, a break is cancelled and
/// its FIFOs are emptied.
#[derive(Clone, Copy, Debug, PartialEq, Eq, Structural)]
pub struct Shutdown {
    pub stage: ShutdownStage,
}

impl Shutdown {
    /// What the shutdown needs next; `None` once it is done.
    pub open spec fn pending(self) -> Option<Request> {
        match self.stage {
            ShutdownStage::MaskIer => Some(Request::Write { value: 0, offset: IER }),
            ShutdownStage::ClearBreak(update) => update.pending(),
            ShutdownStage::ResetFifos => Some(
                Request::Write { value: FCR_RESET_ALL, offset: FCR },
            ),
            ShutdownStage::Done => None,
        }
    }

    /// The shutdown after a reply.
    pub open spec fn next(self, reply: u32) -> Shutdown {
        Shutdown {
            stage: match self.stage {
                ShutdownStage::MaskIer => ShutdownStage::ClearBreak(
                    BreakUpdate::begun(Change::Lower(LCR_BREAK)),
                ),
                ShutdownStage::ClearBreak(update) => if update.next(reply).stage is Done {
                    ShutdownStage::ResetFifos
                } else {
                    ShutdownStage::ClearBreak(update.next(reply))
                },
                _ => ShutdownStage::Done,
            },
        }
    }

    /// A change of the break on its way belongs to the shutdown.
    pub open spec fn wf(self) -> bool {
        match self.stage {
            ShutdownStage::ClearBreak(update) => {
                &&& update.wf()
                &&& !(update.stage is Done)
                &&& update.change == Change::Lower(LCR_BREAK)
            },
            _ => true,
        }
    }

    /// Number of accesses that are at most still to come.
    pub open spec fn left(self) -> nat {
        match self.stage {
            ShutdownStage::MaskIer => 5 * ATTEMPTS as nat + 3,
            ShutdownStage::ClearBreak(update) => update.left() + 1,
            ShutdownStage::ResetFifos => 1,
            ShutdownStage::Done => 0,
        }
    }

    /// What the shutdown needs next; `None` once it is done.
    pub fn request(&self) -> (request: Option<Request>)
        requires
            self.wf(),
        ensures
            request == self.pending(),
            request is None <==> self.stage is Done,
    {
        match self.stage {
            ShutdownStage::MaskIer => Some(Request::Write { value: 0, offset: IER }),
            ShutdownStage::ClearBreak(update) => update.request(),
            ShutdownStage::ResetFifos => Some(
                Request::Write { value: FCR_RESET_ALL, offset: FCR },
            ),
            ShutdownStage::Done => None,
        }
    }

    /// Takes the reply to the current request.
    pub fn resume(&mut self, reply: u32)
        requires
            old(self).wf(),
        ensures
            *final(self) == old(self).next(reply),
            final(self).wf(),
            !(old(self).stage is Done) ==> final(self).left() < old(self).left(),
    {
        self.stage = match self.stage {
            ShutdownStage::MaskIer => ShutdownStage::ClearBreak(
                BreakUpdate { change: Change::Lower(LCR_BREAK), stage: BreakStage::Read },
            ),
            ShutdownStage::ClearBreak(current) => {
                let mut update = current;
                update.resume(reply);
                match update.stage {
                    BreakStage::Done => ShutdownStage::ResetFifos,
                    _ => ShutdownStage::ClearBreak(update),
                }
            },
            _ => ShutdownStage::Done,
        };
    }
}

/// Where discarding output stands.
#[derive(Clone, Copy, Debug, PartialEq, Eq, Structural)]
pub enum FlushStage {
    StopTx(IerUpdate),
    ResetFifo,
    Done,
}

/// Discarding output: the transmit interrupt is disabled and the transmit FIFO
/// emptied; the receive FIFO is kept.
#[derive(Clone, Copy, Debug, PartialEq, Eq, Structural)]
pub struct FlushTx {
    pub stage: FlushStage,
}

impl FlushTx {
    /// What the flush needs next; `None` once it is done.
    pub open spec fn pending(self) -> Option<Request> {
        match self.stage {
            FlushStage::StopTx(update) => update.pending(),
            FlushStage::ResetFifo => Some(Request::Write { value: FCR_RESET_TX, offset: FCR }),
            FlushStage::Done => None,
        }
    }

    /// The flush after a reply.
    pub open spec fn next(self, reply: u32) -> FlushTx {
        FlushTx {
            stage: match self.stage {
                FlushStage::StopTx(update) => if update.next(reply).stage is Done {
                    FlushStage::ResetFifo
                } else {
                    FlushStage::StopTx(update.next(reply))
                },
                _ => FlushStage::Done,
            },
        }
    }

    /// A change of the enabled interrupts on its way is not done.
    pub open spec fn wf(self) -> bool {
        self.stage is StopTx ==> !(self.stage->0.stage is Done)
    }

    /// Number of accesses that are still to come.
    pub open spec fn left(self) -> nat {
        match self.stage {
            FlushStage::StopTx(update) => update.left() + 1,
            FlushStage::ResetFifo => 1,
            FlushStage::Done => 0,
        }
    }

    /// What the flush needs next; `None` once it is done.
    pub fn request(&self) -> (request: Option<Request>)
        requires
            self.wf(),
        ensures
            request == self.pending(),
            request is None <==> self.stage is Done,
    {
        match self.stage {
            FlushStage::StopTx(update) => update.request(),
            FlushStage::ResetFifo => Some(Request::Write { value: FCR_RESET_TX, offset: FCR }),
            FlushStage::Done => None,
        }
    }

    /// Takes the reply to the current request.
    pub fn resume(&mut self, reply: u32)
        requires
            old(self).wf(),
        ensures
            *final(self) == old(self).next(reply),
            final(self).wf(),
            !(old(self).stage is Done) ==> final(self).left() < old(self).left(),
    {
        self.stage = match self.stage {
            FlushStage::StopTx(current) => {
                let mut update = current;
                update.resume(reply);
                match update.stage {
                    IerStage::Done => FlushStage::ResetFifo,
                    _ => FlushStage::StopTx(update),
                }
            },
            _ => FlushStage::Done,
        };
    }
}

impl DwUart {
    /// Takes a line status that was read outside the receive path, keeping its
    /// error bits for that path.
    pub fn lsr(&mut self, lsr: u32) -> (status: u32)
        ensures
            status == lsr,
            *final(self) == (DwUart {
                saved_lsr: old(self).saved_lsr | (lsr & LSR_ERRORS),
                ..*old(self)
            }),
    {
        self.saved_lsr = self.saved_lsr | (lsr & LSR_ERRORS);
        lsr
    }

    /// Whether FIFO and shift register have both drained, given the line status.
    pub fn tx_empty(&mut self, lsr: u32) -> (empty: bool)
        ensures
            empty == (lsr & 0x40 != 0),
            *final(self) == (DwUart {
                saved_lsr: old(self).saved_lsr | (lsr & LSR_ERRORS),
                ..*old(self)
            }),
    {
        self.lsr(lsr) & 0x40 != 0
    }

    /// Switches internal loopback. No modem lines are routed, so nothing else
    /// of the modem control is honored.
    pub fn set_loopback(enable: bool) -> (request: Request)
        ensures
            request == (Request::Write {
                value: if enable {
                    0x18
                } else {
                    0x08
                },
                offset: MCR,
            }),
    {
        Request::Write {
            value: if enable {
                0x18
            } else {
                0x08
            },
            offset: MCR,
        }
    }

    /// Initializes the device and enables receive interrupts. The accesses are
    /// made in order; what was latched before is read and forgotten.
    pub fn startup(&mut self) -> (accesses: [Request; 7])
        ensures
            accesses@ == seq![
                Request::Write { value: 0, offset: IER },
                Request::Write { value: FCR_RESET_ALL, offset: FCR },
                Request::Read { offset: LSR },
                Request::Read { offset: DATA },
                Request::Read { offset: FCR },
                Request::Read { offset: MSR },
                Request::Write { value: IER_RX | IER_LSR, offset: IER },
            ],
            *final(self) == (DwUart { saved_lsr: 0, ..*old(self) }),
    {
        self.saved_lsr = 0;
        let accesses = [
            Request::Write { value: 0, offset: IER },
            Request::Write { value: FCR_RESET_ALL, offset: FCR },
            Request::Read { offset: LSR },
            Request::Read { offset: DATA },
            Request::Read { offset: FCR },
            Request::Read { offset: MSR },
            Request::Write { value: IER_RX | IER_LSR, offset: IER },
        ];
        assert(accesses@ =~= seq![
            Request::Write { value: 0, offset: IER },
            Request::Write { value: FCR_RESET_ALL, offset: FCR },
            Request::Read { offset: LSR },
            Request::Read { offset: DATA },
            Request::Read { offset: FCR },
            Request::Read { offset: MSR },
            Request::Write { value: IER_RX | IER_LSR, offset: IER },
        ]);
        accesses
    }

    /// Begins to disable all interrupt sources and to cancel a break.
    pub fn shutdown() -> (shutdown: Shutdown)
        ensures
            shutdown.stage == ShutdownStage::MaskIer,
            shutdown.wf(),
    {
        Shutdown { stage: ShutdownStage::MaskIer }
    }

    /// Begins to disable the transmit interrupt.
    pub fn stop_tx() -> (update: IerUpdate)
        ensures
            update == IerUpdate::begun(Change::Lower(IER_TX)),
    {
        IerUpdate::new(Change::Lower(IER_TX))
    }

    /// Begins to discard output that the device holds.
    pub fn flush_tx() -> (flush: FlushTx)
        ensures
            flush.stage == FlushStage::StopTx(IerUpdate::begun(Change::Lower(IER_TX))),
            flush.wf(),
    {
        FlushTx { stage: FlushStage::StopTx(Self::stop_tx()) }
    }

    /// Begins to disable the receive interrupts.
    pub fn stop_rx() -> (update: IerUpdate)
        ensures
            update == IerUpdate::begun(Change::Lower(IER_RX | IER_LSR)),
    {
        IerUpdate::new(Change::Lower(IER_RX | IER_LSR))
    }

    /// Begins to set or clear a break.
    pub fn set_break(enable: bool) -> (update: BreakUpdate)
        ensures
            update == BreakUpdate::begun(
                if enable {
                    Change::Raise(LCR_BREAK)
                } else {
                    Change::Lower(LCR_BREAK)
                },
            ),
            update.wf(),
    {
        BreakUpdate {
            change: if enable {
                Change::Raise(LCR_BREAK)
            } else {
                Change::Lower(LCR_BREAK)
            },
            stage: BreakStage::Read,
        }
    }
}

// ---------------------------------------------------------------------------
// Laws
// ---------------------------------------------------------------------------

/// A change sets or clears its own bits and leaves every other bit alone.
pub proof fn law_change_is_confined(bits: u32, value: u32)
    ensures
        Change::Raise(bits).applied_to(value) & bits == bits,
        Change::Lower(bits).applied_to(value) & bits == 0,
        Change::Raise(bits).applied_to(value) & !bits == value & !bits,
        Change::Lower(bits).applied_to(value) & !bits == value & !bits,
{
    lemma_raise_and_lower(value, bits);
}

/// A shutdown masks every interrupt before anything else, and what it then
/// writes to the line control register is what it read, without the break.
pub proof fn law_shutdown_masks_first_and_cancels_break(shutdown: Shutdown, lcr: u32)
    ensures
        shutdown.stage is MaskIer ==> {
            &&& shutdown.pending() == Some(Request::Write { value: 0, offset: IER })
            &&& shutdown.next(lcr).pending() == Some(Request::Read { offset: LCR })
        },
        shutdown.stage == ShutdownStage::ClearBreak(BreakUpdate::begun(Change::Lower(LCR_BREAK)))
            ==> {
            &&& shutdown.next(lcr).pending() == Some(
                Request::Write { value: lcr & !LCR_BREAK, offset: LCR },
            )
            &&& (lcr & !LCR_BREAK) & LCR_BREAK == 0
        },
{
    law_change_is_confined(LCR_BREAK, lcr);
}

/// Error bits seen outside the receive path stay parked, whatever is read next.
pub proof fn law_parked_errors_accumulate(saved: u32, first: u32, second: u32)
    ensures
        ({
            let parked = (saved | (first & LSR_ERRORS)) | (second & LSR_ERRORS);
            &&& parked & saved == saved
            &&& parked & (first & LSR_ERRORS) == first & LSR_ERRORS
            &&& parked & (second & LSR_ERRORS) == second & LSR_ERRORS
        }),
{
    assert(({
        let parked = (saved | (first & 0x1e)) | (second & 0x1e);
        &&& parked & saved == saved
        &&& parked & (first & 0x1e) == first & 0x1e
        &&& parked & (second & 0x1e) == second & 0x1e
    })) by (bit_vector);
}

/// The fixed operations go by what they ask for and what they are told.
pub proof fn law_operations_are_machines(
    update: &mut IerUpdate,
    brk: &mut BreakUpdate,
    shutdown: &mut Shutdown,
    flush: &mut FlushTx,
    reply: u32,
    asking: (&IerUpdate, &BreakUpdate, &Shutdown, &FlushTx),
    update_request: Option<Request>,
    brk_request: Option<Request>,
    shutdown_request: Option<Request>,
    flush_request: Option<Request>,
)
    requires
        call_ensures(IerUpdate::resume, (update, reply), ()),
        call_ensures(BreakUpdate::resume, (brk, reply), ()),
        call_ensures(Shutdown::resume, (shutdown, reply), ()),
        call_ensures(FlushTx::resume, (flush, reply), ()),
        call_ensures(IerUpdate::request, (asking.0,), update_request),
        call_ensures(BreakUpdate::request, (asking.1,), brk_request),
        call_ensures(Shutdown::request, (asking.2,), shutdown_request),
        call_ensures(FlushTx::request, (asking.3,), flush_request),
    ensures
        *final(update) == old(update).next(reply),
        *final(brk) == old(brk).next(reply),
        *final(shutdown) == old(shutdown).next(reply),
        *final(flush) == old(flush).next(reply),
        update_request == asking.0.pending(),
        brk_request == asking.1.pending(),
        shutdown_request == asking.2.pending(),
        flush_request == asking.3.pending(),
{
}

/// Disabling interrupts reads which are enabled and writes them back without
/// the transmit interrupt, or without the two receive interrupts; every other
/// bit stays.
pub proof fn law_interrupts_are_disabled_alone(
    tx: IerUpdate,
    rx: IerUpdate,
    ier: u32,
    ignored: u32,
)
    requires
        call_ensures(DwUart::stop_tx, (), tx),
        call_ensures(DwUart::stop_rx, (), rx),
    ensures
        tx.pending() == Some(Request::Read { offset: 0x04 }),
        tx.next(ier).pending() == Some(Request::Write { value: ier & !2u32, offset: 0x04 }),
        tx.next(ier).next(ignored).pending() is None,
        rx.pending() == Some(Request::Read { offset: 0x04 }),
        rx.next(ier).pending() == Some(Request::Write { value: ier & !5u32, offset: 0x04 }),
        rx.next(ier).next(ignored).pending() is None,
{
    lemma_constants();
}

/// Discarding output disables the transmit interrupt and then resets the
/// transmit FIFO, and nothing else: the receive FIFO is kept.
pub proof fn law_flush_resets_the_transmit_fifo(
    flush: FlushTx,
    ier: u32,
    ignored: u32,
    nothing: u32,
)
    requires
        call_ensures(DwUart::flush_tx, (), flush),
    ensures
        flush.pending() == Some(Request::Read { offset: 0x04 }),
        flush.next(ier).pending() == Some(Request::Write { value: ier & !2u32, offset: 0x04 }),
        flush.next(ier).next(ignored).pending() == Some(
            Request::Write { value: 0x4d, offset: 0x08 },
        ),
        flush.next(ier).next(ignored).next(nothing).pending() is None,
{
}

/// Setting or clearing a break writes back the line control register as it was
/// read, with only the break bit changed, and ends with that write.
pub proof fn law_break_changes_one_bit(
    enable: bool,
    update: BreakUpdate,
    lcr: u32,
    write: LcrWrite,
    reply: u32,
)
    requires
        call_ensures(DwUart::set_break, (enable,), update),
    ensures
        update.pending() == Some(Request::Read { offset: 0x0c }),
        ({
            let value = if enable {
                lcr | 0x40
            } else {
                lcr & !0x40u32
            };
            let writing = update.next(lcr);
            &&& writing.stage == BreakStage::Write(LcrWrite::begun(value))
            &&& writing.pending() == Some(Request::Write { value, offset: 0x0c })
            &&& value & !0x40u32 == lcr & !0x40u32
            &&& value & 0x40 != 0 <==> enable
        }),
        ({
            let on = BreakUpdate { stage: BreakStage::Write(write), ..update }.next(reply);
            if write.next(reply).stage is Done {
                on.pending() is None
            } else {
                on.pending() == write.next(reply).pending()
            }
        }),
{
    lemma_raise_and_lower(lcr, 0x40);
}

/// A shutdown masks every interrupt, takes the break off the line control
/// register as it was read, and then resets both FIFOs.
pub proof fn law_shutdown_silences_the_device(
    begun: Shutdown,
    ignored: u32,
    lcr: u32,
    write: LcrWrite,
    reply: u32,
)
    requires
        call_ensures(DwUart::shutdown, (), begun),
        !(write.stage is Done),
    ensures
        begun.pending() == Some(Request::Write { value: 0, offset: 0x04 }),
        begun.next(ignored).pending() == Some(Request::Read { offset: 0x0c }),
        begun.next(ignored).next(lcr).pending() == Some(
            Request::Write { value: lcr & !0x40u32, offset: 0x0c },
        ),
        ({
            let clearing = Shutdown {
                stage: ShutdownStage::ClearBreak(
                    BreakUpdate {
                        change: Change::Lower(LCR_BREAK),
                        stage: BreakStage::Write(write),
                    },
                ),
            };
            let next = clearing.next(reply);
            if write.next(reply).stage is Done {
                &&& next.pending() == Some(Request::Write { value: 0x4f, offset: 0x08 })
                &&& next.next(ignored).pending() is None
            } else {
                next.pending() == write.next(reply).pending()
            }
        }),
{
}

/// Starting the device masks its interrupts, resets both FIFOs, reads and
/// forgets what was latched, and enables the receive interrupts alone.
pub proof fn law_startup_course(uart: &mut DwUart, accesses: [Request; 7])
    requires
        call_ensures(DwUart::startup, (uart,), accesses),
    ensures
        accesses@[0] == (Request::Write { value: 0, offset: 0x04 }),
        accesses@[1] == (Request::Write { value: 0x4f, offset: 0x08 }),
        accesses@[2] == (Request::Read { offset: 0x14 }),
        accesses@[3] == (Request::Read { offset: 0x00 }),
        accesses@[4] == (Request::Read { offset: 0x08 }),
        accesses@[5] == (Request::Read { offset: 0x18 }),
        accesses@[6] == (Request::Write { value: 5, offset: 0x04 }),
        final(uart).saved_lsr == 0,
        *final(uart) == (DwUart { saved_lsr: 0, ..*old(uart) }),
{
    lemma_constants();
}

/// A line status that is read outside the receive path is reported as it is,
/// and its error bits are parked on top of those parked before: bits 1 to 4,
/// and no others. The transmitter is empty when bit 6 says so.
pub proof fn law_line_errors_are_parked(
    uart: &mut DwUart,
    lsr: u32,
    status: u32,
    asked: &mut DwUart,
    empty: bool,
)
    requires
        call_ensures(DwUart::lsr, (uart, lsr), status),
        *old(asked) == *old(uart),
        call_ensures(DwUart::tx_empty, (asked, lsr), empty),
    ensures
        status == lsr,
        empty <==> lsr & 0x40 != 0,
        *final(asked) == *final(uart),
        ({
            let (saved, parked) = (old(uart).saved_lsr, final(uart).saved_lsr);
            &&& parked & 0x1e == (saved | lsr) & 0x1e
            &&& parked & !0x1eu32 == saved & !0x1eu32
        }),
        *final(uart) == (DwUart { saved_lsr: final(uart).saved_lsr, ..*old(uart) }),
{
    let saved = old(uart).saved_lsr;
    lemma_line_status(lsr, saved);
}

/// Loopback is one bit of the modem control register; the other one that is
/// written enables the interrupt output.
pub proof fn law_loopback_is_one_bit(on: Request, off: Request)
    requires
        call_ensures(DwUart::set_loopback, (true,), on),
        call_ensures(DwUart::set_loopback, (false,), off),
    ensures
        on == (Request::Write { value: 0x18, offset: 0x10 }),
        off == (Request::Write { value: 0x08, offset: 0x10 }),
{
}

/// A change of enabled interrupts touches its bits alone: raising sets them,
/// lowering clears them, and no other bit of the register is different.
pub proof fn law_change_touches_its_bits(
    value: u32,
    bits: u32,
    other: u32,
    raised: u32,
    lowered: u32,
    update: IerUpdate,
)
    requires
        call_ensures(Change::apply, (Change::Raise(bits), value), raised),
        call_ensures(Change::apply, (Change::Lower(bits), value), lowered),
        call_ensures(IerUpdate::new, (Change::Raise(bits),), update),
        other & bits == 0,
    ensures
        raised & bits == bits,
        lowered & bits == 0,
        raised & other == value & other,
        lowered & other == value & other,
        update == (IerUpdate { change: Change::Raise(bits), stage: IerStage::Read }),
{
    assert((value | bits) & bits == bits && (value & !bits) & bits == 0 && (value | bits) & other
        == value & other && (value & !bits) & other == value & other) by (bit_vector)
        requires
            other & bits == 0,
    ;
}

} // verus!
