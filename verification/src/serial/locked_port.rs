//! The part of a serial-core port that a driver touches while the port's
//! spinlock is held.
//!
//! The fields are those of the port at the moment the lock was taken. What a
//! driver asks of serial core in the meantime is collected, in order, as
//! [`Effect`]s; the holder of the lock carries them out, takes as many bytes
//! off the transmit queue as left [`LockedPort::xmit`], and stores the rest.

use std::collections::VecDeque;
use vstd::prelude::*;
use crate::ring::min;
use crate::serial::receive;

verus! {

/// Serial core wakes writers when fewer bytes than this are queued.
pub const WAKEUP_CHARS: usize = 256;

/// Traffic and error counters of a port. They wrap around.
#[derive(Clone, Copy, Debug, PartialEq, Eq, Structural)]
pub struct Icount {
    pub rx: u32,
    pub tx: u32,
    pub frame: u32,
    pub overrun: u32,
    pub parity: u32,
    pub brk: u32,
}

/// How the line discipline is to take a character.
#[derive(Clone, Copy, Debug, PartialEq, Eq, Structural)]
pub enum TtyFlag {
    Normal,
    Break,
    Parity,
    Frame,
}

/// Something that serial core is asked to do.
#[derive(Clone, Copy, Debug, PartialEq, Eq, Structural)]
pub enum Effect {
    /// Insert a received character, subject to the port's ignore mask.
    InsertChar { status: u32, overrun: u32, byte: u8, flag: TtyFlag },
    /// Insert the first `count` bytes of the DMA receive buffer.
    ReceiveDma { count: usize },
    /// Wake blocked writers.
    WriteWakeup,
    /// Make accumulated input visible to the line discipline.
    PushFlipBuffer,
}

/// What becomes of a received character.
#[derive(Clone, Copy, Debug, PartialEq, Eq, Structural)]
pub enum Reception {
    /// The character has been dealt with.
    Settled,
    /// A break: serial core is asked whether it takes it, and
    /// [`LockedPort::receive_break`] is told the answer.
    AskBreak,
}

/// A counter after one more event.
pub open spec fn counted(count: u32) -> u32 {
    if count == u32::MAX {
        0
    } else {
        (count + 1) as u32
    }
}

/// The flag `bit` is set in `status`.
pub open spec fn flagged(status: u32, bit: u32) -> bool {
    status & bit != 0
}

/// The abstract state of a locked port.
#[verifier::ext_equal]
pub ghost struct PortState {
    pub x_char: u8,
    pub tx_stopped: bool,
    pub xmit: Seq<u8>,
    pub icount: Icount,
    pub read_status_mask: u32,
    pub ignore_status_mask: u32,
    pub uartclk: u32,
    pub effects: Seq<Effect>,
}

impl PortState {
    /// One more request to serial core.
    pub open spec fn asked(self, effect: Effect) -> PortState {
        PortState { effects: self.effects.push(effect), ..self }
    }

    /// A port with nothing queued, nothing counted and nothing asked.
    pub open spec fn fresh(uartclk: u32) -> PortState {
        PortState {
            x_char: 0,
            tx_stopped: false,
            xmit: Seq::empty(),
            icount: Icount { rx: 0, tx: 0, frame: 0, overrun: 0, parity: 0, brk: 0 },
            read_status_mask: 0,
            ignore_status_mask: 0,
            uartclk,
            effects: Seq::empty(),
        }
    }

    /// The byte to transmit next: a pending XON/XOFF byte, which not even a
    /// stopped port holds back, and otherwise the oldest queued byte.
    pub open spec fn next_byte(self) -> Option<u8> {
        if self.x_char != 0 {
            Some(self.x_char)
        } else if self.tx_stopped || self.xmit.len() == 0 {
            None
        } else {
            Some(self.xmit[0])
        }
    }

    /// The port once [`PortState::next_byte`] has been taken.
    pub open spec fn byte_taken(self) -> PortState {
        if self.x_char != 0 {
            PortState {
                x_char: 0,
                icount: Icount { tx: counted(self.icount.tx), ..self.icount },
                ..self
            }
        } else if self.tx_stopped || self.xmit.len() == 0 {
            self
        } else {
            PortState { xmit: self.xmit.skip(1), ..self }
        }
    }

    /// The port once its writers have been woken, if the queue runs low.
    pub open spec fn writers_woken(self) -> PortState {
        if self.xmit.len() < WAKEUP_CHARS {
            self.asked(Effect::WriteWakeup)
        } else {
            self
        }
    }

    /// The first `count` queued bytes are gone; fewer if fewer are queued.
    pub open spec fn advanced(self, count: int) -> PortState {
        PortState { xmit: self.xmit.skip(min(count, self.xmit.len() as int)), ..self }
    }

    /// The port once a character with these status flags has been counted. A
    /// break hides parity and framing errors, and parity errors hide framing
    /// errors.
    pub open spec fn char_counted(self, status: u32) -> PortState {
        let icount = Icount { rx: counted(self.icount.rx), ..self.icount };
        PortState {
            icount: if flagged(status, receive::BREAK) {
                Icount { brk: counted(icount.brk), ..icount }
            } else if flagged(status, receive::PARITY) {
                Icount { parity: counted(icount.parity), ..icount }
            } else if flagged(status, receive::FRAME) {
                Icount { frame: counted(icount.frame), ..icount }
            } else {
                icount
            },
            ..self
        }
    }

    /// The flags of a character that the port's read mask lets through.
    pub open spec fn masked(self, status: u32) -> u32 {
        (status | receive::DATA) & self.read_status_mask
    }

    /// The port once a counted character has been inserted.
    pub open spec fn char_inserted(self, byte: u8, status: u32) -> PortState {
        let icount = if flagged(status, receive::OVERRUN) {
            Icount { overrun: counted(self.icount.overrun), ..self.icount }
        } else {
            self.icount
        };
        PortState { icount, ..self }.asked(
            Effect::InsertChar {
                status: self.masked(status),
                overrun: receive::OVERRUN,
                byte,
                flag: tty_flag_of(self.masked(status)),
            },
        )
    }

    /// The port once a character has been received.
    pub open spec fn char_received(self, byte: u8, status: u32) -> PortState {
        if flagged(status, receive::BREAK) {
            self.char_counted(status)
        } else {
            self.char_counted(status).char_inserted(byte, status)
        }
    }

    /// The port once serial core has said whether it takes a break.
    pub open spec fn break_settled(self, byte: u8, status: u32, taken: bool) -> PortState {
        if taken {
            self
        } else {
            self.char_inserted(byte, status & !(receive::PARITY | receive::FRAME))
        }
    }
}

/// How the line discipline takes a character with these flags.
pub open spec fn tty_flag_of(status: u32) -> TtyFlag {
    if flagged(status, receive::BREAK) {
        TtyFlag::Break
    } else if flagged(status, receive::PARITY) {
        TtyFlag::Parity
    } else if flagged(status, receive::FRAME) {
        TtyFlag::Frame
    } else {
        TtyFlag::Normal
    }
}

/// A counter after one more event.
fn count_one(count: u32) -> (next: u32)
    ensures
        next == counted(count),
{
    if count == u32::MAX {
        0
    } else {
        count + 1
    }
}

/// A serial-core port while its spinlock is held.
pub struct LockedPort {
    /// A pending XON/XOFF byte, or zero.
    pub x_char: u8,
    /// Output is stopped by flow control.
    pub tx_stopped: bool,
    /// The transmit queue, oldest byte first.
    pub xmit: VecDeque<u8>,
    pub icount: Icount,
    /// Status flags that are kept.
    pub read_status_mask: u32,
    /// Status flags whose characters are dropped.
    pub ignore_status_mask: u32,
    /// Input clock rate in Hz.
    pub uartclk: u32,
    /// What serial core is asked to do, in order.
    pub effects: Vec<Effect>,
}

impl View for LockedPort {
    type V = PortState;

    open spec fn view(&self) -> PortState {
        PortState {
            x_char: self.x_char,
            tx_stopped: self.tx_stopped,
            xmit: self.xmit@,
            icount: self.icount,
            read_status_mask: self.read_status_mask,
            ignore_status_mask: self.ignore_status_mask,
            uartclk: self.uartclk,
            effects: self.effects@,
        }
    }
}

impl LockedPort {
    /// A port with nothing queued and nothing counted.
    pub fn new(uartclk: u32) -> (port: LockedPort)
        ensures
            port@ == PortState::fresh(uartclk),
    {
        LockedPort {
            x_char: 0,
            tx_stopped: false,
            xmit: VecDeque::new(),
            icount: Icount { rx: 0, tx: 0, frame: 0, overrun: 0, parity: 0, brk: 0 },
            read_status_mask: 0,
            ignore_status_mask: 0,
            uartclk,
            effects: Vec::new(),
        }
    }

    /// Pops an XON/XOFF byte first, then an ordinary queued byte. Serial core
    /// counts ordinary bytes itself when they leave its queue.
    pub fn next_tx(&mut self) -> (byte: Option<u8>)
        ensures
            byte == old(self)@.next_byte(),
            final(self)@ == old(self)@.byte_taken(),
    {
        if self.x_char != 0 {
            let byte = self.x_char;
            self.x_char = 0;
            self.icount.tx = count_one(self.icount.tx);
            return Some(byte);
        }
        if self.tx_stopped {
            return None;
        }
        let byte = self.xmit.pop_front();
        assert(self@ =~= old(self)@.byte_taken());
        byte
    }

    /// Wakes blocked writers when the transmit queue is running low.
    pub fn wake_writers(&mut self)
        ensures
            final(self)@ == old(self)@.writers_woken(),
    {
        if self.xmit.len() < WAKEUP_CHARS {
            self.effects.push(Effect::WriteWakeup);
        }
        assert(self@ =~= old(self)@.writers_woken());
    }

    /// Accounts a received byte and its errors, and inserts it using the
    /// port's filter. A break is first offered to serial core.
    pub fn receive(&mut self, byte: u8, status: u32) -> (reception: Reception)
        ensures
            final(self)@ == old(self)@.char_received(byte, status),
            reception == if flagged(status, receive::BREAK) {
                Reception::AskBreak
            } else {
                Reception::Settled
            },
    {
        self.icount.rx = count_one(self.icount.rx);
        if status & receive::BREAK != 0 {
            self.icount.brk = count_one(self.icount.brk);
            return Reception::AskBreak;
        }
        if status & receive::PARITY != 0 {
            self.icount.parity = count_one(self.icount.parity);
        } else if status & receive::FRAME != 0 {
            self.icount.frame = count_one(self.icount.frame);
        }
        assert(self@ =~= old(self)@.char_counted(status));
        self.insert_char(byte, status);
        Reception::Settled
    }

    /// Ends the reception of a break, which serial core has `taken` or left.
    pub fn receive_break(&mut self, byte: u8, status: u32, taken: bool)
        ensures
            final(self)@ == old(self)@.break_settled(byte, status, taken),
    {
        if !taken {
            self.insert_char(byte, status & !(receive::PARITY | receive::FRAME));
        }
    }

    /// Counts an overrun and inserts a character.
    fn insert_char(&mut self, byte: u8, status: u32)
        ensures
            final(self)@ == old(self)@.char_inserted(byte, status),
    {
        if status & receive::OVERRUN != 0 {
            self.icount.overrun = count_one(self.icount.overrun);
        }
        let status = (status | receive::DATA) & self.read_status_mask;
        let flag = if status & receive::BREAK != 0 {
            TtyFlag::Break
        } else if status & receive::PARITY != 0 {
            TtyFlag::Parity
        } else if status & receive::FRAME != 0 {
            TtyFlag::Frame
        } else {
            TtyFlag::Normal
        };
        self.effects.push(
            Effect::InsertChar { status, overrun: receive::OVERRUN, byte, flag },
        );
    }

    /// Makes accumulated input visible to the TTY line discipline.
    pub fn push_rx(&mut self)
        ensures
            final(self)@ == old(self)@.asked(Effect::PushFlipBuffer),
    {
        self.effects.push(Effect::PushFlipBuffer);
    }

    /// An XON/XOFF byte is to go out before anything queued.
    pub fn tx_priority(&self) -> (priority: bool)
        ensures
            priority == (self@.x_char != 0),
    {
        self.x_char != 0
    }

    /// Number of queued bytes.
    pub fn tx_pending(&self) -> (count: usize)
        ensures
            count == self@.xmit.len(),
    {
        self.xmit.len()
    }

    /// Copies the oldest queued bytes, at most `limit`, into `block` and leaves
    /// them queued. What `block` held before is gone; within its capacity
    /// nothing is allocated.
    pub fn peek_tx(&self, limit: usize, block: &mut Vec<u8>) -> (count: usize)
        ensures
            count == min(limit as int, self@.xmit.len() as int),
            final(block)@ == self@.xmit.take(count as int),
    {
        block.clear();
        let mut i: usize = 0;
        assert(block@ =~= self.xmit@.take(0));
        while i < limit && i < self.xmit.len()
            invariant
                i <= limit,
                i <= self.xmit@.len(),
                block@ == self.xmit@.take(i as int),
            decreases self.xmit@.len() - i,
        {
            block.push(self.xmit[i]);
            i = i + 1;
            assert(block@ =~= self.xmit@.take(i as int));
        }
        i
    }

    /// Removes the oldest `count` queued bytes; all of them if fewer are queued.
    pub fn advance_tx(&mut self, count: usize)
        ensures
            final(self)@ == old(self)@.advanced(count as int),
    {
        let mut i: usize = 0;
        while i < count && self.xmit.len() > 0
            invariant
                i <= count,
                i <= old(self).xmit@.len(),
                self.xmit@ == old(self).xmit@.skip(i as int),
                self@ == (PortState { xmit: self.xmit@, ..old(self)@ }),
            decreases count - i,
        {
            let _ = self.xmit.pop_front();
            i = i + 1;
            assert(self.xmit@ =~= old(self).xmit@.skip(i as int));
        }
        assert(self@ =~= old(self)@.advanced(count as int));
    }

    /// Inserts the first `count` bytes of the DMA receive buffer.
    pub fn receive_dma(&mut self, count: usize)
        ensures
            final(self)@ == old(self)@.asked(Effect::ReceiveDma { count }),
    {
        self.effects.push(Effect::ReceiveDma { count });
    }
}

// ---------------------------------------------------------------------------
// Laws
// ---------------------------------------------------------------------------

/// An XON/XOFF byte goes out before anything that is queued, even when output
/// is stopped, and exactly once.
pub proof fn law_flow_control_byte_goes_first(port: PortState)
    requires
        port.x_char != 0,
    ensures
        port.next_byte() == Some(port.x_char),
        port.byte_taken().xmit == port.xmit,
        port.byte_taken().x_char == 0,
        port.byte_taken().icount.tx == counted(port.icount.tx),
{
}

/// Every received character is counted once, and at most one of the break,
/// parity and framing counters moves with it.
pub proof fn law_each_character_is_counted_once(port: PortState, byte: u8, status: u32)
    ensures
        ({
            let after = port.char_received(byte, status).icount;
            let before = port.icount;
            &&& after.rx == counted(before.rx)
            &&& after.tx == before.tx
            &&& after.brk != before.brk ==> after.parity == before.parity && after.frame
                == before.frame && after.overrun == before.overrun
            &&& after.parity != before.parity ==> after.frame == before.frame
        }),
{
}

/// A character that arrives without a break is inserted exactly once; a break
/// is inserted only once serial core has left it.
pub proof fn law_break_is_inserted_once(port: PortState, byte: u8, status: u32)
    ensures
        !flagged(status, receive::BREAK) ==> port.char_received(byte, status).effects.len()
            == port.effects.len() + 1,
        flagged(status, receive::BREAK) ==> {
            let counted_port = port.char_received(byte, status);
            &&& counted_port.effects == port.effects
            &&& counted_port.break_settled(byte, status, true).effects == port.effects
            &&& counted_port.break_settled(byte, status, false).effects.len()
                == port.effects.len() + 1
        },
{
}

/// What goes out next: an XON/XOFF byte at once, then the oldest queued byte
/// unless output is stopped. What is taken is what leaves, and nothing else
/// changes but the count of an XON/XOFF byte.
pub proof fn law_next_byte_leaves_in_order(port: &mut LockedPort, byte: Option<u8>)
    requires
        call_ensures(LockedPort::next_tx, (port,), byte),
    ensures
        old(port).x_char != 0 ==> {
            &&& byte == Some(old(port).x_char)
            &&& final(port).xmit@ == old(port).xmit@
            &&& final(port).x_char == 0
            &&& moved(old(port).icount.tx, final(port).icount.tx, true)
            &&& final(port).icount == (Icount { tx: final(port).icount.tx, ..old(port).icount })
        },
        old(port).x_char == 0 ==> {
            &&& final(port).x_char == 0
            &&& final(port).icount == old(port).icount
            &&& byte is None <==> old(port).tx_stopped || old(port).xmit@.len() == 0
            &&& byte is None ==> final(port).xmit@ == old(port).xmit@
            &&& byte is Some ==> old(port).xmit@ == seq![byte->0] + final(port).xmit@
        },
        final(port).effects@ == old(port).effects@,
        final(port).tx_stopped == old(port).tx_stopped,
        final(port).read_status_mask == old(port).read_status_mask,
        final(port).ignore_status_mask == old(port).ignore_status_mask,
        final(port).uartclk == old(port).uartclk,
{
    let (before, after) = (old(port)@, final(port)@);
    assert(after.xmit == final(port).xmit@ && after.effects == final(port).effects@);
    if byte is Some && old(port).x_char == 0 {
        assert(before.xmit =~= seq![before.xmit[0]] + before.xmit.skip(1));
    }
}

/// Writers are woken exactly when fewer than 256 bytes are queued.
pub proof fn law_writers_are_woken_when_the_queue_runs_low(port: &mut LockedPort)
    requires
        call_ensures(LockedPort::wake_writers, (port,), ()),
    ensures
        final(port)@ == (PortState {
            effects: if old(port).xmit@.len() < 256 {
                old(port).effects@.push(Effect::WriteWakeup)
            } else {
                old(port).effects@
            },
            ..old(port)@
        }),
{
}

/// Copying and removing go together: the bytes that are copied are the oldest,
/// and removing as many leaves the rest.
pub proof fn law_copied_bytes_can_be_removed(
    port: &LockedPort,
    limit: usize,
    block: &mut Vec<u8>,
    count: usize,
    advancing: &mut LockedPort,
)
    requires
        call_ensures(LockedPort::peek_tx, (port, limit, block), count),
        old(advancing)@ == port@,
        call_ensures(LockedPort::advance_tx, (advancing, count), ()),
    ensures
        count <= limit && count <= port.xmit@.len(),
        count == limit || count == port.xmit@.len(),
        final(block)@.len() == count,
        final(block)@ + final(advancing).xmit@ == port.xmit@,
        final(advancing)@ == (PortState { xmit: final(advancing).xmit@, ..port@ }),
{
    assert(final(advancing)@.xmit == final(advancing).xmit@);
    assert(port.xmit@.take(count as int) + port.xmit@.skip(count as int) =~= port.xmit@);
}

/// Removing more than is queued empties the queue.
pub proof fn law_removal_stops_at_the_end(port: &mut LockedPort, count: usize)
    requires
        call_ensures(LockedPort::advance_tx, (port, count), ()),
    ensures
        count >= old(port).xmit@.len() ==> final(port).xmit@.len() == 0,
        count < old(port).xmit@.len() ==> final(port).xmit@ == old(port).xmit@.skip(count as int),
        final(port)@ == (PortState { xmit: final(port).xmit@, ..old(port)@ }),
{
    assert(final(port)@.xmit == final(port).xmit@);
}

/// A character that arrives without a break is inserted at once, as it is: with
/// its byte, with those of its flags that the port reads, and marked for the
/// worst of them. It is counted, and so are its errors: an overrun always, and
/// a framing error where there is no parity error.
pub proof fn law_character_is_inserted_as_received(
    port: &mut LockedPort,
    byte: u8,
    status: u32,
    reception: Reception,
)
    requires
        call_ensures(LockedPort::receive, (port, byte, status), reception),
        status & 8 == 0,
    ensures
        reception == Reception::Settled,
        final(port)@.effects.len() == old(port)@.effects.len() + 1,
        final(port)@.effects.drop_last() == old(port)@.effects,
        ({
            let kept = (status | 16) & old(port).read_status_mask;
            final(port)@.effects.last() == Effect::InsertChar {
                status: kept,
                overrun: 1,
                byte,
                flag: if kept & 8 != 0 {
                    TtyFlag::Break
                } else if kept & 2 != 0 {
                    TtyFlag::Parity
                } else if kept & 4 != 0 {
                    TtyFlag::Frame
                } else {
                    TtyFlag::Normal
                },
            }
        }),
        moved(old(port).icount.rx, final(port).icount.rx, true),
        moved(old(port).icount.overrun, final(port).icount.overrun, status & 1 != 0),
        moved(old(port).icount.parity, final(port).icount.parity, status & 2 != 0),
        moved(
            old(port).icount.frame,
            final(port).icount.frame,
            status & 4 != 0 && status & 2 == 0,
        ),
        final(port).icount.brk == old(port).icount.brk,
        final(port).icount.tx == old(port).icount.tx,
        final(port)@ == (PortState {
            effects: final(port)@.effects,
            icount: final(port).icount,
            ..old(port)@
        }),
{
    assert(final(port)@.icount == final(port).icount);
    assert(final(port)@.effects.drop_last() =~= old(port)@.effects);
}

/// A counter went up by one, around its end, or stayed.
pub open spec fn moved(before: u32, after: u32, once: bool) -> bool {
    if once {
        after == (before + 1) % 0x1_0000_0000
    } else {
        after == before
    }
}

/// A break is counted as a character and as a break when it arrives, and asked
/// about. It is inserted only if serial core leaves it, then as a break without
/// the parity and framing errors that come with it.
pub proof fn law_break_is_offered_before_it_is_inserted(
    port: &mut LockedPort,
    byte: u8,
    status: u32,
    reception: Reception,
    settling: &mut LockedPort,
    taken: bool,
)
    requires
        call_ensures(LockedPort::receive, (port, byte, status), reception),
        status & 8 != 0,
        old(settling)@ == final(port)@,
        call_ensures(LockedPort::receive_break, (settling, byte, status, taken), ()),
    ensures
        reception == Reception::AskBreak,
        final(port)@ == (PortState { icount: final(port).icount, ..old(port)@ }),
        moved(old(port).icount.rx, final(port).icount.rx, true),
        moved(old(port).icount.brk, final(port).icount.brk, true),
        final(port).icount == (Icount {
            rx: final(port).icount.rx,
            brk: final(port).icount.brk,
            ..old(port).icount
        }),
        taken ==> final(settling)@ == final(port)@,
        !taken ==> {
            let kept = ((status & !6) | 16) & old(port).read_status_mask;
            &&& final(settling)@.effects == old(port)@.effects.push(
                Effect::InsertChar {
                    status: kept,
                    overrun: 1,
                    byte,
                    flag: if kept & 8 != 0 {
                        TtyFlag::Break
                    } else {
                        TtyFlag::Normal
                    },
                },
            )
            &&& moved(
                final(port).icount.overrun,
                final(settling).icount.overrun,
                status & 1 != 0,
            )
            &&& final(settling)@ == (PortState {
                effects: final(settling)@.effects,
                icount: Icount {
                    overrun: final(settling).icount.overrun,
                    ..final(port).icount
                },
                ..final(port)@
            })
        },
{
    assert(final(port)@.icount == final(port).icount);
    assert(final(settling)@.icount == final(settling).icount);
    let mask = old(port).read_status_mask;
    assert(2u32 | 4u32 == 6u32 && ((status & !6) | 16) & mask & 2 == 0 && ((status & !6) | 16)
        & mask & 4 == 0 && (status & !6) & 1 == status & 1) by (bit_vector);
}

/// What DMA has received is inserted from the start of its buffer, and pushing
/// input is asked for once.
pub proof fn law_input_is_handed_on(dma: &mut LockedPort, count: usize, pushing: &mut LockedPort)
    requires
        call_ensures(LockedPort::receive_dma, (dma, count), ()),
        call_ensures(LockedPort::push_rx, (pushing,), ()),
    ensures
        final(dma)@ == (PortState {
            effects: old(dma)@.effects.push(Effect::ReceiveDma { count }),
            ..old(dma)@
        }),
        final(pushing)@ == (PortState {
            effects: old(pushing)@.effects.push(Effect::PushFlipBuffer),
            ..old(pushing)@
        }),
{
}

/// A new port has nothing queued, counted or asked; a pending flow-control byte
/// has priority, and what is pending besides are the queued bytes.
pub proof fn law_new_port_is_empty(
    uartclk: u32,
    fresh: LockedPort,
    port: &LockedPort,
    priority: bool,
    count: usize,
)
    requires
        call_ensures(LockedPort::new, (uartclk,), fresh),
        call_ensures(LockedPort::tx_priority, (port,), priority),
        call_ensures(LockedPort::tx_pending, (port,), count),
    ensures
        fresh.uartclk == uartclk,
        fresh.x_char == 0 && !fresh.tx_stopped,
        fresh.xmit@.len() == 0 && fresh.effects@.len() == 0,
        fresh.read_status_mask == 0 && fresh.ignore_status_mask == 0,
        fresh.icount == (Icount { rx: 0, tx: 0, frame: 0, overrun: 0, parity: 0, brk: 0 }),
        priority <==> port.x_char != 0,
        count == port.xmit@.len(),
{
}

/// Whatever flags it came with: a break that serial core takes changes nothing,
/// and one that it leaves is inserted without parity and framing errors, and its
/// overrun is counted.
pub proof fn law_settled_break(port: &mut LockedPort, byte: u8, status: u32, taken: bool)
    requires
        call_ensures(LockedPort::receive_break, (port, byte, status, taken), ()),
    ensures
        taken ==> final(port)@ == old(port)@,
        !taken ==> {
            let kept = ((status & !6) | 16) & old(port).read_status_mask;
            &&& final(port)@.effects == old(port)@.effects.push(
                Effect::InsertChar {
                    status: kept,
                    overrun: 1,
                    byte,
                    flag: if kept & 8 != 0 {
                        TtyFlag::Break
                    } else {
                        TtyFlag::Normal
                    },
                },
            )
            &&& moved(old(port).icount.overrun, final(port).icount.overrun, status & 1 != 0)
            &&& final(port)@ == (PortState {
                effects: final(port)@.effects,
                icount: Icount { overrun: final(port).icount.overrun, ..old(port).icount },
                ..old(port)@
            })
        },
{
    assert(final(port)@.icount == final(port).icount);
    let mask = old(port).read_status_mask;
    assert(2u32 | 4u32 == 6u32 && ((status & !6) | 16) & mask & 2 == 0 && ((status & !6) | 16)
        & mask & 4 == 0 && (status & !6) & 1 == status & 1) by (bit_vector);
}

} // verus!
