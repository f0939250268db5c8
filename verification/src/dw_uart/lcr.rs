//! Writing the line control register.

use vstd::prelude::*;
use crate::dw_uart::{Request, DATA, FCR, FCR_RESET_ALL, LCR, USR};

verus! {

/// Most attempts at one write.
pub const ATTEMPTS: u32 = 1000;

/// Where an attempt stands.
#[derive(Clone, Copy, Debug, PartialEq, Eq, Structural)]
pub enum LcrStage {
    /// The value is written.
    Write,
    /// The register is read back.
    ReadBack,
    /// The device was busy: clear its busy-detect interrupt.
    ClearBusy,
    /// Reset the FIFOs.
    ResetFifos,
    /// Discard a received byte.
    Discard,
    /// The register took the value, or the attempts are used up.
    Done(bool),
}

/// A write to the line control register. The device may reject it while busy;
/// it is then forced idle, which includes resetting its FIFOs, and the write is
/// tried again a bounded number of times.
#[derive(Clone, Copy, Debug, PartialEq, Eq, Structural)]
pub struct LcrWrite {
    pub value: u32,
    /// Attempts that follow the current one.
    pub attempts: u32,
    pub stage: LcrStage,
}

impl LcrWrite {
    /// What the write needs next; `None` once it is done.
    pub open spec fn pending(self) -> Option<Request> {
        match self.stage {
            LcrStage::Write => Some(Request::Write { value: self.value, offset: LCR }),
            LcrStage::ReadBack => Some(Request::Read { offset: LCR }),
            LcrStage::ClearBusy => Some(Request::Read { offset: USR }),
            LcrStage::ResetFifos => Some(Request::Write { value: FCR_RESET_ALL, offset: FCR }),
            LcrStage::Discard => Some(Request::Read { offset: DATA }),
            LcrStage::Done(_) => None,
        }
    }

    /// The write after a reply.
    pub open spec fn next(self, reply: u32) -> LcrWrite {
        match self.stage {
            LcrStage::Write => LcrWrite { stage: LcrStage::ReadBack, ..self },
            LcrStage::ReadBack => LcrWrite {
                stage: if reply == self.value {
                    LcrStage::Done(true)
                } else {
                    LcrStage::ClearBusy
                },
                ..self
            },
            LcrStage::ClearBusy => LcrWrite { stage: LcrStage::ResetFifos, ..self },
            LcrStage::ResetFifos => LcrWrite { stage: LcrStage::Discard, ..self },
            LcrStage::Discard => if self.attempts == 0 {
                LcrWrite { stage: LcrStage::Done(false), ..self }
            } else {
                LcrWrite {
                    attempts: (self.attempts - 1) as u32,
                    stage: LcrStage::Write,
                    ..self
                }
            },
            LcrStage::Done(_) => self,
        }
    }

    /// Number of accesses that are at most still to come.
    pub open spec fn left(self) -> nat {
        match self.stage {
            LcrStage::Write => 5 * self.attempts as nat + 5,
            LcrStage::ReadBack => 5 * self.attempts as nat + 4,
            LcrStage::ClearBusy => 5 * self.attempts as nat + 3,
            LcrStage::ResetFifos => 5 * self.attempts as nat + 2,
            LcrStage::Discard => 5 * self.attempts as nat + 1,
            LcrStage::Done(_) => 0,
        }
    }

    /// Begins a write of `value`.
    pub open spec fn begun(value: u32) -> LcrWrite {
        LcrWrite { value, attempts: (ATTEMPTS - 1) as u32, stage: LcrStage::Write }
    }

    /// Begins a write of `value`.
    pub fn new(value: u32) -> (write: LcrWrite)
        ensures
            write == LcrWrite::begun(value),
            write.left() == 5 * ATTEMPTS,
    {
        LcrWrite { value, attempts: ATTEMPTS - 1, stage: LcrStage::Write }
    }

    /// What the write needs next; `None` once it is done.
    pub fn request(&self) -> (request: Option<Request>)
        ensures
            request == self.pending(),
            request is None <==> self.stage is Done,
    {
        match self.stage {
            LcrStage::Write => Some(Request::Write { value: self.value, offset: LCR }),
            LcrStage::ReadBack => Some(Request::Read { offset: LCR }),
            LcrStage::ClearBusy => Some(Request::Read { offset: USR }),
            LcrStage::ResetFifos => Some(Request::Write { value: FCR_RESET_ALL, offset: FCR }),
            LcrStage::Discard => Some(Request::Read { offset: DATA }),
            LcrStage::Done(_) => None,
        }
    }

    /// Takes the reply to the current request.
    pub fn resume(&mut self, reply: u32)
        ensures
            *final(self) == old(self).next(reply),
            !(old(self).stage is Done) ==> final(self).left() < old(self).left(),
    {
        self.stage = match self.stage {
            LcrStage::Write => LcrStage::ReadBack,
            LcrStage::ReadBack => if reply == self.value {
                LcrStage::Done(true)
            } else {
                LcrStage::ClearBusy
            },
            LcrStage::ClearBusy => LcrStage::ResetFifos,
            LcrStage::ResetFifos => LcrStage::Discard,
            LcrStage::Discard => if self.attempts == 0 {
                LcrStage::Done(false)
            } else {
                self.attempts = self.attempts - 1;
                LcrStage::Write
            },
            LcrStage::Done(taken) => LcrStage::Done(taken),
        };
    }

    /// Whether the register took the value, once the write is done.
    pub fn outcome(&self) -> (outcome: Option<bool>)
        ensures
            outcome == match self.stage {
                LcrStage::Done(taken) => Some(taken),
                _ => None,
            },
    {
        match self.stage {
            LcrStage::Done(taken) => Some(taken),
            _ => None,
        }
    }

    /// The write after a series of replies.
    pub open spec fn after(self, replies: Seq<u32>) -> LcrWrite
        decreases replies.len(),
    {
        if replies.len() == 0 {
            self
        } else {
            self.next(replies[0]).after(replies.skip(1))
        }
    }
}

// ---------------------------------------------------------------------------
// Laws
// ---------------------------------------------------------------------------

/// A write succeeds exactly when the register reads back as the value written,
/// and the first time that it does.
pub proof fn law_write_succeeds_on_read_back(write: LcrWrite, reply: u32)
    requires
        !(write.stage is Done),
    ensures
        write.next(reply).stage == LcrStage::Done(true) <==> write.stage is ReadBack && reply
            == write.value,
{
}

/// However busy the device is, a write ends after a bounded number of accesses.
pub proof fn law_write_is_bounded(write: LcrWrite, replies: Seq<u32>)
    requires
        replies.len() >= write.left(),
    ensures
        write.after(replies).stage is Done,
    decreases replies.len(),
{
    if replies.len() > 0 {
        if write.stage is Done {
            assert(write.next(replies[0]) == write);
        }
        law_write_is_bounded(write.next(replies[0]), replies.skip(1));
    }
}

/// A device that never shows the value is tried exactly as often as allowed,
/// and the write then fails.
pub proof fn law_write_gives_up(write: LcrWrite, replies: Seq<u32>)
    requires
        write.stage is Write,
        replies.len() == write.left(),
        forall|i: int| 0 <= i < replies.len() ==> replies[i] != write.value,
    ensures
        write.after(replies).stage == LcrStage::Done(false),
    decreases write.attempts,
{
    reveal_with_fuel(LcrWrite::after, 6);
    let rest = replies.skip(1).skip(1).skip(1).skip(1).skip(1);
    assert(rest =~= replies.skip(5));
    let again = write.next(replies[0]).next(replies[1]).next(replies[2]).next(replies[3]).next(
        replies[4],
    );
    assert(write.after(replies) == again.after(rest));
    if write.attempts > 0 {
        law_write_gives_up(again, rest);
    }
}

/// An attempt at a write: the value is written and read back. If the register
/// shows the value, that is all. Otherwise the device is forced idle: its status
/// is read, its FIFOs are reset, and a byte is discarded; and then the next
/// attempt follows, if there is one.
pub proof fn law_attempt_at_a_write(
    value: u32,
    new: LcrWrite,
    write: LcrWrite,
    ignored: u32,
    shown: u32,
    status: u32,
    nothing: u32,
    byte: u32,
)
    requires
        call_ensures(LcrWrite::new, (value,), new),
        write.stage is Write,
    ensures
        new.value == value && new.stage is Write && new.attempts == 999,
        ({
            let reading = write.next(ignored);
            let judged = reading.next(shown);
            let resetting = judged.next(status);
            let discarding = resetting.next(nothing);
            let again = discarding.next(byte);
            &&& write.pending() == Some(Request::Write { value: write.value, offset: 0x0c })
            &&& reading.pending() == Some(Request::Read { offset: 0x0c })
            &&& shown == write.value ==> judged.stage == LcrStage::Done(true)
                && judged.pending() is None
            &&& shown != write.value ==> {
                &&& judged.pending() == Some(Request::Read { offset: 0x7c })
                &&& resetting.pending() == Some(Request::Write { value: 0x4f, offset: 0x08 })
                &&& discarding.pending() == Some(Request::Read { offset: 0x00 })
                &&& write.attempts > 0 ==> again == (LcrWrite {
                    value: write.value,
                    attempts: (write.attempts - 1) as u32,
                    stage: LcrStage::Write,
                })
                &&& write.attempts == 0 ==> again.stage == LcrStage::Done(false)
            }
        }),
{
}

/// A write goes by what it asks for and what it is told, and its outcome is
/// what the register showed.
pub proof fn law_write_is_a_machine(
    write: &mut LcrWrite,
    reply: u32,
    asking: &LcrWrite,
    request: Option<Request>,
    outcome: Option<bool>,
)
    requires
        call_ensures(LcrWrite::resume, (write, reply), ()),
        call_ensures(LcrWrite::request, (asking,), request),
        call_ensures(LcrWrite::outcome, (asking,), outcome),
    ensures
        request == asking.pending(),
        *final(write) == old(write).next(reply),
        outcome is Some <==> asking.stage is Done,
        outcome is Some ==> asking.stage == LcrStage::Done(outcome->0),
{
}

} // verus!
