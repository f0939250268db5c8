//! Setting the framing and the baud rate.

use vstd::arithmetic::power2::pow2;
use vstd::prelude::*;
use crate::bits::{lemma_fields, lemma_raise_and_lower};
use crate::dw_uart::config::{
    divisible, divisor, is_divisor, lemma_divisor_gives_the_rate, lemma_line_control_bits,
    line_control, line_control_word, Divisor,
};
use crate::dw_uart::lcr::{LcrStage, LcrWrite, ATTEMPTS};
use crate::dw_uart::{DwUart, Request, DATA, DLF, FCR, FCR_ENABLE, IER, LCR, LCR_DLAB};
use crate::errno::Errno;
use crate::serial::termios::LineConfig;

verus! {

/// Where a configuration stands.
#[derive(Clone, Copy, Debug, PartialEq, Eq, Structural)]
pub enum ConfigureStage {
    /// Read the framing in effect.
    ReadLcr,
    /// Read the enabled interrupts.
    ReadIer,
    /// Mask all interrupts.
    MaskIer,
    /// Write the new framing, with the divisor latch selected.
    SelectDivisor(LcrWrite),
    /// Read the low half of the divisor in effect.
    ReadLow,
    /// Read its high half.
    ReadHigh,
    /// Read its fraction.
    ReadFraction,
    /// Write the low half of the new divisor.
    WriteLow,
    /// Write its high half.
    WriteHigh,
    /// Write its fraction.
    WriteFraction,
    /// Write the new framing, with the divisor latch hidden again.
    SetLine(LcrWrite),
    /// Enable the FIFOs.
    EnableFifo,
    /// Enable the interrupts that were enabled; the configuration is in effect.
    EnableIer,
    /// That failed: write the previous framing, with the divisor latch selected.
    ReselectDivisor(LcrWrite),
    /// Restore the low half of the divisor.
    RestoreLow,
    /// Restore its high half.
    RestoreHigh,
    /// Restore its fraction.
    RestoreFraction,
    /// Write the previous framing.
    RestoreLine(LcrWrite),
    /// Enable the interrupts that were enabled.
    RestoreIer,
    /// The configuration is in effect, or the device stayed busy.
    Done(bool),
}

/// A change of framing and divisor. If the device stays busy, the previous
/// ones are put back.
#[derive(Clone, Copy, Debug, PartialEq, Eq, Structural)]
pub struct Configure {
    /// The new divisor.
    pub divisor: Divisor,
    /// The new framing.
    pub lcr: u32,
    /// The framing that was in effect.
    pub old_lcr: u32,
    /// The interrupts that were enabled.
    pub ier: u32,
    /// The divisor that was in effect.
    pub old_low: u32,
    pub old_high: u32,
    pub old_fraction: u32,
    pub stage: ConfigureStage,
}

impl Configure {
    /// What the configuration needs next; `None` once it is done.
    pub open spec fn pending(self) -> Option<Request> {
        match self.stage {
            ConfigureStage::ReadLcr => Some(Request::Read { offset: LCR }),
            ConfigureStage::ReadIer => Some(Request::Read { offset: IER }),
            ConfigureStage::MaskIer => Some(Request::Write { value: 0, offset: IER }),
            ConfigureStage::SelectDivisor(write) => write.pending(),
            ConfigureStage::ReadLow => Some(Request::Read { offset: DATA }),
            ConfigureStage::ReadHigh => Some(Request::Read { offset: IER }),
            ConfigureStage::ReadFraction => Some(Request::Read { offset: DLF }),
            ConfigureStage::WriteLow => Some(Request::Write {
                value: self.divisor.integer as u32 & 0xff,
                offset: DATA,
            }),
            ConfigureStage::WriteHigh => Some(Request::Write {
                value: self.divisor.integer as u32 >> 8,
                offset: IER,
            }),
            ConfigureStage::WriteFraction => Some(Request::Write {
                value: self.divisor.fraction,
                offset: DLF,
            }),
            ConfigureStage::SetLine(write) => write.pending(),
            ConfigureStage::EnableFifo => Some(Request::Write { value: FCR_ENABLE, offset: FCR }),
            ConfigureStage::EnableIer => Some(Request::Write { value: self.ier, offset: IER }),
            ConfigureStage::ReselectDivisor(write) => write.pending(),
            ConfigureStage::RestoreLow => Some(
                Request::Write { value: self.old_low, offset: DATA },
            ),
            ConfigureStage::RestoreHigh => Some(
                Request::Write { value: self.old_high, offset: IER },
            ),
            ConfigureStage::RestoreFraction => Some(
                Request::Write { value: self.old_fraction, offset: DLF },
            ),
            ConfigureStage::RestoreLine(write) => write.pending(),
            ConfigureStage::RestoreIer => Some(Request::Write { value: self.ier, offset: IER }),
            ConfigureStage::Done(_) => None,
        }
    }

    /// The configuration at a later stage.
    pub open spec fn at(self, stage: ConfigureStage) -> Configure {
        Configure { stage, ..self }
    }

    /// The configuration once a line control write has moved on.
    pub open spec fn line_written(self, write: LcrWrite) -> Configure {
        match self.stage {
            ConfigureStage::SelectDivisor(_) => match write.stage {
                LcrStage::Done(true) => self.at(ConfigureStage::ReadLow),
                LcrStage::Done(false) => self.at(
                    ConfigureStage::RestoreLine(LcrWrite::begun(self.old_lcr)),
                ),
                _ => self.at(ConfigureStage::SelectDivisor(write)),
            },
            ConfigureStage::SetLine(_) => match write.stage {
                LcrStage::Done(true) => self.at(ConfigureStage::EnableFifo),
                LcrStage::Done(false) => self.at(
                    ConfigureStage::ReselectDivisor(LcrWrite::begun(self.old_lcr | LCR_DLAB)),
                ),
                _ => self.at(ConfigureStage::SetLine(write)),
            },
            ConfigureStage::ReselectDivisor(_) => match write.stage {
                LcrStage::Done(true) => self.at(ConfigureStage::RestoreLow),
                LcrStage::Done(false) => self.at(
                    ConfigureStage::RestoreLine(LcrWrite::begun(self.old_lcr)),
                ),
                _ => self.at(ConfigureStage::ReselectDivisor(write)),
            },
            _ => match write.stage {
                LcrStage::Done(_) => self.at(ConfigureStage::RestoreIer),
                _ => self.at(ConfigureStage::RestoreLine(write)),
            },
        }
    }

    /// The configuration after a reply.
    pub open spec fn next(self, reply: u32) -> Configure {
        match self.stage {
            ConfigureStage::ReadLcr => Configure {
                old_lcr: reply & !LCR_DLAB,
                stage: ConfigureStage::ReadIer,
                ..self
            },
            ConfigureStage::ReadIer => Configure {
                ier: reply,
                stage: ConfigureStage::MaskIer,
                ..self
            },
            ConfigureStage::MaskIer => self.at(
                ConfigureStage::SelectDivisor(LcrWrite::begun(self.lcr | LCR_DLAB)),
            ),
            ConfigureStage::SelectDivisor(write) => self.line_written(write.next(reply)),
            ConfigureStage::ReadLow => Configure {
                old_low: reply,
                stage: ConfigureStage::ReadHigh,
                ..self
            },
            ConfigureStage::ReadHigh => Configure {
                old_high: reply,
                stage: ConfigureStage::ReadFraction,
                ..self
            },
            ConfigureStage::ReadFraction => Configure {
                old_fraction: reply,
                stage: ConfigureStage::WriteLow,
                ..self
            },
            ConfigureStage::WriteLow => self.at(ConfigureStage::WriteHigh),
            ConfigureStage::WriteHigh => self.at(ConfigureStage::WriteFraction),
            ConfigureStage::WriteFraction => self.at(
                ConfigureStage::SetLine(LcrWrite::begun(self.lcr)),
            ),
            ConfigureStage::SetLine(write) => self.line_written(write.next(reply)),
            ConfigureStage::EnableFifo => self.at(ConfigureStage::EnableIer),
            ConfigureStage::EnableIer => self.at(ConfigureStage::Done(true)),
            ConfigureStage::ReselectDivisor(write) => self.line_written(write.next(reply)),
            ConfigureStage::RestoreLow => self.at(ConfigureStage::RestoreHigh),
            ConfigureStage::RestoreHigh => self.at(ConfigureStage::RestoreFraction),
            ConfigureStage::RestoreFraction => self.at(
                ConfigureStage::RestoreLine(LcrWrite::begun(self.old_lcr)),
            ),
            ConfigureStage::RestoreLine(write) => self.line_written(write.next(reply)),
            ConfigureStage::RestoreIer => self.at(ConfigureStage::Done(false)),
            ConfigureStage::Done(_) => self,
        }
    }

    /// A line control write on its way belongs to the configuration.
    pub open spec fn wf(self) -> bool {
        let write = match self.stage {
            ConfigureStage::SelectDivisor(write) => write,
            ConfigureStage::SetLine(write) => write,
            ConfigureStage::ReselectDivisor(write) => write,
            ConfigureStage::RestoreLine(write) => write,
            _ => LcrWrite::begun(0),
        };
        write.attempts < ATTEMPTS && !(write.stage is Done)
    }

    /// Number of accesses that are at most still to come.
    pub open spec fn left(self) -> nat {
        let write = 5 * ATTEMPTS as nat;
        match self.stage {
            ConfigureStage::ReadLcr => 4 * write + 15,
            ConfigureStage::ReadIer => 4 * write + 14,
            ConfigureStage::MaskIer => 4 * write + 13,
            ConfigureStage::SelectDivisor(current) => 3 * write + 12 + current.left(),
            ConfigureStage::ReadLow => 3 * write + 12,
            ConfigureStage::ReadHigh => 3 * write + 11,
            ConfigureStage::ReadFraction => 3 * write + 10,
            ConfigureStage::WriteLow => 3 * write + 9,
            ConfigureStage::WriteHigh => 3 * write + 8,
            ConfigureStage::WriteFraction => 3 * write + 7,
            ConfigureStage::SetLine(current) => 2 * write + 6 + current.left(),
            ConfigureStage::EnableFifo => 2 * write + 6,
            ConfigureStage::EnableIer => 2 * write + 5,
            ConfigureStage::ReselectDivisor(current) => write + 4 + current.left(),
            ConfigureStage::RestoreLow => write + 4,
            ConfigureStage::RestoreHigh => write + 3,
            ConfigureStage::RestoreFraction => write + 2,
            ConfigureStage::RestoreLine(current) => 1 + current.left(),
            ConfigureStage::RestoreIer => 1,
            ConfigureStage::Done(_) => 0,
        }
    }

    /// What the configuration needs next; `None` once it is done.
    pub fn request(&self) -> (request: Option<Request>)
        requires
            self.wf(),
        ensures
            request == self.pending(),
            request is None <==> self.stage is Done,
    {
        match self.stage {
            ConfigureStage::ReadLcr => Some(Request::Read { offset: LCR }),
            ConfigureStage::ReadIer => Some(Request::Read { offset: IER }),
            ConfigureStage::MaskIer => Some(Request::Write { value: 0, offset: IER }),
            ConfigureStage::SelectDivisor(write) => write.request(),
            ConfigureStage::ReadLow => Some(Request::Read { offset: DATA }),
            ConfigureStage::ReadHigh => Some(Request::Read { offset: IER }),
            ConfigureStage::ReadFraction => Some(Request::Read { offset: DLF }),
            ConfigureStage::WriteLow => Some(Request::Write {
                value: self.divisor.integer as u32 & 0xff,
                offset: DATA,
            }),
            ConfigureStage::WriteHigh => Some(Request::Write {
                value: self.divisor.integer as u32 >> 8,
                offset: IER,
            }),
            ConfigureStage::WriteFraction => Some(Request::Write {
                value: self.divisor.fraction,
                offset: DLF,
            }),
            ConfigureStage::SetLine(write) => write.request(),
            ConfigureStage::EnableFifo => Some(Request::Write { value: FCR_ENABLE, offset: FCR }),
            ConfigureStage::EnableIer => Some(Request::Write { value: self.ier, offset: IER }),
            ConfigureStage::ReselectDivisor(write) => write.request(),
            ConfigureStage::RestoreLow => Some(
                Request::Write { value: self.old_low, offset: DATA },
            ),
            ConfigureStage::RestoreHigh => Some(
                Request::Write { value: self.old_high, offset: IER },
            ),
            ConfigureStage::RestoreFraction => Some(
                Request::Write { value: self.old_fraction, offset: DLF },
            ),
            ConfigureStage::RestoreLine(write) => write.request(),
            ConfigureStage::RestoreIer => Some(Request::Write { value: self.ier, offset: IER }),
            ConfigureStage::Done(_) => None,
        }
    }

    /// Moves a line control write on, and gives its outcome once it has one.
    fn advance(write: LcrWrite, reply: u32) -> (result: (LcrWrite, Option<bool>))
        ensures
            result.0 == write.next(reply),
            result.1 == match result.0.stage {
                LcrStage::Done(taken) => Some(taken),
                _ => None,
            },
            !(write.stage is Done) ==> result.0.left() < write.left(),
    {
        let mut write = write;
        write.resume(reply);
        (write, write.outcome())
    }

    /// Takes the reply to the current request.
    pub fn resume(&mut self, reply: u32)
        requires
            old(self).wf(),
        ensures
            *final(self) == old(self).next(reply),
            final(self).wf(),
            !(old(self).stage is Done) ==> final(self).left() < old(self).left(),
    {
        self.stage = match self.stage {
            ConfigureStage::ReadLcr => {
                self.old_lcr = reply & !LCR_DLAB;
                ConfigureStage::ReadIer
            },
            ConfigureStage::ReadIer => {
                self.ier = reply;
                ConfigureStage::MaskIer
            },
            ConfigureStage::MaskIer => ConfigureStage::SelectDivisor(
                LcrWrite::new(self.lcr | LCR_DLAB),
            ),
            ConfigureStage::SelectDivisor(write) => match Self::advance(write, reply) {
                (_, Some(true)) => ConfigureStage::ReadLow,
                (_, Some(false)) => ConfigureStage::RestoreLine(LcrWrite::new(self.old_lcr)),
                (write, None) => ConfigureStage::SelectDivisor(write),
            },
            ConfigureStage::ReadLow => {
                self.old_low = reply;
                ConfigureStage::ReadHigh
            },
            ConfigureStage::ReadHigh => {
                self.old_high = reply;
                ConfigureStage::ReadFraction
            },
            ConfigureStage::ReadFraction => {
                self.old_fraction = reply;
                ConfigureStage::WriteLow
            },
            ConfigureStage::WriteLow => ConfigureStage::WriteHigh,
            ConfigureStage::WriteHigh => ConfigureStage::WriteFraction,
            ConfigureStage::WriteFraction => ConfigureStage::SetLine(LcrWrite::new(self.lcr)),
            ConfigureStage::SetLine(write) => match Self::advance(write, reply) {
                (_, Some(true)) => ConfigureStage::EnableFifo,
                (_, Some(false)) => ConfigureStage::ReselectDivisor(
                    LcrWrite::new(self.old_lcr | LCR_DLAB),
                ),
                (write, None) => ConfigureStage::SetLine(write),
            },
            ConfigureStage::EnableFifo => ConfigureStage::EnableIer,
            ConfigureStage::EnableIer => ConfigureStage::Done(true),
            ConfigureStage::ReselectDivisor(write) => match Self::advance(write, reply) {
                (_, Some(true)) => ConfigureStage::RestoreLow,
                (_, Some(false)) => ConfigureStage::RestoreLine(LcrWrite::new(self.old_lcr)),
                (write, None) => ConfigureStage::ReselectDivisor(write),
            },
            ConfigureStage::RestoreLow => ConfigureStage::RestoreHigh,
            ConfigureStage::RestoreHigh => ConfigureStage::RestoreFraction,
            ConfigureStage::RestoreFraction => ConfigureStage::RestoreLine(
                LcrWrite::new(self.old_lcr),
            ),
            ConfigureStage::RestoreLine(write) => match Self::advance(write, reply) {
                (_, Some(_)) => ConfigureStage::RestoreIer,
                (write, None) => ConfigureStage::RestoreLine(write),
            },
            ConfigureStage::RestoreIer => ConfigureStage::Done(false),
            ConfigureStage::Done(taken) => ConfigureStage::Done(taken),
        };
    }

    /// The rate that the line now runs at, or the error, once the
    /// configuration is done.
    pub fn outcome(&self) -> (outcome: Option<Result<u32, Errno>>)
        ensures
            outcome == match self.stage {
                ConfigureStage::Done(true) => Some(Ok::<u32, Errno>(self.divisor.actual_baud)),
                ConfigureStage::Done(false) => Some(Err::<u32, Errno>(Errno::EBUSY)),
                _ => None,
            },
    {
        match self.stage {
            ConfigureStage::Done(taken) => if taken {
                Some(Ok(self.divisor.actual_baud))
            } else {
                Some(Err(Errno::EBUSY))
            },
            _ => None,
        }
    }
}

impl DwUart {
    /// Begins to configure framing and divisor. A rate that cannot be divided
    /// from the line's clock is refused before any register is touched.
    pub fn configure(&self, line: LineConfig) -> (result: Result<Configure, Errno>)
        ensures
            match result {
                Ok(configure) => {
                    &&& divisible(line.clock, line.baud, self.dlf_bits)
                    &&& is_divisor(configure.divisor, line.clock, line.baud, self.dlf_bits)
                    &&& configure.lcr == line_control_word(
                        line.data_bits,
                        line.two_stop_bits,
                        line.parity,
                        line.odd_parity,
                    )
                    &&& configure.lcr < 0x20
                    &&& configure.stage == ConfigureStage::ReadLcr
                    &&& configure.wf()
                },
                Err(error) => {
                    &&& error == Errno::EINVAL
                    &&& !divisible(line.clock, line.baud, self.dlf_bits)
                },
            },
    {
        match divisor(line.clock, line.baud, self.dlf_bits) {
            None => Err(Errno::EINVAL),
            Some(divisor) => Ok(
                Configure {
                    divisor,
                    lcr: line_control(
                        line.data_bits,
                        line.two_stop_bits,
                        line.parity,
                        line.odd_parity,
                    ),
                    old_lcr: 0,
                    ier: 0,
                    old_low: 0,
                    old_high: 0,
                    old_fraction: 0,
                    stage: ConfigureStage::ReadLcr,
                },
            ),
        }
    }
}

// ---------------------------------------------------------------------------
// Laws
// ---------------------------------------------------------------------------

/// The registers that a configuration changes.
pub ghost struct Registers {
    pub lcr: u32,
    pub ier: u32,
    pub low: u32,
    pub high: u32,
    pub fraction: u32,
}

/// What a device leaves open at one access: whether it takes a write to its
/// line control register, and what any other register reads as.
pub ghost struct Mood {
    pub takes: bool,
    pub noise: u32,
}

impl Registers {
    /// The divisor latch stands in place of the data and interrupt registers.
    pub open spec fn latched(self) -> bool {
        self.lcr & LCR_DLAB != 0
    }

    /// The registers after an access.
    pub open spec fn accessed(self, request: Request, mood: Mood) -> Registers {
        match request {
            Request::Write { value, offset } => if offset == LCR {
                if mood.takes {
                    Registers { lcr: value, ..self }
                } else {
                    self
                }
            } else if offset == DLF {
                Registers { fraction: value, ..self }
            } else if offset == DATA && self.latched() {
                Registers { low: value, ..self }
            } else if offset == IER && self.latched() {
                Registers { high: value, ..self }
            } else if offset == IER {
                Registers { ier: value, ..self }
            } else {
                self
            },
            _ => self,
        }
    }

    /// The reply to an access.
    pub open spec fn reply(self, request: Request, mood: Mood) -> u32 {
        match request {
            Request::Read { offset } => if offset == LCR {
                self.lcr
            } else if offset == DLF {
                self.fraction
            } else if offset == DATA && self.latched() {
                self.low
            } else if offset == IER && self.latched() {
                self.high
            } else if offset == IER {
                self.ier
            } else {
                mood.noise
            },
            _ => mood.noise,
        }
    }
}

/// A configuration carried out on a device, for at most `steps` accesses. The
/// device's moods are numbered by the accesses that are still to come.
pub open spec fn carried_out(
    configure: Configure,
    registers: Registers,
    moods: spec_fn(nat) -> Mood,
    steps: nat,
) -> (Configure, Registers)
    decreases steps,
{
    match configure.pending() {
        Some(request) if steps > 0 => carried_out(
            configure.next(registers.reply(request, moods(configure.left()))),
            registers.accessed(request, moods(configure.left())),
            moods,
            (steps - 1) as nat,
        ),
        _ => (configure, registers),
    }
}

/// In this step a configuration gives up a write that was to put the previous
/// framing back, because the device has rejected every attempt at it.
pub open spec fn gives_up(before: Configure, after: Configure) -> bool {
    match before.stage {
        ConfigureStage::ReselectDivisor(_) => after.stage is RestoreLine,
        ConfigureStage::RestoreLine(write) => write.stage is Discard && after.stage is RestoreIer,
        _ => false,
    }
}

/// A configuration carried out on a device gives up a restoring write.
pub open spec fn abandoned(
    configure: Configure,
    registers: Registers,
    moods: spec_fn(nat) -> Mood,
    steps: nat,
) -> bool
    decreases steps,
{
    match configure.pending() {
        Some(request) if steps > 0 => {
            let next = configure.next(registers.reply(request, moods(configure.left())));
            ||| gives_up(configure, next)
            ||| abandoned(
                next,
                registers.accessed(request, moods(configure.left())),
                moods,
                (steps - 1) as nat,
            )
        },
        _ => false,
    }
}

/// The registers once a configuration is in effect.
pub open spec fn configured(configure: Configure, before: Registers) -> Registers {
    Registers {
        lcr: configure.lcr,
        ier: before.ier,
        low: configure.divisor.integer as u32 & 0xff,
        high: configure.divisor.integer as u32 >> 8,
        fraction: configure.divisor.fraction,
    }
}

/// What holds of the registers at each stage of a configuration.
spec fn on_course(configure: Configure, now: Registers, before: Registers) -> bool {
    let lcr = configure.lcr;
    let masked = Registers { ier: 0, ..before };
    let target = Registers { ier: 0, ..configured(configure, before) };
    let open = Registers { lcr: lcr | LCR_DLAB, ..masked };
    let filled = Registers { lcr: lcr | LCR_DLAB, ..target };
    let noted = configure.old_lcr == before.lcr && configure.ier == before.ier;
    let saved = noted && configure.old_low == before.low && configure.old_high == before.high
        && configure.old_fraction == before.fraction;
    match configure.stage {
        ConfigureStage::ReadLcr => now == before,
        ConfigureStage::ReadIer => now == before && configure.old_lcr == before.lcr,
        ConfigureStage::MaskIer => now == before && noted,
        ConfigureStage::SelectDivisor(write) => {
            &&& noted
            &&& write.value == lcr | LCR_DLAB
            &&& now == masked || (write.stage is ReadBack && now == open)
        },
        ConfigureStage::ReadLow => now == open && noted,
        ConfigureStage::ReadHigh => now == open && noted && configure.old_low == before.low,
        ConfigureStage::ReadFraction => now == open && noted && configure.old_low == before.low
            && configure.old_high == before.high,
        ConfigureStage::WriteLow => now == open && saved,
        ConfigureStage::WriteHigh => now == (Registers { low: target.low, ..open }) && saved,
        ConfigureStage::WriteFraction => now == (Registers {
            low: target.low,
            high: target.high,
            ..open
        }) && saved,
        ConfigureStage::SetLine(write) => {
            &&& saved
            &&& write.value == lcr
            &&& now == filled || (write.stage is ReadBack && now == target)
        },
        ConfigureStage::EnableFifo => now == target && saved,
        ConfigureStage::EnableIer => now == target && saved,
        ConfigureStage::ReselectDivisor(write) => {
            let reopened = Registers { lcr: before.lcr | LCR_DLAB, ..filled };
            &&& saved
            &&& write.value == before.lcr | LCR_DLAB
            &&& now == filled || (write.stage is ReadBack && now == reopened)
        },
        ConfigureStage::RestoreLow => saved && now == (Registers {
            lcr: before.lcr | LCR_DLAB,
            ..filled
        }),
        ConfigureStage::RestoreHigh => saved && now == (Registers {
            lcr: before.lcr | LCR_DLAB,
            low: before.low,
            ..filled
        }),
        ConfigureStage::RestoreFraction => saved && now == (Registers {
            lcr: before.lcr | LCR_DLAB,
            low: before.low,
            high: before.high,
            ..filled
        }),
        ConfigureStage::RestoreLine(write) => {
            &&& noted
            &&& write.value == before.lcr
            &&& now == (Registers { lcr: now.lcr, ..masked })
        },
        ConfigureStage::RestoreIer => noted && now == masked,
        ConfigureStage::Done(taken) => now == if taken {
            configured(configure, before)
        } else {
            before
        },
    }
}

/// One access keeps a configuration on course, unless a restoring write is
/// given up.
proof fn lemma_stays_on_course(
    configure: Configure,
    now: Registers,
    before: Registers,
    mood: Mood,
)
    requires
        configure.wf(),
        configure.lcr < 0x20,
        before.lcr & LCR_DLAB == 0,
        on_course(configure, now, before),
        configure.pending() is Some,
        !gives_up(configure, configure.next(now.reply(configure.pending()->0, mood))),
    ensures
        ({
            let request = configure.pending()->0;
            let after = configure.next(now.reply(request, mood));
            &&& on_course(after, now.accessed(request, mood), before)
            &&& after.wf()
            &&& after.lcr == configure.lcr
            &&& after.divisor == configure.divisor
            &&& after.left() < configure.left()
        }),
{
    let lcr = configure.lcr;
    let old_lcr = before.lcr;
    lemma_raise_and_lower(lcr, 0x80);
    lemma_raise_and_lower(old_lcr, 0x80);
}

/// A configuration that is on course ends on course.
proof fn lemma_ends_on_course(
    configure: Configure,
    now: Registers,
    before: Registers,
    moods: spec_fn(nat) -> Mood,
    steps: nat,
)
    requires
        configure.wf(),
        configure.lcr < 0x20,
        before.lcr & LCR_DLAB == 0,
        on_course(configure, now, before),
        !abandoned(configure, now, moods, steps),
        steps >= configure.left(),
    ensures
        ({
            let (after, registers) = carried_out(configure, now, moods, steps);
            &&& after.stage is Done
            &&& on_course(after, registers, before)
            &&& after.lcr == configure.lcr
            &&& after.divisor == configure.divisor
        }),
    decreases steps,
{
    match configure.pending() {
        Some(request) => {
            let mood = moods(configure.left());
            lemma_stays_on_course(configure, now, before, mood);
            lemma_ends_on_course(
                configure.next(now.reply(request, mood)),
                now.accessed(request, mood),
                before,
                moods,
                (steps - 1) as nat,
            );
        },
        None => {},
    }
}

/// A configuration is all or nothing: it ends with the new framing and divisor
/// in effect, or with every register as it was before; the interrupts that
/// were enabled are enabled again either way. The device may be busy at any
/// time, as long as it does not reject every attempt at putting the previous
/// framing back.
pub proof fn law_configuration_is_atomic(
    configure: Configure,
    before: Registers,
    moods: spec_fn(nat) -> Mood,
)
    requires
        configure.stage == ConfigureStage::ReadLcr,
        configure.lcr < 0x20,
        before.lcr & LCR_DLAB == 0,
        !abandoned(configure, before, moods, configure.left()),
    ensures
        ({
            let (after, registers) = carried_out(configure, before, moods, configure.left());
            &&& after.stage is Done
            &&& registers == if after.stage == ConfigureStage::Done(true) {
                configured(configure, before)
            } else {
                before
            }
            &&& after.stage == ConfigureStage::Done(true) ==> {
                &&& registers.lcr == configure.lcr
                &&& registers.ier == before.ier
                &&& registers.low < 256 && registers.high < 256
                &&& registers.low + 256 * registers.high == configure.divisor.integer
                &&& registers.fraction == configure.divisor.fraction
            }
            &&& after.stage == ConfigureStage::Done(false) ==> registers == before
            &&& after.divisor == configure.divisor
        }),
{
    lemma_ends_on_course(configure, before, before, moods, configure.left());
    law_divisor_halves(configure, before);
    lemma_fields(configure.divisor.integer as u32);
}

/// Whatever the device replies, a configuration ends by enabling the
/// interrupts that it found enabled.
pub proof fn law_interrupts_are_enabled_again(configure: Configure, reply: u32)
    requires
        configure.wf(),
        !(configure.stage is Done),
        configure.next(reply).stage is Done,
    ensures
        configure.pending() == Some(Request::Write { value: configure.ier, offset: IER }),
{
}

/// The two halves of the divisor that are written make up its integer part.
pub proof fn law_divisor_halves(configure: Configure, before: Registers)
    ensures
        configured(configure, before).low + 256 * configured(configure, before).high
            == configure.divisor.integer,
{
    let integer = configure.divisor.integer;
    lemma_fields(integer as u32);
}

/// A configuration goes by what it asks for and what it is told, and reports
/// the rate that the line runs at once it is in effect.
pub proof fn law_configuration_is_a_machine(
    configure: &mut Configure,
    reply: u32,
    asking: &Configure,
    request: Option<Request>,
    outcome: Option<Result<u32, Errno>>,
)
    requires
        call_ensures(Configure::resume, (configure, reply), ()),
        call_ensures(Configure::request, (asking,), request),
        call_ensures(Configure::outcome, (asking,), outcome),
    ensures
        *final(configure) == old(configure).next(reply),
        request == asking.pending(),
        outcome is Some <==> asking.stage is Done,
        asking.stage == ConfigureStage::Done(true) ==> outcome == Some(
            Ok::<u32, Errno>(asking.divisor.actual_baud),
        ),
        asking.stage == ConfigureStage::Done(false) ==> outcome == Some(
            Err::<u32, Errno>(Errno::EBUSY),
        ) && Errno::EBUSY.number() == -16,
{
}

/// A configuration begins exactly where there is a divisor, and with that
/// divisor. It first reads the framing and the enabled interrupts, and masks
/// them before it writes anything else.
pub proof fn law_configuration_begins_with_a_divisor(
    uart: &DwUart,
    line: LineConfig,
    result: Result<Configure, Errno>,
    found: Option<Divisor>,
    lcr: u32,
    ier: u32,
)
    requires
        call_ensures(DwUart::configure, (uart, line), result),
        call_ensures(divisor, (line.clock, line.baud, uart.dlf_bits), found),
    ensures
        result is Ok <==> found is Some,
        result is Ok ==> {
            let configure = result->Ok_0;
            &&& configure.divisor == found->0
            &&& configure.pending() == Some(Request::Read { offset: 0x0c })
            &&& configure.next(lcr).pending() == Some(Request::Read { offset: 0x04 })
            &&& configure.next(lcr).next(ier).pending() == Some(
                Request::Write { value: 0, offset: 0x04 },
            )
        },
        result is Err ==> result->Err_0 == Errno::EINVAL && Errno::EINVAL.number() == -22,
{
}

/// What a configuration achieves on a device: the framing and the rate that were
/// asked for, to the nearest divisor, with the interrupts as they were; or
/// nothing at all. The device may be busy at any time, as long as it does not
/// reject every attempt at putting the previous framing back.
pub proof fn law_line_is_configured(
    uart: &DwUart,
    line: LineConfig,
    configure: Configure,
    before: Registers,
    moods: spec_fn(nat) -> Mood,
)
    requires
        call_ensures(DwUart::configure, (uart, line), Ok::<Configure, Errno>(configure)),
        before.lcr & 0x80 == 0,
        !abandoned(configure, before, moods, configure.left()),
    ensures
        ({
            let (after, now) = carried_out(configure, before, moods, configure.left());
            let scale = pow2(uart.dlf_bits as nat) as int;
            let fixed = (now.low + 256 * now.high) * scale + now.fraction;
            let rate = after.divisor.actual_baud;
            &&& after.stage == ConfigureStage::Done(true) || after.stage == ConfigureStage::Done(
                false,
            )
            &&& after.stage == ConfigureStage::Done(false) ==> now == before
            &&& after.stage == ConfigureStage::Done(true) ==> {
                &&& now.ier == before.ier
                &&& now.fraction < scale
                &&& -8 * line.baud <= line.clock * scale - 16 * line.baud * fixed < 8 * line.baud
                &&& -8 * fixed <= line.clock * scale - 16 * fixed * rate < 8 * fixed
                &&& -line.baud <= 50 * (rate - line.baud) <= line.baud
                &&& now.lcr & 3 == if line.data_bits < 5 {
                    0
                } else if line.data_bits > 8 {
                    3
                } else {
                    line.data_bits - 5
                }
                &&& now.lcr & 4 != 0 <==> line.two_stop_bits
                &&& now.lcr & 8 != 0 <==> line.parity
                &&& now.lcr & 16 != 0 <==> line.parity && !line.odd_parity
                &&& now.lcr & !0x1f == 0
            }
        }),
{
    law_configuration_is_atomic(configure, before, moods);
    lemma_divisor_gives_the_rate(line.clock, line.baud, uart.dlf_bits, configure.divisor);
    lemma_line_control_bits(
        line.data_bits,
        line.two_stop_bits,
        line.parity,
        line.odd_parity,
        configure.lcr,
    );
}

/// A device that takes every write is configured.
pub proof fn law_willing_device_is_configured(
    configure: Configure,
    before: Registers,
    moods: spec_fn(nat) -> Mood,
)
    requires
        configure.stage == ConfigureStage::ReadLcr,
        forall|n: nat| #[trigger] moods(n).takes,
    ensures
        carried_out(configure, before, moods, configure.left()).0.stage == ConfigureStage::Done(
            true,
        ),
        !abandoned(configure, before, moods, configure.left()),
{
    lemma_runs_smoothly(configure, before, moods, configure.left());
}

/// No write has been rejected so far.
spec fn smooth(configure: Configure, now: Registers) -> bool {
    match configure.stage {
        ConfigureStage::SelectDivisor(write) | ConfigureStage::SetLine(write) => {
            write.stage is Write || (write.stage is ReadBack && now.lcr == write.value)
        },
        ConfigureStage::ReselectDivisor(_) | ConfigureStage::RestoreLow
        | ConfigureStage::RestoreHigh | ConfigureStage::RestoreFraction
        | ConfigureStage::RestoreLine(_) | ConfigureStage::RestoreIer => false,
        ConfigureStage::Done(taken) => taken,
        _ => true,
    }
}

/// On a device that takes every write none is ever rejected.
proof fn lemma_runs_smoothly(
    configure: Configure,
    now: Registers,
    moods: spec_fn(nat) -> Mood,
    steps: nat,
)
    requires
        configure.wf(),
        smooth(configure, now),
        forall|n: nat| #[trigger] moods(n).takes,
        steps >= configure.left(),
    ensures
        carried_out(configure, now, moods, steps).0.stage == ConfigureStage::Done(true),
        !abandoned(configure, now, moods, steps),
    decreases steps,
{
    match configure.pending() {
        Some(request) => {
            let mood = moods(configure.left());
            assert(mood.takes);
            lemma_runs_smoothly(
                configure.next(now.reply(request, mood)),
                now.accessed(request, mood),
                moods,
                (steps - 1) as nat,
            );
        },
        None => {},
    }
}

/// Once the new framing is in effect, the FIFOs are enabled with the receive
/// trigger at a quarter, then the interrupts that were enabled, and the
/// configuration is in effect.
pub proof fn law_configuration_enables_the_fifos(
    configure: Configure,
    write: LcrWrite,
    reply: u32,
    ignored: u32,
    nothing: u32,
)
    requires
        configure.stage == ConfigureStage::SetLine(write),
        write.next(reply).stage == LcrStage::Done(true),
    ensures
        ({
            let enabling = configure.next(reply);
            let unmasking = enabling.next(ignored);
            &&& enabling.pending() == Some(Request::Write { value: 0x49, offset: 0x08 })
            &&& unmasking.pending() == Some(Request::Write { value: configure.ier, offset: 0x04 })
            &&& unmasking.next(nothing).stage == ConfigureStage::Done(true)
        }),
{
}

/// The steps of a configuration, whatever the device replies: what is kept of
/// each register that is read, and what follows each access and each outcome of
/// a write to the line control register.
pub proof fn law_configuration_steps(
    configure: &mut Configure,
    reply: u32,
    write: &mut LcrWrite,
    taken: Option<bool>,
    select: LcrWrite,
    line: LcrWrite,
    reselect: LcrWrite,
    restore: LcrWrite,
)
    requires
        old(configure).wf(),
        call_ensures(Configure::resume, (configure, reply), ()),
        match old(configure).stage {
            ConfigureStage::SelectDivisor(current) => *old(write) == current,
            ConfigureStage::SetLine(current) => *old(write) == current,
            ConfigureStage::ReselectDivisor(current) => *old(write) == current,
            ConfigureStage::RestoreLine(current) => *old(write) == current,
            _ => true,
        },
        call_ensures(LcrWrite::resume, (write, reply), ()),
        call_ensures(LcrWrite::outcome, (&*final(write),), taken),
        call_ensures(LcrWrite::new, (old(configure).lcr | 0x80,), select),
        call_ensures(LcrWrite::new, (old(configure).lcr,), line),
        call_ensures(LcrWrite::new, (old(configure).old_lcr | 0x80,), reselect),
        call_ensures(LcrWrite::new, (old(configure).old_lcr,), restore),
    ensures
        final(configure).divisor == old(configure).divisor,
        final(configure).lcr == old(configure).lcr,
        final(configure).old_lcr == if old(configure).stage is ReadLcr {
            reply & !0x80
        } else {
            old(configure).old_lcr
        },
        final(configure).ier == if old(configure).stage is ReadIer {
            reply
        } else {
            old(configure).ier
        },
        final(configure).old_low == if old(configure).stage is ReadLow {
            reply
        } else {
            old(configure).old_low
        },
        final(configure).old_high == if old(configure).stage is ReadHigh {
            reply
        } else {
            old(configure).old_high
        },
        final(configure).old_fraction == if old(configure).stage is ReadFraction {
            reply
        } else {
            old(configure).old_fraction
        },
        ({
            let next = final(configure).stage;
            match old(configure).stage {
                ConfigureStage::ReadLcr => next is ReadIer,
                ConfigureStage::ReadIer => next is MaskIer,
                ConfigureStage::MaskIer => next == ConfigureStage::SelectDivisor(select),
                ConfigureStage::SelectDivisor(_) => match taken {
                    Some(true) => next is ReadLow,
                    Some(false) => next == ConfigureStage::RestoreLine(restore),
                    None => next == ConfigureStage::SelectDivisor(*final(write)),
                },
                ConfigureStage::ReadLow => next is ReadHigh,
                ConfigureStage::ReadHigh => next is ReadFraction,
                ConfigureStage::ReadFraction => next is WriteLow,
                ConfigureStage::WriteLow => next is WriteHigh,
                ConfigureStage::WriteHigh => next is WriteFraction,
                ConfigureStage::WriteFraction => next == ConfigureStage::SetLine(line),
                ConfigureStage::SetLine(_) => match taken {
                    Some(true) => next is EnableFifo,
                    Some(false) => next == ConfigureStage::ReselectDivisor(reselect),
                    None => next == ConfigureStage::SetLine(*final(write)),
                },
                ConfigureStage::EnableFifo => next is EnableIer,
                ConfigureStage::EnableIer => next == ConfigureStage::Done(true),
                ConfigureStage::ReselectDivisor(_) => match taken {
                    Some(true) => next is RestoreLow,
                    Some(false) => next == ConfigureStage::RestoreLine(restore),
                    None => next == ConfigureStage::ReselectDivisor(*final(write)),
                },
                ConfigureStage::RestoreLow => next is RestoreHigh,
                ConfigureStage::RestoreHigh => next is RestoreFraction,
                ConfigureStage::RestoreFraction => next == ConfigureStage::RestoreLine(restore),
                ConfigureStage::RestoreLine(_) => match taken {
                    Some(_) => next is RestoreIer,
                    None => next == ConfigureStage::RestoreLine(*final(write)),
                },
                ConfigureStage::RestoreIer => next == ConfigureStage::Done(false),
                ConfigureStage::Done(_) => next == old(configure).stage,
            }
        }),
{
}

/// What a configuration asks for at each of its steps: the registers that it
/// reads, and the values that it writes to which of them.
pub proof fn law_configuration_requests(
    configure: &Configure,
    request: Option<Request>,
    write: &LcrWrite,
    writing: Option<Request>,
)
    requires
        configure.wf(),
        call_ensures(Configure::request, (configure,), request),
        match configure.stage {
            ConfigureStage::SelectDivisor(current) => *write == current,
            ConfigureStage::SetLine(current) => *write == current,
            ConfigureStage::ReselectDivisor(current) => *write == current,
            ConfigureStage::RestoreLine(current) => *write == current,
            _ => true,
        },
        call_ensures(LcrWrite::request, (write,), writing),
    ensures
        match configure.stage {
            ConfigureStage::ReadLcr => request == Some(Request::Read { offset: 0x0c }),
            ConfigureStage::ReadIer => request == Some(Request::Read { offset: 0x04 }),
            ConfigureStage::MaskIer => request == Some(Request::Write { value: 0, offset: 0x04 }),
            ConfigureStage::ReadLow => request == Some(Request::Read { offset: 0x00 }),
            ConfigureStage::ReadHigh => request == Some(Request::Read { offset: 0x04 }),
            ConfigureStage::ReadFraction => request == Some(Request::Read { offset: 0xc0 }),
            ConfigureStage::WriteLow => request == Some(
                Request::Write { value: (configure.divisor.integer % 256) as u32, offset: 0x00 },
            ),
            ConfigureStage::WriteHigh => request == Some(
                Request::Write { value: (configure.divisor.integer / 256) as u32, offset: 0x04 },
            ),
            ConfigureStage::WriteFraction => request == Some(
                Request::Write { value: configure.divisor.fraction, offset: 0xc0 },
            ),
            ConfigureStage::EnableFifo => request == Some(
                Request::Write { value: 0x49, offset: 0x08 },
            ),
            ConfigureStage::EnableIer | ConfigureStage::RestoreIer => request == Some(
                Request::Write { value: configure.ier, offset: 0x04 },
            ),
            ConfigureStage::RestoreLow => request == Some(
                Request::Write { value: configure.old_low, offset: 0x00 },
            ),
            ConfigureStage::RestoreHigh => request == Some(
                Request::Write { value: configure.old_high, offset: 0x04 },
            ),
            ConfigureStage::RestoreFraction => request == Some(
                Request::Write { value: configure.old_fraction, offset: 0xc0 },
            ),
            ConfigureStage::Done(_) => request is None,
            _ => request == writing,
        },
{
    lemma_fields(configure.divisor.integer as u32);
}

} // verus!
