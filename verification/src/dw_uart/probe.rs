//! Taking over a device: its resources, its clocks, and what its registers
//! tell of its capabilities.

use vstd::arithmetic::power2::{lemma2_to64, lemma_pow2_strictly_increases, pow2};
use vstd::bits::lemma_u64_shl_is_mul;
use vstd::prelude::*;
use crate::bits::lemma_fields;
use crate::dw_uart::config::{baud_clock, baud_clock_of};
use crate::dw_uart::lcr::{LcrStage, LcrWrite, ATTEMPTS};
use crate::dw_uart::{DwUart, Request, CPR, DLF, FIFO_SIZE, IER, REFERENCE_RATE};
use crate::errno::Errno;
use crate::serial::dma::Config;

verus! {

/// The slowest input clock that the driver works with: it still divides to
/// 115200 baud.
pub const SLOWEST_CLOCK: u32 = 1_843_200;

/// Eight data bits, one stop bit, no parity.
pub const LCR_8N1: u32 = 3;

/// Widens a register-sized rate.
pub fn hertz(rate: u32) -> (hertz: u64)
    ensures
        hertz == rate,
{
    rate as u64
}

/// `bits` low bits are set in `mask`, and no others.
pub open spec fn is_low_mask(mask: u32, bits: nat) -> bool {
    mask == pow2(bits) - 1
}

/// `mask` is not a run of at most sixteen low bits.
pub open spec fn no_low_mask(mask: u32) -> bool {
    forall|bits: nat| bits <= 16 ==> !#[trigger] is_low_mask(mask, bits)
}

/// The width of the divisor fraction, from what its register keeps of all
/// ones. There is none where that is not a run of at most sixteen low bits.
pub fn fraction_width(mask: u32) -> (width: Option<u8>)
    ensures
        match width {
            Some(bits) => bits <= 16 && is_low_mask(mask, bits as nat),
            None => no_low_mask(mask),
        },
{
    let mut bits: u8 = 0;
    while bits <= 16
        invariant
            bits <= 17,
            forall|earlier: nat| earlier < bits ==> !#[trigger] is_low_mask(mask, earlier),
        decreases 17 - bits,
    {
        proof {
            lemma2_to64();
            if bits < 16 {
                lemma_pow2_strictly_increases(bits as nat, 16);
            }
            vstd::arithmetic::power2::lemma_pow2_pos(bits as nat);
            lemma_u64_shl_is_mul(1, bits as u64);
        }
        if mask as u64 == (1u64 << bits) - 1 {
            assert(is_low_mask(mask, bits as nat));
            return Some(bits);
        }
        assert(!is_low_mask(mask, bits as nat));
        bits = bits + 1;
    }
    None
}

/// The depth of the FIFOs that the component parameters give.
pub open spec fn fifo_depth_of(parameters: u32) -> u32 {
    let blocks = (parameters >> 16) & 0xff;
    if blocks == 0 {
        FIFO_SIZE
    } else {
        (16 * blocks) as u32
    }
}

/// The depth of the FIFOs: what the component parameters give in units of
/// sixteen, or the usual depth where they give nothing.
pub fn fifo_depth(parameters: u32) -> (depth: u32)
    ensures
        depth == fifo_depth_of(parameters),
        16 <= depth <= 4080,
{
    let blocks: u32 = (parameters >> 16) & 0xff;
    proof {
        lemma_fields(parameters);
    }
    if blocks != 0 {
        blocks * 16
    } else {
        FIFO_SIZE
    }
}

/// The DMA burst that matches the receive trigger of a FIFO: a quarter of its
/// depth, but at least one byte and at most sixteen.
pub open spec fn burst_of(fifo_size: u32) -> u32 {
    if fifo_size / 4 < 1 {
        1
    } else if fifo_size / 4 > 16 {
        16
    } else {
        fifo_size / 4
    }
}

/// The DMA settings of a device with this FIFO, if DMA is wanted.
pub open spec fn dma_config_of(dma: u32, mapbase: u64, fifo_size: u32) -> Option<Config> {
    if dma != 0 {
        Some(Config { fifo: mapbase, burst: burst_of(fifo_size) })
    } else {
        None
    }
}

/// The DMA settings of a device with this FIFO, if the module parameter asks
/// for DMA.
pub fn dma_config(dma: u32, mapbase: u64, fifo_size: u32) -> (config: Option<Config>)
    ensures
        config == dma_config_of(dma, mapbase, fifo_size),
{
    if dma == 0 {
        return None;
    }
    let quarter: u32 = fifo_size / 4;
    Some(
        Config {
            fifo: mapbase,
            burst: if quarter < 1 {
                1
            } else if quarter > 16 {
                16
            } else {
                quarter
            },
        },
    )
}

/// Checks the rate of the input clock.
pub fn check_rate(rate: u64) -> (result: Result<u32, Errno>)
    ensures
        match result {
            Ok(checked) => SLOWEST_CLOCK <= rate <= u32::MAX && checked == rate,
            Err(error) => !(SLOWEST_CLOCK <= rate <= u32::MAX) && error == Errno::EINVAL,
        },
{
    if rate > u32::MAX as u64 {
        return Err(Errno::EINVAL);
    }
    if rate < SLOWEST_CLOCK as u64 {
        return Err(Errno::EINVAL);
    }
    Ok(rate as u32)
}

impl DwUart {
    /// The DMA settings of the port.
    pub fn dma_config(&self) -> (config: Option<Config>)
        ensures
            config == self.dma,
    {
        self.dma
    }

    /// Prepares the input clock for `baud`, given the rate that it runs at now:
    /// the rate to set, or `None` where it runs at that already. Standard rates
    /// keep the reference. Others are synthesized at sixteen times the baud
    /// rate; if that fails, [`DwUart::configure`] refuses the rate.
    pub fn prepare_clock(&self, baud: u32, rate: u64) -> (wanted: Option<u32>)
        ensures
            wanted == {
                let clock = baud_clock_of(REFERENCE_RATE, baud, self.dlf_bits);
                if rate == clock {
                    None
                } else {
                    Some(clock)
                }
            },
    {
        let clock: u32 = baud_clock(REFERENCE_RATE, baud, self.dlf_bits);
        if rate != hertz(clock) {
            Some(clock)
        } else {
            None
        }
    }

    /// The clock that a port goes by from now on, given the rate that the
    /// input clock then runs at and the one recorded before.
    pub fn prepared_clock(rate: u64, clock: u32) -> (prepared: u32)
        ensures
            prepared == if rate <= u32::MAX {
                rate as u32
            } else {
                clock
            },
    {
        if rate <= u32::MAX as u64 {
            rate as u32
        } else {
            clock
        }
    }
}

/// What probing needs next.
#[derive(Clone, Copy, Debug, PartialEq, Eq, Structural)]
pub enum ProbeRequest {
    /// Does the device have a firmware node?
    FindNode,
    /// Match the node against `rockchip,rk3588-uart`.
    MatchCompatible,
    /// Where is the first register region?
    FindResource,
    /// Request that region; is it there?
    RequestRegion,
    /// Map it.
    MapRegion,
    /// Get the clock `apb_pclk`.
    GetBusClock,
    /// Enable it.
    EnableBusClock,
    /// Get the clock `baudclk`.
    GetBaudClock,
    /// Enable it exclusively, at this rate.
    EnableBaudClock(u32),
    /// Which rate does it run at?
    ReadBaudClock,
    /// Access a register.
    Access(Request),
    /// Find the first interrupt.
    FindInterrupt,
}

/// The answer to a [`ProbeRequest`].
#[derive(Clone, Copy, Debug)]
pub enum ProbeAnswer {
    Found(bool),
    Checked(Result<(), Errno>),
    Resource(Option<u64>),
    Rate(u64),
    Value(u32),
    Interrupt(Result<u32, Errno>),
}

/// Where probing stands.
#[derive(Clone, Copy, Debug, PartialEq, Eq, Structural)]
pub enum ProbeStage {
    FindNode,
    MatchCompatible,
    FindResource,
    RequestRegion,
    MapRegion,
    GetBusClock,
    EnableBusClock,
    GetBaudClock,
    EnableBaudClock,
    ReadBaudClock,
    /// Hide the divisor latch, in case it was left selected.
    SetLine(LcrWrite),
    /// Mask all interrupts.
    MaskIer,
    /// Read the divisor fraction.
    ReadFraction,
    /// Fill it with ones.
    FillFraction,
    /// See which of them it keeps.
    ReadMask,
    /// Put the fraction back; this mask was kept.
    RestoreFraction(u32),
    /// Read the component parameters.
    ReadParameters,
    FindInterrupt,
    Ready,
    Failed(Errno),
}

/// Probing a device.
#[derive(Clone, Copy, Debug, PartialEq, Eq, Structural)]
pub struct Probe {
    /// The module parameter: nonzero asks for DMA.
    pub dma: u32,
    /// Where the registers are.
    pub mapbase: u64,
    /// Rate of the input clock.
    pub rate: u32,
    /// The divisor fraction that was in effect.
    pub old_fraction: u32,
    /// The device's interrupt.
    pub irq: u32,
    pub uart: DwUart,
    pub stage: ProbeStage,
}

impl Probe {
    /// What probing needs next; `None` once it is done.
    pub open spec fn pending(self) -> Option<ProbeRequest> {
        match self.stage {
            ProbeStage::FindNode => Some(ProbeRequest::FindNode),
            ProbeStage::MatchCompatible => Some(ProbeRequest::MatchCompatible),
            ProbeStage::FindResource => Some(ProbeRequest::FindResource),
            ProbeStage::RequestRegion => Some(ProbeRequest::RequestRegion),
            ProbeStage::MapRegion => Some(ProbeRequest::MapRegion),
            ProbeStage::GetBusClock => Some(ProbeRequest::GetBusClock),
            ProbeStage::EnableBusClock => Some(ProbeRequest::EnableBusClock),
            ProbeStage::GetBaudClock => Some(ProbeRequest::GetBaudClock),
            ProbeStage::EnableBaudClock => Some(ProbeRequest::EnableBaudClock(REFERENCE_RATE)),
            ProbeStage::ReadBaudClock => Some(ProbeRequest::ReadBaudClock),
            ProbeStage::SetLine(write) => match write.pending() {
                Some(request) => Some(ProbeRequest::Access(request)),
                None => None,
            },
            ProbeStage::MaskIer => Some(
                ProbeRequest::Access(Request::Write { value: 0, offset: IER }),
            ),
            ProbeStage::ReadFraction => Some(ProbeRequest::Access(Request::Read { offset: DLF })),
            ProbeStage::FillFraction => Some(
                ProbeRequest::Access(Request::Write { value: u32::MAX, offset: DLF }),
            ),
            ProbeStage::ReadMask => Some(ProbeRequest::Access(Request::Read { offset: DLF })),
            ProbeStage::RestoreFraction(_) => Some(
                ProbeRequest::Access(Request::Write { value: self.old_fraction, offset: DLF }),
            ),
            ProbeStage::ReadParameters => Some(
                ProbeRequest::Access(Request::Read { offset: CPR }),
            ),
            ProbeStage::FindInterrupt => Some(ProbeRequest::FindInterrupt),
            ProbeStage::Ready => None,
            ProbeStage::Failed(_) => None,
        }
    }

    /// `answer` is one to the current request.
    pub open spec fn expects(self, answer: ProbeAnswer) -> bool {
        match self.pending() {
            Some(ProbeRequest::FindNode) => answer is Found,
            Some(ProbeRequest::RequestRegion) => answer is Found,
            Some(ProbeRequest::FindResource) => answer is Resource,
            Some(ProbeRequest::ReadBaudClock) => answer is Rate,
            Some(ProbeRequest::Access(_)) => answer is Value,
            Some(ProbeRequest::FindInterrupt) => answer is Interrupt,
            Some(_) => answer is Checked,
            None => false,
        }
    }

    /// Probing at a later stage.
    pub open spec fn at(self, stage: ProbeStage) -> Probe {
        Probe { stage, ..self }
    }

    /// Probing after the outcome of a step: at `stage`, or failed.
    pub open spec fn checked(self, result: Result<(), Errno>, stage: ProbeStage) -> Probe {
        match result {
            Ok(()) => self.at(stage),
            Err(error) => self.at(ProbeStage::Failed(error)),
        }
    }

    /// Probing after an answer that says whether something is there.
    pub open spec fn found(self, present: bool, stage: ProbeStage) -> Probe {
        self.at(
            if present {
                stage
            } else {
                ProbeStage::Failed(Errno::ENODEV)
            },
        )
    }

    /// Probing once a register has been accessed.
    pub open spec fn accessed(self, value: u32) -> Probe {
        match self.stage {
            ProbeStage::SetLine(write) => match write.next(value).stage {
                LcrStage::Done(true) => self.at(ProbeStage::MaskIer),
                LcrStage::Done(false) => self.at(ProbeStage::Failed(Errno::EBUSY)),
                _ => self.at(ProbeStage::SetLine(write.next(value))),
            },
            ProbeStage::MaskIer => self.at(ProbeStage::ReadFraction),
            ProbeStage::ReadFraction => Probe {
                old_fraction: value,
                stage: ProbeStage::FillFraction,
                ..self
            },
            ProbeStage::FillFraction => self.at(ProbeStage::ReadMask),
            ProbeStage::ReadMask => self.at(ProbeStage::RestoreFraction(value)),
            _ => {
                let fifo_size = fifo_depth_of(value);
                Probe {
                    uart: DwUart {
                        fifo_size,
                        dma: dma_config_of(self.dma, self.mapbase, fifo_size),
                        ..self.uart
                    },
                    stage: ProbeStage::FindInterrupt,
                    ..self
                }
            },
        }
    }

    /// `after` is this probe once the fraction has been put back: its width is
    /// known, or the device is not one that the driver knows.
    pub open spec fn measured(self, mask: u32, after: Probe) -> bool {
        match after.stage {
            ProbeStage::ReadParameters => {
                &&& after.uart.dlf_bits <= 16
                &&& is_low_mask(mask, after.uart.dlf_bits as nat)
                &&& after == (Probe {
                    uart: DwUart { dlf_bits: after.uart.dlf_bits, ..self.uart },
                    stage: ProbeStage::ReadParameters,
                    ..self
                })
            },
            _ => {
                &&& after == self.at(ProbeStage::Failed(Errno::ENODEV))
                &&& forall|bits: nat| bits <= 16 ==> !#[trigger] is_low_mask(mask, bits)
            },
        }
    }

    /// `after` is this probe after an answer.
    pub open spec fn next(self, answer: ProbeAnswer, after: Probe) -> bool {
        match answer {
            ProbeAnswer::Found(present) => after == self.found(
                present,
                if self.stage is FindNode {
                    ProbeStage::MatchCompatible
                } else {
                    ProbeStage::MapRegion
                },
            ),
            ProbeAnswer::Checked(result) => after == self.checked(
                result,
                match self.stage {
                    ProbeStage::MatchCompatible => ProbeStage::FindResource,
                    ProbeStage::MapRegion => ProbeStage::GetBusClock,
                    ProbeStage::GetBusClock => ProbeStage::EnableBusClock,
                    ProbeStage::EnableBusClock => ProbeStage::GetBaudClock,
                    ProbeStage::GetBaudClock => ProbeStage::EnableBaudClock,
                    _ => ProbeStage::ReadBaudClock,
                },
            ),
            ProbeAnswer::Resource(start) => after == match start {
                Some(mapbase) => Probe { mapbase, stage: ProbeStage::RequestRegion, ..self },
                None => self.at(ProbeStage::Failed(Errno::ENODEV)),
            },
            ProbeAnswer::Rate(rate) => after == if SLOWEST_CLOCK <= rate <= u32::MAX {
                Probe {
                    rate: rate as u32,
                    stage: ProbeStage::SetLine(LcrWrite::begun(LCR_8N1)),
                    ..self
                }
            } else {
                self.at(ProbeStage::Failed(Errno::EINVAL))
            },
            ProbeAnswer::Value(value) => match self.stage {
                ProbeStage::RestoreFraction(mask) => self.measured(mask, after),
                _ => after == self.accessed(value),
            },
            ProbeAnswer::Interrupt(result) => after == match result {
                Ok(irq) => Probe { irq, stage: ProbeStage::Ready, ..self },
                Err(error) => self.at(ProbeStage::Failed(error)),
            },
        }
    }

    /// A line control write on its way belongs to the probe, and registers are
    /// only accessed once the input clock is known to be fast enough.
    pub open spec fn wf(self) -> bool {
        &&& match self.stage {
            ProbeStage::SetLine(write) => write.attempts < ATTEMPTS && !(write.stage is Done),
            _ => true,
        }
        &&& self.pending() is Some && self.pending()->0 is Access ==> self.rate >= SLOWEST_CLOCK
    }

    /// Number of answers that are at most still to come.
    pub open spec fn left(self) -> nat {
        let write = 5 * ATTEMPTS as nat;
        match self.stage {
            ProbeStage::FindNode => write + 17,
            ProbeStage::MatchCompatible => write + 16,
            ProbeStage::FindResource => write + 15,
            ProbeStage::RequestRegion => write + 14,
            ProbeStage::MapRegion => write + 13,
            ProbeStage::GetBusClock => write + 12,
            ProbeStage::EnableBusClock => write + 11,
            ProbeStage::GetBaudClock => write + 10,
            ProbeStage::EnableBaudClock => write + 9,
            ProbeStage::ReadBaudClock => write + 8,
            ProbeStage::SetLine(current) => current.left() + 7,
            ProbeStage::MaskIer => 7,
            ProbeStage::ReadFraction => 6,
            ProbeStage::FillFraction => 5,
            ProbeStage::ReadMask => 4,
            ProbeStage::RestoreFraction(_) => 3,
            ProbeStage::ReadParameters => 2,
            ProbeStage::FindInterrupt => 1,
            ProbeStage::Ready => 0,
            ProbeStage::Failed(_) => 0,
        }
    }

    /// Begins to probe a device; `dma` is the module parameter.
    pub fn new(dma: u32) -> (probe: Probe)
        ensures
            probe == (Probe {
                dma,
                mapbase: 0,
                rate: 0,
                old_fraction: 0,
                irq: 0,
                uart: DwUart { dma: None, dlf_bits: 0, fifo_size: FIFO_SIZE, saved_lsr: 0 },
                stage: ProbeStage::FindNode,
            }),
            probe.wf(),
    {
        Probe {
            dma,
            mapbase: 0,
            rate: 0,
            old_fraction: 0,
            irq: 0,
            uart: DwUart { dma: None, dlf_bits: 0, fifo_size: FIFO_SIZE, saved_lsr: 0 },
            stage: ProbeStage::FindNode,
        }
    }

    /// What probing needs next; `None` once it is done.
    pub fn request(&self) -> (request: Option<ProbeRequest>)
        requires
            self.wf(),
        ensures
            request == self.pending(),
            request is None <==> self.stage is Ready || self.stage is Failed,
    {
        match self.stage {
            ProbeStage::FindNode => Some(ProbeRequest::FindNode),
            ProbeStage::MatchCompatible => Some(ProbeRequest::MatchCompatible),
            ProbeStage::FindResource => Some(ProbeRequest::FindResource),
            ProbeStage::RequestRegion => Some(ProbeRequest::RequestRegion),
            ProbeStage::MapRegion => Some(ProbeRequest::MapRegion),
            ProbeStage::GetBusClock => Some(ProbeRequest::GetBusClock),
            ProbeStage::EnableBusClock => Some(ProbeRequest::EnableBusClock),
            ProbeStage::GetBaudClock => Some(ProbeRequest::GetBaudClock),
            ProbeStage::EnableBaudClock => Some(ProbeRequest::EnableBaudClock(REFERENCE_RATE)),
            ProbeStage::ReadBaudClock => Some(ProbeRequest::ReadBaudClock),
            ProbeStage::SetLine(write) => match write.request() {
                Some(request) => Some(ProbeRequest::Access(request)),
                None => None,
            },
            ProbeStage::MaskIer => Some(
                ProbeRequest::Access(Request::Write { value: 0, offset: IER }),
            ),
            ProbeStage::ReadFraction => Some(ProbeRequest::Access(Request::Read { offset: DLF })),
            ProbeStage::FillFraction => Some(
                ProbeRequest::Access(Request::Write { value: u32::MAX, offset: DLF }),
            ),
            ProbeStage::ReadMask => Some(ProbeRequest::Access(Request::Read { offset: DLF })),
            ProbeStage::RestoreFraction(_) => Some(
                ProbeRequest::Access(Request::Write { value: self.old_fraction, offset: DLF }),
            ),
            ProbeStage::ReadParameters => Some(
                ProbeRequest::Access(Request::Read { offset: CPR }),
            ),
            ProbeStage::FindInterrupt => Some(ProbeRequest::FindInterrupt),
            ProbeStage::Ready => None,
            ProbeStage::Failed(_) => None,
        }
    }

    /// The stage after the outcome of a step.
    fn stage_checked(result: Result<(), Errno>, stage: ProbeStage) -> (next: ProbeStage)
        ensures
            next == match result {
                Ok(()) => stage,
                Err(error) => ProbeStage::Failed(error),
            },
    {
        match result {
            Ok(()) => stage,
            Err(error) => ProbeStage::Failed(error),
        }
    }

    /// Takes the value of a register access.
    fn access(&mut self, value: u32)
        requires
            old(self).wf(),
            old(self).expects(ProbeAnswer::Value(value)),
        ensures
            old(self).next(ProbeAnswer::Value(value), *final(self)),
            final(self).wf(),
            final(self).left() < old(self).left(),
    {
        match self.stage {
            ProbeStage::SetLine(current) => {
                let mut write = current;
                write.resume(value);
                self.stage = match write.outcome() {
                    Some(taken) => if taken {
                        ProbeStage::MaskIer
                    } else {
                        ProbeStage::Failed(Errno::EBUSY)
                    },
                    None => ProbeStage::SetLine(write),
                };
            },
            ProbeStage::MaskIer => {
                self.stage = ProbeStage::ReadFraction;
            },
            ProbeStage::ReadFraction => {
                self.old_fraction = value;
                self.stage = ProbeStage::FillFraction;
            },
            ProbeStage::FillFraction => {
                self.stage = ProbeStage::ReadMask;
            },
            ProbeStage::ReadMask => {
                self.stage = ProbeStage::RestoreFraction(value);
            },
            ProbeStage::RestoreFraction(mask) => {
                match fraction_width(mask) {
                    Some(bits) => {
                        self.uart.dlf_bits = bits;
                        self.stage = ProbeStage::ReadParameters;
                    },
                    None => {
                        self.stage = ProbeStage::Failed(Errno::ENODEV);
                    },
                }
            },
            _ => {
                self.uart.fifo_size = fifo_depth(value);
                self.uart.dma = dma_config(self.dma, self.mapbase, self.uart.fifo_size);
                self.stage = ProbeStage::FindInterrupt;
            },
        }
    }

    /// Takes the answer to the current request.
    pub fn resume(&mut self, answer: ProbeAnswer)
        requires
            old(self).wf(),
            old(self).expects(answer),
        ensures
            old(self).next(answer, *final(self)),
            final(self).wf(),
            final(self).left() < old(self).left(),
    {
        match answer {
            ProbeAnswer::Found(present) => {
                self.stage = if !present {
                    ProbeStage::Failed(Errno::ENODEV)
                } else {
                    match self.stage {
                        ProbeStage::FindNode => ProbeStage::MatchCompatible,
                        _ => ProbeStage::MapRegion,
                    }
                };
            },
            ProbeAnswer::Checked(result) => {
                self.stage = Self::stage_checked(
                    result,
                    match self.stage {
                        ProbeStage::MatchCompatible => ProbeStage::FindResource,
                        ProbeStage::MapRegion => ProbeStage::GetBusClock,
                        ProbeStage::GetBusClock => ProbeStage::EnableBusClock,
                        ProbeStage::EnableBusClock => ProbeStage::GetBaudClock,
                        ProbeStage::GetBaudClock => ProbeStage::EnableBaudClock,
                        _ => ProbeStage::ReadBaudClock,
                    },
                );
            },
            ProbeAnswer::Resource(start) => match start {
                Some(mapbase) => {
                    self.mapbase = mapbase;
                    self.stage = ProbeStage::RequestRegion;
                },
                None => {
                    self.stage = ProbeStage::Failed(Errno::ENODEV);
                },
            },
            ProbeAnswer::Rate(rate) => match check_rate(rate) {
                Ok(checked) => {
                    self.rate = checked;
                    self.stage = ProbeStage::SetLine(LcrWrite::new(LCR_8N1));
                },
                Err(error) => {
                    self.stage = ProbeStage::Failed(error);
                },
            },
            ProbeAnswer::Value(value) => {
                self.access(value);
            },
            ProbeAnswer::Interrupt(result) => match result {
                Ok(irq) => {
                    self.irq = irq;
                    self.stage = ProbeStage::Ready;
                },
                Err(error) => {
                    self.stage = ProbeStage::Failed(error);
                },
            },
        }
    }
}

// ---------------------------------------------------------------------------
// Laws
// ---------------------------------------------------------------------------

/// Measuring the fraction leaves it as it was: it is filled with ones only
/// once it has been read, and the very value that was read is written back
/// before the probe goes on or gives up.
pub proof fn law_fraction_is_restored(
    probe: Probe,
    fraction: u32,
    ignored: u32,
    mask: u32,
    filling: Probe,
    filled: Probe,
    measured: Probe,
)
    requires
        probe.stage is ReadFraction,
        probe.next(ProbeAnswer::Value(fraction), filling),
        filling.next(ProbeAnswer::Value(ignored), filled),
        filled.next(ProbeAnswer::Value(mask), measured),
    ensures
        probe.pending() == Some(ProbeRequest::Access(Request::Read { offset: DLF })),
        filling.pending() == Some(
            ProbeRequest::Access(Request::Write { value: u32::MAX, offset: DLF }),
        ),
        filled.pending() == Some(ProbeRequest::Access(Request::Read { offset: DLF })),
        measured.pending() == Some(
            ProbeRequest::Access(Request::Write { value: fraction, offset: DLF }),
        ),
{
}

/// A device that is ready has a fraction that the divisor can use and FIFOs
/// with room, and its DMA settings point at its registers.
pub open spec fn usable(probe: Probe) -> bool {
    &&& probe.stage is ReadParameters || probe.stage is FindInterrupt || probe.stage is Ready
        ==> probe.uart.dlf_bits <= 16
    &&& probe.stage is FindInterrupt || probe.stage is Ready ==> 16 <= probe.uart.fifo_size
        <= 4080 && probe.uart.dma == dma_config_of(
        probe.dma,
        probe.mapbase,
        probe.uart.fifo_size,
    )
}

/// What holds of a device that is ready holds from the beginning, after every
/// answer.
pub proof fn law_ready_device_is_usable(probe: Probe, answer: ProbeAnswer, after: Probe)
    requires
        probe.wf(),
        usable(probe),
        probe.expects(answer),
        probe.next(answer, after),
    ensures
        usable(after),
{
    if answer is Value {
        let value = answer->Value_0;
        lemma_fields(value);
    }
}

/// The width of a fraction is the one whose mask was kept: as many ones, and at
/// most sixteen.
pub proof fn law_fraction_width(mask: u32, width: Option<u8>)
    requires
        call_ensures(fraction_width, (mask,), width),
    ensures
        width is Some ==> width->0 <= 16 && mask + 1 == pow2(width->0 as nat),
        width is None ==> forall|bits: nat| bits <= 16 ==> mask + 1 != #[trigger] pow2(bits),
{
    if width is None {
        assert forall|bits: nat| bits <= 16 implies mask + 1 != #[trigger] pow2(bits) by {
            assert(!is_low_mask(mask, bits));
        }
    }
}

/// The depth of the FIFOs is the third byte of the component parameters, in
/// units of sixteen; where that is zero, it is 64.
pub proof fn law_fifo_depth(parameters: u32, depth: u32)
    requires
        call_ensures(fifo_depth, (parameters,), depth),
    ensures
        ({
            let blocks = parameters / 0x1_0000 % 0x100;
            depth == if blocks == 0 {
                64
            } else {
                16 * blocks
            }
        }),
{
    lemma_fields(parameters);
}

/// DMA settings exist exactly when DMA is asked for. They name the start of the
/// registers, where the FIFO is, and a burst of a quarter of the FIFO, but at
/// least one byte and at most sixteen.
pub proof fn law_dma_settings(dma: u32, mapbase: u64, fifo_size: u32, config: Option<Config>)
    requires
        call_ensures(dma_config, (dma, mapbase, fifo_size), config),
    ensures
        config is Some <==> dma != 0,
        config is Some ==> {
            let burst = config->0.burst;
            &&& config->0.fifo == mapbase
            &&& 1 <= burst <= 16
            &&& 4 <= fifo_size < 64 ==> 4 * burst <= fifo_size < 4 * burst + 4
            &&& fifo_size >= 64 ==> burst == 16
            &&& fifo_size < 4 ==> burst == 1
        },
{
}

/// A clock is good enough if it is not slower than 1.8432 MHz and its rate fits.
pub proof fn law_clock_is_checked(rate: u64, result: Result<u32, Errno>)
    requires
        call_ensures(check_rate, (rate,), result),
    ensures
        result is Ok <==> 1_843_200 <= rate <= 0xffff_ffff,
        result is Ok ==> result->Ok_0 == rate,
        result is Err ==> result->Err_0 == Errno::EINVAL,
{
}

/// The clock is set to what a rate needs with the 24 MHz reference, unless it
/// runs at that already; and the port then goes by what it really runs at.
pub proof fn law_clock_is_prepared(
    uart: &DwUart,
    baud: u32,
    rate: u64,
    wanted: Option<u32>,
    needed: u32,
    recorded: u32,
    prepared: u32,
    config: Option<Config>,
)
    requires
        call_ensures(DwUart::prepare_clock, (uart, baud, rate), wanted),
        call_ensures(baud_clock, (24_000_000u32, baud, uart.dlf_bits), needed),
        call_ensures(DwUart::prepared_clock, (rate, recorded), prepared),
        call_ensures(DwUart::dma_config, (uart,), config),
    ensures
        rate == needed ==> wanted is None,
        rate != needed ==> wanted == Some(needed),
        rate <= 0xffff_ffff ==> prepared == rate,
        rate > 0xffff_ffff ==> prepared == recorded,
        config == uart.dma,
{
}

/// The course of a probe, request by request. Every answer that something is
/// there or went well leads on to the next request, and every other one fails
/// the probe with the error that it brings, or with the one that stands for
/// what is missing. What was learnt is kept, and nothing else changes.
pub proof fn law_probe_course(probe: &mut Probe, answer: ProbeAnswer)
    requires
        old(probe).wf(),
        old(probe).expects(answer),
        call_ensures(Probe::resume, (probe, answer), ()),
    ensures
        ({
            let asked = old(probe).pending()->0;
            let next = final(probe).pending();
            let failed = final(probe).stage;
            match answer {
                ProbeAnswer::Found(present) => {
                    &&& present && asked == ProbeRequest::FindNode ==> next == Some(
                        ProbeRequest::MatchCompatible,
                    )
                    &&& present && asked == ProbeRequest::RequestRegion ==> next == Some(
                        ProbeRequest::MapRegion,
                    )
                    &&& !present ==> failed == ProbeStage::Failed(Errno::ENODEV)
                },
                ProbeAnswer::Checked(Ok(())) => next == Some(
                    match asked {
                        ProbeRequest::MatchCompatible => ProbeRequest::FindResource,
                        ProbeRequest::MapRegion => ProbeRequest::GetBusClock,
                        ProbeRequest::GetBusClock => ProbeRequest::EnableBusClock,
                        ProbeRequest::EnableBusClock => ProbeRequest::GetBaudClock,
                        ProbeRequest::GetBaudClock => ProbeRequest::EnableBaudClock(24_000_000),
                        _ => ProbeRequest::ReadBaudClock,
                    },
                ),
                ProbeAnswer::Checked(Err(error)) => failed == ProbeStage::Failed(error),
                ProbeAnswer::Resource(Some(start)) => next == Some(ProbeRequest::RequestRegion)
                    && final(probe).mapbase == start,
                ProbeAnswer::Resource(None) => failed == ProbeStage::Failed(Errno::ENODEV),
                ProbeAnswer::Rate(rate) => if 1_843_200 <= rate <= 0xffff_ffff {
                    &&& next == Some(
                        ProbeRequest::Access(Request::Write { value: 3, offset: 0x0c }),
                    )
                    &&& final(probe).rate == rate
                } else {
                    failed == ProbeStage::Failed(Errno::EINVAL)
                },
                ProbeAnswer::Value(_) => true,
                ProbeAnswer::Interrupt(Ok(irq)) => next is None && failed is Ready
                    && final(probe).irq == irq,
                ProbeAnswer::Interrupt(Err(error)) => failed == ProbeStage::Failed(error),
            }
        }),
        final(probe).dma == old(probe).dma,
        !(answer is Resource) ==> final(probe).mapbase == old(probe).mapbase,
        !(answer is Rate) ==> final(probe).rate == old(probe).rate,
        !(answer is Interrupt) ==> final(probe).irq == old(probe).irq,
        !(answer is Value) ==> final(probe).uart == old(probe).uart,
{
}

/// The course of a probe through the registers: once the framing is set the
/// interrupts are masked; then the fraction is measured and put back; a width
/// that is known leads on to the component parameters, and those to the
/// interrupt.
pub proof fn law_probe_reads_the_registers(probe: &mut Probe, value: u32)
    requires
        old(probe).wf(),
        old(probe).expects(ProbeAnswer::Value(value)),
        call_ensures(Probe::resume, (probe, ProbeAnswer::Value(value)), ()),
    ensures
        ({
            let next = final(probe).pending();
            match old(probe).stage {
                ProbeStage::SetLine(write) => {
                    let written = write.next(value);
                    &&& written.stage == LcrStage::Done(true) ==> next == Some(
                        ProbeRequest::Access(Request::Write { value: 0, offset: 0x04 }),
                    )
                    &&& written.stage == LcrStage::Done(false) ==> final(probe).stage
                        == ProbeStage::Failed(Errno::EBUSY)
                    &&& !(written.stage is Done) ==> next == Some(
                        ProbeRequest::Access(written.pending()->0),
                    )
                },
                ProbeStage::MaskIer => next == Some(
                    ProbeRequest::Access(Request::Read { offset: 0xc0 }),
                ),
                ProbeStage::ReadFraction => next == Some(
                    ProbeRequest::Access(Request::Write { value: 0xffff_ffff, offset: 0xc0 }),
                ) && final(probe).old_fraction == value,
                ProbeStage::FillFraction => next == Some(
                    ProbeRequest::Access(Request::Read { offset: 0xc0 }),
                ),
                ProbeStage::ReadMask => next == Some(
                    ProbeRequest::Access(
                        Request::Write { value: old(probe).old_fraction, offset: 0xc0 },
                    ),
                ) && final(probe).stage == ProbeStage::RestoreFraction(value),
                ProbeStage::RestoreFraction(mask) => {
                    ||| next == Some(ProbeRequest::Access(Request::Read { offset: 0xf4 }))
                        && final(probe).uart.dlf_bits <= 16 && mask + 1 == pow2(
                        final(probe).uart.dlf_bits as nat,
                    )
                    ||| final(probe).stage == ProbeStage::Failed(Errno::ENODEV) && forall|
                        bits: nat,
                    |
                        bits <= 16 ==> mask + 1 != #[trigger] pow2(bits)
                },
                _ => {
                    let blocks = value / 0x1_0000 % 0x100;
                    let size = final(probe).uart.fifo_size;
                    &&& next == Some(ProbeRequest::FindInterrupt)
                    &&& size == if blocks == 0 {
                        64
                    } else {
                        16 * blocks
                    }
                    &&& final(probe).uart.dlf_bits == old(probe).uart.dlf_bits
                    &&& final(probe).uart.dma is Some <==> old(probe).dma != 0
                    &&& final(probe).uart.dma is Some
                        ==> final(probe).uart.dma->0.fifo == old(probe).mapbase
                        && final(probe).uart.dma->0.burst == if size >= 64 {
                        16
                    } else {
                        size / 4
                    }
                },
            }
        }),
        final(probe).uart.saved_lsr == old(probe).uart.saved_lsr,
        !(old(probe).stage is RestoreFraction)
            ==> final(probe).uart.dlf_bits == old(probe).uart.dlf_bits,
        !(old(probe).stage is ReadParameters)
            ==> final(probe).uart.fifo_size == old(probe).uart.fifo_size
            && final(probe).uart.dma == old(probe).uart.dma,
{
    lemma_fields(value);
    if let ProbeStage::RestoreFraction(mask) = old(probe).stage {
        if final(probe).stage is Failed {
            assert forall|bits: nat| bits <= 16 implies mask + 1 != #[trigger] pow2(bits) by {
                assert(!is_low_mask(mask, bits));
            }
        }
    }
}

/// A probe goes by what it asks for, and begins with the firmware node, with
/// nothing known.
pub proof fn law_probe_begins(dma: u32, probe: Probe, asking: &Probe, request: Option<ProbeRequest>)
    requires
        call_ensures(Probe::new, (dma,), probe),
        call_ensures(Probe::request, (asking,), request),
    ensures
        request == asking.pending(),
        probe.pending() == Some(ProbeRequest::FindNode),
        probe.dma == dma,
        probe.uart.dma is None,
        probe.uart.saved_lsr == 0,
{
}

/// A probe that fails keeps what it knew; the fraction that was in effect is
/// noted once; and the framing is set by an ordinary write of eight data bits,
/// one stop bit and no parity. A new probe knows nothing, and takes the FIFOs to
/// be of the usual depth.
pub proof fn law_probe_keeps_what_it_knows(
    dma: u32,
    fresh: Probe,
    probe: &mut Probe,
    answer: ProbeAnswer,
    line: LcrWrite,
    write: &mut LcrWrite,
    rate: u32,
    wide: u64,
)
    requires
        call_ensures(Probe::new, (dma,), fresh),
        old(probe).wf(),
        old(probe).expects(answer),
        call_ensures(Probe::resume, (probe, answer), ()),
        call_ensures(LcrWrite::new, (3u32,), line),
        old(probe).stage is SetLine ==> *old(write) == old(probe).stage->SetLine_0,
        answer is Value ==> call_ensures(LcrWrite::resume, (write, answer->Value_0), ()),
        call_ensures(hertz, (rate,), wide),
    ensures
        fresh.mapbase == 0 && fresh.rate == 0 && fresh.old_fraction == 0 && fresh.irq == 0,
        fresh.uart == (DwUart { dma: None, dlf_bits: 0, fifo_size: 64, saved_lsr: 0 }),
        final(probe).stage is Failed ==> *final(probe) == (Probe {
            stage: final(probe).stage,
            ..*old(probe)
        }),
        !(old(probe).stage is ReadFraction)
            ==> final(probe).old_fraction == old(probe).old_fraction,
        answer is Rate && !(final(probe).stage is Failed) ==> final(probe).stage
            == ProbeStage::SetLine(line),
        old(probe).stage is SetLine && !(final(write).stage is Done) ==> final(probe).stage
            == ProbeStage::SetLine(*final(write)),
        wide == rate,
{
}

} // verus!
