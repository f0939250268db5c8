//! Controller of the DesignWare APB UART of the RK3588.
//!
//! Every register access belongs to the caller, who holds the port lock. An
//! operation is a small machine: it names the access it needs next as a
//! [`Request`], and is resumed with the reply. The work of each machine is
//! bounded, whatever the device replies.

use vstd::prelude::*;
use crate::serial::dma::Config;
use crate::serial::driver::{Driver, DriverInfo, DriverState};

pub mod config;
pub mod configure;
pub mod control;
pub mod interrupt;
pub mod lcr;
pub mod probe;
pub mod receive;
pub mod transmit;

verus! {

/// RK3588 has UART0 to UART9.
pub const LINES: u32 = 10;

/// The fixed 24 MHz reference every standard rate up to 1.5 Mbaud divides from.
pub const REFERENCE_RATE: u32 = 24_000_000;

/// Depth of the FIFOs where the device does not tell.
pub const FIFO_SIZE: u32 = 64;

/// Most interrupts and received bytes that one interrupt handles.
pub const IRQ_BUDGET: usize = 256;

// Register offsets.
/// Receive buffer, transmit holding register, or divisor latch low.
pub const DATA: u32 = 0x00;

/// Interrupt enable register, or divisor latch high.
pub const IER: u32 = 0x04;

/// Interrupt identification when read, FIFO control when written.
pub const FCR: u32 = 0x08;

/// Line control register.
pub const LCR: u32 = 0x0c;

/// Modem control register.
pub const MCR: u32 = 0x10;

/// Line status register.
pub const LSR: u32 = 0x14;

/// Modem status register.
pub const MSR: u32 = 0x18;

/// UART status register; reading it clears a busy-detect interrupt.
pub const USR: u32 = 0x7c;

/// Divisor latch fraction.
pub const DLF: u32 = 0xc0;

/// Component parameters.
pub const CPR: u32 = 0xf4;

/// Interrupt on received data.
pub const IER_RX: u32 = 1;

/// Interrupt on an empty transmitter.
pub const IER_TX: u32 = 2;

/// Interrupt on line errors.
pub const IER_LSR: u32 = 4;

/// FIFOs enabled with the receive trigger at a quarter depth; the
/// four-character timeout interrupt still delivers shorter messages promptly.
pub const FCR_ENABLE: u32 = 0x49;

/// FIFOs enabled and both reset.
pub const FCR_RESET_ALL: u32 = 0x4f;

/// FIFOs enabled and the transmit FIFO reset.
pub const FCR_RESET_TX: u32 = 0x4d;

/// Break control in the line control register.
pub const LCR_BREAK: u32 = 0x40;

/// Divisor latch access in the line control register.
pub const LCR_DLAB: u32 = 0x80;

/// Overrun, parity, framing and break in the line status register.
pub const LSR_ERRORS: u32 = 0x1e;

/// Data-ready and break in the line status register.
pub const LSR_DATA: u32 = 0x11;

/// What an operation needs from its caller before it can go on.
#[derive(Clone, Copy, Debug, PartialEq, Eq, Structural)]
pub enum Request {
    /// Read the register at this offset; the reply is its value.
    Read { offset: u32 },
    /// Write the register at this offset. The reply is not looked at.
    Write { value: u32, offset: u32 },
    /// Offer a break to serial core; the reply is nonzero if it takes it.
    HandleBreak,
    /// Offer transmission to DMA; the reply is nonzero if it takes it.
    DmaTx,
    /// Offer reception to DMA; the reply is nonzero if it takes it.
    DmaRx,
    /// End DMA reception after a line error; the reply is nonzero if the
    /// FIFO is now to be read.
    DmaRxError,
    /// End DMA reception after a timeout; the reply is nonzero if the FIFO is
    /// now to be read.
    DmaRxFlush,
}

/// State of one controller. Register accesses are serialized by the port lock.
#[derive(Clone, Copy, Debug, PartialEq, Eq, Structural)]
pub struct DwUart {
    /// DMA settings, where DMA is wanted.
    pub dma: Option<Config>,
    /// Width of the divisor fraction.
    pub dlf_bits: u8,
    /// Depth of the FIFOs.
    pub fifo_size: u32,
    /// Line errors describe the head of the FIFO and clear on read. Reads
    /// outside the receive path park them here so that no error is lost.
    pub saved_lsr: u32,
}

/// The TTY driver, `/dev/ttyRU*`, before it is registered.
pub fn tty_driver() -> (driver: Driver)
    ensures
        driver.wf(),
        driver.lines_valid(),
        driver.description().driver_name@ == "rust_dw_uart"@,
        driver.description().dev_name@ == "ttyRU"@,
        driver.description().lines == LINES,
        driver.line_map() == 0,
        driver.progress() == DriverState::Unregistered,
{
    Driver::new(DriverInfo { driver_name: "rust_dw_uart", dev_name: "ttyRU", lines: LINES })
}

/// The driver has ten lines, none of which is taken, and is not registered yet.
pub proof fn law_driver_has_ten_lines(driver: Driver, info: &DriverInfo, state: DriverState)
    requires
        call_ensures(tty_driver, (), driver),
        call_ensures(Driver::info, (&driver,), info),
        call_ensures(Driver::state, (&driver,), state),
    ensures
        info.lines == 10,
        info.driver_name@ == "rust_dw_uart"@,
        info.dev_name@ == "ttyRU"@,
        state == DriverState::Unregistered,
        driver.line_map() == 0,
{
}

} // verus!
