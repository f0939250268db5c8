//! A verified UART stack: the decision logic of a DesignWare UART driver, the
//! serial-core layer above it, a bounded character-device FIFO, and the
//! CRC-protected frame protocol that exercises them over RS485.
//!
//! Everything here is ordinary computation on plain values. Register accesses,
//! system calls, clocks and sleeps are performed by the caller: an operation
//! that needs several of them is a small state machine which says what to do
//! next and is told what came back.

mod bits;
pub mod chardev;
pub mod dmaengine;
pub mod dw_uart;
pub mod errno;
pub mod error;
pub mod frame;
pub mod ring;
pub mod rs485;
pub mod serial;
pub mod text;
