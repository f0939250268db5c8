//! Minimal interrupt-driven UART integration with serial core.
//!
//! A [`driver::Driver`] is a module-lifetime TTY driver: it owns the line
//! numbers that open TTYs keep referring to until they are closed. A port is
//! one device-lifetime line on such a driver. Unbinding a device only hangs
//! its line up, while an open TTY keeps the module, so that line state is never
//! freed under it.

pub mod dma;
pub mod driver;
pub mod locked_port;
pub mod port;
pub mod receive;
pub mod termios;
