//! Deadline-bounded UART transfers and the integrity test that runs over them.
//!
//! Time is counted in nanoseconds on a clock that never goes back. System
//! calls, the clock and sleeps are the caller's.

pub mod lifecycle;
pub mod line;
pub mod options;
pub mod regression;
pub mod session;
pub mod transfer;
pub mod wait;
