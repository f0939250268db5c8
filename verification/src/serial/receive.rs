//! Flags of a received character.

use vstd::prelude::*;

verus! {

/// Hardware receive overrun.
pub const OVERRUN: u32 = 1;

/// Incorrect parity.
pub const PARITY: u32 = 2;

/// Invalid stop bit.
pub const FRAME: u32 = 4;

/// Break condition.
pub const BREAK: u32 = 8;

/// An ordinary character.
pub const DATA: u32 = 16;

} // verus!
