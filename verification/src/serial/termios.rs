//! Line settings as user space requests them.

use vstd::prelude::*;
use crate::bits::{lemma_constants, lemma_fields};
use crate::serial::locked_port::{LockedPort, PortState};
use crate::serial::receive;

verus! {

// Control flags of the generic Linux user interface.
/// Mask of the character size.
pub const CSIZE: u32 = 0o60;

pub const CS5: u32 = 0o0;

pub const CS6: u32 = 0o20;

pub const CS7: u32 = 0o40;

/// Two stop bits.
pub const CSTOPB: u32 = 0o100;

/// Enable the receiver.
pub const CREAD: u32 = 0o200;

/// Enable parity.
pub const PARENB: u32 = 0o400;

/// Odd parity.
pub const PARODD: u32 = 0o1000;

/// Mark or space parity.
pub const CMSPAR: u32 = 0o10000000000;

/// Hardware flow control.
pub const CRTSCTS: u32 = 0o20000000000;

// Input flags of the generic Linux user interface.
/// Ignore breaks.
pub const IGNBRK: u32 = 0o1;

/// Signal on a break.
pub const BRKINT: u32 = 0o2;

/// Ignore characters with parity errors.
pub const IGNPAR: u32 = 0o4;

/// Mark characters with parity errors.
pub const PARMRK: u32 = 0o10;

/// Check parity.
pub const INPCK: u32 = 0o20;

/// Line settings: what the driver reads of them.
#[derive(Clone, Copy, Debug, PartialEq, Eq, Structural)]
pub struct Termios {
    pub c_iflag: u32,
    pub c_cflag: u32,
    pub c_ospeed: u32,
    /// The rate that the settings encode; zero hangs up.
    pub rate: u32,
}

/// UART framing requested through termios.
#[derive(Clone, Copy, Debug, PartialEq, Eq, Structural)]
pub struct LineConfig {
    /// Requested baud rate selected by serial core.
    pub baud: u32,
    /// Input clock rate in Hz.
    pub clock: u32,
    /// Five, six, seven, or eight data bits.
    pub data_bits: u8,
    /// Request two stop bits (1.5 for five-bit UART framing).
    pub two_stop_bits: bool,
    /// Parity enabled.
    pub parity: bool,
    /// Odd parity when parity is enabled.
    pub odd_parity: bool,
}

/// The rate that settings ask for. B0 hangs up, and is treated as 9600.
pub open spec fn requested_rate_of(rate: u32) -> u32 {
    if rate == 0 {
        9600
    } else {
        rate
    }
}

/// The rate that settings ask for.
pub fn requested_rate(rate: u32) -> (requested: u32)
    ensures
        requested == requested_rate_of(rate),
{
    if rate == 0 {
        9600
    } else {
        rate
    }
}

/// The least rate that `clock` can be divided to, but never below 50.
pub open spec fn slowest_rate(clock: u32) -> u32 {
    if clock / 16 / 65535 < 50 {
        50
    } else {
        clock / 16 / 65535
    }
}

/// The least and the greatest rate that `clock` can be divided to.
pub fn rate_limits(clock: u32) -> (limits: (u32, u32))
    ensures
        limits.0 == slowest_rate(clock),
        limits.1 == clock / 16,
{
    let slowest: u32 = clock / 16 / 65535;
    (
        if slowest < 50 {
            50
        } else {
            slowest
        },
        clock / 16,
    )
}

/// The number of data bits that control flags ask for.
pub open spec fn data_bits_of(cflag: u32) -> u8 {
    if cflag & CSIZE == CS5 {
        5
    } else if cflag & CSIZE == CS6 {
        6
    } else if cflag & CSIZE == CS7 {
        7
    } else {
        8
    }
}

/// The framing that control flags ask for.
pub open spec fn line_config_of(baud: u32, clock: u32, cflag: u32) -> LineConfig {
    LineConfig {
        baud,
        clock,
        data_bits: data_bits_of(cflag),
        two_stop_bits: cflag & CSTOPB != 0,
        parity: cflag & PARENB != 0,
        odd_parity: cflag & PARODD != 0,
    }
}

/// The framing that control flags ask for.
pub fn line_config(baud: u32, clock: u32, cflag: u32) -> (config: LineConfig)
    ensures
        config == line_config_of(baud, clock, cflag),
{
    let size: u32 = cflag & CSIZE;
    LineConfig {
        baud,
        clock,
        data_bits: if size == CS5 {
            5
        } else if size == CS6 {
            6
        } else if size == CS7 {
            7
        } else {
            8
        },
        two_stop_bits: cflag & CSTOPB != 0,
        parity: cflag & PARENB != 0,
        odd_parity: cflag & PARODD != 0,
    }
}

/// The flag `bit`, when it is wanted.
pub open spec fn when(wanted: bool, bit: u32) -> u32 {
    if wanted {
        bit
    } else {
        0
    }
}

/// The status flags that a port with these input flags keeps. Overruns and
/// data are always kept.
pub open spec fn read_mask_of(iflag: u32) -> u32 {
    receive::OVERRUN | receive::DATA | when(
        iflag & INPCK != 0,
        receive::PARITY | receive::FRAME,
    ) | when(iflag & (IGNBRK | BRKINT | PARMRK) != 0, receive::BREAK)
}

/// The status flags whose characters a port with these flags drops. Overruns
/// are only dropped along with breaks and parity errors, and data only while
/// the receiver is disabled.
pub open spec fn ignore_mask_of(iflag: u32, cflag: u32) -> u32 {
    when(iflag & IGNPAR != 0, receive::PARITY | receive::FRAME) | when(
        iflag & IGNBRK != 0,
        receive::BREAK,
    ) | when(iflag & IGNBRK != 0 && iflag & IGNPAR != 0, receive::OVERRUN) | when(
        cflag & CREAD == 0,
        receive::DATA,
    )
}

impl PortState {
    /// The port with these settings in effect.
    pub open spec fn configured(self, clock: u32, iflag: u32, cflag: u32) -> PortState {
        PortState {
            uartclk: clock,
            read_status_mask: read_mask_of(iflag),
            ignore_status_mask: ignore_mask_of(iflag, cflag),
            ..self
        }
    }
}

/// The flag `bit`, when it is wanted.
fn flag(wanted: bool, bit: u32) -> (value: u32)
    ensures
        value == when(wanted, bit),
{
    if wanted {
        bit
    } else {
        0
    }
}

impl LockedPort {
    /// Puts settings that the hardware has accepted into effect.
    pub fn apply_termios(&mut self, clock: u32, iflag: u32, cflag: u32)
        ensures
            final(self)@ == old(self)@.configured(clock, iflag, cflag),
    {
        self.uartclk = clock;
        self.read_status_mask =
            receive::OVERRUN | receive::DATA | flag(
                iflag & INPCK != 0,
                receive::PARITY | receive::FRAME,
            ) | flag(iflag & (IGNBRK | BRKINT | PARMRK) != 0, receive::BREAK);
        self.ignore_status_mask =
            flag(iflag & IGNPAR != 0, receive::PARITY | receive::FRAME) | flag(
                iflag & IGNBRK != 0,
                receive::BREAK,
            ) | flag(iflag & IGNBRK != 0 && iflag & IGNPAR != 0, receive::OVERRUN) | flag(
                cflag & CREAD == 0,
                receive::DATA,
            );
    }
}

/// A port that reads at all keeps ordinary characters and overruns, whatever
/// else it filters; it keeps parity errors exactly when it checks parity.
pub proof fn law_read_mask(iflag: u32)
    ensures
        read_mask_of(iflag) & receive::DATA != 0,
        read_mask_of(iflag) & receive::OVERRUN != 0,
        read_mask_of(iflag) & receive::PARITY != 0 <==> iflag & INPCK != 0,
        read_mask_of(iflag) & receive::FRAME != 0 <==> iflag & INPCK != 0,
        read_mask_of(iflag) & receive::BREAK != 0 <==> iflag & (IGNBRK | BRKINT | PARMRK) != 0,
        read_mask_of(iflag) < 32,
{
    let check = when(iflag & INPCK != 0, receive::PARITY | receive::FRAME);
    let brk = when(iflag & (IGNBRK | BRKINT | PARMRK) != 0, receive::BREAK);
    lemma_constants();
    let mask = 1u32 | 16u32 | check | brk;
    assert(mask & 16 != 0 && mask & 1 != 0 && (mask & 2 != 0 <==> check == 6) && (mask & 4 != 0
        <==> check == 6) && (mask & 8 != 0 <==> brk == 8) && mask < 32) by (bit_vector)
        requires
            mask == 1u32 | 16u32 | check | brk,
            check == 0 || check == 6,
            brk == 0 || brk == 8,
    ;
}

/// While the receiver is disabled every character is dropped; while it is
/// enabled a character without errors never is.
pub proof fn law_receiver_switch(port: PortState, clock: u32, iflag: u32, cflag: u32, status: u32)
    ensures
        ({
            let after = port.configured(clock, iflag, cflag);
            &&& cflag & CREAD == 0 ==> after.masked(status) & after.ignore_status_mask != 0
            &&& cflag & CREAD != 0 ==> after.masked(0) & after.ignore_status_mask == 0
        }),
{
    law_read_mask(iflag);
    let read = read_mask_of(iflag);
    let parity = when(iflag & IGNPAR != 0, receive::PARITY | receive::FRAME);
    let brk = when(iflag & IGNBRK != 0, receive::BREAK);
    let overrun = when(iflag & IGNBRK != 0 && iflag & IGNPAR != 0, receive::OVERRUN);
    let data = when(cflag & CREAD == 0, receive::DATA);
    let ignore = parity | brk | overrun | data;
    lemma_constants();
    assert((data == 16 ==> ((status | 16) & read) & ignore != 0) && (data == 0 ==> ((0u32 | 16)
        & read) & ignore == 0)) by (bit_vector)
        requires
            read & 16 != 0,
            ignore == parity | brk | overrun | data,
            parity == 0 || parity == 6,
            brk == 0 || brk == 8,
            overrun == 0 || overrun == 1,
            data == 0 || data == 16,
    ;
}

/// The framing that control flags ask for: five to eight data bits by the
/// character size, and two stop bits, parity and odd parity each by a flag of
/// its own.
pub proof fn law_framing_follows_the_flags(
    baud: u32,
    clock: u32,
    cflag: u32,
    config: LineConfig,
)
    requires
        call_ensures(line_config, (baud, clock, cflag), config),
    ensures
        config.baud == baud,
        config.clock == clock,
        5 <= config.data_bits <= 8,
        cflag & 0x30 == 16 * (config.data_bits - 5),
        config.two_stop_bits <==> cflag & 0x40 != 0,
        config.parity <==> cflag & 0x100 != 0,
        config.odd_parity <==> cflag & 0x200 != 0,
{
    lemma_fields(cflag);
}

/// The characters that are dropped: those with parity or framing errors if such
/// errors are ignored, breaks if breaks are, overruns only if both are, and all
/// of them while the receiver is disabled.
pub proof fn law_ignore_mask(iflag: u32, cflag: u32)
    ensures
        ({
            let mask = ignore_mask_of(iflag, cflag);
            &&& mask & 2 != 0 <==> iflag & 4 != 0
            &&& mask & 4 != 0 <==> iflag & 4 != 0
            &&& mask & 8 != 0 <==> iflag & 1 != 0
            &&& mask & 1 != 0 <==> iflag & 1 != 0 && iflag & 4 != 0
            &&& mask & 16 != 0 <==> cflag & 0x80 == 0
            &&& mask < 32
        }),
{
    let parity = when(iflag & IGNPAR != 0, receive::PARITY | receive::FRAME);
    let brk = when(iflag & IGNBRK != 0, receive::BREAK);
    let overrun = when(iflag & IGNBRK != 0 && iflag & IGNPAR != 0, receive::OVERRUN);
    let data = when(cflag & CREAD == 0, receive::DATA);
    let mask = parity | brk | overrun | data;
    assert(2u32 | 4u32 == 6u32 && ((parity == 0 || parity == 6) && (brk == 0 || brk == 8) && (
    overrun == 0 || overrun == 1) && (data == 0 || data == 16) ==> (mask & 2 != 0 <==> parity == 6)
        && (mask & 4 != 0 <==> parity == 6) && (mask & 8 != 0 <==> brk == 8) && (mask & 1 != 0
        <==> overrun == 1) && (mask & 16 != 0 <==> data == 16) && mask < 32)) by (bit_vector)
        requires
            mask == parity | brk | overrun | data,
    ;
}

/// Settings that are put into effect change the clock and the two masks, and
/// the masks are those of the input and control flags.
pub proof fn law_settings_take_effect(port: &mut LockedPort, clock: u32, iflag: u32, cflag: u32)
    requires
        call_ensures(LockedPort::apply_termios, (port, clock, iflag, cflag), ()),
    ensures
        final(port).uartclk == clock,
        ({
            let mask = final(port).read_status_mask;
            &&& mask & 16 != 0
            &&& mask & 1 != 0
            &&& mask & 2 != 0 <==> iflag & 0x10 != 0
            &&& mask & 4 != 0 <==> iflag & 0x10 != 0
            &&& mask & 8 != 0 <==> iflag & (1u32 | 2u32 | 8u32) != 0
            &&& mask < 32
        }),
        ({
            let mask = final(port).ignore_status_mask;
            &&& mask & 2 != 0 <==> iflag & 4 != 0
            &&& mask & 4 != 0 <==> iflag & 4 != 0
            &&& mask & 8 != 0 <==> iflag & 1 != 0
            &&& mask & 1 != 0 <==> iflag & 1 != 0 && iflag & 4 != 0
            &&& mask & 16 != 0 <==> cflag & 0x80 == 0
            &&& mask < 32
        }),
        final(port)@ == (PortState {
            uartclk: clock,
            read_status_mask: final(port).read_status_mask,
            ignore_status_mask: final(port).ignore_status_mask,
            ..old(port)@
        }),
{
    law_read_mask(iflag);
    law_ignore_mask(iflag, cflag);
    assert(final(port)@.read_status_mask == final(port).read_status_mask);
    assert(final(port)@.ignore_status_mask == final(port).ignore_status_mask);
    assert(final(port)@.uartclk == final(port).uartclk);
}

/// A rate of zero hangs up and stands for 9600; every other rate stands for
/// itself. Rates between the limits are those that a divisor of at most 65535
/// gives, and never below 50.
pub proof fn law_rates_are_limited(rate: u32, requested: u32, clock: u32, limits: (u32, u32))
    requires
        call_ensures(requested_rate, (rate,), requested),
        call_ensures(rate_limits, (clock,), limits),
    ensures
        requested == if rate == 0 {
            9600
        } else {
            rate
        },
        limits.0 >= 50,
        limits.0 > 50 ==> limits.0 * 65535 * 16 <= clock < (limits.0 + 1) * 65535 * 16,
        limits.0 == 50 ==> clock < 51 * 65535 * 16,
        16 * limits.1 <= clock < 16 * limits.1 + 16,
{
}

} // verus!
