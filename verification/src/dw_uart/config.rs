//! Register encodings of the DesignWare UART: the baud-rate divisor, the line
//! control word and the receive status.

use vstd::arithmetic::power2::{lemma2_to64, lemma_pow2_strictly_increases, pow2};
use vstd::bits::lemma_u64_shl_is_mul;
use vstd::prelude::*;
use crate::bits::lemma_fields;

verus! {

/// A fixed-point baud-rate divisor and the rate that it produces.
#[derive(Clone, Copy, Debug, PartialEq, Eq, Structural)]
pub struct Divisor {
    pub integer: u16,
    pub fraction: u32,
    pub actual_baud: u32,
}

/// `n / d`, rounded to the nearest integer, halves up.
pub open spec fn rounded_div(n: int, d: int) -> int {
    (n + d / 2) / d
}

/// The divisor for `baud`, in units of `1 / 2^fraction_bits`.
pub open spec fn fixed_divisor(clock: u32, baud: u32, fraction_bits: u8) -> int {
    rounded_div(clock * pow2(fraction_bits as nat), 16 * baud)
}

/// The rate that a clock divided by `fixed / 2^fraction_bits` runs at.
pub open spec fn divided_rate(clock: u32, fixed: int, fraction_bits: u8) -> int {
    rounded_div(clock * pow2(fraction_bits as nat), 16 * fixed)
}

/// `a` is at most two percent away from `baud`.
pub open spec fn within_two_percent(a: int, baud: u32) -> bool {
    100 * (a - baud) <= 2 * baud && 100 * (baud - a) <= 2 * baud
}

/// The rounded divisor fits the registers.
pub open spec fn divisor_fits(clock: u32, baud: u32, fraction_bits: u8) -> bool {
    let scale = pow2(fraction_bits as nat);
    scale <= fixed_divisor(clock, baud, fraction_bits) < 0x1_0000 * scale
}

/// `baud` can be divided from `clock` with at most two percent error.
pub open spec fn divisible(clock: u32, baud: u32, fraction_bits: u8) -> bool {
    &&& clock != 0
    &&& baud != 0
    &&& fraction_bits <= 16
    &&& divisor_fits(clock, baud, fraction_bits)
    &&& within_two_percent(
        divided_rate(clock, fixed_divisor(clock, baud, fraction_bits), fraction_bits),
        baud,
    )
}

/// `d` holds the divisor for `baud`, and the rate that comes of it.
pub open spec fn is_divisor(d: Divisor, clock: u32, baud: u32, fraction_bits: u8) -> bool {
    let scale = pow2(fraction_bits as nat) as int;
    let fixed = fixed_divisor(clock, baud, fraction_bits);
    &&& d.integer == fixed / scale
    &&& d.fraction == fixed % scale
    &&& d.actual_baud == divided_rate(clock, fixed, fraction_bits)
}

/// A divisor of at least one never raises the rate above a sixteenth of the clock.
proof fn lemma_rate_bound(clock: u32, scale: int, fixed: int)
    requires
        0 < scale <= fixed,
    ensures
        0 <= (clock * scale + 8 * fixed) / (16 * fixed) <= clock / 16 + 1,
{
    let n = clock * scale + 8 * fixed;
    let d = 16 * fixed;
    let q = clock as int / 16 + 1;
    assert(clock * scale <= clock * fixed) by (nonlinear_arith)
        requires
            scale <= fixed,
            0 <= clock,
    ;
    assert(n <= d * q + (d - 1)) by (nonlinear_arith)
        requires
            n <= clock * fixed + 8 * fixed,
            d == 16 * fixed,
            fixed > 0,
            16 * q >= clock + 1,
    ;
    vstd::arithmetic::mul::lemma_mul_nonnegative(clock as int, scale);
    vstd::arithmetic::div_mod::lemma_div_pos_is_pos(n, d);
    assert(n / d <= q) by (nonlinear_arith)
        requires
            n <= d * q + (d - 1),
            d > 0,
    ;
}

/// Computes a rounded fixed-point divisor, carrying a rounded fraction into
/// the integer part. Rejects rates with more than two percent quantization error.
pub fn divisor(clock: u32, baud: u32, fraction_bits: u8) -> (result: Option<Divisor>)
    ensures
        match result {
            Some(d) => divisible(clock, baud, fraction_bits) && is_divisor(
                d,
                clock,
                baud,
                fraction_bits,
            ),
            None => !divisible(clock, baud, fraction_bits),
        },
{
    if clock == 0 || baud == 0 || fraction_bits > 16 {
        return None;
    }
    proof {
        lemma2_to64();
        if fraction_bits < 16 {
            lemma_pow2_strictly_increases(fraction_bits as nat, 16);
        }
        lemma_u64_shl_is_mul(1, fraction_bits as u64);
    }
    let scale: u64 = 1u64 << fraction_bits;
    assert(scale == pow2(fraction_bits as nat));
    assert(0 < scale <= 0x1_0000) by {
        vstd::arithmetic::power2::lemma_pow2_pos(fraction_bits as nat);
    }
    assert(clock * scale <= 0xffff_ffff * 0x1_0000) by (nonlinear_arith)
        requires
            clock <= 0xffff_ffff,
            scale <= 0x1_0000,
    ;
    let numerator: u64 = clock as u64 * scale;
    let denominator: u64 = 16 * baud as u64;
    let fixed: u64 = (numerator + denominator / 2) / denominator;
    assert(fixed == fixed_divisor(clock, baud, fraction_bits));
    if fixed < scale || fixed >= 65536 * scale {
        return None;
    }
    proof {
        lemma_rate_bound(clock, scale as int, fixed as int);
    }
    let actual: u32 = ((numerator + 8 * fixed) / (16 * fixed)) as u32;
    assert(actual == divided_rate(clock, fixed as int, fraction_bits));
    let error: u64 = if actual > baud {
        (actual - baud) as u64
    } else {
        (baud - actual) as u64
    };
    if error * 100 > baud as u64 * 2 {
        return None;
    }
    assert(fixed / scale < 0x1_0000) by (nonlinear_arith)
        requires
            fixed < 0x1_0000 * scale,
            scale > 0,
    ;
    assert(fixed % scale < scale) by (nonlinear_arith)
        requires
            scale > 0,
    ;
    Some(
        Divisor {
            integer: (fixed / scale) as u16,
            fraction: (fixed % scale) as u32,
            actual_baud: actual,
        },
    )
}

/// Chooses the input clock for `baud`: the fixed reference whenever it divides
/// well enough, otherwise sixteen times the baud rate to be synthesized.
pub fn baud_clock(reference: u32, baud: u32, fraction_bits: u8) -> (clock: u32)
    ensures
        clock == baud_clock_of(reference, baud, fraction_bits),
{
    if divisor(reference, baud, fraction_bits).is_some() {
        reference
    } else if baud > 0xffff_ffff / 16 {
        u32::MAX
    } else {
        baud * 16
    }
}

/// The input clock for `baud`.
pub open spec fn baud_clock_of(reference: u32, baud: u32, fraction_bits: u8) -> u32 {
    if divisible(reference, baud, fraction_bits) {
        reference
    } else if 16 * baud > u32::MAX {
        u32::MAX
    } else {
        (16 * baud) as u32
    }
}

/// The value of a flag at bit `n`.
pub open spec fn bit_at(set: bool, n: nat) -> int {
    if set {
        pow2(n) as int
    } else {
        0
    }
}

/// The line control word: the word length in the low two bits, then the stop,
/// parity-enable and even-parity bits.
pub open spec fn line_control_word(bits: u8, two_stops: bool, parity: bool, odd: bool) -> int {
    let length = if bits <= 5 {
        0
    } else if bits >= 8 {
        3
    } else {
        bits - 5
    };
    length + bit_at(two_stops, 2) + bit_at(parity, 3) + bit_at(parity && !odd, 4)
}

/// Encodes the framing as a line control word.
pub fn line_control(bits: u8, two_stops: bool, parity: bool, odd: bool) -> (word: u32)
    ensures
        word == line_control_word(bits, two_stops, parity, odd),
        word < 0x20,
{
    proof {
        lemma2_to64();
    }
    let length: u32 = if bits <= 5 {
        0
    } else if bits >= 8 {
        3
    } else {
        (bits - 5) as u32
    };
    let stop: u32 = if two_stops {
        4
    } else {
        0
    };
    let enable: u32 = if parity {
        8
    } else {
        0
    };
    let even: u32 = if parity && !odd {
        16
    } else {
        0
    };
    assert((length | stop | enable | even) == length + stop + enable + even) by (bit_vector)
        requires
            length < 4,
            stop == 0 || stop == 4,
            enable == 0 || enable == 8,
            even == 0 || even == 16,
    ;
    length | stop | enable | even
}

/// The line-status error bits as the normalized receive flags: overrun,
/// parity, frame and break.
pub open spec fn receive_flags(lsr: u32) -> u32 {
    (lsr >> 1) & 0x0f
}

/// Extracts the receive flags from the line status register.
pub fn receive_status(lsr: u32) -> (status: u32)
    ensures
        status == receive_flags(lsr),
        status == lsr / 2 % 16,
{
    proof {
        lemma_fields(lsr);
    }
    (lsr >> 1) & 0x0f
}

// ---------------------------------------------------------------------------
// Laws
// ---------------------------------------------------------------------------

/// The divisor that is chosen is the nearest one: its distance from the exact
/// quotient is at most half a unit, and a half is rounded up.
pub proof fn law_divisor_is_nearest(clock: u32, baud: u32, fraction_bits: u8)
    requires
        baud != 0,
    ensures
        ({
            let fixed = fixed_divisor(clock, baud, fraction_bits);
            let exact = clock * pow2(fraction_bits as nat);
            -8 * baud <= exact - 16 * baud * fixed < 8 * baud
        }),
{
    let d = 16 * baud;
    let n = clock * pow2(fraction_bits as nat) + d / 2;
    vstd::arithmetic::div_mod::lemma_fundamental_div_mod(n as int, d as int);
    vstd::arithmetic::div_mod::lemma_mod_bound(n as int, d as int);
}

/// A divisor is made of an integer part of at least one and a fraction below
/// one, and together they are the rounded divisor.
pub proof fn law_divisor_parts(d: Divisor, clock: u32, baud: u32, fraction_bits: u8)
    requires
        divisible(clock, baud, fraction_bits),
        is_divisor(d, clock, baud, fraction_bits),
    ensures
        d.integer >= 1,
        d.fraction < pow2(fraction_bits as nat),
        d.integer * pow2(fraction_bits as nat) + d.fraction == fixed_divisor(
            clock,
            baud,
            fraction_bits,
        ),
        within_two_percent(d.actual_baud as int, baud),
{
    let scale = pow2(fraction_bits as nat) as int;
    let fixed = fixed_divisor(clock, baud, fraction_bits);
    vstd::arithmetic::power2::lemma_pow2_pos(fraction_bits as nat);
    vstd::arithmetic::div_mod::lemma_fundamental_div_mod(fixed, scale);
    vstd::arithmetic::div_mod::lemma_mod_bound(fixed, scale);
    assert(d.integer * scale == scale * d.integer) by (nonlinear_arith);
    assert(d.integer >= 1) by (nonlinear_arith)
        requires
            fixed == scale * d.integer + d.fraction,
            scale <= fixed,
            d.fraction < scale,
            scale > 0,
    ;
}

/// A clock synthesized at sixteen times the rate divides down to exactly that rate.
pub proof fn law_synthesized_clock_is_exact(baud: u32, fraction_bits: u8)
    requires
        0 < baud,
        16 * baud <= u32::MAX,
        fraction_bits <= 16,
    ensures
        divisible((16 * baud) as u32, baud, fraction_bits),
        divided_rate(
            (16 * baud) as u32,
            fixed_divisor((16 * baud) as u32, baud, fraction_bits),
            fraction_bits,
        ) == baud,
{
    let scale = pow2(fraction_bits as nat) as int;
    let clock = (16 * baud) as u32;
    vstd::arithmetic::power2::lemma_pow2_pos(fraction_bits as nat);
    assert(rounded_div(clock * scale, 16 * baud) == scale) by (nonlinear_arith)
        requires
            clock == 16 * baud,
            baud > 0,
            scale > 0,
    ;
    assert(rounded_div(clock * scale, 16 * scale) == baud) by (nonlinear_arith)
        requires
            clock == 16 * baud,
            baud > 0,
            scale > 0,
    ;
}

/// The clock that is chosen for a rate divides well enough, whatever the
/// reference: a rate is only refused where that clock cannot be had.
pub proof fn law_chosen_clock_divides(reference: u32, baud: u32, fraction_bits: u8)
    requires
        0 < baud,
        16 * baud <= u32::MAX,
        fraction_bits <= 16,
    ensures
        divisible(baud_clock_of(reference, baud, fraction_bits), baud, fraction_bits),
{
    law_synthesized_clock_is_exact(baud, fraction_bits);
}

/// No bit of the line status outside the four error bits reaches the flags:
/// data-ready and the transmitter bits are excluded.
pub proof fn law_status_excludes_other_bits(lsr: u32, other: u32)
    requires
        lsr & 0x1e == other & 0x1e,
    ensures
        receive_flags(lsr) == receive_flags(other),
        receive_flags(lsr) <= 0x0f,
{
    assert((lsr >> 1) & 0x0f == (other >> 1) & 0x0f && (lsr >> 1) & 0x0f <= 0x0f) by (bit_vector)
        requires
            lsr & 0x1e == other & 0x1e,
    ;
}

/// What a divisor is: the clock divided by sixteen times the rate, rounded to
/// the nearest unit of its fraction, at least one and below 65536. The rate
/// that is reported is the one that comes of it, to the nearest baud, and it is
/// within two percent of the one that was asked for.
pub proof fn law_divisor_gives_the_rate(clock: u32, baud: u32, fraction_bits: u8, d: Divisor)
    requires
        call_ensures(divisor, (clock, baud, fraction_bits), Some(d)),
    ensures
        clock != 0 && baud != 0 && fraction_bits <= 16,
        ({
            let scale = pow2(fraction_bits as nat) as int;
            let fixed = d.integer * scale + d.fraction;
            let error = d.actual_baud - baud;
            &&& d.integer >= 1
            &&& d.fraction < scale
            &&& -8 * baud <= clock * scale - 16 * baud * fixed < 8 * baud
            &&& -8 * fixed <= clock * scale - 16 * fixed * d.actual_baud < 8 * fixed
            &&& -baud <= 50 * error <= baud
        }),
{
    lemma_divisor_gives_the_rate(clock, baud, fraction_bits, d);
}

/// The same of any divisor.
pub proof fn lemma_divisor_gives_the_rate(clock: u32, baud: u32, fraction_bits: u8, d: Divisor)
    requires
        divisible(clock, baud, fraction_bits),
        is_divisor(d, clock, baud, fraction_bits),
    ensures
        ({
            let scale = pow2(fraction_bits as nat) as int;
            let fixed = d.integer * scale + d.fraction;
            let error = d.actual_baud - baud;
            &&& d.integer >= 1
            &&& d.fraction < scale
            &&& -8 * baud <= clock * scale - 16 * baud * fixed < 8 * baud
            &&& -8 * fixed <= clock * scale - 16 * fixed * d.actual_baud < 8 * fixed
            &&& -baud <= 50 * error <= baud
        }),
{
    let scale = pow2(fraction_bits as nat) as int;
    let fixed = fixed_divisor(clock, baud, fraction_bits);
    law_divisor_parts(d, clock, baud, fraction_bits);
    law_divisor_is_nearest(clock, baud, fraction_bits);
    lemma_rounded(clock * scale, 8 * fixed);
}

/// Rounding to the nearest leaves at most a half.
proof fn lemma_rounded(n: int, half: int)
    requires
        half > 0,
    ensures
        -half <= n - 2 * half * rounded_div(n, 2 * half) < half,
{
    vstd::arithmetic::div_mod::lemma_fundamental_div_mod(n + half, 2 * half);
    vstd::arithmetic::div_mod::lemma_mod_bound(n + half, 2 * half);
}

/// A rate is only refused where no divisor will do: the nearest one does not
/// fit its registers, or the rate that comes of it is more than two percent off.
pub proof fn law_refused_rates_have_no_divisor(
    clock: u32,
    baud: u32,
    fraction_bits: u8,
    fixed: int,
    rate: int,
)
    requires
        call_ensures(divisor, (clock, baud, fraction_bits), None::<Divisor>),
        clock != 0,
        baud != 0,
        fraction_bits <= 16,
        fixed > 0,
        ({
            let scale = pow2(fraction_bits as nat) as int;
            &&& -8 * baud <= clock * scale - 16 * baud * fixed < 8 * baud
            &&& -8 * fixed <= clock * scale - 16 * fixed * rate < 8 * fixed
        }),
    ensures
        fixed < pow2(fraction_bits as nat) || fixed >= 65536 * pow2(fraction_bits as nat) || 50 * (
        rate - baud) > baud || 50 * (baud - rate) > baud,
{
    let exact = clock * pow2(fraction_bits as nat);
    lemma_rounded_is_unique(exact, 8 * baud, fixed);
    lemma_rounded_is_unique(exact, 8 * fixed, rate);
    assert(fixed == fixed_divisor(clock, baud, fraction_bits));
    assert(rate == divided_rate(clock, fixed, fraction_bits));
}

/// Nothing else is as near as what is rounded to.
proof fn lemma_rounded_is_unique(n: int, half: int, q: int)
    requires
        half > 0,
        -half <= n - 2 * half * q < half,
    ensures
        q == rounded_div(n, 2 * half),
{
    lemma_rounded(n, half);
    let r = rounded_div(n, 2 * half);
    assert(q == r) by (nonlinear_arith)
        requires
            half > 0,
            -half <= n - 2 * half * q < half,
            -half <= n - 2 * half * r < half,
    ;
}

/// The reference clock is kept exactly where a divisor will do, and otherwise
/// the clock runs at sixteen times the rate, or as fast as can be said.
pub proof fn law_clock_is_chosen(
    reference: u32,
    baud: u32,
    fraction_bits: u8,
    clock: u32,
    found: Option<Divisor>,
)
    requires
        call_ensures(baud_clock, (reference, baud, fraction_bits), clock),
        call_ensures(divisor, (reference, baud, fraction_bits), found),
    ensures
        found is Some ==> clock == reference,
        found is None && 16 * baud <= 0xffff_ffff ==> clock == 16 * baud,
        found is None && 16 * baud > 0xffff_ffff ==> clock == 0xffff_ffff,
{
}

/// The line control word, bit by bit: the word length less five in the low two
/// bits, clamped to five to eight data bits; then two stop bits, parity, and
/// even parity; and nothing above them.
pub proof fn law_line_control_bits(bits: u8, two_stops: bool, parity: bool, odd: bool, word: u32)
    requires
        call_ensures(line_control, (bits, two_stops, parity, odd), word),
    ensures
        word & 3 == if bits < 5 {
            0
        } else if bits > 8 {
            3
        } else {
            bits - 5
        },
        word & 4 != 0 <==> two_stops,
        word & 8 != 0 <==> parity,
        word & 16 != 0 <==> parity && !odd,
        word & !0x1f == 0,
{
    lemma_line_control_bits(bits, two_stops, parity, odd, word);
}

/// The same of any line control word.
pub proof fn lemma_line_control_bits(bits: u8, two_stops: bool, parity: bool, odd: bool, word: u32)
    requires
        word == line_control_word(bits, two_stops, parity, odd),
    ensures
        word & 3 == if bits < 5 {
            0
        } else if bits > 8 {
            3
        } else {
            bits - 5
        },
        word & 4 != 0 <==> two_stops,
        word & 8 != 0 <==> parity,
        word & 16 != 0 <==> parity && !odd,
        word & !0x1f == 0,
{
    lemma2_to64();
    let length = (word % 4) as u32;
    let stop = if two_stops { 4u32 } else { 0u32 };
    let enable = if parity { 8u32 } else { 0u32 };
    let even = if parity && !odd { 16u32 } else { 0u32 };
    assert(word == length + stop + enable + even);
    assert(word & 3 == length && (word & 4 != 0 <==> stop == 4) && (word & 8 != 0 <==> enable == 8)
        && (word & 16 != 0 <==> even == 16) && word & !0x1f == 0) by (bit_vector)
        requires
            word == length + stop + enable + even,
            length < 4,
            stop == 0 || stop == 4,
            enable == 0 || enable == 8,
            even == 0 || even == 16,
    ;
}

/// The receive flags, bit by bit: overrun, parity, framing and break of the line
/// status, in this order.
pub proof fn law_status_bits(lsr: u32, status: u32)
    requires
        call_ensures(receive_status, (lsr,), status),
    ensures
        status & 1 != 0 <==> lsr & 0x02 != 0,
        status & 2 != 0 <==> lsr & 0x04 != 0,
        status & 4 != 0 <==> lsr & 0x08 != 0,
        status & 8 != 0 <==> lsr & 0x10 != 0,
        status < 16,
{
    lemma_flag_bits(lsr);
}

/// The receive flags, bit by bit.
pub proof fn lemma_flag_bits(lsr: u32)
    ensures
        receive_flags(lsr) & 1 != 0 <==> lsr & 0x02 != 0,
        receive_flags(lsr) & 2 != 0 <==> lsr & 0x04 != 0,
        receive_flags(lsr) & 4 != 0 <==> lsr & 0x08 != 0,
        receive_flags(lsr) & 8 != 0 <==> lsr & 0x10 != 0,
        receive_flags(lsr) < 16,
{
    let flags = (lsr >> 1) & 0x0f;
    assert((flags & 1 != 0 <==> lsr & 0x02 != 0) && (flags & 2 != 0 <==> lsr & 0x04 != 0) && (flags
        & 4 != 0 <==> lsr & 0x08 != 0) && (flags & 8 != 0 <==> lsr & 0x10 != 0) && flags < 16)
        by (bit_vector)
        requires
            flags == (lsr >> 1) & 0x0f,
    ;
}

} // verus!
