//! Facts about single bits that several proofs share.

use vstd::prelude::*;

verus! {

/// Constants that are put together from bits.
pub proof fn lemma_constants()
    ensures
        1u32 | 4u32 == 5u32,
        2u32 | 4u32 == 6u32,
        0x40u32 | 0x20u32 | 0x100u32 == 0x160u32,
        1u32 & 1u32 != 0,
        0u32 & 0x10u32 == 0,
        !(0x8000_0000u32 | 0x4000_0000u32) == 0x3fff_ffffu32,
        0xedb8_8320u32 & 0xffff_ffffu32 == 0xedb8_8320u32,
        0xedb8_8320u32 & 0u32 == 0u32,
{
    assert(1u32 | 4u32 == 5u32 && 2u32 | 4u32 == 6u32 && 0x40u32 | 0x20u32 | 0x100u32 == 0x160u32
        && 1u32 & 1u32 != 0 && 0u32 & 0x10u32 == 0 && !(0x8000_0000u32 | 0x4000_0000u32)
        == 0x3fff_ffffu32 && 0xedb8_8320u32 & 0xffff_ffffu32
        == 0xedb8_8320u32 && 0xedb8_8320u32 & 0u32 == 0u32) by (bit_vector);
}

/// Raising and lowering bits changes those bits and no others.
pub proof fn lemma_raise_and_lower(value: u32, bits: u32)
    ensures
        (value | bits) & bits == bits,
        (value & !bits) & bits == 0,
        (value | bits) & !bits == value & !bits,
        (value & !bits) & !bits == value & !bits,
        value & bits == 0 ==> value & !bits == value,
        bits == 0x80 && value < 0x20 ==> value & bits == 0,
{
    assert((value | bits) & bits == bits && (value & !bits) & bits == 0 && (value | bits) & !bits
        == value & !bits && (value & !bits) & !bits == value & !bits && (value & bits == 0
        ==> value & !bits == value) && (bits == 0x80 && value < 0x20 ==> value & bits == 0))
        by (bit_vector);
}

/// Adding errors to a line status. Data-ready is bit 0 and a break bit 4.
pub proof fn lemma_line_status(lsr: u32, saved: u32)
    ensures
        lsr & 0x01 != 0 ==> lsr & 0x11 != 0 && (lsr | saved) & 0x01 != 0,
        lsr & 0x11 == 0x10 ==> lsr & 0x01 == 0 && lsr & 0x10 != 0,
        lsr & 0x11 != 0 && lsr & 0x10 == 0 ==> lsr & 0x01 != 0,
        lsr & 0x11 != 0 && lsr & 0x01 == 0 ==> lsr & 0x11 == 0x10,
        (lsr | saved) & 0x11 == 0 ==> lsr & 0x11 == 0,
        lsr & 0x10 == 0 && saved & 0x10 == 0 ==> (lsr | saved) & 0x10 == 0,
        ((lsr | saved) >> 1) & 0x0f == ((lsr >> 1) & 0x0f) | ((saved >> 1) & 0x0f),
        (saved | (lsr & 0x1e)) & 0x1e == (saved | lsr) & 0x1e,
        (saved | (lsr & 0x1e)) & !0x1eu32 == saved & !0x1eu32,
{
    assert((lsr & 0x01 != 0 ==> lsr & 0x11 != 0 && (lsr | saved) & 0x01 != 0) && (lsr & 0x11 == 0x10
        ==> lsr & 0x01 == 0 && lsr & 0x10 != 0) && (lsr & 0x11 != 0 && lsr & 0x10 == 0 ==> lsr
        & 0x01 != 0) && (lsr & 0x11 != 0 && lsr & 0x01 == 0
            ==> lsr & 0x11 == 0x10) && ((lsr | saved) & 0x11 == 0
            ==> lsr & 0x11 == 0) && (lsr & 0x10 == 0
        && saved & 0x10 == 0 ==> (lsr | saved) & 0x10 == 0) && ((lsr | saved) >> 1) & 0x0f == ((lsr
        >> 1) & 0x0f) | ((saved >> 1) & 0x0f) && (saved | (lsr & 0x1e)) & 0x1e == (saved | lsr)
        & 0x1e && (saved | (lsr & 0x1e)) & !0x1eu32 == saved & !0x1eu32) by (bit_vector);
}

/// What bits of a register make of its value.
pub proof fn lemma_fields(value: u32)
    ensures
        value as u8 == value % 256,
        (value >> 16) & 0xff == value / 0x1_0000 % 256,
        value & 0xff == value % 256,
        value >> 8 == value / 256,
        value & 0x30 == 0 || value & 0x30 == 0x10 || value & 0x30 == 0x20 || value & 0x30 == 0x30,
        value & 1 == 0 || value & 1 == 1,
        (value >> 1) & 0x0f == value / 2 % 16,
{
    assert(value as u8 == value % 256 && (value >> 16) & 0xff == value / 0x1_0000 % 256 && value
        & 0xff == value % 256 && value >> 8 == value / 256 && (value & 0x30 == 0 || value & 0x30
        == 0x10 || value & 0x30 == 0x20 || value & 0x30 == 0x30) && (value & 1 == 0 || value & 1
        == 1) && (value >> 1) & 0x0f == value / 2 % 16) by (bit_vector);
}

/// Exclusive or, and inversion, keep what differs different.
pub proof fn lemma_differences_stay(x: u32, y: u32, p: u32)
    requires
        x != y,
    ensures
        x ^ p != y ^ p,
        p ^ x != p ^ y,
        !x != !y,
{
    assert(x ^ p != y ^ p && p ^ x != p ^ y && !x != !y) by (bit_vector)
        requires
            x != y,
    ;
}

/// The bits of a map: of an empty one, of an inverted one, and of one with a
/// single bit raised or lowered.
pub proof fn lemma_map_bits(map: u64, i: u64, n: u64)
    requires
        i < 64,
        n < 64,
    ensures
        (0u64 >> n) & 1 != 1,
        (!map >> n) & 1 == 0 <==> (map >> n) & 1 == 1,
        (!map >> n) & 1 == 1 <==> (map >> n) & 1 != 1,
        ((map | (1u64 << i)) >> n) & 1 == if n == i {
            1
        } else {
            (map >> n) & 1
        },
        ((map & !(1u64 << i)) >> n) & 1 == if n == i {
            0
        } else {
            (map >> n) & 1
        },
{
    assert((0u64 >> n) & 1 != 1 && ((!map >> n) & 1 == 0 <==> (map >> n) & 1 == 1) && ((!map >> n)
        & 1 == 1 <==> (map >> n) & 1 != 1) && ((map | (1u64 << i)) >> n) & 1 == (if n == i {
        1
    } else {
        (map >> n) & 1
    }) && ((map & !(1u64 << i)) >> n) & 1 == (if n == i {
        0
    } else {
        (map >> n) & 1
    })) by (bit_vector)
        requires
            i < 64,
            n < 64,
    ;
}

} // verus!
