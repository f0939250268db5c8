//! The integrity-test frame: a magic number, a sequence number, a length, the
//! payload and a CRC-32 over everything before it.

use vstd::prelude::*;
use vstd::slice::slice_subrange;
use crate::bits::{lemma_constants, lemma_differences_stay, lemma_fields};
use crate::error::{invalid, Error, ErrorKind};

verus! {

/// Largest payload of one frame, in bytes.
pub const MAX_PAYLOAD: usize = 1024;

/// Bytes before the payload: magic, sequence number and length.
pub const HEADER_LEN: usize = 10;

/// Bytes of a frame that are not payload: the header and the CRC.
pub const OVERHEAD: usize = 14;

/// The reflected IEEE 802.3 generator polynomial.
pub const POLYNOMIAL: u32 = 0xedb8_8320;

/// The four bytes every frame starts with, "RU48".
pub open spec fn magic() -> Seq<u8> {
    seq![0x52u8, 0x55u8, 0x34u8, 0x38u8]
}

// ---------------------------------------------------------------------------
// Little-endian integers
// ---------------------------------------------------------------------------

/// The two bytes of `x`, least significant first.
pub open spec fn le16(x: u16) -> Seq<u8> {
    seq![(x % 256) as u8, (x / 256) as u8]
}

/// The four bytes of `x`, least significant first.
pub open spec fn le32(x: u32) -> Seq<u8> {
    seq![
        (x % 256) as u8,
        (x / 0x100 % 256) as u8,
        (x / 0x1_0000 % 256) as u8,
        (x / 0x100_0000) as u8,
    ]
}

/// The number whose bytes, least significant first, are `b0` and `b1`.
pub open spec fn from_le16(b0: u8, b1: u8) -> int {
    b0 + 0x100 * b1
}

/// The number whose bytes, least significant first, are the four of `bytes`.
pub open spec fn from_le32(bytes: Seq<u8>) -> int {
    bytes[0] + 0x100 * bytes[1] + 0x1_0000 * bytes[2] + 0x100_0000 * bytes[3]
}

/// Appends `x` to `out`, least significant byte first.
pub fn push_le16(out: &mut Vec<u8>, x: u16)
    ensures
        final(out)@ == old(out)@ + le16(x),
{
    out.push((x % 256) as u8);
    out.push((x / 256) as u8);
    assert(out@ =~= old(out)@ + le16(x));
}

/// Appends `x` to `out`, least significant byte first.
pub fn push_le32(out: &mut Vec<u8>, x: u32)
    ensures
        final(out)@ == old(out)@ + le32(x),
{
    out.push((x % 256) as u8);
    out.push((x / 0x100 % 256) as u8);
    out.push((x / 0x1_0000 % 256) as u8);
    out.push((x / 0x100_0000) as u8);
    assert(out@ =~= old(out)@ + le32(x));
}

/// Reads the little-endian number at `at`.
pub fn read_le32(bytes: &[u8], at: usize) -> (x: u32)
    requires
        at + 4 <= bytes@.len(),
    ensures
        x == from_le32(bytes@.subrange(at as int, at + 4)),
{
    bytes[at] as u32 + 0x100 * bytes[at + 1] as u32 + 0x1_0000 * bytes[at + 2] as u32 + 0x100_0000
        * bytes[at + 3] as u32
}

/// A number survives being written and read back.
pub proof fn lemma_le32_roundtrip(x: u32)
    ensures
        le32(x).len() == 4,
        from_le32(le32(x)) == x,
{
}

/// Four bytes survive being read and written back.
pub proof fn lemma_from_le32_roundtrip(bytes: Seq<u8>, x: u32)
    requires
        bytes.len() == 4,
        x == from_le32(bytes),
    ensures
        le32(x) == bytes,
{
    let (b0, b1, b2, b3) = (bytes[0] as int, bytes[1] as int, bytes[2] as int, bytes[3] as int);
    let (y, z) = (b1 + 0x100 * b2 + 0x1_0000 * b3, b2 + 0x100 * b3);
    assert(x as int == b0 + 0x100 * y);
    assert(x as int % 0x100 == b0 && x as int / 0x100 == y);
    assert(y == b1 + 0x100 * z);
    assert(y % 0x100 == b1);
    assert(x as int == (b0 + 0x100 * b1) + 0x1_0000 * z);
    assert(x as int / 0x1_0000 == z);
    assert(z % 0x100 == b2);
    assert(x as int / 0x100_0000 == b3);
    assert(le32(x) =~= bytes);
}

// ---------------------------------------------------------------------------
// CRC-32
// ---------------------------------------------------------------------------

/// One bit of polynomial division: the lowest bit leaves, and the polynomial
/// is subtracted (without carries) when that bit was set.
pub open spec fn crc_bit(crc: u32) -> u32 {
    (crc >> 1) ^ (if crc & 1 == 1 { POLYNOMIAL } else { 0 })
}

/// `count` bits of polynomial division.
pub open spec fn crc_bits(crc: u32, count: nat) -> u32
    decreases count,
{
    if count == 0 {
        crc
    } else {
        crc_bit(crc_bits(crc, (count - 1) as nat))
    }
}

/// The remainder after `data`, from the all-ones remainder of no data.
pub open spec fn crc_remainder(data: Seq<u8>) -> u32
    decreases data.len(),
{
    if data.len() == 0 {
        0xffff_ffff
    } else {
        crc_bits(crc_remainder(data.drop_last()) ^ (data.last() as u32), 8)
    }
}

/// The IEEE CRC-32 of `data`: the inverted remainder.
pub open spec fn crc32_of(data: Seq<u8>) -> u32 {
    !crc_remainder(data)
}

/// IEEE CRC-32, with the standard initial and final inversions.
pub fn crc32(data: &[u8]) -> (crc: u32)
    ensures
        crc == crc32_of(data@),
{
    let mut crc: u32 = 0xffff_ffff;
    let mut i: usize = 0;
    while i < data.len()
        invariant
            i <= data@.len(),
            crc == crc_remainder(data@.take(i as int)),
        decreases data@.len() - i,
    {
        proof {
            assert(data@.take(i + 1).drop_last() =~= data@.take(i as int));
        }
        crc = crc ^ (data[i] as u32);
        let ghost start = crc;
        let mut bit: u32 = 0;
        while bit < 8
            invariant
                bit <= 8,
                crc == crc_bits(start, bit as nat),
            decreases 8 - bit,
        {
            let low = crc & 1;
            proof {
                lemma_fields(crc);
                lemma_constants();
            }
            let mask = 0u32.wrapping_sub(low);
            assert(low == 0 ==> mask == 0);
            assert(low == 1 ==> mask == 0xffff_ffff);
            crc = (crc >> 1) ^ (POLYNOMIAL & mask);
            bit = bit + 1;
        }
        i = i + 1;
    }
    assert(data@.take(i as int) =~= data@);
    !crc
}


// ---------------------------------------------------------------------------
// Frames
// ---------------------------------------------------------------------------

/// Everything of a frame before its CRC.
pub open spec fn frame_body(sequence: u32, payload: Seq<u8>) -> Seq<u8> {
    magic() + le32(sequence) + le16(payload.len() as u16) + payload
}

/// The frame that carries `payload` under `sequence`.
pub open spec fn frame_of(sequence: u32, payload: Seq<u8>) -> Seq<u8> {
    let body = frame_body(sequence, payload);
    body + le32(crc32_of(body))
}

/// Encodes one frame. A payload over `MAX_PAYLOAD` bytes is refused.
pub fn encode(sequence: u32, payload: &[u8]) -> (result: Result<Vec<u8>, Error>)
    ensures
        match result {
            Ok(frame) => payload@.len() <= MAX_PAYLOAD && frame@ == frame_of(sequence, payload@),
            Err(error) => payload@.len() > MAX_PAYLOAD && error.is(
                ErrorKind::InvalidInput,
                "payload exceeds 1024 bytes"@,
            ),
        },
{
    if payload.len() > MAX_PAYLOAD {
        return Err(invalid("payload exceeds 1024 bytes"));
    }
    let mut frame: Vec<u8> = Vec::with_capacity(OVERHEAD + payload.len());
    frame.push(0x52);
    frame.push(0x55);
    frame.push(0x34);
    frame.push(0x38);
    assert(frame@ =~= magic());
    push_le32(&mut frame, sequence);
    push_le16(&mut frame, payload.len() as u16);
    let ghost header = frame@;
    frame.extend_from_slice(payload);
    assert(frame@ =~= header + payload@);
    let crc = crc32(frame.as_slice());
    push_le32(&mut frame, crc);
    Ok(frame)
}

/// Long enough for a frame, and starts with the magic number.
pub open spec fn header_valid(frame: Seq<u8>) -> bool {
    frame.len() >= OVERHEAD && frame.take(4) == magic()
}

/// The payload length that the header announces.
pub open spec fn announced_length(frame: Seq<u8>) -> int {
    from_le16(frame[8], frame[9])
}

/// The announced length is acceptable and is the length that is there.
pub open spec fn length_valid(frame: Seq<u8>) -> bool {
    announced_length(frame) <= MAX_PAYLOAD && frame.len() == announced_length(frame) + OVERHEAD
}

/// The last four bytes are the CRC of the bytes before them.
pub open spec fn crc_valid(frame: Seq<u8>) -> bool {
    from_le32(frame.skip(frame.len() - 4)) == crc32_of(frame.take(frame.len() - 4))
}

/// `frame` is accepted.
pub open spec fn frame_valid(frame: Seq<u8>) -> bool {
    header_valid(frame) && length_valid(frame) && crc_valid(frame)
}

/// The payload of an accepted frame.
pub open spec fn payload_of(frame: Seq<u8>) -> Seq<u8> {
    frame.subrange(HEADER_LEN as int, frame.len() - 4)
}

/// The sequence number of an accepted frame.
pub open spec fn sequence_of(frame: Seq<u8>) -> int {
    from_le32(frame.subrange(4, 8))
}

/// Why `frame` is refused: the first of its defects.
pub open spec fn defect(frame: Seq<u8>) -> Seq<char> {
    if !header_valid(frame) {
        "invalid frame header"@
    } else if !length_valid(frame) {
        "invalid frame length"@
    } else {
        "CRC mismatch"@
    }
}

/// Whether `bytes` starts with the magic number.
pub fn starts_with_magic(bytes: &[u8]) -> (yes: bool)
    requires
        bytes@.len() >= 4,
    ensures
        yes == (bytes@.take(4) == magic()),
{
    let yes = bytes[0] == 0x52 && bytes[1] == 0x55 && bytes[2] == 0x34 && bytes[3] == 0x38;
    proof {
        let head = bytes@.take(4);
        if yes {
            assert(head =~= magic());
        } else {
            assert(head[0] != magic()[0] || head[1] != magic()[1] || head[2] != magic()[2]
                || head[3] != magic()[3]);
        }
    }
    yes
}

/// Decodes one frame into its sequence number and payload.
pub fn decode(frame: &[u8]) -> (result: Result<(u32, &[u8]), Error>)
    ensures
        match result {
            Ok((sequence, payload)) => {
                &&& frame_valid(frame@)
                &&& sequence == sequence_of(frame@)
                &&& payload@ == payload_of(frame@)
            },
            Err(error) => !frame_valid(frame@) && error.is(
                ErrorKind::InvalidInput,
                defect(frame@),
            ),
        },
{
    if frame.len() < OVERHEAD || !starts_with_magic(frame) {
        return Err(invalid("invalid frame header"));
    }
    let length = frame[8] as usize + 0x100 * frame[9] as usize;
    if length > MAX_PAYLOAD || frame.len() != length + OVERHEAD {
        return Err(invalid("invalid frame length"));
    }
    let end = frame.len() - 4;
    let expected = read_le32(frame, end);
    assert(frame@.subrange(end as int, end + 4) =~= frame@.skip(frame@.len() - 4));
    let body = slice_subrange(frame, 0, end);
    assert(body@ =~= frame@.take(frame@.len() - 4));
    if crc32(body) != expected {
        return Err(invalid("CRC mismatch"));
    }
    let sequence = read_le32(frame, 4);
    Ok((sequence, slice_subrange(frame, HEADER_LEN, end)))
}

// ---------------------------------------------------------------------------
// Laws
// ---------------------------------------------------------------------------

/// Decoding undoes encoding: the frame of any acceptable payload is accepted
/// and gives back the sequence number and the payload.
pub proof fn law_roundtrip(sequence: u32, payload: Seq<u8>)
    requires
        payload.len() <= MAX_PAYLOAD,
    ensures
        frame_valid(frame_of(sequence, payload)),
        sequence_of(frame_of(sequence, payload)) == sequence,
        payload_of(frame_of(sequence, payload)) == payload,
{
    let body = frame_body(sequence, payload);
    let frame = frame_of(sequence, payload);
    lemma_le32_roundtrip(sequence);
    lemma_le32_roundtrip(crc32_of(body));
    assert(frame.len() == payload.len() + 14);
    assert(frame.take(4) =~= magic());
    assert(frame.subrange(4, 8) =~= le32(sequence));
    assert(frame[8] == le16(payload.len() as u16)[0]);
    assert(frame[9] == le16(payload.len() as u16)[1]);
    assert(frame.take(frame.len() - 4) =~= body);
    assert(frame.skip(frame.len() - 4) =~= le32(crc32_of(body)));
    assert(payload_of(frame) =~= payload);
}

/// A frame has one encoding: whatever is accepted is exactly the encoding of
/// what it decodes to.
pub proof fn law_canonical(frame: Seq<u8>, sequence: u32)
    requires
        frame_valid(frame),
        sequence == sequence_of(frame),
    ensures
        payload_of(frame).len() <= MAX_PAYLOAD,
        frame == frame_of(sequence, payload_of(frame)),
{
    let payload = payload_of(frame);
    let body = frame_body(sequence, payload);
    lemma_from_le32_roundtrip(frame.subrange(4, 8), sequence);
    assert(le16(payload.len() as u16) =~= frame.subrange(8, 10)) by {
        let length = announced_length(frame);
        assert(payload.len() == length);
        assert(length % 256 == frame[8] && length / 256 == frame[9]);
    }
    assert(frame.take(frame.len() - 4) =~= body) by {
        assert forall|i: int| 0 <= i < 4 implies frame[i] == magic()[i] by {
            assert(frame.take(4)[i] == magic()[i]);
        }
        assert forall|i: int| 4 <= i < 8 implies frame[i] == le32(sequence)[i - 4] by {
            assert(frame.subrange(4, 8)[i - 4] == le32(sequence)[i - 4]);
        }
        assert forall|i: int| 8 <= i < 10 implies frame[i] == le16(payload.len() as u16)[i - 8] by {
            assert(frame.subrange(8, 10)[i - 8] == le16(payload.len() as u16)[i - 8]);
        }
    }
    lemma_from_le32_roundtrip(frame.skip(frame.len() - 4), crc32_of(body));
    assert(frame =~= frame.take(frame.len() - 4) + frame.skip(frame.len() - 4));
}

/// A frame that was cut short is refused.
pub proof fn law_truncation_rejected(frame: Seq<u8>, end: int)
    requires
        frame_valid(frame),
        0 <= end < frame.len(),
    ensures
        !frame_valid(frame.take(end)),
{
    if end >= OVERHEAD {
        assert(announced_length(frame.take(end)) == announced_length(frame));
    }
}

/// A frame with bytes after it is refused.
pub proof fn law_trailing_bytes_rejected(frame: Seq<u8>, extra: Seq<u8>)
    requires
        frame_valid(frame),
        extra.len() > 0,
    ensures
        !frame_valid(frame + extra),
{
    assert(announced_length(frame + extra) == announced_length(frame));
}

/// Division by the polynomial loses nothing: equal remainders had equal origins.
proof fn lemma_crc_bits_injective(a: u32, b: u32, count: nat)
    requires
        crc_bits(a, count) == crc_bits(b, count),
    ensures
        a == b,
    decreases count,
{
    if count > 0 {
        let (x, y) = (crc_bits(a, (count - 1) as nat), crc_bits(b, (count - 1) as nat));
        assert(x == y) by (bit_vector)
            requires
                (x >> 1) ^ (if x & 1 == 1 { 0xedb8_8320u32 } else { 0u32 }) == (y >> 1) ^ (if y & 1
                    == 1 { 0xedb8_8320u32 } else { 0u32 }),
        ;
        lemma_crc_bits_injective(a, b, (count - 1) as nat);
    }
}

/// Messages that differ in exactly one byte have different remainders.
proof fn lemma_crc_detects_byte(a: Seq<u8>, at: int, byte: u8)
    requires
        0 <= at < a.len(),
        byte != a[at],
    ensures
        crc_remainder(a) != crc_remainder(a.update(at, byte)),
    decreases a.len(),
{
    let b = a.update(at, byte);
    let (x, y) = (crc_remainder(a.drop_last()), crc_remainder(b.drop_last()));
    let (p, q) = (a.last() as u32, b.last() as u32);
    if at == a.len() - 1 {
        assert(a.drop_last() =~= b.drop_last());
        lemma_differences_stay(p, q, x);
    } else {
        assert(b.drop_last() =~= a.drop_last().update(at, byte));
        lemma_crc_detects_byte(a.drop_last(), at, byte);
        lemma_differences_stay(x, y, p);
    }
    if crc_remainder(a) == crc_remainder(b) {
        lemma_crc_bits_injective(x ^ p, y ^ q, 8);
    }
}

/// A frame in which any one byte was changed is refused, wherever the byte is.
pub proof fn law_corruption_rejected(frame: Seq<u8>, at: int, byte: u8)
    requires
        frame_valid(frame),
        0 <= at < frame.len(),
        byte != frame[at],
    ensures
        !frame_valid(frame.update(at, byte)),
{
    let bad = frame.update(at, byte);
    let end = frame.len() - 4;
    if at < 4 {
        assert(bad.take(4)[at] != frame.take(4)[at]);
    } else if at < end {
        if at != 8 && at != 9 {
            assert(bad.take(end) =~= frame.take(end).update(at, byte));
            assert(bad.skip(end) =~= frame.skip(end));
            lemma_crc_detects_byte(frame.take(end), at, byte);
            let (x, y) = (crc_remainder(frame.take(end)), crc_remainder(bad.take(end)));
            lemma_differences_stay(x, y, 0);
        }
    } else {
        assert(bad.take(end) =~= frame.take(end));
        assert(bad.skip(end) =~= frame.skip(end).update(at - end, byte));
    }
}

/// What eight bits of division do to a remainder: its low byte leaves, and each
/// bit of that byte subtracts its own multiple of the polynomial.
proof fn lemma_crc_byte(x: u32)
    ensures
        crc_bits(x, 8) == (x >> 8) ^ (if x & 0x01 != 0 { 0x7707_3096u32 } else { 0 }) ^ (if x & 0x02
            != 0 { 0xee0e_612cu32 } else { 0 }) ^ (if x & 0x04 != 0 { 0x076d_c419u32 } else { 0 })
            ^ (if x & 0x08 != 0 { 0x0edb_8832u32 } else { 0 }) ^ (if x & 0x10 != 0 {
            0x1db7_1064u32
        } else { 0 }) ^ (if x & 0x20 != 0 { 0x3b6e_20c8u32 } else { 0 }) ^ (if x & 0x40 != 0 {
            0x76dc_4190u32
        } else { 0 }) ^ (if x & 0x80 != 0 { 0xedb8_8320u32 } else { 0 }),
{
    reveal_with_fuel(crc_bits, 9);
    let x1 = crc_bit(x);
    let x2 = crc_bit(x1);
    let x3 = crc_bit(x2);
    let x4 = crc_bit(x3);
    let x5 = crc_bit(x4);
    let x6 = crc_bit(x5);
    let x7 = crc_bit(x6);
    let x8 = crc_bit(x7);
    assert(x8 == (x >> 8) ^ (if x & 0x01 != 0 { 0x7707_3096u32 } else { 0 }) ^ (if x & 0x02 != 0 {
        0xee0e_612cu32
    } else { 0 }) ^ (if x & 0x04 != 0 { 0x076d_c419u32 } else { 0 }) ^ (if x & 0x08 != 0 {
        0x0edb_8832u32
    } else { 0 }) ^ (if x & 0x10 != 0 { 0x1db7_1064u32 } else { 0 }) ^ (if x & 0x20 != 0 {
        0x3b6e_20c8u32
    } else { 0 }) ^ (if x & 0x40 != 0 { 0x76dc_4190u32 } else { 0 }) ^ (if x & 0x80 != 0 {
        0xedb8_8320u32
    } else { 0 })) by (bit_vector)
        requires
            x1 == (x >> 1) ^ (if x & 1 == 1 { 0xedb8_8320u32 } else { 0u32 }),
            x2 == (x1 >> 1) ^ (if x1 & 1 == 1 { 0xedb8_8320u32 } else { 0u32 }),
            x3 == (x2 >> 1) ^ (if x2 & 1 == 1 { 0xedb8_8320u32 } else { 0u32 }),
            x4 == (x3 >> 1) ^ (if x3 & 1 == 1 { 0xedb8_8320u32 } else { 0u32 }),
            x5 == (x4 >> 1) ^ (if x4 & 1 == 1 { 0xedb8_8320u32 } else { 0u32 }),
            x6 == (x5 >> 1) ^ (if x5 & 1 == 1 { 0xedb8_8320u32 } else { 0u32 }),
            x7 == (x6 >> 1) ^ (if x6 & 1 == 1 { 0xedb8_8320u32 } else { 0u32 }),
            x8 == (x7 >> 1) ^ (if x7 & 1 == 1 { 0xedb8_8320u32 } else { 0u32 }),
    ;
}

/// How the CRC goes on by one byte: that of no data is zero, and one byte more
/// adds to the inverted CRC, with the byte subtracted from its low end, shifts
/// it by eight bits, and subtracts one fixed number for each bit that left.
pub proof fn law_crc_goes_on_by_a_byte(data: &[u8], crc: u32, longer: &[u8], next: u32)
    requires
        call_ensures(crc32, (data,), crc),
        call_ensures(crc32, (longer,), next),
    ensures
        data@.len() == 0 ==> crc == 0,
        longer@.len() == data@.len() + 1 && longer@.drop_last() == data@ ==> {
            let x = !crc ^ (longer@.last() as u32);
            next == !((x >> 8) ^ (if x & 0x01 != 0 { 0x7707_3096u32 } else { 0 }) ^ (if x & 0x02
                != 0 { 0xee0e_612cu32 } else { 0 }) ^ (if x & 0x04 != 0 {
                0x076d_c419u32
            } else { 0 }) ^ (if x & 0x08 != 0 { 0x0edb_8832u32 } else { 0 }) ^ (if x & 0x10 != 0 {
                0x1db7_1064u32
            } else { 0 }) ^ (if x & 0x20 != 0 { 0x3b6e_20c8u32 } else { 0 }) ^ (if x & 0x40 != 0 {
                0x76dc_4190u32
            } else { 0 }) ^ (if x & 0x80 != 0 { 0xedb8_8320u32 } else { 0 }))
        },
{
    let remainder = crc_remainder(data@);
    assert(!!remainder == remainder && !0xffff_ffffu32 == 0) by (bit_vector);
    lemma_crc_byte(remainder ^ (longer@.last() as u32));
}

/// Where everything is in a frame: "RU48", the sequence number and the length
/// with their low bytes first, the payload, and the CRC of all that, low byte
/// first. Only a payload of more than 1024 bytes has no frame.
pub proof fn law_frame_layout(
    sequence: u32,
    payload: &[u8],
    result: Result<Vec<u8>, Error>,
    body: &[u8],
    crc: u32,
)
    requires
        call_ensures(encode, (sequence, payload), result),
        call_ensures(crc32, (body,), crc),
        result is Ok ==> body@ == result->Ok_0@.take(result->Ok_0@.len() - 4),
    ensures
        result is Ok <==> payload@.len() <= 1024,
        result is Err ==> result->Err_0.kind == ErrorKind::InvalidInput
            && result->Err_0.message@ == "payload exceeds 1024 bytes"@,
        result is Ok ==> {
            let frame = result->Ok_0@;
            let n = payload@.len() as int;
            &&& frame.len() == n + 14
            &&& frame[0] == 0x52 && frame[1] == 0x55 && frame[2] == 0x34 && frame[3] == 0x38
            &&& frame[4] + 0x100 * frame[5] + 0x1_0000 * frame[6] + 0x100_0000 * frame[7]
                == sequence
            &&& frame[8] + 0x100 * frame[9] == n
            &&& frame.subrange(10, 10 + n) == payload@
            &&& frame[n + 10] + 0x100 * frame[n + 11] + 0x1_0000 * frame[n + 12] + 0x100_0000
                * frame[n + 13] == crc
        },
{
    if result is Ok {
        let frame = result->Ok_0@;
        let n = payload@.len() as int;
        lemma_le32_roundtrip(sequence);
        lemma_le32_roundtrip(crc);
        assert(frame.take(frame.len() - 4) =~= frame_body(sequence, payload@));
        assert(frame.subrange(4, 8) =~= le32(sequence));
        assert(frame.skip(n + 10) =~= le32(crc));
        assert(frame[4] == le32(sequence)[0] && frame[5] == le32(sequence)[1] && frame[6] == le32(
            sequence,
        )[2] && frame[7] == le32(sequence)[3]);
        assert(frame.subrange(10, 10 + n) =~= payload@);
    }
}

/// What is decoded is what was encoded: the sequence number and the payload.
pub proof fn law_decoding_undoes_encoding(
    sequence: u32,
    payload: &[u8],
    encoded: Result<Vec<u8>, Error>,
    frame: &[u8],
    decoded: Result<(u32, &[u8]), Error>,
)
    requires
        payload@.len() <= 1024,
        call_ensures(encode, (sequence, payload), encoded),
        encoded is Ok ==> frame@ == encoded->Ok_0@,
        call_ensures(decode, (frame,), decoded),
    ensures
        encoded is Ok,
        decoded is Ok,
        decoded->Ok_0.0 == sequence,
        decoded->Ok_0.1@ == payload@,
{
    law_roundtrip(sequence, payload@);
}

/// Only a frame is decoded, and which defect is reported follows from where the
/// first one is: in the magic number or by being too short for it, in the
/// length, or in the CRC.
pub proof fn law_decoding_checks_everything(
    frame: &[u8],
    decoded: Result<(u32, &[u8]), Error>,
    body: &[u8],
    crc: u32,
)
    requires
        call_ensures(decode, (frame,), decoded),
        call_ensures(crc32, (body,), crc),
        frame@.len() >= 14 ==> body@ == frame@.take(frame@.len() - 4),
    ensures
        ({
            let n = frame@.len() - 14;
            let headed = n >= 0 && frame@[0] == 0x52 && frame@[1] == 0x55 && frame@[2] == 0x34
                && frame@[3] == 0x38;
            let sized = frame@[8] + 0x100 * frame@[9] == n && n <= 1024;
            let summed = frame@[n + 10] + 0x100 * frame@[n + 11] + 0x1_0000 * frame@[n + 12]
                + 0x100_0000 * frame@[n + 13] == crc;
            &&& decoded is Ok <==> headed && sized && summed
            &&& decoded is Ok ==> decoded->Ok_0.1@ == frame@.subrange(10, 10 + n)
                && decoded->Ok_0.0 == frame@[4] + 0x100 * frame@[5] + 0x1_0000 * frame@[6]
                + 0x100_0000 * frame@[7]
            &&& decoded is Err ==> decoded->Err_0.kind == ErrorKind::InvalidInput
            &&& decoded is Err && !headed ==> decoded->Err_0.message@ == "invalid frame header"@
            &&& decoded is Err && headed && !sized ==> decoded->Err_0.message@
                == "invalid frame length"@
            &&& decoded is Err && headed && sized ==> decoded->Err_0.message@ == "CRC mismatch"@
        }),
{
    if frame@.len() >= 4 {
        let head = frame@.take(4);
        assert(head == magic() <==> head[0] == 0x52 && head[1] == 0x55 && head[2] == 0x34 && head[3]
            == 0x38) by {
            if head[0] == 0x52 && head[1] == 0x55 && head[2] == 0x34 && head[3] == 0x38 {
                assert(head =~= magic());
            }
        }
    }
}

/// Numbers are written and read with their low bytes first.
pub proof fn law_bytes_are_little_endian(
    short: &mut Vec<u8>,
    x: u16,
    long: &mut Vec<u8>,
    y: u32,
    bytes: &[u8],
    at: usize,
    z: u32,
    marked: bool,
)
    requires
        call_ensures(push_le16, (short, x), ()),
        call_ensures(push_le32, (long, y), ()),
        at + 4 <= bytes@.len(),
        call_ensures(read_le32, (bytes, at), z),
        call_ensures(starts_with_magic, (bytes,), marked),
    ensures
        final(short)@.take(old(short)@.len() as int) == old(short)@,
        final(short)@.len() == old(short)@.len() + 2,
        ({
            let n = old(short)@.len() as int;
            final(short)@[n] + 0x100 * final(short)@[n + 1] == x
        }),
        final(long)@.take(old(long)@.len() as int) == old(long)@,
        final(long)@.len() == old(long)@.len() + 4,
        ({
            let n = old(long)@.len() as int;
            final(long)@[n] + 0x100 * final(long)@[n + 1] + 0x1_0000 * final(long)@[n + 2]
                + 0x100_0000 * final(long)@[n + 3] == y
        }),
        z == bytes@[at as int] + 0x100 * bytes@[at + 1] + 0x1_0000 * bytes@[at + 2] + 0x100_0000
            * bytes@[at + 3],
        marked <==> bytes@[0] == 0x52 && bytes@[1] == 0x55 && bytes@[2] == 0x34 && bytes@[3]
            == 0x38,
{
    assert((old(short)@ + le16(x)).take(old(short)@.len() as int) =~= old(short)@);
    assert((old(long)@ + le32(y)).take(old(long)@.len() as int) =~= old(long)@);
    lemma_le32_roundtrip(y);
    let head = bytes@.take(4);
    if bytes@[0] == 0x52 && bytes@[1] == 0x55 && bytes@[2] == 0x34 && bytes@[3] == 0x38 {
        assert(head =~= magic());
    } else {
        assert(head[0] == bytes@[0] && head[1] == bytes@[1] && head[2] == bytes@[2] && head[3]
            == bytes@[3]);
    }
}

} // verus!
