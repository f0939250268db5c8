//! Numbers as text.

use vstd::prelude::*;
use vstd::string::*;

verus! {

/// The decimal digit `d`.
pub open spec fn digit(d: int) -> char {
    (48 + d) as char
}

/// The decimal notation of `n`.
pub open spec fn decimal_of(n: int) -> Seq<char>
    decreases n,
{
    if n < 10 {
        seq![digit(n)]
    } else {
        decimal_of(n / 10).push(digit(n % 10))
    }
}

/// The hexadecimal digit `d`, in lower case.
pub open spec fn hex_digit(d: int) -> char {
    if d < 10 {
        digit(d)
    } else {
        (87 + d) as char
    }
}

/// A byte as two hexadecimal digits.
pub open spec fn hex_of(byte: u8) -> Seq<char> {
    seq![hex_digit(byte as int / 16), hex_digit(byte as int % 16)]
}

/// The text of one hexadecimal digit.
fn hex_digit_text(d: u8) -> (text: &'static str)
    requires
        d < 16,
    ensures
        text@ == seq![hex_digit(d as int)],
{
    proof {
        reveal_strlit("0");
        reveal_strlit("1");
        reveal_strlit("2");
        reveal_strlit("3");
        reveal_strlit("4");
        reveal_strlit("5");
        reveal_strlit("6");
        reveal_strlit("7");
        reveal_strlit("8");
        reveal_strlit("9");
        reveal_strlit("a");
        reveal_strlit("b");
        reveal_strlit("c");
        reveal_strlit("d");
        reveal_strlit("e");
        reveal_strlit("f");
    }
    let text = match d {
        0 => "0",
        1 => "1",
        2 => "2",
        3 => "3",
        4 => "4",
        5 => "5",
        6 => "6",
        7 => "7",
        8 => "8",
        9 => "9",
        10 => "a",
        11 => "b",
        12 => "c",
        13 => "d",
        14 => "e",
        _ => "f",
    };
    assert(text@ =~= seq![hex_digit(d as int)]);
    text
}

/// Appends the decimal notation of `n` to `out`.
pub fn push_decimal(out: &mut String, n: u64)
    ensures
        final(out)@ == old(out)@ + decimal_of(n as int),
    decreases n,
{
    if n < 10 {
        out.append(hex_digit_text(n as u8));
    } else {
        push_decimal(out, n / 10);
        out.append(hex_digit_text((n % 10) as u8));
        assert(out@ =~= old(out)@ + decimal_of(n as int));
    }
}

/// Appends `byte` as two hexadecimal digits to `out`.
pub fn push_hex(out: &mut String, byte: u8)
    ensures
        final(out)@ == old(out)@ + hex_of(byte),
{
    out.append(hex_digit_text(byte / 16));
    out.append(hex_digit_text(byte % 16));
    assert(out@ =~= old(out)@ + hex_of(byte));
}

// ---------------------------------------------------------------------------
// Laws
// ---------------------------------------------------------------------------

/// How a number is written: one below ten as one digit, and any other as what
/// is left without its last digit, and then that digit.
pub proof fn law_decimal_notation(
    short: &mut String,
    tenth: u64,
    long: &mut String,
    n: u64,
)
    requires
        tenth == n / 10,
        *old(short) == *old(long),
        call_ensures(push_decimal, (short, tenth), ()),
        call_ensures(push_decimal, (long, n), ()),
    ensures
        n < 10 ==> final(long)@ == old(long)@.push((0x30 + n) as char),
        n >= 10 ==> final(long)@ == final(short)@.push((0x30 + n % 10) as char),
{
    if n < 10 {
        assert(final(long)@ =~= old(long)@.push(digit(n as int)));
    } else {
        assert(final(long)@ =~= final(short)@.push(digit(n as int % 10)));
    }
}

/// A byte is written as two digits, the high half first, from `0` to `9` and
/// from `a` to `f`.
pub proof fn law_hexadecimal_notation(out: &mut String, byte: u8)
    requires
        call_ensures(push_hex, (out, byte), ()),
    ensures
        final(out)@.len() == old(out)@.len() + 2,
        final(out)@.take(old(out)@.len() as int) == old(out)@,
        ({
            let high = final(out)@[old(out)@.len() as int] as int;
            let low = final(out)@[(old(out)@.len() + 1) as int] as int;
            let high_value = if 0x30 <= high <= 0x39 {
                high - 0x30
            } else {
                high - 0x61 + 10
            };
            let low_value = if 0x30 <= low <= 0x39 {
                low - 0x30
            } else {
                low - 0x61 + 10
            };
            &&& 0x30 <= high <= 0x39 || 0x61 <= high <= 0x66
            &&& 0x30 <= low <= 0x39 || 0x61 <= low <= 0x66
            &&& 16 * high_value + low_value == byte
        }),
{
    assert(final(out)@.take(old(out)@.len() as int) =~= old(out)@);
}

} // verus!
