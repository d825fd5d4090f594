//! The text of a status code as a diagnostic shows it.

use vstd::prelude::*;
use vstd::string::StringExecFns;

verus! {

/// The hexadecimal digit for a number below 16, in lower case.
pub open spec fn hex_digit(d: nat) -> char {
    "0123456789abcdef"@[d as int]
}

/// The hexadecimal digits of `n`, the most significant first and without
/// leading zeros; the one digit `0` for 0.
pub open spec fn hex_digits(n: nat) -> Seq<char>
    decreases n,
{
    if n < 16 {
        seq![hex_digit(n)]
    } else {
        hex_digits(n / 16).push(hex_digit(n % 16))
    }
}

/// The 32 bits of a status code read as an unsigned number: a negative code
/// stands for itself plus 2^32.
pub open spec fn unsigned(code: i32) -> nat {
    if code >= 0 {
        code as nat
    } else {
        (code + 0x1_0000_0000) as nat
    }
}

/// A status code in hexadecimal: `0x` and the digits of its 32 bits, as in
/// `0x80070005` for -2147024891.
pub open spec fn hex_text(code: i32) -> Seq<char> {
    "0x"@ + hex_digits(unsigned(code))
}

/// The hexadecimal digit for `d`, as a string of its own.
fn hex_digit_str(d: u64) -> (s: &'static str)
    requires
        d < 16,
    ensures
        s@ == seq![hex_digit(d as nat)],
{
    proof {
        reveal_strlit("0123456789abcdef");
        reveal_strlit("0");
        reveal_strlit("1");
        reveal_strlit("2");
        reveal_strlit("3");
        reveal_strlit("4");
        reveal_strlit("5");
        reveal_strlit("6");
        reveal_strlit("7");
        reveal_strlit("8");
        reveal_strlit("9");
        reveal_strlit("a");
        reveal_strlit("b");
        reveal_strlit("c");
        reveal_strlit("d");
        reveal_strlit("e");
        reveal_strlit("f");
    }
    let s = match d {
        0 => "0",
        1 => "1",
        2 => "2",
        3 => "3",
        4 => "4",
        5 => "5",
        6 => "6",
        7 => "7",
        8 => "8",
        9 => "9",
        10 => "a",
        11 => "b",
        12 => "c",
        13 => "d",
        14 => "e",
        _ => "f",
    };
    assert(s@ =~= seq![hex_digit(d as nat)]);
    s
}

/// Appends the hexadecimal digits of `n` to `out`.
fn push_hex_digits(out: &mut String, n: u64)
    ensures
        final(out)@ == old(out)@ + hex_digits(n as nat),
    decreases n,
{
    if n >= 16 {
        push_hex_digits(out, n / 16);
    }
    out.append(hex_digit_str(n % 16));
    assert(out@ =~= old(out)@ + hex_digits(n as nat));
}

/// Appends `code` in hexadecimal to `out`.
pub fn push_hex(out: &mut String, code: i32)
    ensures
        final(out)@ == old(out)@ + hex_text(code),
{
    let wide: i64 = code as i64;
    let bits: u64 = if wide < 0 {
        (wide + 0x1_0000_0000) as u64
    } else {
        wide as u64
    };
    out.append("0x");
    push_hex_digits(out, bits);
    assert(out@ =~= old(out)@ + hex_text(code));
}

} // verus!
