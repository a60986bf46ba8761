//! Lowercase hexadecimal rendering of the numbers that appear in a
//! disassembly listing: operand values and zero-padded addresses.

use vstd::prelude::*;
use vstd::string::StringExecFns;

verus! {

/// The lowercase hexadecimal digit for a value in 0..16.
pub open spec fn hex_char(d: int) -> char {
    if d == 0 {
        '0'
    } else if d == 1 {
        '1'
    } else if d == 2 {
        '2'
    } else if d == 3 {
        '3'
    } else if d == 4 {
        '4'
    } else if d == 5 {
        '5'
    } else if d == 6 {
        '6'
    } else if d == 7 {
        '7'
    } else if d == 8 {
        '8'
    } else if d == 9 {
        '9'
    } else if d == 10 {
        'a'
    } else if d == 11 {
        'b'
    } else if d == 12 {
        'c'
    } else if d == 13 {
        'd'
    } else if d == 14 {
        'e'
    } else {
        'f'
    }
}

/// Two hex digits, as in `$1f`.
pub open spec fn spec_hex2(v: u8) -> Seq<char> {
    seq![hex_char(v as int / 16), hex_char(v as int % 16)]
}

/// Four hex digits, as in `$8000`.
pub open spec fn spec_hex4(v: u16) -> Seq<char> {
    seq![
        hex_char(v as int / 4096),
        hex_char((v as int / 256) % 16),
        hex_char((v as int / 16) % 16),
        hex_char(v as int % 16),
    ]
}

/// The hex digits of `v`, left-padded with `0` to at least `width` digits.
/// A value too wide for `width` keeps all of its digits.
pub open spec fn spec_hex_pad(v: int, width: int) -> Seq<char>
    decreases v, width,
{
    if v < 0 {
        Seq::empty()
    } else if v < 16 && width <= 1 {
        seq![hex_char(v)]
    } else {
        spec_hex_pad(v / 16, if width <= 1 { 1 } else { width - 1 }) + seq![hex_char(v % 16)]
    }
}

/// The number of hex digits needed to write any address below `n`,
/// that is, the least `w >= 1` with `16^w >= n`.
pub open spec fn spec_hex_width(n: int) -> int
    decreases n,
{
    if n <= 16 {
        1
    } else {
        1 + spec_hex_width((n + 15) / 16)
    }
}

fn hex_digit_str(d: u8) -> (s: &'static str)
    requires
        d < 16,
    ensures
        s@ == seq![hex_char(d as int)],
{
    let s: &'static str = if d == 0 {
        "0"
    } else if d == 1 {
        "1"
    } else if d == 2 {
        "2"
    } else if d == 3 {
        "3"
    } else if d == 4 {
        "4"
    } else if d == 5 {
        "5"
    } else if d == 6 {
        "6"
    } else if d == 7 {
        "7"
    } else if d == 8 {
        "8"
    } else if d == 9 {
        "9"
    } else if d == 10 {
        "a"
    } else if d == 11 {
        "b"
    } else if d == 12 {
        "c"
    } else if d == 13 {
        "d"
    } else if d == 14 {
        "e"
    } else {
        "f"
    };
    proof {
        reveal_strlit("0");
        reveal_strlit("1");
        reveal_strlit("2");
        reveal_strlit("3");
        reveal_strlit("4");
        reveal_strlit("5");
        reveal_strlit("6");
        reveal_strlit("7");
        reveal_strlit("8");
        reveal_strlit("9");
        reveal_strlit("a");
        reveal_strlit("b");
        reveal_strlit("c");
        reveal_strlit("d");
        reveal_strlit("e");
        reveal_strlit("f");
        assert(s@ =~= seq![hex_char(d as int)]);
    }
    s
}

/// Appends the two hex digits of `v` to `out`.
pub fn push_hex2(out: &mut String, v: u8)
    ensures
        final(out)@ == old(out)@ + spec_hex2(v),
{
    out.append(hex_digit_str(v / 16));
    out.append(hex_digit_str(v % 16));
    proof {
        assert(out@ =~= old(out)@ + spec_hex2(v));
    }
}

/// Appends the four hex digits of `v` to `out`.
pub fn push_hex4(out: &mut String, v: u16)
    ensures
        final(out)@ == old(out)@ + spec_hex4(v),
{
    out.append(hex_digit_str((v / 4096) as u8));
    out.append(hex_digit_str(((v / 256) % 16) as u8));
    out.append(hex_digit_str(((v / 16) % 16) as u8));
    out.append(hex_digit_str((v % 16) as u8));
    proof {
        assert(out@ =~= old(out)@ + spec_hex4(v));
    }
}

/// Appends `v` in hex, zero-padded to at least `width` digits.
pub fn push_hex_pad(out: &mut String, v: usize, width: usize)
    ensures
        final(out)@ == old(out)@ + spec_hex_pad(v as int, width as int),
    decreases v, width,
{
    if v < 16 && width <= 1 {
        out.append(hex_digit_str(v as u8));
        proof {
            assert(out@ =~= old(out)@ + spec_hex_pad(v as int, width as int));
        }
    } else {
        let narrower: usize = if width <= 1 {
            1
        } else {
            width - 1
        };
        push_hex_pad(out, v / 16, narrower);
        out.append(hex_digit_str((v % 16) as u8));
        proof {
            assert(out@ =~= old(out)@ + spec_hex_pad(v as int, width as int));
        }
    }
}

/// The least number of hex digits that can write any address below `n`.
pub fn hex_width(n: u64) -> (w: u64)
    ensures
        w == spec_hex_width(n as int),
        1 <= w <= 16,
{
    proof {
        reveal_with_fuel(spec_hex_width, 17);
    }
    if n <= 0x10 {
        1
    } else if n <= 0x100 {
        2
    } else if n <= 0x1000 {
        3
    } else if n <= 0x1_0000 {
        4
    } else if n <= 0x10_0000 {
        5
    } else if n <= 0x100_0000 {
        6
    } else if n <= 0x1000_0000 {
        7
    } else if n <= 0x1_0000_0000 {
        8
    } else if n <= 0x10_0000_0000 {
        9
    } else if n <= 0x100_0000_0000 {
        10
    } else if n <= 0x1000_0000_0000 {
        11
    } else if n <= 0x1_0000_0000_0000 {
        12
    } else if n <= 0x10_0000_0000_0000 {
        13
    } else if n <= 0x100_0000_0000_0000 {
        14
    } else if n <= 0x1000_0000_0000_0000 {
        15
    } else {
        16
    }
}

} // verus!
