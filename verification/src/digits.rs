//! Decimal and hexadecimal digit rendering for small unsigned values,
//! with character-exact specifications.

use vstd::prelude::*;

verus! {

/// The decimal digit character for a value in 0..=9.
pub open spec fn dec_digit(d: int) -> char {
    if d == 0 {
        '0'
    } else if d == 1 {
        '1'
    } else if d == 2 {
        '2'
    } else if d == 3 {
        '3'
    } else if d == 4 {
        '4'
    } else if d == 5 {
        '5'
    } else if d == 6 {
        '6'
    } else if d == 7 {
        '7'
    } else if d == 8 {
        '8'
    } else {
        '9'
    }
}

/// The uppercase hexadecimal digit character for a value in 0..=15.
pub open spec fn hex_digit(d: int) -> char {
    if d < 10 {
        dec_digit(d)
    } else if d == 10 {
        'A'
    } else if d == 11 {
        'B'
    } else if d == 12 {
        'C'
    } else if d == 13 {
        'D'
    } else if d == 14 {
        'E'
    } else {
        'F'
    }
}

/// Decimal representation, without leading zeros, of a value in 0..=999.
pub open spec fn dec_rep(v: int) -> Seq<char> {
    if v < 10 {
        seq![dec_digit(v)]
    } else if v < 100 {
        seq![dec_digit(v / 10), dec_digit(v % 10)]
    } else {
        seq![dec_digit(v / 100), dec_digit((v / 10) % 10), dec_digit(v % 10)]
    }
}

/// Two uppercase hexadecimal digits for a byte value.
pub open spec fn hex_pair(v: int) -> Seq<char> {
    seq![hex_digit(v / 16), hex_digit(v % 16)]
}

/// The string slice holding exactly the decimal digit character of `d`.
pub fn dec_digit_str(d: u8) -> (out: &'static str)
    requires
        d < 10,
    ensures
        out@ =~= seq![dec_digit(d as int)],
{
    proof {
        reveal_strlit("0");
        reveal_strlit("1");
        reveal_strlit("2");
        reveal_strlit("3");
        reveal_strlit("4");
        reveal_strlit("5");
        reveal_strlit("6");
        reveal_strlit("7");
        reveal_strlit("8");
        reveal_strlit("9");
    }
    if d == 0 {
        "0"
    } else if d == 1 {
        "1"
    } else if d == 2 {
        "2"
    } else if d == 3 {
        "3"
    } else if d == 4 {
        "4"
    } else if d == 5 {
        "5"
    } else if d == 6 {
        "6"
    } else if d == 7 {
        "7"
    } else if d == 8 {
        "8"
    } else {
        "9"
    }
}

/// The string slice holding exactly the uppercase hexadecimal digit
/// character of `d`.
pub fn hex_digit_str(d: u8) -> (out: &'static str)
    requires
        d < 16,
    ensures
        out@ =~= seq![hex_digit(d as int)],
{
    if d < 10 {
        dec_digit_str(d)
    } else {
        proof {
            reveal_strlit("A");
            reveal_strlit("B");
            reveal_strlit("C");
            reveal_strlit("D");
            reveal_strlit("E");
            reveal_strlit("F");
        }
        if d == 10 {
            "A"
        } else if d == 11 {
            "B"
        } else if d == 12 {
            "C"
        } else if d == 13 {
            "D"
        } else if d == 14 {
            "E"
        } else {
            "F"
        }
    }
}

/// Appends the decimal representation of `v` (0..=999) to `out`.
pub fn append_dec(out: &mut String, v: u16)
    requires
        v < 1000,
    ensures
        final(out)@ == old(out)@ + dec_rep(v as int),
{
    let ghost pre = out@;
    if v >= 100 {
        out.append(dec_digit_str((v / 100) as u8));
        out.append(dec_digit_str(((v / 10) % 10) as u8));
        out.append(dec_digit_str((v % 10) as u8));
        assert(out@ =~= pre + dec_rep(v as int));
    } else if v >= 10 {
        out.append(dec_digit_str((v / 10) as u8));
        out.append(dec_digit_str((v % 10) as u8));
        assert(out@ =~= pre + dec_rep(v as int));
    } else {
        out.append(dec_digit_str(v as u8));
        assert(out@ =~= pre + dec_rep(v as int));
    }
}

/// Appends the two uppercase hexadecimal digits of `v` to `out`.
pub fn append_hex_pair(out: &mut String, v: u8)
    ensures
        final(out)@ == old(out)@ + hex_pair(v as int),
{
    let ghost pre = out@;
    out.append(hex_digit_str(v / 16));
    out.append(hex_digit_str(v % 16));
    assert(out@ =~= pre + hex_pair(v as int));
}

} // verus!
