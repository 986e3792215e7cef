use vstd::prelude::*;
use vstd::string::StringExecFns;

verus! {

/// The uppercase hexadecimal digit for `d`, which is below 16.
pub open spec fn hex_char(d: int) -> char {
    if d == 0 { '0' }
    else if d == 1 { '1' }
    else if d == 2 { '2' }
    else if d == 3 { '3' }
    else if d == 4 { '4' }
    else if d == 5 { '5' }
    else if d == 6 { '6' }
    else if d == 7 { '7' }
    else if d == 8 { '8' }
    else if d == 9 { '9' }
    else if d == 10 { 'A' }
    else if d == 11 { 'B' }
    else if d == 12 { 'C' }
    else if d == 13 { 'D' }
    else if d == 14 { 'E' }
    else { 'F' }
}

/// A byte as two uppercase hexadecimal digits.
pub open spec fn hex2(b: u8) -> Seq<char> {
    seq![hex_char(b as int / 16), hex_char(b as int % 16)]
}

/// A 16-bit value as four uppercase hexadecimal digits.
pub open spec fn hex4(w: u16) -> Seq<char> {
    seq![
        hex_char(w as int / 4096),
        hex_char(w as int / 256 % 16),
        hex_char(w as int / 16 % 16),
        hex_char(w as int % 16),
    ]
}

/// A natural number in decimal, without leading zeros.
pub open spec fn decimal(n: nat) -> Seq<char>
    decreases n,
{
    if n < 10 {
        seq![hex_char(n as int)]
    } else {
        decimal(n / 10).push(hex_char((n % 10) as int))
    }
}

/// A signed byte in decimal, with a leading minus sign when negative.
pub open spec fn signed_decimal(x: i8) -> Seq<char> {
    if x < 0 {
        seq!['-'] + decimal((-(x as int)) as nat)
    } else {
        decimal(x as nat)
    }
}

fn digit_str(d: u8) -> (r: &'static str)
    requires
        d < 16,
    ensures
        r@ == seq![hex_char(d as int)],
{
    proof {
        reveal_strlit("0");
        reveal_strlit("1");
        reveal_strlit("2");
        reveal_strlit("3");
        reveal_strlit("4");
        reveal_strlit("5");
        reveal_strlit("6");
        reveal_strlit("7");
        reveal_strlit("8");
        reveal_strlit("9");
        reveal_strlit("A");
        reveal_strlit("B");
        reveal_strlit("C");
        reveal_strlit("D");
        reveal_strlit("E");
        reveal_strlit("F");
    }
    match d {
        0 => "0",
        1 => "1",
        2 => "2",
        3 => "3",
        4 => "4",
        5 => "5",
        6 => "6",
        7 => "7",
        8 => "8",
        9 => "9",
        10 => "A",
        11 => "B",
        12 => "C",
        13 => "D",
        14 => "E",
        _ => "F",
    }
}

/// Appends `b` as two uppercase hexadecimal digits.
pub fn push_hex2(s: &mut String, b: u8)
    ensures
        final(s)@ == old(s)@ + hex2(b),
{
    s.append(digit_str(b / 16));
    s.append(digit_str(b % 16));
    assert(s@ =~= old(s)@ + hex2(b));
}

/// Appends `w` as four uppercase hexadecimal digits.
pub fn push_hex4(s: &mut String, w: u16)
    ensures
        final(s)@ == old(s)@ + hex4(w),
{
    s.append(digit_str((w / 4096) as u8));
    s.append(digit_str((w / 256 % 16) as u8));
    s.append(digit_str((w / 16 % 16) as u8));
    s.append(digit_str((w % 16) as u8));
    assert(s@ =~= old(s)@ + hex4(w));
}

/// Appends `x` in decimal, with a leading minus sign when negative.
pub fn push_signed_decimal(s: &mut String, x: i8)
    ensures
        final(s)@ == old(s)@ + signed_decimal(x),
{
    proof {
        reveal_strlit("-");
    }
    let ghost start = s@;
    let n: u8;
    if x < 0 {
        s.append("-");
        n = (0 - (x as i16)) as u8;
    } else {
        n = x as u8;
    }
    let ghost signed = s@;
    if n >= 100 {
        s.append(digit_str(n / 100));
        s.append(digit_str(n / 10 % 10));
        s.append(digit_str(n % 10));
        assert(decimal(n as nat) =~= seq![hex_char(n as int / 100), hex_char(n as int / 10 % 10), hex_char(n as int % 10)]) by {
            assert(decimal(n as nat / 10) =~= seq![hex_char(n as int / 100), hex_char(n as int / 10 % 10)]) by {
                assert(decimal(n as nat / 100) =~= seq![hex_char(n as int / 100)]);
            }
        }
    } else if n >= 10 {
        s.append(digit_str(n / 10));
        s.append(digit_str(n % 10));
        assert(decimal(n as nat) =~= seq![hex_char(n as int / 10), hex_char(n as int % 10)]) by {
            assert(decimal(n as nat / 10) =~= seq![hex_char(n as int / 10)]);
        }
    } else {
        s.append(digit_str(n));
        assert(decimal(n as nat) =~= seq![hex_char(n as int)]);
    }
    assert(s@ =~= signed + decimal(n as nat));
    assert(s@ =~= old(s)@ + signed_decimal(x));
}

} // verus!
