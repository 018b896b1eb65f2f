//! Decimal and hexadecimal rendering of integers, appended to a `String`.
use vstd::prelude::*;
use vstd::string::*;

verus! {

/// The character of a digit below sixteen; digits above nine are upper case.
pub open spec fn digit_char(d: nat) -> char {
    seq!['0', '1', '2', '3', '4', '5', '6', '7', '8', '9', 'A', 'B', 'C', 'D', 'E', 'F'][d as int]
}

/// The decimal form of `n`, most significant digit first, without leading zeros.
pub open spec fn dec(n: nat) -> Seq<char>
    decreases n,
{
    if n < 10 {
        seq![digit_char(n)]
    } else {
        dec(n / 10).push(digit_char(n % 10))
    }
}

/// The upper-case hexadecimal form of `n`, without leading zeros.
pub open spec fn hex(n: nat) -> Seq<char>
    decreases n,
{
    if n < 16 {
        seq![digit_char(n)]
    } else {
        hex(n / 16).push(digit_char(n % 16))
    }
}

/// The decimal form of `n`, padded with zeros to at least two characters.
pub open spec fn dec2(n: nat) -> Seq<char> {
    if n < 10 {
        seq!['0'] + dec(n)
    } else {
        dec(n)
    }
}

/// The decimal form of a signed integer, with a leading minus sign when negative.
pub open spec fn signed_dec(i: int) -> Seq<char> {
    if i < 0 {
        seq!['-'] + dec((-i) as nat)
    } else {
        dec(i as nat)
    }
}

fn digit_str(d: u64) -> (r: &'static str)
    requires
        d < 16,
    ensures
        r@ == seq![digit_char(d as nat)],
{
    proof {
        reveal_strlit("0");
        reveal_strlit("1");
        reveal_strlit("2");
        reveal_strlit("3");
        reveal_strlit("4");
        reveal_strlit("5");
        reveal_strlit("6");
        reveal_strlit("7");
        reveal_strlit("8");
        reveal_strlit("9");
        reveal_strlit("A");
        reveal_strlit("B");
        reveal_strlit("C");
        reveal_strlit("D");
        reveal_strlit("E");
        reveal_strlit("F");
    }
    match d {
        0 => "0",
        1 => "1",
        2 => "2",
        3 => "3",
        4 => "4",
        5 => "5",
        6 => "6",
        7 => "7",
        8 => "8",
        9 => "9",
        10 => "A",
        11 => "B",
        12 => "C",
        13 => "D",
        14 => "E",
        _ => "F",
    }
}

/// Appends the decimal form of `n`.
pub fn push_dec(s: &mut String, n: u64)
    ensures
        final(s)@ == old(s)@ + dec(n as nat),
    decreases n,
{
    if n >= 10 {
        push_dec(s, n / 10);
    }
    s.append(digit_str(n % 10));
}

/// Appends the upper-case hexadecimal form of `n`.
pub fn push_hex(s: &mut String, n: u64)
    ensures
        final(s)@ == old(s)@ + hex(n as nat),
    decreases n,
{
    if n >= 16 {
        push_hex(s, n / 16);
    }
    s.append(digit_str(n % 16));
}

/// Appends the decimal form of `n`, zero-padded to two characters.
pub fn push_dec2(s: &mut String, n: u64)
    ensures
        final(s)@ == old(s)@ + dec2(n as nat),
{
    if n < 10 {
        proof {
            reveal_strlit("0");
        }
        s.append("0");
        push_dec(s, n);
        assert(final(s)@ =~= old(s)@ + dec2(n as nat));
    } else {
        push_dec(s, n);
    }
}

/// Appends the decimal form of a signed integer.
pub fn push_signed(s: &mut String, i: i64)
    requires
        i > i64::MIN,
    ensures
        final(s)@ == old(s)@ + signed_dec(i as int),
{
    if i < 0 {
        proof {
            reveal_strlit("-");
        }
        s.append("-");
        push_dec(s, (-i) as u64);
        assert(final(s)@ =~= old(s)@ + signed_dec(i as int));
    } else {
        push_dec(s, i as u64);
    }
}

} // verus!
