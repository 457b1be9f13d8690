//! Numbers written out in decimal digits.

use vstd::prelude::*;
use vstd::string::StringExecFns;

verus! {

/// The character that stands for the digit `d`.
pub open spec fn digit(d: nat) -> char
    recommends
        d < 10,
{
    if d == 0 {
        '0'
    } else if d == 1 {
        '1'
    } else if d == 2 {
        '2'
    } else if d == 3 {
        '3'
    } else if d == 4 {
        '4'
    } else if d == 5 {
        '5'
    } else if d == 6 {
        '6'
    } else if d == 7 {
        '7'
    } else if d == 8 {
        '8'
    } else {
        '9'
    }
}

/// The decimal digits of `n`, the most significant first, without leading
/// zeros; `0` is the single digit `0`.
pub open spec fn decimal(n: nat) -> Seq<char>
    decreases n,
{
    if n < 10 {
        seq![digit(n)]
    } else {
        decimal(n / 10).push(digit(n % 10))
    }
}

/// The digit that `c` stands for; 0 where it stands for none.
pub open spec fn digit_value(c: char) -> nat {
    if c == '1' {
        1
    } else if c == '2' {
        2
    } else if c == '3' {
        3
    } else if c == '4' {
        4
    } else if c == '5' {
        5
    } else if c == '6' {
        6
    } else if c == '7' {
        7
    } else if c == '8' {
        8
    } else if c == '9' {
        9
    } else {
        0
    }
}

/// The number that `digits` spell in base ten.
pub open spec fn decimal_value(digits: Seq<char>) -> nat
    decreases digits.len(),
{
    if digits.len() == 0 {
        0
    } else {
        decimal_value(digits.drop_last()) * 10 + digit_value(digits.last())
    }
}

/// The digits of `n` spell `n`, and only those of 0 begin with a zero.
pub proof fn lemma_decimal_spells(n: nat)
    ensures
        decimal_value(decimal(n)) == n,
        decimal(n).len() >= 1,
        n > 0 ==> decimal(n)[0] != '0',
    decreases n,
{
    if n < 10 {
        assert(decimal_value(decimal(n).drop_last()) == 0);
    } else {
        lemma_decimal_spells(n / 10);
        assert(decimal(n).drop_last() =~= decimal(n / 10));
    }
}

/// The digit `d` as a string of one character.
fn digit_str(d: usize) -> (s: &'static str)
    requires
        d < 10,
    ensures
        s@ == seq![digit(d as nat)],
{
    proof {
        reveal_strlit("0");
        reveal_strlit("1");
        reveal_strlit("2");
        reveal_strlit("3");
        reveal_strlit("4");
        reveal_strlit("5");
        reveal_strlit("6");
        reveal_strlit("7");
        reveal_strlit("8");
        reveal_strlit("9");
    }
    let s = if d == 0 {
        "0"
    } else if d == 1 {
        "1"
    } else if d == 2 {
        "2"
    } else if d == 3 {
        "3"
    } else if d == 4 {
        "4"
    } else if d == 5 {
        "5"
    } else if d == 6 {
        "6"
    } else if d == 7 {
        "7"
    } else if d == 8 {
        "8"
    } else {
        "9"
    };
    s
}

/// Appends the decimal digits of `n` to `out`.
pub fn append_decimal(out: &mut String, n: usize)
    ensures
        final(out)@ == old(out)@ + decimal(n as nat),
    decreases n,
{
    if n >= 10 {
        append_decimal(out, n / 10);
    }
    out.append(digit_str(n % 10));
    proof {
        if n >= 10 {
            assert(old(out)@ + decimal((n / 10) as nat) + seq![digit((n % 10) as nat)] =~= old(
                out,
            )@ + decimal(n as nat));
        }
    }
}

/// The decimal digits of `n` as a string.
pub fn to_decimal(n: usize) -> (s: String)
    ensures
        s@ == decimal(n as nat),
{
    let mut s = String::new();
    append_decimal(&mut s, n);
    s
}

} // verus!
