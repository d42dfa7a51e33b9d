//! Numbers written out in decimal.

use vstd::prelude::*;
use vstd::string::StringExecFns;

verus! {

/// The character for a decimal digit.
pub open spec fn digit(d: nat) -> char {
    if d == 0 {
        '0'
    } else if d == 1 {
        '1'
    } else if d == 2 {
        '2'
    } else if d == 3 {
        '3'
    } else if d == 4 {
        '4'
    } else if d == 5 {
        '5'
    } else if d == 6 {
        '6'
    } else if d == 7 {
        '7'
    } else if d == 8 {
        '8'
    } else {
        '9'
    }
}

/// A natural number in decimal, most significant digit first, with no
/// leading zero.
pub open spec fn natural(n: nat) -> Seq<char>
    decreases n,
{
    if n < 10 {
        seq![digit(n)]
    } else {
        natural(n / 10).push(digit(n % 10))
    }
}

/// An integer in decimal, with a minus sign in front if it is negative.
pub open spec fn integer(n: int) -> Seq<char> {
    if n < 0 {
        seq!['-'] + natural((-n) as nat)
    } else {
        natural(n as nat)
    }
}

/// The digits of a number, least significant first, as they read.
spec fn reading(digits: Seq<u8>) -> Seq<char> {
    Seq::new(digits.len(), |i: int| digit(digits[digits.len() - 1 - i] as nat))
}

fn digit_text(d: u8) -> (text: &'static str)
    requires
        d < 10,
    ensures
        text@ == seq![digit(d as nat)],
{
    proof {
        reveal_strlit("0");
        reveal_strlit("1");
        reveal_strlit("2");
        reveal_strlit("3");
        reveal_strlit("4");
        reveal_strlit("5");
        reveal_strlit("6");
        reveal_strlit("7");
        reveal_strlit("8");
        reveal_strlit("9");
    }
    let text: &'static str = if d == 0 {
        "0"
    } else if d == 1 {
        "1"
    } else if d == 2 {
        "2"
    } else if d == 3 {
        "3"
    } else if d == 4 {
        "4"
    } else if d == 5 {
        "5"
    } else if d == 6 {
        "6"
    } else if d == 7 {
        "7"
    } else if d == 8 {
        "8"
    } else {
        "9"
    };
    assert(text@ =~= seq![digit(d as nat)]);
    text
}

/// Writes a natural number in decimal at the end of `text`.
pub fn push_natural(text: &mut String, n: u64)
    ensures
        final(text)@ == old(text)@ + natural(n as nat),
{
    let mut digits: Vec<u8> = Vec::new();
    let mut rest: u64 = n;
    while rest >= 10
        invariant
            natural(n as nat) == natural(rest as nat) + reading(digits@),
            forall|i: int| 0 <= i < digits@.len() ==> digits@[i] < 10,
        decreases rest,
    {
        let low: u8 = (rest % 10) as u8;
        proof {
            let before = digits@;
            let after = digits@.push(low);
            assert(natural(rest as nat) == natural((rest / 10) as nat).push(digit(low as nat)));
            assert(reading(after) =~= seq![digit(low as nat)] + reading(before));
            assert(natural((rest / 10) as nat).push(digit(low as nat)) + reading(before)
                =~= natural((rest / 10) as nat) + reading(after));
        }
        digits.push(low);
        rest = rest / 10;
    }
    proof {
        let before = digits@;
        let after = digits@.push(rest as u8);
        assert(natural(rest as nat) =~= seq![digit(rest as nat)]);
        assert(reading(after) =~= seq![digit(rest as nat)] + reading(before));
    }
    digits.push(rest as u8);
    let count: usize = digits.len();
    let mut written: usize = 0;
    while written < count
        invariant
            count == digits@.len(),
            written <= count,
            forall|i: int| 0 <= i < digits@.len() ==> digits@[i] < 10,
            text@ == old(text)@ + reading(digits@).subrange(0, written as int),
        decreases count - written,
    {
        let d: u8 = digits[count - 1 - written];
        let ghost before = text@;
        text.append(digit_text(d));
        proof {
            assert(reading(digits@).subrange(0, written as int).push(reading(digits@)[written as int])
                =~= reading(digits@).subrange(0, written + 1));
            assert(text@ =~= old(text)@ + reading(digits@).subrange(0, written + 1));
        }
        written += 1;
    }
    assert(reading(digits@).subrange(0, count as int) =~= reading(digits@));
}

/// Writes an integer in decimal at the end of `text`.
pub fn push_integer(text: &mut String, n: i32)
    ensures
        final(text)@ == old(text)@ + integer(n as int),
{
    let wide: i64 = n as i64;
    if wide < 0 {
        proof {
            reveal_strlit("-");
        }
        text.append("-");
        assert(text@ =~= old(text)@ + seq!['-']);
        push_natural(text, (-wide) as u64);
        assert(text@ =~= old(text)@ + integer(n as int));
    } else {
        push_natural(text, wide as u64);
    }
}

} // verus!
