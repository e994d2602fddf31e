//! Integers written out in decimal.

use vstd::prelude::*;
use vstd::string::*;

verus! {

/// The character of a decimal digit.
pub open spec fn digit(d: int) -> char
    recommends
        0 <= d <= 9,
{
    if d == 0 {
        '0'
    } else if d == 1 {
        '1'
    } else if d == 2 {
        '2'
    } else if d == 3 {
        '3'
    } else if d == 4 {
        '4'
    } else if d == 5 {
        '5'
    } else if d == 6 {
        '6'
    } else if d == 7 {
        '7'
    } else if d == 8 {
        '8'
    } else {
        '9'
    }
}

/// The decimal digits of a natural number, most significant first, without
/// leading zeros; zero is the single digit 0.
pub open spec fn digits(n: nat) -> Seq<char>
    decreases n,
{
    if n < 10 {
        seq![digit(n as int)]
    } else {
        digits(n / 10).push(digit((n % 10) as int))
    }
}

/// An integer in decimal: a minus sign before the digits of a negative one.
pub open spec fn decimal(n: int) -> Seq<char> {
    if n < 0 {
        seq!['-'] + digits((-n) as nat)
    } else {
        digits(n as nat)
    }
}

fn digit_text(d: u64) -> (text: &'static str)
    requires
        d <= 9,
    ensures
        text@ == seq![digit(d as int)],
{
    proof {
        reveal_strlit("0");
        reveal_strlit("1");
        reveal_strlit("2");
        reveal_strlit("3");
        reveal_strlit("4");
        reveal_strlit("5");
        reveal_strlit("6");
        reveal_strlit("7");
        reveal_strlit("8");
        reveal_strlit("9");
    }
    let text = if d == 0 {
        "0"
    } else if d == 1 {
        "1"
    } else if d == 2 {
        "2"
    } else if d == 3 {
        "3"
    } else if d == 4 {
        "4"
    } else if d == 5 {
        "5"
    } else if d == 6 {
        "6"
    } else if d == 7 {
        "7"
    } else if d == 8 {
        "8"
    } else {
        "9"
    };
    assert(text@ =~= seq![digit(d as int)]);
    text
}

/// The digits of a number, given the digits of its upper part and the
/// remainder still to be written in front of them: writing proceeds from the
/// last digit to the first.
spec fn written(rest: nat, tail: Seq<char>) -> Seq<char> {
    digits(rest) + tail
}

/// Writes a natural number in decimal.
pub fn natural(n: u64) -> (text: String)
    ensures
        text@ == digits(n as nat),
{
    let mut rest: u64 = n;
    let mut text = String::from_str(digit_text(rest % 10));
    rest = rest / 10;
    proof {
        assert(digits(n as nat) =~= if n < 10 {
            text@
        } else {
            written(rest as nat, text@)
        });
    }
    while rest > 0
        invariant
            digits(n as nat) == if rest == 0 {
                text@
            } else {
                written(rest as nat, text@)
            },
        decreases rest,
    {
        let front = String::from_str(digit_text(rest % 10));
        let ghost tail = text@;
        let ghost old_rest = rest as nat;
        text = front.concat(text.as_str());
        rest = rest / 10;
        proof {
            assert(digits(old_rest) =~= if old_rest < 10 {
                seq![digit(old_rest as int)]
            } else {
                digits(old_rest / 10).push(digit((old_rest % 10) as int))
            });
            assert(written(old_rest, tail) =~= if rest == 0 {
                text@
            } else {
                written(rest as nat, text@)
            });
        }
    }
    text
}

/// Writes an integer in decimal.
pub fn integer(n: i64) -> (text: String)
    ensures
        text@ == decimal(n as int),
{
    if n < 0 {
        let magnitude: u64 = ((-(n + 1)) as u64) + 1;
        let sign = String::from_str("-");
        proof {
            reveal_strlit("-");
            assert(sign@ =~= seq!['-']);
        }
        let text = natural(magnitude);
        sign.concat(text.as_str())
    } else {
        natural(n as u64)
    }
}

} // verus!
