//! Numbers as they are written on a command line.

use vstd::prelude::*;
use vstd::string::StringExecFns;

verus! {

/// The character that stands for a digit.
pub open spec fn digit_char(d: nat) -> char
    recommends
        d < 10,
{
    if d == 0 {
        '0'
    } else if d == 1 {
        '1'
    } else if d == 2 {
        '2'
    } else if d == 3 {
        '3'
    } else if d == 4 {
        '4'
    } else if d == 5 {
        '5'
    } else if d == 6 {
        '6'
    } else if d == 7 {
        '7'
    } else if d == 8 {
        '8'
    } else {
        '9'
    }
}

/// A number in decimal notation, without a sign and without leading
/// zeros.
pub open spec fn decimal_digits(n: nat) -> Seq<char>
    decreases n,
{
    if n < 10 {
        seq![digit_char(n)]
    } else {
        decimal_digits(n / 10).push(digit_char(n % 10))
    }
}

/// The notation of a number has at least one digit.
pub proof fn lemma_decimal_is_not_empty(n: nat)
    ensures
        decimal_digits(n).len() >= 1,
        decimal_digits(n).last() == digit_char(n % 10),
    decreases n,
{
    if n >= 10 {
        lemma_decimal_is_not_empty(n / 10);
    }
}

/// Two numbers that are written alike are the same number.
pub proof fn lemma_decimal_is_injective(a: nat, b: nat)
    requires
        decimal_digits(a) == decimal_digits(b),
    ensures
        a == b,
    decreases a,
{
    lemma_decimal_is_not_empty(a);
    lemma_decimal_is_not_empty(b);
    lemma_decimal_is_not_empty(a / 10);
    lemma_decimal_is_not_empty(b / 10);
    assert(a % 10 == b % 10);
    if a < 10 && b < 10 {
    } else if a >= 10 && b >= 10 {
        let x = decimal_digits(a / 10);
        let y = decimal_digits(b / 10);
        assert(x =~= decimal_digits(a).drop_last());
        assert(y =~= decimal_digits(b).drop_last());
        lemma_decimal_is_injective(a / 10, b / 10);
    } else {
        assert(decimal_digits(a).len() != decimal_digits(b).len());
    }
}

fn digit_text(d: u64) -> (r: &'static str)
    requires
        d < 10,
    ensures
        r@ == seq![digit_char(d as nat)],
{
    proof {
        reveal_strlit("0");
        reveal_strlit("1");
        reveal_strlit("2");
        reveal_strlit("3");
        reveal_strlit("4");
        reveal_strlit("5");
        reveal_strlit("6");
        reveal_strlit("7");
        reveal_strlit("8");
        reveal_strlit("9");
    }
    let r = if d == 0 {
        "0"
    } else if d == 1 {
        "1"
    } else if d == 2 {
        "2"
    } else if d == 3 {
        "3"
    } else if d == 4 {
        "4"
    } else if d == 5 {
        "5"
    } else if d == 6 {
        "6"
    } else if d == 7 {
        "7"
    } else if d == 8 {
        "8"
    } else {
        "9"
    };
    assert(r@ =~= seq![digit_char(d as nat)]);
    r
}

/// The digits of `high` followed by the digits `low` that are already
/// written.
spec fn joined(high: nat, low: Seq<char>) -> Seq<char> {
    decimal_digits(high) + low
}

/// Writes a number in decimal notation.
pub fn decimal(n: u64) -> (r: String)
    ensures
        r@ == decimal_digits(n as nat),
{
    let mut rest: u64 = n / 10;
    let mut text = String::from_str(digit_text(n % 10));
    proof {
        if n >= 10 {
            assert(decimal_digits(n as nat) =~= joined(rest as nat, text@));
        } else {
            assert(decimal_digits(n as nat) =~= text@);
        }
    }
    while rest > 0
        invariant
            rest > 0 ==> decimal_digits(n as nat) == joined(rest as nat, text@),
            rest == 0 ==> decimal_digits(n as nat) == text@,
        decreases rest,
    {
        let digit = digit_text(rest % 10);
        let ghost low = text@;
        text = String::from_str(digit).concat(text.as_str());
        proof {
            if rest >= 10 {
                assert(decimal_digits(rest as nat) == decimal_digits((rest / 10) as nat).push(
                    digit_char((rest % 10) as nat),
                ));
                assert(joined(rest as nat, low) =~= joined((rest / 10) as nat, text@));
            } else {
                assert(joined(rest as nat, low) =~= text@);
            }
        }
        rest = rest / 10;
    }
    text
}

} // verus!
