//! Decimal rendering of amounts, as they appear in the attributes of a result.

use vstd::prelude::*;
use vstd::string::*;

verus! {

/// The character that stands for a single decimal digit.
pub open spec fn digit_char(d: nat) -> char
    recommends
        d < 10,
{
    if d == 0 {
        '0'
    } else if d == 1 {
        '1'
    } else if d == 2 {
        '2'
    } else if d == 3 {
        '3'
    } else if d == 4 {
        '4'
    } else if d == 5 {
        '5'
    } else if d == 6 {
        '6'
    } else if d == 7 {
        '7'
    } else if d == 8 {
        '8'
    } else {
        '9'
    }
}

/// The decimal numeral of `n`: no sign, no leading zero, `"0"` for zero.
pub open spec fn decimal(n: nat) -> Seq<char>
    decreases n,
{
    if n < 10 {
        seq![digit_char(n)]
    } else {
        decimal(n / 10).push(digit_char(n % 10))
    }
}

/// The digits still to be written in front of `tail`, followed by `tail`.
pub open spec fn decimal_before(rest: nat, tail: Seq<char>) -> Seq<char> {
    if rest == 0 {
        tail
    } else {
        decimal(rest) + tail
    }
}

fn digit_str(d: u8) -> (s: &'static str)
    requires
        d < 10,
    ensures
        s@ == seq![digit_char(d as nat)],
{
    proof {
        reveal_strlit("0");
        reveal_strlit("1");
        reveal_strlit("2");
        reveal_strlit("3");
        reveal_strlit("4");
        reveal_strlit("5");
        reveal_strlit("6");
        reveal_strlit("7");
        reveal_strlit("8");
        reveal_strlit("9");
    }
    let s: &'static str = if d == 0 {
        "0"
    } else if d == 1 {
        "1"
    } else if d == 2 {
        "2"
    } else if d == 3 {
        "3"
    } else if d == 4 {
        "4"
    } else if d == 5 {
        "5"
    } else if d == 6 {
        "6"
    } else if d == 7 {
        "7"
    } else if d == 8 {
        "8"
    } else {
        "9"
    };
    assert(s@ =~= seq![digit_char(d as nat)]);
    s
}

/// Writing one more digit in front keeps the numeral that is being built.
proof fn lemma_decimal_step(rest: nat, tail: Seq<char>)
    requires
        rest > 0,
    ensures
        decimal_before(rest / 10, seq![digit_char(rest % 10)] + tail) == decimal_before(
            rest,
            tail,
        ),
{
    let d = seq![digit_char(rest % 10)];
    if rest < 10 {
        assert(rest / 10 == 0);
        assert(decimal(rest) =~= d);
    } else {
        assert(decimal(rest) == decimal(rest / 10).push(digit_char(rest % 10)));
        assert(decimal(rest / 10) + (d + tail) =~= decimal(rest / 10).push(digit_char(rest % 10))
            + tail);
    }
}

/// Renders `n` as its decimal numeral.
pub fn decimal_text(n: u128) -> (s: String)
    ensures
        s@ == decimal(n as nat),
{
    let first: u8 = (n % 10) as u8;
    let mut acc: String = String::from_str(digit_str(first));
    let mut rest: u128 = n / 10;
    proof {
        if n < 10 {
            assert(rest == 0);
        } else {
            assert(decimal(n as nat) =~= decimal(rest as nat) + acc@);
        }
    }
    while rest > 0
        invariant
            decimal_before(rest as nat, acc@) == decimal(n as nat),
        decreases rest,
    {
        let d: u8 = (rest % 10) as u8;
        let ghost before = acc@;
        acc = String::from_str(digit_str(d)).concat(acc.as_str());
        proof {
            lemma_decimal_step(rest as nat, before);
        }
        rest = rest / 10;
    }
    acc
}

} // verus!
